//! Lexing and parsing of source text into the syntax tree.
//!
//! The parser accepts ASCII source, reports the first failure as a
//! [`ParseError`], and guarantees progress: every successful parse of a
//! fragment consumes at least one token.

use vstd::prelude::*;
use vstd::string::StringSliceAdditionalSpecFns;

use crate::ast;
use crate::errors::ParseError;
use crate::span::Span;

verus! {

/// One lexical token.
pub struct Token {
    /// What the token is.
    pub kind: TokenKind,
    /// Where the token stands.
    pub span: Span,
}

/// The kinds of lexical tokens.
pub enum TokenKind {
    /// An identifier.
    Ident(String),
    /// A loop label, without the leading quote.
    LabelTok(String),
    /// A number, kept as its spelling.
    Number {
        /// Whether the spelling has a decimal point.
        is_float: bool,
        /// The spelling.
        text: String,
    },
    /// A string literal, unescaped.
    StrTok(String),
    /// A template literal, with its raw inner text.
    TemplateTok(String),
    /// A character literal.
    CharTok(char),
    /// `#`
    Pound,
    /// `[`
    LBracket,
    /// `]`
    RBracket,
    /// `(`
    LParen,
    /// `)`
    RParen,
    /// `{`
    LBrace,
    /// `}`
    RBrace,
    /// `,`
    Comma,
    /// `;`
    Semi,
    /// `::`
    ColonColon,
    /// `:`
    Colon,
    /// `=`
    Eq,
    /// `==`
    EqEq,
    /// `!=`
    Neq,
    /// `<`
    Lt,
    /// `<=`
    Le,
    /// `>`
    Gt,
    /// `>=`
    Ge,
    /// `<<`
    Shl,
    /// `>>`
    Shr,
    /// `+`
    Plus,
    /// `-`
    Minus,
    /// `*`
    Star,
    /// `/`
    Slash,
    /// `!`
    Bang,
    /// `?`
    Question,
    /// `.`
    Dot,
    /// `=>`
    FatArrow,
    /// `|`
    Pipe,
    /// `||`
    PipePipe,
    /// `_`
    Underscore,
    /// `use`
    KwUse,
    /// `enum`
    KwEnum,
    /// `struct`
    KwStruct,
    /// `fn`
    KwFn,
    /// `impl`
    KwImpl,
    /// `mod`
    KwMod,
    /// `const`
    KwConst,
    /// `async`
    KwAsync,
    /// `await`
    KwAwait,
    /// `yield`
    KwYield,
    /// `return`
    KwReturn,
    /// `if`
    KwIf,
    /// `else`
    KwElse,
    /// `match`
    KwMatch,
    /// `while`
    KwWhile,
    /// `loop`
    KwLoop,
    /// `for`
    KwFor,
    /// `in`
    KwIn,
    /// `let`
    KwLet,
    /// `break`
    KwBreak,
    /// `select`
    KwSelect,
    /// `default`
    KwDefault,
    /// `true`
    KwTrue,
    /// `false`
    KwFalse,
    /// `self`
    KwSelf,
}

/// Whether a byte is an ASCII letter or underscore.
fn is_ident_start(b: u8) -> (r: bool) {
    (b >= 97 && b <= 122) || (b >= 65 && b <= 90) || b == 95
}

/// Whether a byte may continue an identifier.
fn is_ident_continue(b: u8) -> (r: bool) {
    is_ident_start(b) || (b >= 48 && b <= 57)
}

/// Whether a byte is an ASCII digit.
fn is_digit(b: u8) -> (r: bool) {
    b >= 48 && b <= 57
}

/// Whether a byte is ASCII whitespace.
fn is_space(b: u8) -> (r: bool) {
    b == 32 || b == 9 || b == 10 || b == 13
}

/// The keyword token for an identifier spelling, when it is one.
fn keyword_of(text: &str) -> (r: Option<TokenKind>) {
    if crate::text::str_eq_str(text, "use") {
        Some(TokenKind::KwUse)
    } else if crate::text::str_eq_str(text, "enum") {
        Some(TokenKind::KwEnum)
    } else if crate::text::str_eq_str(text, "struct") {
        Some(TokenKind::KwStruct)
    } else if crate::text::str_eq_str(text, "fn") {
        Some(TokenKind::KwFn)
    } else if crate::text::str_eq_str(text, "impl") {
        Some(TokenKind::KwImpl)
    } else if crate::text::str_eq_str(text, "mod") {
        Some(TokenKind::KwMod)
    } else if crate::text::str_eq_str(text, "const") {
        Some(TokenKind::KwConst)
    } else if crate::text::str_eq_str(text, "async") {
        Some(TokenKind::KwAsync)
    } else if crate::text::str_eq_str(text, "await") {
        Some(TokenKind::KwAwait)
    } else if crate::text::str_eq_str(text, "yield") {
        Some(TokenKind::KwYield)
    } else if crate::text::str_eq_str(text, "return") {
        Some(TokenKind::KwReturn)
    } else if crate::text::str_eq_str(text, "if") {
        Some(TokenKind::KwIf)
    } else if crate::text::str_eq_str(text, "else") {
        Some(TokenKind::KwElse)
    } else if crate::text::str_eq_str(text, "match") {
        Some(TokenKind::KwMatch)
    } else if crate::text::str_eq_str(text, "while") {
        Some(TokenKind::KwWhile)
    } else if crate::text::str_eq_str(text, "loop") {
        Some(TokenKind::KwLoop)
    } else if crate::text::str_eq_str(text, "for") {
        Some(TokenKind::KwFor)
    } else if crate::text::str_eq_str(text, "in") {
        Some(TokenKind::KwIn)
    } else if crate::text::str_eq_str(text, "let") {
        Some(TokenKind::KwLet)
    } else if crate::text::str_eq_str(text, "break") {
        Some(TokenKind::KwBreak)
    } else if crate::text::str_eq_str(text, "select") {
        Some(TokenKind::KwSelect)
    } else if crate::text::str_eq_str(text, "default") {
        Some(TokenKind::KwDefault)
    } else if crate::text::str_eq_str(text, "true") {
        Some(TokenKind::KwTrue)
    } else if crate::text::str_eq_str(text, "false") {
        Some(TokenKind::KwFalse)
    } else if crate::text::str_eq_str(text, "self") {
        Some(TokenKind::KwSelf)
    } else {
        None
    }
}

/// Cut the ASCII substring `from..to` out of `src`.
fn cut(src: &str, from: usize, to: usize) -> (r: String)
    requires
        src.is_ascii(),
        from <= to <= src@.len(),
{
    src.substring_ascii(from, to).to_owned()
}

/// Lex ASCII source text into tokens. Fails on a byte the grammar has no
/// token for, on an unterminated literal, and on non-ASCII input.
pub fn lex(src: &str) -> (r: Result<Vec<Token>, ParseError>) {
    if !src.is_ascii() {
        return Err(ParseError::new(Span::new(0, 0), "source must be ascii text"));
    }
    let n = src.unicode_len();
    let mut tokens: Vec<Token> = Vec::new();
    let mut i: usize = 0;
    while i < n
        invariant
            src.is_ascii(),
            n == src@.len(),
            i <= n,
        decreases n - i,
    {
        let b = src.get_ascii(i);
        if is_space(b) {
            i = i + 1;
        } else if is_ident_start(b) {
            let start = i;
            i = i + 1;
            while i < n && is_ident_continue(src.get_ascii(i))
                invariant
                    src.is_ascii(),
                    n == src@.len(),
                    start < i <= n,
                decreases n - i,
            {
                i = i + 1;
            }
            let text = cut(src, start, i);
            let span = Span::new(start, i);
            match keyword_of(text.as_str()) {
                Some(kind) => tokens.push(Token { kind, span }),
                None => tokens.push(Token { kind: TokenKind::Ident(text), span }),
            }
        } else if is_digit(b) {
            let start = i;
            i = i + 1;
            let mut is_float = false;
            while i < n && (is_ident_continue(src.get_ascii(i)) || (src.get_ascii(i) == 46 && !is_float
                && n - i > 1 && is_digit(src.get_ascii(i + 1))))
                invariant
                    src.is_ascii(),
                    n == src@.len(),
                    start < i <= n,
                decreases n - i,
            {
                if src.get_ascii(i) == 46 {
                    is_float = true;
                }
                i = i + 1;
            }
            let text = cut(src, start, i);
            tokens.push(
                Token { kind: TokenKind::Number { is_float, text }, span: Span::new(start, i) },
            );
        } else if b == 34 {
            // A string literal.
            let start = i;
            i = i + 1;
            let mut text = String::new();
            let mut terminated = false;
            while i < n && !terminated
                invariant
                    src.is_ascii(),
                    n == src@.len(),
                    start < i <= n,
                decreases n - i,
            {
                let c = src.get_ascii(i);
                if c == 34 {
                    terminated = true;
                    i = i + 1;
                } else if c == 92 && n - i > 1 {
                    let e = src.get_ascii(i + 1);
                    if e == 110 {
                        text.append("\n");
                    } else if e == 116 {
                        text.append("\t");
                    } else if e == 34 {
                        text.append("\"");
                    } else if e == 92 {
                        text.append("\\");
                    } else {
                        return Err(
                            ParseError::new(Span::new(i, i + 2), "unsupported escape sequence"),
                        );
                    }
                    i = i + 2;
                } else {
                    text.append(src.substring_ascii(i, i + 1));
                    i = i + 1;
                }
            }
            if !terminated {
                return Err(ParseError::new(Span::new(start, n), "unterminated string literal"));
            }
            tokens.push(Token { kind: TokenKind::StrTok(text), span: Span::new(start, i) });
        } else if b == 96 {
            // A template literal: capture the raw inner text.
            let start = i;
            i = i + 1;
            let inner_start = i;
            while i < n && src.get_ascii(i) != 96
                invariant
                    src.is_ascii(),
                    n == src@.len(),
                    inner_start <= i <= n,
                decreases n - i,
            {
                i = i + 1;
            }
            if i >= n {
                return Err(
                    ParseError::new(Span::new(start, n), "unterminated template literal"),
                );
            }
            let text = cut(src, inner_start, i);
            i = i + 1;
            tokens.push(Token { kind: TokenKind::TemplateTok(text), span: Span::new(start, i) });
        } else if b == 39 {
            // A label or a character literal.
            let start = i;
            if n - i > 2 && src.get_ascii(i + 2) == 39 {
                let c = src.get_char(i + 1);
                i = i + 3;
                tokens.push(Token { kind: TokenKind::CharTok(c), span: Span::new(start, i) });
            } else {
                i = i + 1;
                let name_start = i;
                while i < n && is_ident_continue(src.get_ascii(i))
                    invariant
                        src.is_ascii(),
                        n == src@.len(),
                        name_start <= i <= n,
                    decreases n - i,
                {
                    i = i + 1;
                }
                if i == name_start {
                    return Err(ParseError::new(Span::new(start, i), "expected label name"));
                }
                let text = cut(src, name_start, i);
                tokens.push(
                    Token { kind: TokenKind::LabelTok(text), span: Span::new(start, i) },
                );
            }
        } else {
            let start = i;
            let two: u8 = if i + 1 < n {
                src.get_ascii(i + 1)
            } else {
                0
            };
            let (kind, width): (TokenKind, usize) = if b == 35 {
                (TokenKind::Pound, 1)
            } else if b == 91 {
                (TokenKind::LBracket, 1)
            } else if b == 93 {
                (TokenKind::RBracket, 1)
            } else if b == 40 {
                (TokenKind::LParen, 1)
            } else if b == 41 {
                (TokenKind::RParen, 1)
            } else if b == 123 {
                (TokenKind::LBrace, 1)
            } else if b == 125 {
                (TokenKind::RBrace, 1)
            } else if b == 44 {
                (TokenKind::Comma, 1)
            } else if b == 59 {
                (TokenKind::Semi, 1)
            } else if b == 58 && two == 58 {
                (TokenKind::ColonColon, 2)
            } else if b == 58 {
                (TokenKind::Colon, 1)
            } else if b == 61 && two == 61 {
                (TokenKind::EqEq, 2)
            } else if b == 61 && two == 62 {
                (TokenKind::FatArrow, 2)
            } else if b == 61 {
                (TokenKind::Eq, 1)
            } else if b == 33 && two == 61 {
                (TokenKind::Neq, 2)
            } else if b == 33 {
                (TokenKind::Bang, 1)
            } else if b == 60 && two == 60 {
                (TokenKind::Shl, 2)
            } else if b == 60 && two == 61 {
                (TokenKind::Le, 2)
            } else if b == 60 {
                (TokenKind::Lt, 1)
            } else if b == 62 && two == 62 {
                (TokenKind::Shr, 2)
            } else if b == 62 && two == 61 {
                (TokenKind::Ge, 2)
            } else if b == 62 {
                (TokenKind::Gt, 1)
            } else if b == 43 {
                (TokenKind::Plus, 1)
            } else if b == 45 {
                (TokenKind::Minus, 1)
            } else if b == 42 {
                (TokenKind::Star, 1)
            } else if b == 47 {
                (TokenKind::Slash, 1)
            } else if b == 63 {
                (TokenKind::Question, 1)
            } else if b == 46 {
                (TokenKind::Dot, 1)
            } else if b == 124 && two == 124 {
                (TokenKind::PipePipe, 2)
            } else if b == 124 {
                (TokenKind::Pipe, 1)
            } else if b == 95 {
                (TokenKind::Underscore, 1)
            } else {
                return Err(ParseError::new(Span::new(i, i + 1), "unexpected character"));
            };
            i = i + width;
            tokens.push(Token { kind, span: Span::new(start, i) });
        }
    }
    Ok(tokens)
}

/// The token stream a parse runs over.
pub struct Parser {
    /// The tokens, in source order.
    pub tokens: Vec<Token>,
    /// The position of the next token to read.
    pub pos: usize,
}

impl Parser {
    /// Whether the read position is within bounds.
    pub open spec fn wf(&self) -> bool {
        self.pos <= self.tokens@.len()
    }

    /// A parser standing at the first token.
    pub fn new(tokens: Vec<Token>) -> (r: Parser)
        ensures
            r.wf(),
            r.pos == 0,
    {
        Parser { tokens, pos: 0 }
    }

    /// Whether every token was consumed.
    pub fn at_end(&self) -> (r: bool)
        requires
            self.wf(),
        ensures
            r == (self.pos == self.tokens@.len()),
    {
        self.pos == self.tokens.len()
    }

    /// The span of the next token, or an empty span at the end.
    pub fn span_here(&self) -> (r: Span)
        requires
            self.wf(),
    {
        if self.pos < self.tokens.len() {
            self.tokens[self.pos].span
        } else {
            Span::empty()
        }
    }

    /// Consume one token.
    pub fn bump(&mut self)
        requires
            old(self).wf(),
            old(self).pos < old(self).tokens@.len(),
        ensures
            final(self).wf(),
            final(self).tokens == old(self).tokens,
            final(self).pos == old(self).pos + 1,
    {
        let n = self.tokens.len();
        proof {
            assert(self.pos < n);
        }
        self.pos = self.pos + 1;
    }

    /// Consume the next token when `probe` holds of it.
    fn eat_when(&mut self, probe: TokenProbe) -> (r: Option<Span>)
        requires
            old(self).wf(),
        ensures
            final(self).wf(),
            final(self).tokens == old(self).tokens,
            r is Some ==> final(self).pos == old(self).pos + 1,
            r is None ==> final(self).pos == old(self).pos,
    {
        if self.pos < self.tokens.len() {
            if probe_matches(&self.tokens[self.pos].kind, probe) {
                let span = self.tokens[self.pos].span;
                self.pos = self.pos + 1;
                return Some(span);
            }
        }
        None
    }

    /// Require and consume the next token to satisfy `probe`.
    fn expect(&mut self, probe: TokenProbe, what: &str) -> (r: Result<Span, ParseError>)
        requires
            old(self).wf(),
        ensures
            final(self).wf(),
            final(self).tokens == old(self).tokens,
            r is Ok ==> final(self).pos == old(self).pos + 1,
            r is Err ==> final(self).pos == old(self).pos,
    {
        match self.eat_when(probe) {
            Some(span) => Ok(span),
            None => Err(ParseError::new(self.span_here(), what)),
        }
    }

    /// Whether the next token satisfies `probe`.
    fn next_is(&self, probe: TokenProbe) -> (r: bool)
        requires
            self.wf(),
        ensures
            r ==> self.pos < self.tokens@.len(),
    {
        if self.pos < self.tokens.len() {
            probe_matches(&self.tokens[self.pos].kind, probe)
        } else {
            false
        }
    }

    /// Require and consume an identifier.
    fn expect_ident(&mut self, what: &str) -> (r: Result<ast::Ident, ParseError>)
        requires
            old(self).wf(),
        ensures
            final(self).wf(),
            final(self).tokens == old(self).tokens,
            r is Ok ==> final(self).pos == old(self).pos + 1,
            r is Err ==> final(self).pos == old(self).pos,
    {
        if self.pos < self.tokens.len() {
            let span = self.tokens[self.pos].span;
            match &self.tokens[self.pos].kind {
                TokenKind::Ident(text) => {
                    let ident = ast::Ident { ident: text.clone(), span };
                    self.pos = self.pos + 1;
                    return Ok(ident);
                }
                _ => {}
            }
        }
        Err(ParseError::new(self.span_here(), what))
    }
}

/// A token shape the parser can ask for without carrying a payload.
#[derive(Clone, Copy, PartialEq, Eq, Structural)]
pub enum TokenProbe {
    /// `#`
    Pound,
    /// `[`
    LBracket,
    /// `]`
    RBracket,
    /// `(`
    LParen,
    /// `)`
    RParen,
    /// `{`
    LBrace,
    /// `}`
    RBrace,
    /// `,`
    Comma,
    /// `;`
    Semi,
    /// `::`
    ColonColon,
    /// `:`
    Colon,
    /// `=`
    Eq,
    /// `==`
    EqEq,
    /// `!=`
    Neq,
    /// `<`
    Lt,
    /// `<=`
    Le,
    /// `>`
    Gt,
    /// `>=`
    Ge,
    /// `<<`
    Shl,
    /// `>>`
    Shr,
    /// `+`
    Plus,
    /// `-`
    Minus,
    /// `*`
    Star,
    /// `/`
    Slash,
    /// `!`
    Bang,
    /// `?`
    Question,
    /// `.`
    Dot,
    /// `=>`
    FatArrow,
    /// `|`
    Pipe,
    /// `||`
    PipePipe,
    /// `_`
    Underscore,
    /// any identifier
    AnyIdent,
    /// any label
    AnyLabel,
    /// `use`
    KwUse,
    /// `enum`
    KwEnum,
    /// `struct`
    KwStruct,
    /// `fn`
    KwFn,
    /// `impl`
    KwImpl,
    /// `mod`
    KwMod,
    /// `const`
    KwConst,
    /// `async`
    KwAsync,
    /// `await`
    KwAwait,
    /// `yield`
    KwYield,
    /// `return`
    KwReturn,
    /// `if`
    KwIf,
    /// `else`
    KwElse,
    /// `match`
    KwMatch,
    /// `while`
    KwWhile,
    /// `loop`
    KwLoop,
    /// `for`
    KwFor,
    /// `in`
    KwIn,
    /// `let`
    KwLet,
    /// `break`
    KwBreak,
    /// `select`
    KwSelect,
    /// `default`
    KwDefault,
    /// `true`
    KwTrue,
    /// `false`
    KwFalse,
    /// `self`
    KwSelf,
}

/// Whether a token kind satisfies a probe.
fn probe_matches(kind: &TokenKind, probe: TokenProbe) -> (r: bool) {
    match probe {
        TokenProbe::Pound => matches!(kind, TokenKind::Pound),
        TokenProbe::LBracket => matches!(kind, TokenKind::LBracket),
        TokenProbe::RBracket => matches!(kind, TokenKind::RBracket),
        TokenProbe::LParen => matches!(kind, TokenKind::LParen),
        TokenProbe::RParen => matches!(kind, TokenKind::RParen),
        TokenProbe::LBrace => matches!(kind, TokenKind::LBrace),
        TokenProbe::RBrace => matches!(kind, TokenKind::RBrace),
        TokenProbe::Comma => matches!(kind, TokenKind::Comma),
        TokenProbe::Semi => matches!(kind, TokenKind::Semi),
        TokenProbe::ColonColon => matches!(kind, TokenKind::ColonColon),
        TokenProbe::Colon => matches!(kind, TokenKind::Colon),
        TokenProbe::Eq => matches!(kind, TokenKind::Eq),
        TokenProbe::EqEq => matches!(kind, TokenKind::EqEq),
        TokenProbe::Neq => matches!(kind, TokenKind::Neq),
        TokenProbe::Lt => matches!(kind, TokenKind::Lt),
        TokenProbe::Le => matches!(kind, TokenKind::Le),
        TokenProbe::Gt => matches!(kind, TokenKind::Gt),
        TokenProbe::Ge => matches!(kind, TokenKind::Ge),
        TokenProbe::Shl => matches!(kind, TokenKind::Shl),
        TokenProbe::Shr => matches!(kind, TokenKind::Shr),
        TokenProbe::Plus => matches!(kind, TokenKind::Plus),
        TokenProbe::Minus => matches!(kind, TokenKind::Minus),
        TokenProbe::Star => matches!(kind, TokenKind::Star),
        TokenProbe::Slash => matches!(kind, TokenKind::Slash),
        TokenProbe::Bang => matches!(kind, TokenKind::Bang),
        TokenProbe::Question => matches!(kind, TokenKind::Question),
        TokenProbe::Dot => matches!(kind, TokenKind::Dot),
        TokenProbe::FatArrow => matches!(kind, TokenKind::FatArrow),
        TokenProbe::Pipe => matches!(kind, TokenKind::Pipe),
        TokenProbe::PipePipe => matches!(kind, TokenKind::PipePipe),
        TokenProbe::Underscore => matches!(kind, TokenKind::Underscore),
        TokenProbe::AnyIdent => matches!(kind, TokenKind::Ident(_)),
        TokenProbe::AnyLabel => matches!(kind, TokenKind::LabelTok(_)),
        TokenProbe::KwUse => matches!(kind, TokenKind::KwUse),
        TokenProbe::KwEnum => matches!(kind, TokenKind::KwEnum),
        TokenProbe::KwStruct => matches!(kind, TokenKind::KwStruct),
        TokenProbe::KwFn => matches!(kind, TokenKind::KwFn),
        TokenProbe::KwImpl => matches!(kind, TokenKind::KwImpl),
        TokenProbe::KwMod => matches!(kind, TokenKind::KwMod),
        TokenProbe::KwConst => matches!(kind, TokenKind::KwConst),
        TokenProbe::KwAsync => matches!(kind, TokenKind::KwAsync),
        TokenProbe::KwAwait => matches!(kind, TokenKind::KwAwait),
        TokenProbe::KwYield => matches!(kind, TokenKind::KwYield),
        TokenProbe::KwReturn => matches!(kind, TokenKind::KwReturn),
        TokenProbe::KwIf => matches!(kind, TokenKind::KwIf),
        TokenProbe::KwElse => matches!(kind, TokenKind::KwElse),
        TokenProbe::KwMatch => matches!(kind, TokenKind::KwMatch),
        TokenProbe::KwWhile => matches!(kind, TokenKind::KwWhile),
        TokenProbe::KwLoop => matches!(kind, TokenKind::KwLoop),
        TokenProbe::KwFor => matches!(kind, TokenKind::KwFor),
        TokenProbe::KwIn => matches!(kind, TokenKind::KwIn),
        TokenProbe::KwLet => matches!(kind, TokenKind::KwLet),
        TokenProbe::KwBreak => matches!(kind, TokenKind::KwBreak),
        TokenProbe::KwSelect => matches!(kind, TokenKind::KwSelect),
        TokenProbe::KwDefault => matches!(kind, TokenKind::KwDefault),
        TokenProbe::KwTrue => matches!(kind, TokenKind::KwTrue),
        TokenProbe::KwFalse => matches!(kind, TokenKind::KwFalse),
        TokenProbe::KwSelf => matches!(kind, TokenKind::KwSelf),
    }
}

/// Shared contract shape: a parse consumed tokens and kept the stream.
pub open spec fn advanced(pre: Parser, post: Parser) -> bool {
    &&& post.wf()
    &&& post.tokens == pre.tokens
    &&& post.pos > pre.pos
}

/// Shared contract shape for parses that may consume nothing.
pub open spec fn advanced_or_same(pre: Parser, post: Parser) -> bool {
    &&& post.wf()
    &&& post.tokens == pre.tokens
    &&& post.pos >= pre.pos
}

/// Parse a run of attributes `#[name]`.
fn parse_attributes(p: &mut Parser) -> (r: Result<Vec<ast::Attribute>, ParseError>)
    requires
        old(p).wf(),
    ensures
        advanced_or_same(*old(p), *final(p)),
{
    let mut attributes: Vec<ast::Attribute> = Vec::new();
    while p.next_is(TokenProbe::Pound)
        invariant
            p.wf(),
            p.tokens == old(p).tokens,
            p.pos >= old(p).pos,
        decreases p.tokens@.len() - p.pos,
    {
        let start = p.span_here();
        p.bump();
        match p.expect(TokenProbe::LBracket, "expected `[` after `#`") {
            Ok(_) => {}
            Err(e) => {
                return Err(e);
            }
        }
        match p.expect_ident("expected attribute name") {
            Ok(_) => {}
            Err(e) => {
                return Err(e);
            }
        }
        let end = match p.expect(TokenProbe::RBracket, "expected `]`") {
            Ok(span) => span,
            Err(e) => {
                return Err(e);
            }
        };
        attributes.push(ast::Attribute { span: start.join(end) });
    }
    Ok(attributes)
}

/// Parse a `::`-separated path starting at an identifier.
fn parse_path(p: &mut Parser) -> (r: Result<ast::Path, ParseError>)
    requires
        old(p).wf(),
    ensures
        advanced_or_same(*old(p), *final(p)),
        r is Ok ==> advanced(*old(p), *final(p)),
{
    let first = match p.expect_ident("expected identifier") {
        Ok(ident) => ident,
        Err(e) => {
            return Err(e);
        }
    };
    let start = first.span;
    let mut end = first.span;
    let mut rest: Vec<ast::Ident> = Vec::new();
    while p.next_is(TokenProbe::ColonColon)
        invariant
            p.wf(),
            p.tokens == old(p).tokens,
            p.pos > old(p).pos,
        decreases p.tokens@.len() - p.pos,
    {
        p.bump();
        let ident = match p.expect_ident("expected identifier after `::`") {
            Ok(ident) => ident,
            Err(e) => {
                return Err(e);
            }
        };
        end = ident.span;
        rest.push(ident);
    }
    Ok(ast::Path { first, rest, span: start.join(end) })
}

/// Parse a whole file: attributes, then items until the end.
pub fn parse_file(src: &str) -> (r: Result<ast::File, ParseError>) {
    let tokens = match lex(src) {
        Ok(tokens) => tokens,
        Err(e) => {
            return Err(e);
        }
    };
    let mut p = Parser::new(tokens);
    let attributes = match parse_attributes(&mut p) {
        Ok(attributes) => attributes,
        Err(e) => {
            return Err(e);
        }
    };
    let mut items: Vec<ast::FileItem> = Vec::new();
    while !p.at_end()
        invariant
            p.wf(),
        decreases p.tokens@.len() - p.pos,
    {
        let item = match parse_item(&mut p, 255) {
            Ok(item) => item,
            Err(e) => {
                return Err(e);
            }
        };
        let semi = p.eat_when(TokenProbe::Semi);
        items.push(ast::FileItem { item, semi });
    }
    Ok(ast::File { attributes, items })
}

/// Parse one item from source text.
pub fn parse_item_text(src: &str) -> (r: Result<ast::Item, ParseError>) {
    let tokens = match lex(src) {
        Ok(tokens) => tokens,
        Err(e) => {
            return Err(e);
        }
    };
    let mut p = Parser::new(tokens);
    parse_item(&mut p, 255)
}

/// Parse one expression from source text.
pub fn parse_expr_text(src: &str) -> (r: Result<ast::Expr, ParseError>) {
    let tokens = match lex(src) {
        Ok(tokens) => tokens,
        Err(e) => {
            return Err(e);
        }
    };
    let mut p = Parser::new(tokens);
    parse_expr(&mut p, 255, true)
}

/// Parse one declaration.
pub fn parse_item(p: &mut Parser, depth: u64) -> (r: Result<ast::Item, ParseError>)
    requires
        old(p).wf(),
    ensures
        advanced_or_same(*old(p), *final(p)),
        r is Ok ==> advanced(*old(p), *final(p)),
    decreases depth, 0int,
{
    if depth == 0 {
        return Err(ParseError::new(p.span_here(), "declarations nest too deeply"));
    }
    let attributes = match parse_attributes(p) {
        Ok(attributes) => attributes,
        Err(e) => {
            return Err(e);
        }
    };
    if p.next_is(TokenProbe::KwUse) {
        parse_item_use(p, attributes)
    } else if p.next_is(TokenProbe::KwEnum) {
        parse_item_enum(p, attributes)
    } else if p.next_is(TokenProbe::KwStruct) {
        parse_item_struct(p, attributes)
    } else if p.next_is(TokenProbe::KwFn) || p.next_is(TokenProbe::KwAsync) {
        match parse_item_fn(p, attributes, depth - 1) {
            Ok(f) => Ok(ast::Item::ItemFn(Box::new(f))),
            Err(e) => Err(e),
        }
    } else if p.next_is(TokenProbe::KwImpl) {
        parse_item_impl(p, attributes, depth - 1)
    } else if p.next_is(TokenProbe::KwMod) {
        parse_item_mod(p, attributes, depth - 1)
    } else if p.next_is(TokenProbe::KwConst) {
        parse_item_const(p, attributes, depth - 1)
    } else if p.next_is(TokenProbe::AnyIdent) {
        match parse_macro_call(p) {
            Ok(m) => Ok(ast::Item::MacroCall(m)),
            Err(e) => Err(e),
        }
    } else {
        Err(ParseError::new(p.span_here(), "expected a declaration"))
    }
}

/// Parse a `use` declaration.
fn parse_item_use(p: &mut Parser, attributes: Vec<ast::Attribute>) -> (r: Result<
    ast::Item,
    ParseError,
>)
    requires
        old(p).wf(),
    ensures
        advanced_or_same(*old(p), *final(p)),
        r is Ok ==> advanced(*old(p), *final(p)),
{
    let start = match p.expect(TokenProbe::KwUse, "expected `use`") {
        Ok(span) => span,
        Err(e) => {
            return Err(e);
        }
    };
    let first = match p.expect_ident("expected import path") {
        Ok(ident) => ident,
        Err(e) => {
            return Err(e);
        }
    };
    let mut end = first.span;
    let mut rest: Vec<ast::ItemUseComponent> = Vec::new();
    while p.next_is(TokenProbe::ColonColon)
        invariant
            p.wf(),
            p.tokens == old(p).tokens,
            p.pos > old(p).pos,
        decreases p.tokens@.len() - p.pos,
    {
        p.bump();
        match p.eat_when(TokenProbe::Star) {
            Some(span) => {
                end = span;
                rest.push(ast::ItemUseComponent::Wildcard(span));
            }
            None => {
                let ident = match p.expect_ident("expected import path component") {
                    Ok(ident) => ident,
                    Err(e) => {
                        return Err(e);
                    }
                };
                end = ident.span;
                rest.push(ast::ItemUseComponent::Ident(ident));
            }
        }
    }
    Ok(
        ast::Item::ItemUse(
            ast::ItemUse { attributes, first, rest, span: start.join(end) },
        ),
    )
}

/// Parse the body of a struct or variant: unit, tuple or record.
fn parse_decl_body(p: &mut Parser) -> (r: Result<ast::DeclBody, ParseError>)
    requires
        old(p).wf(),
    ensures
        advanced_or_same(*old(p), *final(p)),
{
    if p.next_is(TokenProbe::LParen) {
        p.bump();
        let mut fields: Vec<ast::Field> = Vec::new();
        while !p.next_is(TokenProbe::RParen)
            invariant
                p.wf(),
                p.tokens == old(p).tokens,
                p.pos >= old(p).pos,
            decreases p.tokens@.len() - p.pos,
        {
            let attributes = match parse_attributes(p) {
                Ok(attributes) => attributes,
                Err(e) => {
                    return Err(e);
                }
            };
            let name = match p.expect_ident("expected field name") {
                Ok(ident) => ident,
                Err(e) => {
                    return Err(e);
                }
            };
            fields.push(ast::Field { attributes, name });
            if p.eat_when(TokenProbe::Comma).is_none() {
                break;
            }
        }
        match p.expect(TokenProbe::RParen, "expected `)`") {
            Ok(_) => {}
            Err(e) => {
                return Err(e);
            }
        }
        Ok(ast::DeclBody::Tuple(fields))
    } else if p.next_is(TokenProbe::LBrace) {
        p.bump();
        let mut fields: Vec<ast::Field> = Vec::new();
        while !p.next_is(TokenProbe::RBrace)
            invariant
                p.wf(),
                p.tokens == old(p).tokens,
                p.pos >= old(p).pos,
            decreases p.tokens@.len() - p.pos,
        {
            let attributes = match parse_attributes(p) {
                Ok(attributes) => attributes,
                Err(e) => {
                    return Err(e);
                }
            };
            let name = match p.expect_ident("expected field name") {
                Ok(ident) => ident,
                Err(e) => {
                    return Err(e);
                }
            };
            fields.push(ast::Field { attributes, name });
            if p.eat_when(TokenProbe::Comma).is_none() {
                break;
            }
        }
        match p.expect(TokenProbe::RBrace, "expected `}`") {
            Ok(_) => {}
            Err(e) => {
                return Err(e);
            }
        }
        Ok(ast::DeclBody::Record(fields))
    } else {
        Ok(ast::DeclBody::Unit)
    }
}

/// Parse an `enum` declaration.
fn parse_item_enum(p: &mut Parser, attributes: Vec<ast::Attribute>) -> (r: Result<
    ast::Item,
    ParseError,
>)
    requires
        old(p).wf(),
    ensures
        advanced_or_same(*old(p), *final(p)),
        r is Ok ==> advanced(*old(p), *final(p)),
{
    let start = match p.expect(TokenProbe::KwEnum, "expected `enum`") {
        Ok(span) => span,
        Err(e) => {
            return Err(e);
        }
    };
    let name = match p.expect_ident("expected enum name") {
        Ok(ident) => ident,
        Err(e) => {
            return Err(e);
        }
    };
    match p.expect(TokenProbe::LBrace, "expected `{`") {
        Ok(_) => {}
        Err(e) => {
            return Err(e);
        }
    }
    let mut variants: Vec<ast::ItemVariant> = Vec::new();
    while !p.next_is(TokenProbe::RBrace)
        invariant
            p.wf(),
            p.tokens == old(p).tokens,
            p.pos > old(p).pos,
        decreases p.tokens@.len() - p.pos,
    {
        let var_attributes = match parse_attributes(p) {
            Ok(a) => a,
            Err(e) => {
                return Err(e);
            }
        };
        let var_name = match p.expect_ident("expected variant name") {
            Ok(ident) => ident,
            Err(e) => {
                return Err(e);
            }
        };
        let body = match parse_decl_body(p) {
            Ok(body) => body,
            Err(e) => {
                return Err(e);
            }
        };
        variants.push(ast::ItemVariant { attributes: var_attributes, name: var_name, body });
        if p.eat_when(TokenProbe::Comma).is_none() {
            break;
        }
    }
    let end = match p.expect(TokenProbe::RBrace, "expected `}`") {
        Ok(span) => span,
        Err(e) => {
            return Err(e);
        }
    };
    Ok(
        ast::Item::ItemEnum(
            ast::ItemEnum { attributes, name, variants, span: start.join(end) },
        ),
    )
}

/// Parse a `struct` declaration.
fn parse_item_struct(p: &mut Parser, attributes: Vec<ast::Attribute>) -> (r: Result<
    ast::Item,
    ParseError,
>)
    requires
        old(p).wf(),
    ensures
        advanced_or_same(*old(p), *final(p)),
        r is Ok ==> advanced(*old(p), *final(p)),
{
    let start = match p.expect(TokenProbe::KwStruct, "expected `struct`") {
        Ok(span) => span,
        Err(e) => {
            return Err(e);
        }
    };
    let ident = match p.expect_ident("expected struct name") {
        Ok(ident) => ident,
        Err(e) => {
            return Err(e);
        }
    };
    let body = match parse_decl_body(p) {
        Ok(body) => body,
        Err(e) => {
            return Err(e);
        }
    };
    let end = p.span_here();
    Ok(
        ast::Item::ItemStruct(
            ast::ItemStruct { attributes, ident, body, span: start.join(end) },
        ),
    )
}

/// Parse a function declaration, with an optional `async` qualifier.
fn parse_item_fn(p: &mut Parser, attributes: Vec<ast::Attribute>, depth: u64) -> (r: Result<
    ast::ItemFn,
    ParseError,
>)
    requires
        old(p).wf(),
    ensures
        advanced_or_same(*old(p), *final(p)),
        r is Ok ==> advanced(*old(p), *final(p)),
    decreases depth, 0int,
{
    if depth == 0 {
        return Err(ParseError::new(p.span_here(), "declarations nest too deeply"));
    }
    let async_ = p.eat_when(TokenProbe::KwAsync);
    let start = match p.expect(TokenProbe::KwFn, "expected `fn`") {
        Ok(span) => span,
        Err(e) => {
            return Err(e);
        }
    };
    let name = match p.expect_ident("expected function name") {
        Ok(ident) => ident,
        Err(e) => {
            return Err(e);
        }
    };
    match p.expect(TokenProbe::LParen, "expected `(`") {
        Ok(_) => {}
        Err(e) => {
            return Err(e);
        }
    }
    let mut args: Vec<ast::FnArg> = Vec::new();
    while !p.next_is(TokenProbe::RParen)
        invariant
            depth > 0,
            p.wf(),
            p.tokens == old(p).tokens,
            p.pos > old(p).pos,
        decreases p.tokens@.len() - p.pos,
    {
        match p.eat_when(TokenProbe::KwSelf) {
            Some(span) => {
                args.push(ast::FnArg::Self_(span));
            }
            None => {
                match p.eat_when(TokenProbe::Underscore) {
                    Some(span) => {
                        args.push(ast::FnArg::Ignore(span));
                    }
                    None => {
                        let ident = match p.expect_ident("expected argument name") {
                            Ok(ident) => ident,
                            Err(e) => {
                                return Err(e);
                            }
                        };
                        args.push(ast::FnArg::Ident(ident));
                    }
                }
            }
        }
        if p.eat_when(TokenProbe::Comma).is_none() {
            break;
        }
    }
    match p.expect(TokenProbe::RParen, "expected `)`") {
        Ok(_) => {}
        Err(e) => {
            return Err(e);
        }
    }
    let body = match parse_block(p, depth - 1) {
        Ok(body) => body,
        Err(e) => {
            return Err(e);
        }
    };
    let end = body.span;
    Ok(ast::ItemFn { attributes, async_, name, args, body, span: start.join(end) })
}

/// Parse an `impl` block of instance functions.
fn parse_item_impl(p: &mut Parser, attributes: Vec<ast::Attribute>, depth: u64) -> (r: Result<
    ast::Item,
    ParseError,
>)
    requires
        old(p).wf(),
    ensures
        advanced_or_same(*old(p), *final(p)),
        r is Ok ==> advanced(*old(p), *final(p)),
    decreases depth, 0int,
{
    if depth == 0 {
        return Err(ParseError::new(p.span_here(), "declarations nest too deeply"));
    }
    let start = match p.expect(TokenProbe::KwImpl, "expected `impl`") {
        Ok(span) => span,
        Err(e) => {
            return Err(e);
        }
    };
    let path = match parse_path(p) {
        Ok(path) => path,
        Err(e) => {
            return Err(e);
        }
    };
    match p.expect(TokenProbe::LBrace, "expected `{`") {
        Ok(_) => {}
        Err(e) => {
            return Err(e);
        }
    }
    let mut functions: Vec<ast::ItemFn> = Vec::new();
    while !p.next_is(TokenProbe::RBrace)
        invariant
            depth > 0,
            p.wf(),
            p.tokens == old(p).tokens,
            p.pos > old(p).pos,
        decreases p.tokens@.len() - p.pos,
    {
        let fn_attributes = match parse_attributes(p) {
            Ok(a) => a,
            Err(e) => {
                return Err(e);
            }
        };
        let f = match parse_item_fn(p, fn_attributes, depth - 1) {
            Ok(f) => f,
            Err(e) => {
                return Err(e);
            }
        };
        functions.push(f);
    }
    let end = match p.expect(TokenProbe::RBrace, "expected `}`") {
        Ok(span) => span,
        Err(e) => {
            return Err(e);
        }
    };
    Ok(
        ast::Item::ItemImpl(
            ast::ItemImpl { attributes, path, functions, span: start.join(end) },
        ),
    )
}

/// Parse a module declaration: a file reference or an inline body.
fn parse_item_mod(p: &mut Parser, attributes: Vec<ast::Attribute>, depth: u64) -> (r: Result<
    ast::Item,
    ParseError,
>)
    requires
        old(p).wf(),
    ensures
        advanced_or_same(*old(p), *final(p)),
        r is Ok ==> advanced(*old(p), *final(p)),
    decreases depth, 0int,
{
    if depth == 0 {
        return Err(ParseError::new(p.span_here(), "declarations nest too deeply"));
    }
    let start = match p.expect(TokenProbe::KwMod, "expected `mod`") {
        Ok(span) => span,
        Err(e) => {
            return Err(e);
        }
    };
    let name = match p.expect_ident("expected module name") {
        Ok(ident) => ident,
        Err(e) => {
            return Err(e);
        }
    };
    if p.next_is(TokenProbe::LBrace) {
        p.bump();
        let mut items: Vec<ast::FileItem> = Vec::new();
        while !p.next_is(TokenProbe::RBrace)
            invariant
                depth > 0,
                p.wf(),
                p.tokens == old(p).tokens,
                p.pos > old(p).pos,
            decreases p.tokens@.len() - p.pos,
        {
            let item = match parse_item(p, depth - 1) {
                Ok(item) => item,
                Err(e) => {
                    return Err(e);
                }
            };
            let semi = p.eat_when(TokenProbe::Semi);
            items.push(ast::FileItem { item, semi });
        }
        let end = match p.expect(TokenProbe::RBrace, "expected `}`") {
            Ok(span) => span,
            Err(e) => {
                return Err(e);
            }
        };
        let file = ast::File { attributes: Vec::new(), items };
        Ok(
            ast::Item::ItemMod(
                ast::ItemMod {
                    attributes,
                    name,
                    body: ast::ItemModBody::InlineBody(Box::new(file)),
                    span: start.join(end),
                },
            ),
        )
    } else {
        let end = p.span_here();
        let mod_span = start.join(name.span);
        Ok(
            ast::Item::ItemMod(
                ast::ItemMod {
                    attributes,
                    name,
                    body: ast::ItemModBody::EmptyBody(end),
                    span: mod_span,
                },
            ),
        )
    }
}

/// Parse a constant declaration `const NAME = expr`.
fn parse_item_const(p: &mut Parser, attributes: Vec<ast::Attribute>, depth: u64) -> (r: Result<
    ast::Item,
    ParseError,
>)
    requires
        old(p).wf(),
    ensures
        advanced_or_same(*old(p), *final(p)),
        r is Ok ==> advanced(*old(p), *final(p)),
    decreases depth, 0int,
{
    if depth == 0 {
        return Err(ParseError::new(p.span_here(), "declarations nest too deeply"));
    }
    let start = match p.expect(TokenProbe::KwConst, "expected `const`") {
        Ok(span) => span,
        Err(e) => {
            return Err(e);
        }
    };
    let name = match p.expect_ident("expected constant name") {
        Ok(ident) => ident,
        Err(e) => {
            return Err(e);
        }
    };
    match p.expect(TokenProbe::Eq, "expected `=`") {
        Ok(_) => {}
        Err(e) => {
            return Err(e);
        }
    }
    let expr = match parse_expr(p, depth - 1, true) {
        Ok(expr) => expr,
        Err(e) => {
            return Err(e);
        }
    };
    let end = expr.span();
    Ok(
        ast::Item::ItemConst(
            ast::ItemConst { attributes, name, expr: Box::new(expr), span: start.join(end) },
        ),
    )
}

/// Parse a macro invocation `name!( ... )`, skipping the balanced input.
fn parse_macro_call(p: &mut Parser) -> (r: Result<ast::MacroCall, ParseError>)
    requires
        old(p).wf(),
    ensures
        advanced_or_same(*old(p), *final(p)),
        r is Ok ==> advanced(*old(p), *final(p)),
{
    let path = match parse_path(p) {
        Ok(path) => path,
        Err(e) => {
            return Err(e);
        }
    };
    let start = path.span;
    match p.expect(TokenProbe::Bang, "expected `!`") {
        Ok(_) => {}
        Err(e) => {
            return Err(e);
        }
    }
    match p.expect(TokenProbe::LParen, "expected `(`") {
        Ok(_) => {}
        Err(e) => {
            return Err(e);
        }
    }
    let mut level: usize = 1;
    let mut end = p.span_here();
    while level > 0
        invariant
            p.wf(),
            p.tokens == old(p).tokens,
            p.pos > old(p).pos,
        decreases p.tokens@.len() - p.pos,
    {
        if p.at_end() {
            return Err(ParseError::new(p.span_here(), "unterminated macro input"));
        }
        if p.next_is(TokenProbe::LParen) {
            if level == usize::MAX {
                return Err(ParseError::new(p.span_here(), "macro input nests too deeply"));
            }
            level = level + 1;
        } else if p.next_is(TokenProbe::RParen) {
            level = level - 1;
        }
        end = p.span_here();
        p.bump();
    }
    Ok(ast::MacroCall { path, input: String::new(), span: start.join(end) })
}

impl Parser {
    /// Whether the token after the next one satisfies `probe`.
    fn next2_is(&self, probe: TokenProbe) -> (r: bool)
        requires
            self.wf(),
        ensures
            r ==> self.pos + 1 < self.tokens@.len(),
    {
        if self.pos < self.tokens.len() && self.tokens.len() - self.pos > 1 {
            probe_matches(&self.tokens[self.pos + 1].kind, probe)
        } else {
            false
        }
    }

    /// Whether the next token ends an expression position.
    fn ends_expr(&self) -> (r: bool)
        requires
            self.wf(),
    {
        if self.pos >= self.tokens.len() {
            true
        } else {
            self.next_is(TokenProbe::Semi) || self.next_is(TokenProbe::RBrace) || self.next_is(
                TokenProbe::RParen,
            ) || self.next_is(TokenProbe::RBracket) || self.next_is(TokenProbe::Comma)
        }
    }
}

/// Parse a braced block of statements.
pub fn parse_block(p: &mut Parser, depth: u64) -> (r: Result<ast::Block, ParseError>)
    requires
        old(p).wf(),
    ensures
        advanced_or_same(*old(p), *final(p)),
        r is Ok ==> advanced(*old(p), *final(p)),
    decreases depth, 0int,
{
    if depth == 0 {
        return Err(ParseError::new(p.span_here(), "blocks nest too deeply"));
    }
    let start = match p.expect(TokenProbe::LBrace, "expected `{`") {
        Ok(span) => span,
        Err(e) => {
            return Err(e);
        }
    };
    let mut statements: Vec<ast::Stmt> = Vec::new();
    while !p.next_is(TokenProbe::RBrace)
        invariant
            depth > 0,
            p.wf(),
            p.tokens == old(p).tokens,
            p.pos > old(p).pos,
        decreases p.tokens@.len() - p.pos,
    {
        if p.at_end() {
            return Err(ParseError::new(p.span_here(), "unterminated block"));
        }
        let starts_item = p.next_is(TokenProbe::KwUse) || p.next_is(TokenProbe::KwEnum)
            || p.next_is(TokenProbe::KwStruct) || p.next_is(TokenProbe::KwImpl) || p.next_is(
            TokenProbe::KwMod,
        ) || p.next_is(TokenProbe::KwConst) || p.next_is(TokenProbe::KwFn) || (p.next_is(
            TokenProbe::KwAsync,
        ) && p.next2_is(TokenProbe::KwFn)) || p.next_is(TokenProbe::Pound) && p.next2_is(
            TokenProbe::LBracket,
        );
        if starts_item {
            let item = match parse_item(p, depth - 1) {
                Ok(item) => item,
                Err(e) => {
                    return Err(e);
                }
            };
            let _ = p.eat_when(TokenProbe::Semi);
            statements.push(ast::Stmt::Item(item));
        } else {
            let expr = match parse_expr(p, depth - 1, true) {
                Ok(expr) => expr,
                Err(e) => {
                    return Err(e);
                }
            };
            match p.eat_when(TokenProbe::Semi) {
                Some(span) => statements.push(ast::Stmt::Semi(expr, span)),
                None => statements.push(ast::Stmt::Expr(expr)),
            }
        }
    }
    let end = match p.expect(TokenProbe::RBrace, "expected `}`") {
        Ok(span) => span,
        Err(e) => {
            return Err(e);
        }
    };
    Ok(ast::Block { statements, span: start.join(end) })
}

/// Parse a condition: a `let` pattern condition or a plain expression
/// that stops before an opening brace.
fn parse_condition(p: &mut Parser, depth: u64) -> (r: Result<ast::Condition, ParseError>)
    requires
        old(p).wf(),
    ensures
        advanced_or_same(*old(p), *final(p)),
        r is Ok ==> advanced(*old(p), *final(p)),
    decreases depth, 0int,
{
    if depth == 0 {
        return Err(ParseError::new(p.span_here(), "conditions nest too deeply"));
    }
    if p.next_is(TokenProbe::KwLet) {
        let start = p.span_here();
        p.bump();
        let pat = match parse_pat(p, depth - 1) {
            Ok(pat) => pat,
            Err(e) => {
                return Err(e);
            }
        };
        match p.expect(TokenProbe::Eq, "expected `=`") {
            Ok(_) => {}
            Err(e) => {
                return Err(e);
            }
        }
        let expr = match parse_expr(p, depth - 1, false) {
            Ok(expr) => expr,
            Err(e) => {
                return Err(e);
            }
        };
        let span = start.join(expr.span());
        Ok(ast::Condition::ExprLet(Box::new(ast::ExprLet { pat, expr: Box::new(expr), span })))
    } else {
        match parse_expr(p, depth - 1, false) {
            Ok(expr) => Ok(ast::Condition::Expr(Box::new(expr))),
            Err(e) => Err(e),
        }
    }
}

/// Parse a pattern.
fn parse_pat(p: &mut Parser, depth: u64) -> (r: Result<ast::Pat, ParseError>)
    requires
        old(p).wf(),
    ensures
        advanced_or_same(*old(p), *final(p)),
        r is Ok ==> advanced(*old(p), *final(p)),
    decreases depth, 0int,
{
    if depth == 0 {
        return Err(ParseError::new(p.span_here(), "patterns nest too deeply"));
    }
    let start = p.span_here();
    match p.eat_when(TokenProbe::Underscore) {
        Some(span) => {
            return Ok(ast::Pat::PatIgnore(span));
        }
        None => {}
    }
    if p.next_is(TokenProbe::LParen) {
        p.bump();
        match p.eat_when(TokenProbe::RParen) {
            Some(span) => {
                return Ok(ast::Pat::PatUnit(start.join(span)));
            }
            None => {}
        }
        let mut items: Vec<ast::Pat> = Vec::new();
        while !p.next_is(TokenProbe::RParen)
            invariant
                depth > 0,
                p.wf(),
                p.tokens == old(p).tokens,
                p.pos > old(p).pos,
            decreases p.tokens@.len() - p.pos,
        {
            let pat = match parse_pat(p, depth - 1) {
                Ok(pat) => pat,
                Err(e) => {
                    return Err(e);
                }
            };
            items.push(pat);
            if p.eat_when(TokenProbe::Comma).is_none() {
                break;
            }
        }
        let end = match p.expect(TokenProbe::RParen, "expected `)`") {
            Ok(span) => span,
            Err(e) => {
                return Err(e);
            }
        };
        return Ok(ast::Pat::PatTuple(ast::PatTuple { items, span: start.join(end) }));
    }
    if p.next_is(TokenProbe::LBracket) {
        p.bump();
        let mut items: Vec<ast::Pat> = Vec::new();
        while !p.next_is(TokenProbe::RBracket)
            invariant
                depth > 0,
                p.wf(),
                p.tokens == old(p).tokens,
                p.pos > old(p).pos,
            decreases p.tokens@.len() - p.pos,
        {
            let pat = match parse_pat(p, depth - 1) {
                Ok(pat) => pat,
                Err(e) => {
                    return Err(e);
                }
            };
            items.push(pat);
            if p.eat_when(TokenProbe::Comma).is_none() {
                break;
            }
        }
        let end = match p.expect(TokenProbe::RBracket, "expected `]`") {
            Ok(span) => span,
            Err(e) => {
                return Err(e);
            }
        };
        return Ok(ast::Pat::PatVec(ast::PatVec { items, span: start.join(end) }));
    }
    if p.next_is(TokenProbe::Pound) && p.next2_is(TokenProbe::LBrace) {
        p.bump();
        p.bump();
        let mut fields: Vec<ast::PatObjectField> = Vec::new();
        while !p.next_is(TokenProbe::RBrace)
            invariant
                depth > 0,
                p.wf(),
                p.tokens == old(p).tokens,
                p.pos > old(p).pos,
            decreases p.tokens@.len() - p.pos,
        {
            let key = match p.expect_ident("expected field key") {
                Ok(ident) => ident,
                Err(e) => {
                    return Err(e);
                }
            };
            let binding = if p.eat_when(TokenProbe::Colon).is_some() {
                let pat = match parse_pat(p, depth - 1) {
                    Ok(pat) => pat,
                    Err(e) => {
                        return Err(e);
                    }
                };
                Some(Box::new(pat))
            } else {
                None
            };
            fields.push(ast::PatObjectField { key, binding });
            if p.eat_when(TokenProbe::Comma).is_none() {
                break;
            }
        }
        let end = match p.expect(TokenProbe::RBrace, "expected `}`") {
            Ok(span) => span,
            Err(e) => {
                return Err(e);
            }
        };
        return Ok(ast::Pat::PatObject(ast::PatObject { fields, span: start.join(end) }));
    }
    if p.pos < p.tokens.len() {
        let span = p.tokens[p.pos].span;
        match &p.tokens[p.pos].kind {
            TokenKind::Number { is_float, text } => {
                let lit = ast::LitNumber { is_float: *is_float, text: text.clone(), span };
                p.bump();
                return Ok(ast::Pat::PatNumber(lit));
            }
            TokenKind::StrTok(text) => {
                let lit = ast::LitStr { text: text.clone(), span };
                p.bump();
                return Ok(ast::Pat::PatString(lit));
            }
            TokenKind::CharTok(c) => {
                let c = *c;
                p.bump();
                return Ok(ast::Pat::PatChar(c, span));
            }
            _ => {}
        }
    }
    match parse_path(p) {
        Ok(path) => Ok(ast::Pat::PatPath(path)),
        Err(e) => Err(e),
    }
}

/// Parse the pieces of a template literal: plain text, and `{name}`
/// holes that interpolate an identifier.
fn parse_template(raw: &str, span: Span) -> (r: Result<ast::LitTemplate, ParseError>) {
    if !raw.is_ascii() {
        return Err(ParseError::new(span, "template must be ascii text"));
    }
    let n = raw.unicode_len();
    let mut components: Vec<ast::TemplateComponent> = Vec::new();
    let mut i: usize = 0;
    while i < n
        invariant
            raw.is_ascii(),
            n == raw@.len(),
            i <= n,
        decreases n - i,
    {
        if raw.get_ascii(i) == 123 {
            let hole_start = i + 1;
            let mut j = hole_start;
            while j < n && raw.get_ascii(j) != 125
                invariant
                    raw.is_ascii(),
                    n == raw@.len(),
                    hole_start <= j <= n,
                decreases n - j,
            {
                j = j + 1;
            }
            if j >= n {
                return Err(ParseError::new(span, "unterminated template hole"));
            }
            let name = raw.substring_ascii(hole_start, j).to_owned();
            let ident = ast::Ident { ident: name, span };
            let path = ast::Path { first: ident, rest: Vec::new(), span };
            components.push(ast::TemplateComponent::Expr(Box::new(ast::Expr::Path(path))));
            i = j + 1;
        } else {
            let text_start = i;
            let mut j = i;
            while j < n && raw.get_ascii(j) != 123
                invariant
                    raw.is_ascii(),
                    n == raw@.len(),
                    text_start <= j <= n,
                decreases n - j,
            {
                j = j + 1;
            }
            let text = raw.substring_ascii(text_start, j).to_owned();
            components.push(ast::TemplateComponent::String(text));
            i = j;
        }
    }
    Ok(ast::LitTemplate { components, span })
}

/// Parse an expression. With `brace_ok` false an opening brace is left
/// for the surrounding construct, as in a `for` loop's iterator.
pub fn parse_expr(p: &mut Parser, depth: u64, brace_ok: bool) -> (r: Result<ast::Expr, ParseError>)
    requires
        old(p).wf(),
    ensures
        advanced_or_same(*old(p), *final(p)),
        r is Ok ==> advanced(*old(p), *final(p)),
    decreases depth, 5int,
{
    if depth == 0 {
        return Err(ParseError::new(p.span_here(), "expressions nest too deeply"));
    }
    let lhs = match parse_cmp(p, depth, brace_ok) {
        Ok(lhs) => lhs,
        Err(e) => {
            return Err(e);
        }
    };
    // An index write `target[index] = value`.
    match &lhs {
        ast::Expr::ExprIndexGet(_) => {
            if p.next_is(TokenProbe::Eq) {
                p.bump();
                let value = match parse_expr(p, depth - 1, brace_ok) {
                    Ok(value) => value,
                    Err(e) => {
                        return Err(e);
                    }
                };
                match lhs {
                    ast::Expr::ExprIndexGet(get) => {
                        let span = get.span.join(value.span());
                        return Ok(
                            ast::Expr::ExprIndexSet(
                                ast::ExprIndexSet {
                                    target: get.target,
                                    index: get.index,
                                    value: Box::new(value),
                                    span,
                                },
                            ),
                        );
                    }
                    _ => {
                        return Err(ParseError::new(p.span_here(), "expected index expression"));
                    }
                }
            }
        }
        _ => {}
    }
    Ok(lhs)
}

/// Parse a comparison chain.
fn parse_cmp(p: &mut Parser, depth: u64, brace_ok: bool) -> (r: Result<ast::Expr, ParseError>)
    requires
        old(p).wf(),
        depth > 0,
    ensures
        advanced_or_same(*old(p), *final(p)),
        r is Ok ==> advanced(*old(p), *final(p)),
    decreases depth, 4int,
{
    let mut lhs = match parse_add(p, depth, brace_ok) {
        Ok(lhs) => lhs,
        Err(e) => {
            return Err(e);
        }
    };
    while p.next_is(TokenProbe::Lt) || p.next_is(TokenProbe::Le) || p.next_is(TokenProbe::Gt)
        || p.next_is(TokenProbe::Ge) || p.next_is(TokenProbe::EqEq) || p.next_is(TokenProbe::Neq)
        invariant
            p.wf(),
            depth > 0,
            p.tokens == old(p).tokens,
            p.pos > old(p).pos,
        decreases p.tokens@.len() - p.pos,
    {
        let op = if p.next_is(TokenProbe::Lt) {
            ast::BinOp::Lt
        } else if p.next_is(TokenProbe::Le) {
            ast::BinOp::Le
        } else if p.next_is(TokenProbe::Gt) {
            ast::BinOp::Gt
        } else if p.next_is(TokenProbe::Ge) {
            ast::BinOp::Ge
        } else if p.next_is(TokenProbe::EqEq) {
            ast::BinOp::EqEq
        } else {
            ast::BinOp::Neq
        };
        p.bump();
        let rhs = match parse_add(p, depth, brace_ok) {
            Ok(rhs) => rhs,
            Err(e) => {
                return Err(e);
            }
        };
        let span = lhs.span().join(rhs.span());
        lhs = ast::Expr::ExprBinary(
            ast::ExprBinary { lhs: Box::new(lhs), op, rhs: Box::new(rhs), span },
        );
    }
    Ok(lhs)
}

/// Parse an additive and shift chain.
fn parse_add(p: &mut Parser, depth: u64, brace_ok: bool) -> (r: Result<ast::Expr, ParseError>)
    requires
        old(p).wf(),
        depth > 0,
    ensures
        advanced_or_same(*old(p), *final(p)),
        r is Ok ==> advanced(*old(p), *final(p)),
    decreases depth, 3int,
{
    let mut lhs = match parse_mul(p, depth, brace_ok) {
        Ok(lhs) => lhs,
        Err(e) => {
            return Err(e);
        }
    };
    while p.next_is(TokenProbe::Plus) || p.next_is(TokenProbe::Minus) || p.next_is(
        TokenProbe::Shl,
    ) || p.next_is(TokenProbe::Shr)
        invariant
            p.wf(),
            depth > 0,
            p.tokens == old(p).tokens,
            p.pos > old(p).pos,
        decreases p.tokens@.len() - p.pos,
    {
        let op = if p.next_is(TokenProbe::Plus) {
            ast::BinOp::Add
        } else if p.next_is(TokenProbe::Minus) {
            ast::BinOp::Sub
        } else if p.next_is(TokenProbe::Shl) {
            ast::BinOp::Shl
        } else {
            ast::BinOp::Shr
        };
        p.bump();
        let rhs = match parse_mul(p, depth, brace_ok) {
            Ok(rhs) => rhs,
            Err(e) => {
                return Err(e);
            }
        };
        let span = lhs.span().join(rhs.span());
        lhs = ast::Expr::ExprBinary(
            ast::ExprBinary { lhs: Box::new(lhs), op, rhs: Box::new(rhs), span },
        );
    }
    Ok(lhs)
}

/// Parse a multiplicative chain.
fn parse_mul(p: &mut Parser, depth: u64, brace_ok: bool) -> (r: Result<ast::Expr, ParseError>)
    requires
        old(p).wf(),
        depth > 0,
    ensures
        advanced_or_same(*old(p), *final(p)),
        r is Ok ==> advanced(*old(p), *final(p)),
    decreases depth, 2int,
{
    let mut lhs = match parse_postfix(p, depth, brace_ok) {
        Ok(lhs) => lhs,
        Err(e) => {
            return Err(e);
        }
    };
    while p.next_is(TokenProbe::Star) || p.next_is(TokenProbe::Slash)
        invariant
            p.wf(),
            depth > 0,
            p.tokens == old(p).tokens,
            p.pos > old(p).pos,
        decreases p.tokens@.len() - p.pos,
    {
        let op = if p.next_is(TokenProbe::Star) {
            ast::BinOp::Mul
        } else {
            ast::BinOp::Div
        };
        p.bump();
        let rhs = match parse_postfix(p, depth, brace_ok) {
            Ok(rhs) => rhs,
            Err(e) => {
                return Err(e);
            }
        };
        let span = lhs.span().join(rhs.span());
        lhs = ast::Expr::ExprBinary(
            ast::ExprBinary { lhs: Box::new(lhs), op, rhs: Box::new(rhs), span },
        );
    }
    Ok(lhs)
}

/// Parse a unary prefix followed by postfix operators: calls, index
/// reads, field accesses, `.await` and `?`.
fn parse_postfix(p: &mut Parser, depth: u64, brace_ok: bool) -> (r: Result<ast::Expr, ParseError>)
    requires
        old(p).wf(),
        depth > 0,
    ensures
        advanced_or_same(*old(p), *final(p)),
        r is Ok ==> advanced(*old(p), *final(p)),
    decreases depth, 1int,
{
    let start = p.span_here();
    let mut prefix_ops: Vec<ast::UnaryOp> = Vec::new();
    while p.next_is(TokenProbe::Bang) || p.next_is(TokenProbe::Minus)
        invariant
            p.wf(),
            p.tokens == old(p).tokens,
            p.pos >= old(p).pos,
        decreases p.tokens@.len() - p.pos,
    {
        if p.next_is(TokenProbe::Bang) {
            prefix_ops.push(ast::UnaryOp::Not);
        } else {
            prefix_ops.push(ast::UnaryOp::Neg);
        }
        p.bump();
    }
    let mut expr = match parse_atom(p, depth, brace_ok) {
        Ok(expr) => expr,
        Err(e) => {
            return Err(e);
        }
    };
    while p.next_is(TokenProbe::Dot) || p.next_is(TokenProbe::Question) || p.next_is(
        TokenProbe::LParen,
    ) || p.next_is(TokenProbe::LBracket)
        invariant
            p.wf(),
            depth > 0,
            p.tokens == old(p).tokens,
            p.pos > old(p).pos,
        decreases p.tokens@.len() - p.pos,
    {
        let ghost iter0 = p.pos;
        if p.next_is(TokenProbe::Dot) {
            p.bump();
            match p.eat_when(TokenProbe::KwAwait) {
                Some(span) => {
                    let full = expr.span().join(span);
                    expr = ast::Expr::ExprAwait(
                        ast::ExprAwait { expr: Box::new(expr), span: full },
                    );
                }
                None => {
                    let field = match p.expect_ident("expected field name after `.`") {
                        Ok(ident) => ident,
                        Err(e) => {
                            return Err(e);
                        }
                    };
                    let full = expr.span().join(field.span);
                    expr = ast::Expr::ExprFieldAccess(
                        ast::ExprFieldAccess { expr: Box::new(expr), field, span: full },
                    );
                }
            }
        } else if p.next_is(TokenProbe::Question) {
            let span = p.span_here();
            p.bump();
            let full = expr.span().join(span);
            expr = ast::Expr::ExprTry(ast::ExprTry { expr: Box::new(expr), span: full });
        } else if p.next_is(TokenProbe::LParen) {
            p.bump();
            let ghost pos0 = p.pos;
            let mut args: Vec<ast::Expr> = Vec::new();
            while !p.next_is(TokenProbe::RParen)
                invariant
                    p.wf(),
                    depth > 0,
                    p.tokens == old(p).tokens,
                    p.pos >= pos0,
                    pos0 > iter0,
                    pos0 > old(p).pos,
                decreases p.tokens@.len() - p.pos,
            {
                let arg = match parse_expr(p, depth - 1, true) {
                    Ok(arg) => arg,
                    Err(e) => {
                        return Err(e);
                    }
                };
                args.push(arg);
                if p.eat_when(TokenProbe::Comma).is_none() {
                    break;
                }
            }
            let end = match p.expect(TokenProbe::RParen, "expected `)`") {
                Ok(span) => span,
                Err(e) => {
                    return Err(e);
                }
            };
            let full = expr.span().join(end);
            expr = ast::Expr::ExprCall(
                ast::ExprCall { expr: Box::new(expr), args, span: full },
            );
        } else {
            p.bump();
            let index = match parse_expr(p, depth - 1, true) {
                Ok(index) => index,
                Err(e) => {
                    return Err(e);
                }
            };
            let end = match p.expect(TokenProbe::RBracket, "expected `]`") {
                Ok(span) => span,
                Err(e) => {
                    return Err(e);
                }
            };
            let full = expr.span().join(end);
            expr = ast::Expr::ExprIndexGet(
                ast::ExprIndexGet { target: Box::new(expr), index: Box::new(index), span: full },
            );
        }
    }
    while prefix_ops.len() > 0
        invariant
            p.wf(),
            p.tokens == old(p).tokens,
            p.pos > old(p).pos,
        decreases prefix_ops@.len(),
    {
        match prefix_ops.pop() {
            Some(op) => {
                let span = start.join(expr.span());
                expr = ast::Expr::ExprUnary(ast::ExprUnary { op, expr: Box::new(expr), span });
            }
            None => {}
        }
    }
    Ok(expr)
}

/// Parse an atomic expression.
fn parse_atom(p: &mut Parser, depth: u64, brace_ok: bool) -> (r: Result<ast::Expr, ParseError>)
    requires
        old(p).wf(),
        depth > 0,
    ensures
        advanced_or_same(*old(p), *final(p)),
        r is Ok ==> advanced(*old(p), *final(p)),
    decreases depth, 0int,
{
    let start = p.span_here();
    if p.pos < p.tokens.len() {
        let span = p.tokens[p.pos].span;
        match &p.tokens[p.pos].kind {
            TokenKind::Number { is_float, text } => {
                let lit = ast::LitNumber { is_float: *is_float, text: text.clone(), span };
                p.bump();
                return Ok(
                    ast::Expr::ExprLit(
                        ast::ExprLit {
                            attributes: Vec::new(),
                            lit: ast::Lit::Number(lit),
                            span,
                        },
                    ),
                );
            }
            TokenKind::StrTok(text) => {
                let lit = ast::LitStr { text: text.clone(), span };
                p.bump();
                return Ok(
                    ast::Expr::ExprLit(
                        ast::ExprLit { attributes: Vec::new(), lit: ast::Lit::Str(lit), span },
                    ),
                );
            }
            TokenKind::TemplateTok(raw) => {
                let template = match parse_template(raw.as_str(), span) {
                    Ok(template) => template,
                    Err(e) => {
                        return Err(e);
                    }
                };
                p.bump();
                return Ok(
                    ast::Expr::ExprLit(
                        ast::ExprLit {
                            attributes: Vec::new(),
                            lit: ast::Lit::Template(template),
                            span,
                        },
                    ),
                );
            }
            TokenKind::CharTok(c) => {
                let c = *c;
                p.bump();
                return Ok(
                    ast::Expr::ExprLit(
                        ast::ExprLit {
                            attributes: Vec::new(),
                            lit: ast::Lit::Char(c, span),
                            span,
                        },
                    ),
                );
            }
            _ => {}
        }
    }
    if p.next_is(TokenProbe::KwTrue) || p.next_is(TokenProbe::KwFalse) {
        let value = p.next_is(TokenProbe::KwTrue);
        p.bump();
        return Ok(
            ast::Expr::ExprLit(
                ast::ExprLit {
                    attributes: Vec::new(),
                    lit: ast::Lit::Bool(value, start),
                    span: start,
                },
            ),
        );
    }
    if p.next_is(TokenProbe::KwSelf) {
        p.bump();
        return Ok(ast::Expr::Self_(start));
    }
    if p.next_is(TokenProbe::KwLet) {
        p.bump();
        let pat = match parse_pat(p, depth - 1) {
            Ok(pat) => pat,
            Err(e) => {
                return Err(e);
            }
        };
        match p.expect(TokenProbe::Eq, "expected `=`") {
            Ok(_) => {}
            Err(e) => {
                return Err(e);
            }
        }
        let expr = match parse_expr(p, depth - 1, brace_ok) {
            Ok(expr) => expr,
            Err(e) => {
                return Err(e);
            }
        };
        let span = start.join(expr.span());
        return Ok(ast::Expr::ExprLet(ast::ExprLet { pat, expr: Box::new(expr), span }));
    }
    if p.next_is(TokenProbe::LParen) {
        p.bump();
        match p.eat_when(TokenProbe::RParen) {
            Some(end) => {
                return Ok(
                    ast::Expr::ExprLit(
                        ast::ExprLit {
                            attributes: Vec::new(),
                            lit: ast::Lit::Unit(start.join(end)),
                            span: start.join(end),
                        },
                    ),
                );
            }
            None => {}
        }
        let first = match parse_expr(p, depth - 1, true) {
            Ok(first) => first,
            Err(e) => {
                return Err(e);
            }
        };
        if p.eat_when(TokenProbe::Comma).is_some() {
            let mut items: Vec<ast::Expr> = Vec::new();
            items.push(first);
            while !p.next_is(TokenProbe::RParen)
                invariant
                    p.wf(),
                    depth > 0,
                    p.tokens == old(p).tokens,
                    p.pos > old(p).pos,
                decreases p.tokens@.len() - p.pos,
            {
                let item = match parse_expr(p, depth - 1, true) {
                    Ok(item) => item,
                    Err(e) => {
                        return Err(e);
                    }
                };
                items.push(item);
                if p.eat_when(TokenProbe::Comma).is_none() {
                    break;
                }
            }
            let end = match p.expect(TokenProbe::RParen, "expected `)`") {
                Ok(span) => span,
                Err(e) => {
                    return Err(e);
                }
            };
            let span = start.join(end);
            return Ok(
                ast::Expr::ExprLit(
                    ast::ExprLit {
                        attributes: Vec::new(),
                        lit: ast::Lit::Tuple(ast::LitTuple { items, span }),
                        span,
                    },
                ),
            );
        }
        let end = match p.expect(TokenProbe::RParen, "expected `)`") {
            Ok(span) => span,
            Err(e) => {
                return Err(e);
            }
        };
        return Ok(ast::Expr::ExprGroup(Box::new(first), start.join(end)));
    }
    if p.next_is(TokenProbe::LBracket) {
        p.bump();
        let mut items: Vec<ast::Expr> = Vec::new();
        while !p.next_is(TokenProbe::RBracket)
            invariant
                p.wf(),
                depth > 0,
                p.tokens == old(p).tokens,
                p.pos > old(p).pos,
            decreases p.tokens@.len() - p.pos,
        {
            let item = match parse_expr(p, depth - 1, true) {
                Ok(item) => item,
                Err(e) => {
                    return Err(e);
                }
            };
            items.push(item);
            if p.eat_when(TokenProbe::Comma).is_none() {
                break;
            }
        }
        let end = match p.expect(TokenProbe::RBracket, "expected `]`") {
            Ok(span) => span,
            Err(e) => {
                return Err(e);
            }
        };
        let span = start.join(end);
        return Ok(
            ast::Expr::ExprLit(
                ast::ExprLit {
                    attributes: Vec::new(),
                    lit: ast::Lit::Vec(ast::LitVec { items, span }),
                    span,
                },
            ),
        );
    }
    if p.next_is(TokenProbe::Pound) && p.next2_is(TokenProbe::LBrace) {
        p.bump();
        p.bump();
        let mut assignments: Vec<ast::ObjectAssign> = Vec::new();
        while !p.next_is(TokenProbe::RBrace)
            invariant
                p.wf(),
                depth > 0,
                p.tokens == old(p).tokens,
                p.pos > old(p).pos,
            decreases p.tokens@.len() - p.pos,
        {
            let key = match p.expect_ident("expected object key") {
                Ok(ident) => ident,
                Err(e) => {
                    return Err(e);
                }
            };
            let assign = if p.eat_when(TokenProbe::Colon).is_some() {
                let value = match parse_expr(p, depth - 1, true) {
                    Ok(value) => value,
                    Err(e) => {
                        return Err(e);
                    }
                };
                Some(Box::new(value))
            } else {
                None
            };
            assignments.push(ast::ObjectAssign { key, assign });
            if p.eat_when(TokenProbe::Comma).is_none() {
                break;
            }
        }
        let end = match p.expect(TokenProbe::RBrace, "expected `}`") {
            Ok(span) => span,
            Err(e) => {
                return Err(e);
            }
        };
        let span = start.join(end);
        return Ok(
            ast::Expr::ExprLit(
                ast::ExprLit {
                    attributes: Vec::new(),
                    lit: ast::Lit::Object(ast::LitObject { assignments, span }),
                    span,
                },
            ),
        );
    }
    if p.next_is(TokenProbe::KwIf) {
        return parse_expr_if(p, depth - 1);
    }
    if p.next_is(TokenProbe::KwMatch) {
        return parse_expr_match(p, depth - 1);
    }
    if p.next_is(TokenProbe::KwWhile) {
        p.bump();
        let condition = match parse_condition(p, depth - 1) {
            Ok(condition) => condition,
            Err(e) => {
                return Err(e);
            }
        };
        let body = match parse_block(p, depth - 1) {
            Ok(body) => body,
            Err(e) => {
                return Err(e);
            }
        };
        let span = start.join(body.span);
        return Ok(ast::Expr::ExprWhile(ast::ExprWhile { condition, body, span }));
    }
    if p.next_is(TokenProbe::KwLoop) {
        p.bump();
        let body = match parse_block(p, depth - 1) {
            Ok(body) => body,
            Err(e) => {
                return Err(e);
            }
        };
        let span = start.join(body.span);
        return Ok(ast::Expr::ExprLoop(ast::ExprLoop { body, span }));
    }
    if p.next_is(TokenProbe::KwFor) {
        match ast::ExprFor::parse_with_label(p, None, depth - 1) {
            Ok(expr_for) => {
                return Ok(ast::Expr::ExprFor(expr_for));
            }
            Err(e) => {
                return Err(e);
            }
        }
    }
    if p.next_is(TokenProbe::AnyLabel) {
        let label = match take_label(p) {
            Ok(label) => label,
            Err(e) => {
                return Err(e);
            }
        };
        let colon_span = match p.expect(TokenProbe::Colon, "expected `:` after label") {
            Ok(span) => span,
            Err(e) => {
                return Err(e);
            }
        };
        let colon = ast::Colon { span: colon_span };
        if p.next_is(TokenProbe::KwFor) {
            match ast::ExprFor::parse_with_label(p, Some((label, colon)), depth - 1) {
                Ok(expr_for) => {
                    return Ok(ast::Expr::ExprFor(expr_for));
                }
                Err(e) => {
                    return Err(e);
                }
            }
        }
        if p.next_is(TokenProbe::KwWhile) {
            p.bump();
            let condition = match parse_condition(p, depth - 1) {
                Ok(condition) => condition,
                Err(e) => {
                    return Err(e);
                }
            };
            let body = match parse_block(p, depth - 1) {
                Ok(body) => body,
                Err(e) => {
                    return Err(e);
                }
            };
            let span = start.join(body.span);
            return Ok(ast::Expr::ExprWhile(ast::ExprWhile { condition, body, span }));
        }
        if p.next_is(TokenProbe::KwLoop) {
            p.bump();
            let body = match parse_block(p, depth - 1) {
                Ok(body) => body,
                Err(e) => {
                    return Err(e);
                }
            };
            let span = start.join(body.span);
            return Ok(ast::Expr::ExprLoop(ast::ExprLoop { body, span }));
        }
        return Err(ParseError::new(p.span_here(), "expected a loop after label"));
    }
    if p.next_is(TokenProbe::KwBreak) {
        p.bump();
        if p.next_is(TokenProbe::AnyLabel) {
            let label = match take_label(p) {
                Ok(label) => label,
                Err(e) => {
                    return Err(e);
                }
            };
            return Ok(
                ast::Expr::ExprBreak(
                    ast::ExprBreak {
                        expr: Some(ast::ExprBreakValue::Label(label)),
                        span: start,
                    },
                ),
            );
        }
        if p.ends_expr() {
            return Ok(ast::Expr::ExprBreak(ast::ExprBreak { expr: None, span: start }));
        }
        let value = match parse_expr(p, depth - 1, brace_ok) {
            Ok(value) => value,
            Err(e) => {
                return Err(e);
            }
        };
        let span = start.join(value.span());
        return Ok(
            ast::Expr::ExprBreak(
                ast::ExprBreak {
                    expr: Some(ast::ExprBreakValue::Expr(Box::new(value))),
                    span,
                },
            ),
        );
    }
    if p.next_is(TokenProbe::KwReturn) {
        p.bump();
        if p.ends_expr() {
            return Ok(ast::Expr::ExprReturn(ast::ExprReturn { expr: None, span: start }));
        }
        let value = match parse_expr(p, depth - 1, brace_ok) {
            Ok(value) => value,
            Err(e) => {
                return Err(e);
            }
        };
        let span = start.join(value.span());
        return Ok(
            ast::Expr::ExprReturn(
                ast::ExprReturn { expr: Some(Box::new(value)), span },
            ),
        );
    }
    if p.next_is(TokenProbe::KwYield) {
        p.bump();
        if p.ends_expr() {
            return Ok(ast::Expr::ExprYield(ast::ExprYield { expr: None, span: start }));
        }
        let value = match parse_expr(p, depth - 1, brace_ok) {
            Ok(value) => value,
            Err(e) => {
                return Err(e);
            }
        };
        let span = start.join(value.span());
        return Ok(
            ast::Expr::ExprYield(ast::ExprYield { expr: Some(Box::new(value)), span }),
        );
    }
    if p.next_is(TokenProbe::KwSelect) {
        return parse_expr_select(p, depth - 1);
    }
    if p.next_is(TokenProbe::KwAsync) {
        p.bump();
        let block = match parse_block(p, depth - 1) {
            Ok(block) => block,
            Err(e) => {
                return Err(e);
            }
        };
        let span = start.join(block.span);
        return Ok(
            ast::Expr::ExprAsync(
                ast::ExprAsync { attributes: Vec::new(), block, span },
            ),
        );
    }
    if p.next_is(TokenProbe::PipePipe) {
        p.bump();
        let body = match parse_expr(p, depth - 1, true) {
            Ok(body) => body,
            Err(e) => {
                return Err(e);
            }
        };
        let span = start.join(body.span());
        return Ok(
            ast::Expr::ExprClosure(
                ast::ExprClosure {
                    async_: None,
                    args: Vec::new(),
                    body: Box::new(body),
                    span,
                },
            ),
        );
    }
    if p.next_is(TokenProbe::Pipe) {
        p.bump();
        let mut args: Vec<ast::FnArg> = Vec::new();
        while !p.next_is(TokenProbe::Pipe)
            invariant
                p.wf(),
                depth > 0,
                p.tokens == old(p).tokens,
                p.pos > old(p).pos,
            decreases p.tokens@.len() - p.pos,
        {
            match p.eat_when(TokenProbe::KwSelf) {
                Some(span) => {
                    args.push(ast::FnArg::Self_(span));
                }
                None => {
                    match p.eat_when(TokenProbe::Underscore) {
                        Some(span) => {
                            args.push(ast::FnArg::Ignore(span));
                        }
                        None => {
                            let ident = match p.expect_ident("expected closure argument") {
                                Ok(ident) => ident,
                                Err(e) => {
                                    return Err(e);
                                }
                            };
                            args.push(ast::FnArg::Ident(ident));
                        }
                    }
                }
            }
            if p.eat_when(TokenProbe::Comma).is_none() {
                break;
            }
        }
        match p.expect(TokenProbe::Pipe, "expected `|`") {
            Ok(_) => {}
            Err(e) => {
                return Err(e);
            }
        }
        let body = match parse_expr(p, depth - 1, true) {
            Ok(body) => body,
            Err(e) => {
                return Err(e);
            }
        };
        let span = start.join(body.span());
        return Ok(
            ast::Expr::ExprClosure(
                ast::ExprClosure { async_: None, args, body: Box::new(body), span },
            ),
        );
    }
    if p.next_is(TokenProbe::LBrace) {
        if !brace_ok {
            return Err(ParseError::new(start, "expected an expression"));
        }
        let block = match parse_block(p, depth - 1) {
            Ok(block) => block,
            Err(e) => {
                return Err(e);
            }
        };
        return Ok(
            ast::Expr::ExprBlock(ast::ExprBlock { attributes: Vec::new(), block }),
        );
    }
    if p.next_is(TokenProbe::AnyIdent) {
        if p.next2_is(TokenProbe::Bang) {
            match parse_macro_call(p) {
                Ok(m) => {
                    return Ok(ast::Expr::MacroCall(m));
                }
                Err(e) => {
                    return Err(e);
                }
            }
        }
        match parse_path(p) {
            Ok(path) => {
                return Ok(ast::Expr::Path(path));
            }
            Err(e) => {
                return Err(e);
            }
        }
    }
    Err(ParseError::new(start, "expected an expression"))
}

/// Consume a label token.
fn take_label(p: &mut Parser) -> (r: Result<ast::Label, ParseError>)
    requires
        old(p).wf(),
    ensures
        advanced_or_same(*old(p), *final(p)),
        r is Ok ==> advanced(*old(p), *final(p)),
{
    if p.pos < p.tokens.len() {
        let span = p.tokens[p.pos].span;
        match &p.tokens[p.pos].kind {
            TokenKind::LabelTok(name) => {
                let label = ast::Label { name: name.clone(), span };
                p.bump();
                return Ok(label);
            }
            _ => {}
        }
    }
    Err(ParseError::new(p.span_here(), "expected a label"))
}

/// Parse an `if` expression.
fn parse_expr_if(p: &mut Parser, depth: u64) -> (r: Result<ast::Expr, ParseError>)
    requires
        old(p).wf(),
    ensures
        advanced_or_same(*old(p), *final(p)),
        r is Ok ==> advanced(*old(p), *final(p)),
    decreases depth, 0int,
{
    if depth == 0 {
        return Err(ParseError::new(p.span_here(), "expressions nest too deeply"));
    }
    let start = match p.expect(TokenProbe::KwIf, "expected `if`") {
        Ok(span) => span,
        Err(e) => {
            return Err(e);
        }
    };
    let condition = match parse_condition(p, depth - 1) {
        Ok(condition) => condition,
        Err(e) => {
            return Err(e);
        }
    };
    let block = match parse_block(p, depth - 1) {
        Ok(block) => block,
        Err(e) => {
            return Err(e);
        }
    };
    let mut end = block.span;
    let mut expr_else_ifs: Vec<ast::ExprElseIf> = Vec::new();
    let mut expr_else: Option<ast::Block> = None;
    while p.next_is(TokenProbe::KwElse) && expr_else.is_none()
        invariant
            p.wf(),
            depth > 0,
            p.tokens == old(p).tokens,
            p.pos > old(p).pos,
        decreases p.tokens@.len() - p.pos,
    {
        p.bump();
        if p.next_is(TokenProbe::KwIf) {
            p.bump();
            let arm_condition = match parse_condition(p, depth - 1) {
                Ok(condition) => condition,
                Err(e) => {
                    return Err(e);
                }
            };
            let arm_block = match parse_block(p, depth - 1) {
                Ok(block) => block,
                Err(e) => {
                    return Err(e);
                }
            };
            end = arm_block.span;
            expr_else_ifs.push(
                ast::ExprElseIf { condition: arm_condition, block: arm_block },
            );
        } else {
            let else_block = match parse_block(p, depth - 1) {
                Ok(block) => block,
                Err(e) => {
                    return Err(e);
                }
            };
            end = else_block.span;
            expr_else = Some(else_block);
        }
    }
    Ok(
        ast::Expr::ExprIf(
            ast::ExprIf {
                condition,
                block,
                expr_else_ifs,
                expr_else,
                span: start.join(end),
            },
        ),
    )
}

/// Parse a `match` expression.
fn parse_expr_match(p: &mut Parser, depth: u64) -> (r: Result<ast::Expr, ParseError>)
    requires
        old(p).wf(),
    ensures
        advanced_or_same(*old(p), *final(p)),
        r is Ok ==> advanced(*old(p), *final(p)),
    decreases depth, 0int,
{
    if depth == 0 {
        return Err(ParseError::new(p.span_here(), "expressions nest too deeply"));
    }
    let start = match p.expect(TokenProbe::KwMatch, "expected `match`") {
        Ok(span) => span,
        Err(e) => {
            return Err(e);
        }
    };
    let expr = match parse_expr(p, depth - 1, false) {
        Ok(expr) => expr,
        Err(e) => {
            return Err(e);
        }
    };
    match p.expect(TokenProbe::LBrace, "expected `{`") {
        Ok(_) => {}
        Err(e) => {
            return Err(e);
        }
    }
    let mut branches: Vec<ast::MatchBranch> = Vec::new();
    while !p.next_is(TokenProbe::RBrace)
        invariant
            p.wf(),
            depth > 0,
            p.tokens == old(p).tokens,
            p.pos > old(p).pos,
        decreases p.tokens@.len() - p.pos,
    {
        let pat = match parse_pat(p, depth - 1) {
            Ok(pat) => pat,
            Err(e) => {
                return Err(e);
            }
        };
        let condition = if p.eat_when(TokenProbe::KwIf).is_some() {
            let guard = match parse_expr(p, depth - 1, false) {
                Ok(guard) => guard,
                Err(e) => {
                    return Err(e);
                }
            };
            Some(Box::new(guard))
        } else {
            None
        };
        match p.expect(TokenProbe::FatArrow, "expected `=>`") {
            Ok(_) => {}
            Err(e) => {
                return Err(e);
            }
        }
        let body = match parse_expr(p, depth - 1, true) {
            Ok(body) => body,
            Err(e) => {
                return Err(e);
            }
        };
        branches.push(ast::MatchBranch { pat, condition, body: Box::new(body) });
        if p.eat_when(TokenProbe::Comma).is_none() {
            break;
        }
    }
    let end = match p.expect(TokenProbe::RBrace, "expected `}`") {
        Ok(span) => span,
        Err(e) => {
            return Err(e);
        }
    };
    Ok(
        ast::Expr::ExprMatch(
            ast::ExprMatch { expr: Box::new(expr), branches, span: start.join(end) },
        ),
    )
}

/// Parse a `select` expression.
fn parse_expr_select(p: &mut Parser, depth: u64) -> (r: Result<ast::Expr, ParseError>)
    requires
        old(p).wf(),
    ensures
        advanced_or_same(*old(p), *final(p)),
        r is Ok ==> advanced(*old(p), *final(p)),
    decreases depth, 0int,
{
    if depth == 0 {
        return Err(ParseError::new(p.span_here(), "expressions nest too deeply"));
    }
    let start = match p.expect(TokenProbe::KwSelect, "expected `select`") {
        Ok(span) => span,
        Err(e) => {
            return Err(e);
        }
    };
    match p.expect(TokenProbe::LBrace, "expected `{`") {
        Ok(_) => {}
        Err(e) => {
            return Err(e);
        }
    }
    let mut branches: Vec<ast::SelectBranch> = Vec::new();
    let mut default_branch: Option<Box<ast::Expr>> = None;
    while !p.next_is(TokenProbe::RBrace)
        invariant
            p.wf(),
            depth > 0,
            p.tokens == old(p).tokens,
            p.pos > old(p).pos,
        decreases p.tokens@.len() - p.pos,
    {
        if p.eat_when(TokenProbe::KwDefault).is_some() {
            match p.expect(TokenProbe::FatArrow, "expected `=>`") {
                Ok(_) => {}
                Err(e) => {
                    return Err(e);
                }
            }
            let body = match parse_expr(p, depth - 1, true) {
                Ok(body) => body,
                Err(e) => {
                    return Err(e);
                }
            };
            default_branch = Some(Box::new(body));
        } else {
            let pat = match parse_pat(p, depth - 1) {
                Ok(pat) => pat,
                Err(e) => {
                    return Err(e);
                }
            };
            match p.expect(TokenProbe::Eq, "expected `=`") {
                Ok(_) => {}
                Err(e) => {
                    return Err(e);
                }
            }
            let expr = match parse_expr(p, depth - 1, false) {
                Ok(expr) => expr,
                Err(e) => {
                    return Err(e);
                }
            };
            match p.expect(TokenProbe::FatArrow, "expected `=>`") {
                Ok(_) => {}
                Err(e) => {
                    return Err(e);
                }
            }
            let body = match parse_expr(p, depth - 1, true) {
                Ok(body) => body,
                Err(e) => {
                    return Err(e);
                }
            };
            branches.push(
                ast::SelectBranch { pat, expr: Box::new(expr), body: Box::new(body) },
            );
        }
        if p.eat_when(TokenProbe::Comma).is_none() {
            break;
        }
    }
    let end = match p.expect(TokenProbe::RBrace, "expected `}`") {
        Ok(span) => span,
        Err(e) => {
            return Err(e);
        }
    };
    Ok(
        ast::Expr::ExprSelect(
            ast::ExprSelect { branches, default_branch, span: start.join(end) },
        ),
    )
}

impl ast::ExprFor {
    /// Parse with the given label.
    pub fn parse_with_label(
        parser: &mut Parser,
        label: Option<(ast::Label, ast::Colon)>,
        depth: u64,
    ) -> (r: Result<ast::ExprFor, ParseError>)
        requires
            old(parser).wf(),
        ensures
            advanced_or_same(*old(parser), *final(parser)),
            r is Ok ==> advanced(*old(parser), *final(parser)),
            r is Ok ==> r->Ok_0.label == label,
        decreases depth, 0int,
    {
        if depth == 0 {
            return Err(ParseError::new(parser.span_here(), "expressions nest too deeply"));
        }
        let for_span = match parser.expect(TokenProbe::KwFor, "expected `for`") {
            Ok(span) => span,
            Err(e) => {
                return Err(e);
            }
        };
        let var = match parser.expect_ident("expected loop variable") {
            Ok(ident) => ident,
            Err(e) => {
                return Err(e);
            }
        };
        let in_span = match parser.expect(TokenProbe::KwIn, "expected `in`") {
            Ok(span) => span,
            Err(e) => {
                return Err(e);
            }
        };
        let iter = match parse_expr(parser, depth - 1, false) {
            Ok(iter) => iter,
            Err(e) => {
                return Err(e);
            }
        };
        let block = match parse_block(parser, depth - 1) {
            Ok(block) => block,
            Err(e) => {
                return Err(e);
            }
        };
        Ok(
            ast::ExprFor {
                label,
                for_: ast::For { span: for_span },
                var,
                in_: ast::In { span: in_span },
                iter: Box::new(iter),
                body: Box::new(ast::ExprBlock { attributes: Vec::new(), block }),
            },
        )
    }
}

} // verus!
