//! The syntax tree that indexing walks: files, items, statements,
//! expressions, patterns and literals.
//!
//! The tree is produced by the parser in [`crate::parse`] or built
//! directly by an embedder. Indexing dispatches on the node kind through
//! one exhaustive match per kind; the tree itself carries no semantic
//! information beyond spans and resolved names.

use vstd::prelude::*;

use crate::span::Span;

verus! {

/// An attribute such as `#[name]` on a declaration. Recognized by the
/// parser but not supported by indexing, which reports it as an error.
#[derive(Clone)]
pub struct Attribute {
    /// Where the attribute stands.
    pub span: Span,
}

/// An identifier with its source position.
pub struct Ident {
    /// The resolved name.
    pub ident: String,
    /// Where the identifier stands.
    pub span: Span,
}

impl Clone for Ident {
    fn clone(&self) -> (r: Ident)
        ensures
            r == *self,
    {
        Ident { ident: self.ident.clone(), span: self.span }
    }
}

/// A loop label such as `'outer`.
#[derive(Clone)]
pub struct Label {
    /// The resolved label name, without the quote.
    pub name: String,
    /// Where the label stands.
    pub span: Span,
}

/// The `:` token.
#[derive(Clone)]
pub struct Colon {
    /// Where the token stands.
    pub span: Span,
}

/// The `for` keyword.
#[derive(Clone)]
pub struct For {
    /// Where the keyword stands.
    pub span: Span,
}

/// The `in` keyword.
#[derive(Clone)]
pub struct In {
    /// Where the keyword stands.
    pub span: Span,
}

/// A `::`-separated path of identifiers.
pub struct Path {
    /// The leading identifier.
    pub first: Ident,
    /// The identifiers after the leading one.
    pub rest: Vec<Ident>,
    /// Where the whole path stands.
    pub span: Span,
}

impl Clone for Path {
    fn clone(&self) -> (r: Path)
        ensures
            r.first == self.first,
            r.rest@ =~= self.rest@,
            r.span == self.span,
    {
        let mut rest: Vec<Ident> = Vec::new();
        let mut i: usize = 0;
        while i < self.rest.len()
            invariant
                i <= self.rest@.len(),
                rest@ =~= self.rest@.take(i as int),
            decreases self.rest@.len() - i,
        {
            rest.push(self.rest[i].clone());
            proof {
                assert(rest@ =~= self.rest@.take(i + 1));
            }
            i = i + 1;
        }
        proof {
            assert(self.rest@.take(self.rest@.len() as int) =~= self.rest@);
        }
        Path { first: self.first.clone(), rest, span: self.span }
    }
}

impl Path {
    /// The path as a single identifier, when it has no trailing
    /// components.
    pub fn try_as_ident(&self) -> (r: Option<&Ident>)
        ensures
            r is Some <==> self.rest@.len() == 0,
    {
        if self.rest.len() == 0 {
            Some(&self.first)
        } else {
            None
        }
    }
}

/// A whole source file: attributes followed by items.
pub struct File {
    /// Attributes on the file itself.
    pub attributes: Vec<Attribute>,
    /// The declared items in source order.
    pub items: Vec<FileItem>,
}

/// One item of a file, with the span of its trailing semicolon when one
/// was written.
pub struct FileItem {
    /// The declaration.
    pub item: Item,
    /// The trailing semicolon, when present.
    pub semi: Option<Span>,
}

/// A declaration.
pub enum Item {
    /// A `use` import.
    ItemUse(ItemUse),
    /// An `enum` declaration.
    ItemEnum(ItemEnum),
    /// A `struct` declaration.
    ItemStruct(ItemStruct),
    /// A function declaration.
    ItemFn(Box<ItemFn>),
    /// An `impl` block of instance functions.
    ItemImpl(ItemImpl),
    /// A module declaration, inline or referring to a file.
    ItemMod(ItemMod),
    /// A constant declaration.
    ItemConst(ItemConst),
    /// A macro invocation in item position.
    MacroCall(MacroCall),
}

impl Item {
    /// Where the item stands.
    pub fn span(&self) -> Span {
        match self {
            Item::ItemUse(i) => i.span,
            Item::ItemEnum(i) => i.span,
            Item::ItemStruct(i) => i.span,
            Item::ItemFn(i) => i.span,
            Item::ItemImpl(i) => i.span,
            Item::ItemMod(i) => i.span,
            Item::ItemConst(i) => i.span,
            Item::MacroCall(i) => i.span,
        }
    }

    /// Whether the item needs a trailing semicolon where it is declared;
    /// a superfluous one earns a warning.
    pub fn needs_semi_colon(&self) -> bool {
        match self {
            Item::ItemUse(_) => true,
            Item::ItemConst(_) => true,
            Item::ItemStruct(item_struct) => !matches!(item_struct.body, DeclBody::Record(_)),
            Item::ItemMod(item_mod) => matches!(item_mod.body, ItemModBody::EmptyBody(_)),
            Item::MacroCall(_) => true,
            _ => false,
        }
    }
}

/// One component of a `use` path after the leading identifier.
#[derive(Clone)]
pub enum ItemUseComponent {
    /// A plain identifier component.
    Ident(Ident),
    /// A `*` wildcard, importing every child of the prefix.
    Wildcard(Span),
}

/// A `use` import declaration.
#[derive(Clone)]
pub struct ItemUse {
    /// Attributes on the import.
    pub attributes: Vec<Attribute>,
    /// The leading path component.
    pub first: Ident,
    /// The components after the leading one; only the last may be a
    /// wildcard.
    pub rest: Vec<ItemUseComponent>,
    /// Where the import stands.
    pub span: Span,
}

/// One argument of a function or closure.
#[derive(Clone)]
pub enum FnArg {
    /// The receiver `self`.
    Self_(Span),
    /// A named argument.
    Ident(Ident),
    /// An ignored `_` argument.
    Ignore(Span),
}

/// A function declaration.
pub struct ItemFn {
    /// Attributes on the function.
    pub attributes: Vec<Attribute>,
    /// The `async` qualifier, when present.
    pub async_: Option<Span>,
    /// The function name.
    pub name: Ident,
    /// The declared arguments.
    pub args: Vec<FnArg>,
    /// The function body.
    pub body: Block,
    /// Where the declaration stands.
    pub span: Span,
}

impl ItemFn {
    /// Whether the function takes a `self` receiver and is therefore an
    /// instance function.
    pub fn is_instance(&self) -> (r: bool)
        ensures
            r == (self.args@.len() > 0 && self.args@[0] is Self_),
    {
        if self.args.len() > 0 {
            matches!(self.args[0], FnArg::Self_(_))
        } else {
            false
        }
    }
}

/// One declared field of a struct or enum variant.
#[derive(Clone)]
pub struct Field {
    /// Attributes on the field.
    pub attributes: Vec<Attribute>,
    /// The field name.
    pub name: Ident,
}

/// The body of a struct or of an enum variant.
#[derive(Clone)]
pub enum DeclBody {
    /// No body at all: a unit struct or variant.
    Unit,
    /// A tuple body with unnamed, positional fields.
    Tuple(Vec<Field>),
    /// A record body with named fields.
    Record(Vec<Field>),
}

impl DeclBody {
    /// The number of declared fields.
    pub fn field_count(&self) -> usize {
        match self {
            DeclBody::Unit => 0,
            DeclBody::Tuple(fields) => fields.len(),
            DeclBody::Record(fields) => fields.len(),
        }
    }
}

/// An `enum` declaration.
pub struct ItemEnum {
    /// Attributes on the declaration.
    pub attributes: Vec<Attribute>,
    /// The enum name.
    pub name: Ident,
    /// The declared variants.
    pub variants: Vec<ItemVariant>,
    /// Where the declaration stands.
    pub span: Span,
}

/// One variant of an `enum` declaration.
#[derive(Clone)]
pub struct ItemVariant {
    /// Attributes on the variant.
    pub attributes: Vec<Attribute>,
    /// The variant name.
    pub name: Ident,
    /// The variant body.
    pub body: DeclBody,
}

/// A `struct` declaration.
pub struct ItemStruct {
    /// Attributes on the declaration.
    pub attributes: Vec<Attribute>,
    /// The struct name.
    pub ident: Ident,
    /// The struct body.
    pub body: DeclBody,
    /// Where the declaration stands.
    pub span: Span,
}

/// An `impl` block, holding instance functions for a named type.
pub struct ItemImpl {
    /// Attributes on the block.
    pub attributes: Vec<Attribute>,
    /// The path of the implemented type.
    pub path: Path,
    /// The functions declared inside the block.
    pub functions: Vec<ItemFn>,
    /// Where the block stands.
    pub span: Span,
}

/// The body of a module declaration.
pub enum ItemModBody {
    /// No body: the module lives in a separate file to be loaded.
    EmptyBody(Span),
    /// An inline body of items in braces.
    InlineBody(Box<File>),
}

/// A module declaration.
pub struct ItemMod {
    /// Attributes on the declaration.
    pub attributes: Vec<Attribute>,
    /// The module name.
    pub name: Ident,
    /// The module body.
    pub body: ItemModBody,
    /// Where the declaration stands.
    pub span: Span,
}

/// A constant declaration.
pub struct ItemConst {
    /// Attributes on the declaration.
    pub attributes: Vec<Attribute>,
    /// The constant name.
    pub name: Ident,
    /// The initializer expression.
    pub expr: Box<Expr>,
    /// Where the declaration stands.
    pub span: Span,
}

/// A macro invocation such as `name!( ... )`.
pub struct MacroCall {
    /// The macro path.
    pub path: Path,
    /// The input text between the delimiters; the evaluator is keyed by
    /// the macro path, and the text may be left empty.
    pub input: String,
    /// Where the invocation stands.
    pub span: Span,
}

impl Clone for MacroCall {
    fn clone(&self) -> (r: MacroCall)
        ensures
            r.path.first == self.path.first,
            r.path.rest@ =~= self.path.rest@,
            r.path.span == self.path.span,
            r.input@ == self.input@,
            r.span == self.span,
    {
        MacroCall { path: self.path.clone(), input: self.input.clone(), span: self.span }
    }
}

/// A braced block of statements.
pub struct Block {
    /// The statements in source order.
    pub statements: Vec<Stmt>,
    /// Where the block stands.
    pub span: Span,
}

/// One statement of a block.
pub enum Stmt {
    /// A declaration in statement position.
    Item(Item),
    /// An expression without a trailing semicolon.
    Expr(Expr),
    /// An expression with a trailing semicolon.
    Semi(Expr, Span),
}

/// A block expression, possibly carrying attributes.
pub struct ExprBlock {
    /// Attributes on the block.
    pub attributes: Vec<Attribute>,
    /// The block itself.
    pub block: Block,
}

/// An `async` block expression.
pub struct ExprAsync {
    /// Attributes on the block.
    pub attributes: Vec<Attribute>,
    /// The block itself.
    pub block: Block,
    /// Where the expression stands.
    pub span: Span,
}

/// A `let` binding.
pub struct ExprLet {
    /// The bound pattern.
    pub pat: Pat,
    /// The bound expression.
    pub expr: Box<Expr>,
    /// Where the binding stands.
    pub span: Span,
}

/// The condition of an `if` or `while`.
pub enum Condition {
    /// A boolean expression.
    Expr(Box<Expr>),
    /// A `let` pattern condition.
    ExprLet(Box<ExprLet>),
}

/// An `else if` arm.
pub struct ExprElseIf {
    /// The arm's condition.
    pub condition: Condition,
    /// The arm's body.
    pub block: Block,
}

/// An `if` expression.
pub struct ExprIf {
    /// The leading condition.
    pub condition: Condition,
    /// The consequent block.
    pub block: Block,
    /// The `else if` arms in source order.
    pub expr_else_ifs: Vec<ExprElseIf>,
    /// The final `else` block, when present.
    pub expr_else: Option<Block>,
    /// Where the expression stands.
    pub span: Span,
}

/// A binary operator.
#[derive(Clone, Copy, PartialEq, Eq, Structural)]
pub enum BinOp {
    /// Addition.
    Add,
    /// Subtraction.
    Sub,
    /// Multiplication.
    Mul,
    /// Division.
    Div,
    /// Left shift.
    Shl,
    /// Right shift.
    Shr,
    /// Less than.
    Lt,
    /// Less than or equal.
    Le,
    /// Greater than.
    Gt,
    /// Greater than or equal.
    Ge,
    /// Equality.
    EqEq,
    /// Inequality.
    Neq,
}

/// A binary expression.
pub struct ExprBinary {
    /// The left operand.
    pub lhs: Box<Expr>,
    /// The operator.
    pub op: BinOp,
    /// The right operand.
    pub rhs: Box<Expr>,
    /// Where the expression stands.
    pub span: Span,
}

/// One arm of a `match`.
pub struct MatchBranch {
    /// The arm's pattern.
    pub pat: Pat,
    /// The arm's guard expression, when present.
    pub condition: Option<Box<Expr>>,
    /// The arm's body.
    pub body: Box<Expr>,
}

/// A `match` expression.
pub struct ExprMatch {
    /// The matched expression.
    pub expr: Box<Expr>,
    /// The arms in source order.
    pub branches: Vec<MatchBranch>,
    /// Where the expression stands.
    pub span: Span,
}

/// A closure expression.
pub struct ExprClosure {
    /// The `async` qualifier, when present.
    pub async_: Option<Span>,
    /// The declared arguments.
    pub args: Vec<FnArg>,
    /// The closure body.
    pub body: Box<Expr>,
    /// Where the expression stands.
    pub span: Span,
}

/// A `while` loop.
pub struct ExprWhile {
    /// The loop condition.
    pub condition: Condition,
    /// The loop body.
    pub body: Block,
    /// Where the loop stands.
    pub span: Span,
}

/// An unconditional `loop`.
pub struct ExprLoop {
    /// The loop body.
    pub body: Block,
    /// Where the loop stands.
    pub span: Span,
}

/// A `for` loop expression `for i in [1, 2, 3] {}`.
pub struct ExprFor {
    /// The label of the loop.
    pub label: Option<(Label, Colon)>,
    /// The `for` keyword.
    pub for_: For,
    /// The variable binding.
    pub var: Ident,
    /// The `in` keyword.
    pub in_: In,
    /// Expression producing the iterator.
    pub iter: Box<Expr>,
    /// The body of the loop.
    pub body: Box<ExprBlock>,
}

impl ExprFor {
    /// Where the loop stands: from the label or `for` keyword to the end
    /// of the body.
    pub fn span(&self) -> Span {
        let start = match &self.label {
            Some(l) => l.0.span,
            None => self.for_.span,
        };
        start.join(self.body.block.span)
    }
}

/// A field access such as `value.field`.
pub struct ExprFieldAccess {
    /// The accessed expression.
    pub expr: Box<Expr>,
    /// The field name.
    pub field: Ident,
    /// Where the access stands.
    pub span: Span,
}

/// A unary operator.
#[derive(Clone, Copy, PartialEq, Eq, Structural)]
pub enum UnaryOp {
    /// Boolean negation.
    Not,
    /// Arithmetic negation.
    Neg,
}

/// A unary expression.
pub struct ExprUnary {
    /// The operator.
    pub op: UnaryOp,
    /// The operand.
    pub expr: Box<Expr>,
    /// Where the expression stands.
    pub span: Span,
}

/// An index read such as `target[index]`.
pub struct ExprIndexGet {
    /// The indexed expression.
    pub target: Box<Expr>,
    /// The index expression.
    pub index: Box<Expr>,
    /// Where the read stands.
    pub span: Span,
}

/// An index write such as `target[index] = value`.
pub struct ExprIndexSet {
    /// The indexed expression.
    pub target: Box<Expr>,
    /// The index expression.
    pub index: Box<Expr>,
    /// The assigned value.
    pub value: Box<Expr>,
    /// Where the write stands.
    pub span: Span,
}

/// What a `break` carries out of its loop.
pub enum ExprBreakValue {
    /// A value expression.
    Expr(Box<Expr>),
    /// A loop label.
    Label(Label),
}

/// A `break` expression.
pub struct ExprBreak {
    /// The carried value or label, when present.
    pub expr: Option<ExprBreakValue>,
    /// Where the expression stands.
    pub span: Span,
}

/// A `yield` expression, marking the enclosing frame as a generator.
pub struct ExprYield {
    /// The yielded value, when present.
    pub expr: Option<Box<Expr>>,
    /// Where the expression stands.
    pub span: Span,
}

/// A `return` expression.
pub struct ExprReturn {
    /// The returned value, when present.
    pub expr: Option<Box<Expr>>,
    /// Where the expression stands.
    pub span: Span,
}

/// An `.await` expression, legal only inside asynchronous frames.
pub struct ExprAwait {
    /// The awaited expression.
    pub expr: Box<Expr>,
    /// Where the expression stands.
    pub span: Span,
}

/// A `?` propagation expression.
pub struct ExprTry {
    /// The tried expression.
    pub expr: Box<Expr>,
    /// Where the expression stands.
    pub span: Span,
}

/// One branch of a `select` expression.
pub struct SelectBranch {
    /// The branch's pattern, bound in a fresh child scope.
    pub pat: Pat,
    /// The awaited expression, evaluated in the parent scope.
    pub expr: Box<Expr>,
    /// The branch's body.
    pub body: Box<Expr>,
}

/// A `select` expression awaiting several branches.
pub struct ExprSelect {
    /// The branches in source order.
    pub branches: Vec<SelectBranch>,
    /// The default branch body, when present.
    pub default_branch: Option<Box<Expr>>,
    /// Where the expression stands.
    pub span: Span,
}

/// A call expression.
pub struct ExprCall {
    /// The called expression.
    pub expr: Box<Expr>,
    /// The arguments in source order.
    pub args: Vec<Expr>,
    /// Where the call stands.
    pub span: Span,
}

/// A literal in expression position, possibly carrying attributes.
pub struct ExprLit {
    /// Attributes on the literal.
    pub attributes: Vec<Attribute>,
    /// The literal itself.
    pub lit: Lit,
    /// Where the literal stands.
    pub span: Span,
}

/// An expression.
pub enum Expr {
    /// The receiver `self`.
    Self_(Span),
    /// A path, possibly a single identifier.
    Path(Path),
    /// A `let` binding.
    ExprLet(ExprLet),
    /// A block.
    ExprBlock(ExprBlock),
    /// An `async` block.
    ExprAsync(ExprAsync),
    /// A parenthesized group.
    ExprGroup(Box<Expr>, Span),
    /// An `if` expression.
    ExprIf(ExprIf),
    /// A binary expression.
    ExprBinary(ExprBinary),
    /// A `match` expression.
    ExprMatch(ExprMatch),
    /// A closure.
    ExprClosure(ExprClosure),
    /// A `while` loop.
    ExprWhile(ExprWhile),
    /// An unconditional loop.
    ExprLoop(ExprLoop),
    /// A `for` loop.
    ExprFor(ExprFor),
    /// An index write.
    ExprIndexSet(ExprIndexSet),
    /// A field access.
    ExprFieldAccess(ExprFieldAccess),
    /// A unary expression.
    ExprUnary(ExprUnary),
    /// An index read.
    ExprIndexGet(ExprIndexGet),
    /// A `break`.
    ExprBreak(ExprBreak),
    /// A `yield`.
    ExprYield(ExprYield),
    /// A `return`.
    ExprReturn(ExprReturn),
    /// An `.await`.
    ExprAwait(ExprAwait),
    /// A `?` propagation.
    ExprTry(ExprTry),
    /// A `select` over several futures.
    ExprSelect(ExprSelect),
    /// A call.
    ExprCall(ExprCall),
    /// A literal.
    ExprLit(ExprLit),
    /// A macro invocation in expression position.
    MacroCall(MacroCall),
}

impl Expr {
    /// Where the expression stands.
    pub fn span(&self) -> Span {
        match self {
            Expr::Self_(span) => *span,
            Expr::Path(path) => path.span,
            Expr::ExprLet(e) => e.span,
            Expr::ExprBlock(e) => e.block.span,
            Expr::ExprAsync(e) => e.span,
            Expr::ExprGroup(_, span) => *span,
            Expr::ExprIf(e) => e.span,
            Expr::ExprBinary(e) => e.span,
            Expr::ExprMatch(e) => e.span,
            Expr::ExprClosure(e) => e.span,
            Expr::ExprWhile(e) => e.span,
            Expr::ExprLoop(e) => e.span,
            Expr::ExprFor(e) => e.span(),
            Expr::ExprIndexSet(e) => e.span,
            Expr::ExprFieldAccess(e) => e.span,
            Expr::ExprUnary(e) => e.span,
            Expr::ExprIndexGet(e) => e.span,
            Expr::ExprBreak(e) => e.span,
            Expr::ExprYield(e) => e.span,
            Expr::ExprReturn(e) => e.span,
            Expr::ExprAwait(e) => e.span,
            Expr::ExprTry(e) => e.span,
            Expr::ExprSelect(e) => e.span,
            Expr::ExprCall(e) => e.span,
            Expr::ExprLit(e) => e.span,
            Expr::MacroCall(m) => m.span,
        }
    }
}

/// A number literal, kept as its spelling; constant evaluation parses it.
#[derive(Clone)]
pub struct LitNumber {
    /// Whether the spelling has a decimal point, making it a float.
    pub is_float: bool,
    /// The spelling as written, including any base prefix.
    pub text: String,
    /// Where the literal stands.
    pub span: Span,
}

/// A string literal with its unescaped text.
#[derive(Clone)]
pub struct LitStr {
    /// The unescaped text.
    pub text: String,
    /// Where the literal stands.
    pub span: Span,
}

/// One piece of a template literal.
pub enum TemplateComponent {
    /// A literal text piece.
    String(String),
    /// An interpolated expression piece.
    Expr(Box<Expr>),
}

/// A template literal with interpolated expressions.
pub struct LitTemplate {
    /// The pieces in source order.
    pub components: Vec<TemplateComponent>,
    /// Where the literal stands.
    pub span: Span,
}

/// A tuple literal.
pub struct LitTuple {
    /// The element expressions in source order.
    pub items: Vec<Expr>,
    /// Where the literal stands.
    pub span: Span,
}

/// A vector literal.
pub struct LitVec {
    /// The element expressions in source order.
    pub items: Vec<Expr>,
    /// Where the literal stands.
    pub span: Span,
}

/// One field assignment of an object literal; a key without a value is
/// shorthand for a use of the identifier.
pub struct ObjectAssign {
    /// The field key.
    pub key: Ident,
    /// The assigned expression, when written out.
    pub assign: Option<Box<Expr>>,
}

/// An object literal.
pub struct LitObject {
    /// The field assignments in source order.
    pub assignments: Vec<ObjectAssign>,
    /// Where the literal stands.
    pub span: Span,
}

/// A literal.
pub enum Lit {
    /// The unit literal.
    Unit(Span),
    /// A boolean literal.
    Bool(bool, Span),
    /// A byte literal.
    Byte(u8, Span),
    /// A character literal.
    Char(char, Span),
    /// A number literal.
    Number(LitNumber),
    /// A string literal.
    Str(LitStr),
    /// A template literal.
    Template(LitTemplate),
    /// A tuple literal.
    Tuple(LitTuple),
    /// A vector literal.
    Vec(LitVec),
    /// An object literal.
    Object(LitObject),
}

/// A pattern.
pub enum Pat {
    /// A path pattern; a single identifier binds a name.
    PatPath(Path),
    /// The `_` pattern.
    PatIgnore(Span),
    /// The unit pattern.
    PatUnit(Span),
    /// A number pattern.
    PatNumber(LitNumber),
    /// A string pattern.
    PatString(LitStr),
    /// A byte pattern.
    PatByte(u8, Span),
    /// A character pattern.
    PatChar(char, Span),
    /// A tuple pattern.
    PatTuple(PatTuple),
    /// A vector pattern.
    PatVec(PatVec),
    /// An object pattern.
    PatObject(PatObject),
}

/// A tuple pattern.
pub struct PatTuple {
    /// The element patterns in source order.
    pub items: Vec<Pat>,
    /// Where the pattern stands.
    pub span: Span,
}

/// A vector pattern.
pub struct PatVec {
    /// The element patterns in source order.
    pub items: Vec<Pat>,
    /// Where the pattern stands.
    pub span: Span,
}

/// One field of an object pattern; a key without a binding binds the key
/// identifier itself.
pub struct PatObjectField {
    /// The field key.
    pub key: Ident,
    /// The bound pattern, when written out.
    pub binding: Option<Box<Pat>>,
}

/// An object pattern.
pub struct PatObject {
    /// The fields in source order.
    pub fields: Vec<PatObjectField>,
    /// Where the pattern stands.
    pub span: Span,
}

} // verus!
