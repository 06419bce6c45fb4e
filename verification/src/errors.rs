//! Errors and warnings that indexing accumulates. A failing task never
//! aborts the pass: its error is recorded, tagged with the originating
//! source, and processing continues with the next task.

use vstd::prelude::*;

use crate::item::Item;
use crate::span::{SourceId, Span};

verus! {

/// What went wrong while indexing a declaration.
#[derive(Debug)]
pub enum CompileErrorKind {
    /// An internal consistency failure: a defect of the core itself, not
    /// of user input.
    Internal {
        /// What the core expected.
        message: String,
    },
    /// A recognized but not-yet-implemented surface form, such as an
    /// attribute on a declaration: a user-facing failure, kept distinct
    /// from internal consistency failures.
    UnsupportedSyntax {
        /// The unsupported feature.
        feature: String,
    },
    /// A module without a body in a context with no filesystem root.
    UnsupportedModuleSource,
    /// A filesystem module that was already loaded once.
    ModAlreadyLoaded {
        /// The module's item path.
        item: Item,
        /// The source that loaded it first.
        existing_source: SourceId,
        /// The span that loaded it first.
        existing_span: Span,
    },
    /// An instance function declared outside an `impl` block.
    InstanceFunctionOutsideImpl,
    /// A `self` argument where no method context exists.
    UnsupportedSelf,
    /// A wildcard in the middle of a `use` path.
    UnsupportedWildcard,
    /// A wildcard import whose prefix is not a known module.
    MissingModule {
        /// The prefix that was looked up.
        item: Item,
    },
    /// A second declaration for an item path that is already declared,
    /// naming the prior declaration site where one is recorded.
    MetaConflict {
        /// The conflicting item path.
        item: Item,
        /// The source and span of the existing declaration, where the
        /// existing record carries them.
        existing: Option<(SourceId, Span)>,
    },
    /// An `.await` outside an asynchronous frame.
    AwaitOutsideAsync,
    /// A `yield` outside any function-like frame.
    YieldOutsideFunction,
    /// The counter for anonymous path components is exhausted.
    PathLimitExceeded,
    /// A constant refers to an item that is not a known constant.
    MissingConst {
        /// The item path the constant referred to.
        item: Item,
    },
    /// Constant evaluation exceeded its depth budget, as with cyclic
    /// constants.
    ConstDepthExceeded,
    /// A constant expression of a form evaluation does not support.
    UnsupportedConstExpr,
    /// Constant arithmetic overflowed its 64-bit range.
    ConstArithmeticOverflow,
    /// A constant division or remainder by zero.
    ConstDivisionByZero,
    /// A number literal whose spelling cannot be read.
    BadNumberLiteral,
    /// Declarations nested deeper than the supported bound.
    NestingLimitExceeded,
    /// A filesystem module with no registered source text.
    MissingSourceFile {
        /// The module's item path.
        item: Item,
    },
    /// A macro invocation with no registered evaluation.
    MissingMacro {
        /// The invoked macro's path.
        item: Item,
    },
}

/// An error at a source position.
#[derive(Debug)]
pub struct CompileError {
    /// Where the error was found.
    pub span: Span,
    /// What went wrong.
    pub kind: CompileErrorKind,
}

impl CompileError {
    /// An error of the given kind at `span`.
    pub fn new(span: Span, kind: CompileErrorKind) -> (r: CompileError)
        ensures
            r.span == span,
            r.kind == kind,
    {
        CompileError { span, kind }
    }

    /// An unsupported-syntax error at `span`.
    pub fn unsupported(span: Span, feature: &str) -> (r: CompileError)
        ensures
            r.span == span,
            r.kind matches CompileErrorKind::UnsupportedSyntax { feature: f } && f@ == feature@,
    {
        CompileError {
            span,
            kind: CompileErrorKind::UnsupportedSyntax { feature: feature.to_owned() },
        }
    }

    /// An internal consistency error at `span`.
    pub fn internal(span: Span, message: &str) -> (r: CompileError)
        ensures
            r.span == span,
            r.kind matches CompileErrorKind::Internal { message: m } && m@ == message@,
    {
        CompileError { span, kind: CompileErrorKind::Internal { message: message.to_owned() } }
    }
}

/// A parse failure at a source position.
#[derive(Debug)]
pub struct ParseError {
    /// Where parsing failed.
    pub span: Span,
    /// What the parser expected or found.
    pub message: String,
}

impl ParseError {
    /// A parse error at `span`.
    pub fn new(span: Span, message: &str) -> (r: ParseError)
        ensures
            r.span == span,
            r.message@ == message@,
    {
        ParseError { span, message: message.to_owned() }
    }
}

/// One recorded failure, tagged with the source it came from.
#[derive(Debug)]
pub enum LoadErrorKind {
    /// A failure while indexing.
    Compile(CompileError),
    /// A failure while parsing.
    Parse(ParseError),
    /// An internal consistency failure outside any declaration.
    Internal {
        /// What the core expected.
        message: String,
    },
}

/// A failure tagged with the originating source.
#[derive(Debug)]
pub struct LoadError {
    /// The source the failure came from.
    pub source_id: SourceId,
    /// The failure itself.
    pub kind: LoadErrorKind,
}

impl LoadError {
    /// A compile failure in the given source.
    pub fn compile(source_id: SourceId, error: CompileError) -> (r: LoadError)
        ensures
            r.source_id == source_id,
            r.kind == LoadErrorKind::Compile(error),
    {
        LoadError { source_id, kind: LoadErrorKind::Compile(error) }
    }

    /// A parse failure in the given source.
    pub fn parse(source_id: SourceId, error: ParseError) -> (r: LoadError)
        ensures
            r.source_id == source_id,
            r.kind == LoadErrorKind::Parse(error),
    {
        LoadError { source_id, kind: LoadErrorKind::Parse(error) }
    }

    /// An internal consistency failure in the given source.
    pub fn internal(source_id: SourceId, message: &str) -> (r: LoadError)
        ensures
            r.source_id == source_id,
            r.kind matches LoadErrorKind::Internal { message: m } && m@ == message@,
    {
        LoadError { source_id, kind: LoadErrorKind::Internal { message: message.to_owned() } }
    }
}

/// The accumulated failures of one pass, in the order they were found.
#[derive(Debug)]
pub struct Errors {
    errors: Vec<LoadError>,
}

impl View for Errors {
    type V = Seq<LoadError>;

    closed spec fn view(&self) -> Seq<LoadError> {
        self.errors@
    }
}

impl Errors {
    /// An empty error list.
    pub fn new() -> (r: Errors)
        ensures
            r@ =~= Seq::<LoadError>::empty(),
    {
        Errors { errors: Vec::new() }
    }

    /// Record one failure at the end of the list.
    pub fn push(&mut self, error: LoadError)
        ensures
            final(self)@ =~= old(self)@.push(error),
    {
        self.errors.push(error);
    }

    /// The number of recorded failures.
    pub fn len(&self) -> (r: usize)
        ensures
            r == self@.len(),
    {
        self.errors.len()
    }

    /// Whether no failure was recorded.
    pub fn is_empty(&self) -> (r: bool)
        ensures
            r == (self@.len() == 0),
    {
        self.errors.len() == 0
    }

    /// The failure at position `i`.
    pub fn get(&self, i: usize) -> (r: &LoadError)
        requires
            i < self@.len(),
        ensures
            *r == self@[i as int],
    {
        &self.errors[i]
    }
}

/// One non-fatal observation.
#[derive(Debug)]
pub struct Warning {
    /// The source the warning came from.
    pub source_id: SourceId,
    /// Where the warned-about text stands.
    pub span: Span,
}

/// The accumulated warnings of one pass, in the order they were found.
#[derive(Debug)]
pub struct Warnings {
    warnings: Vec<Warning>,
}

impl View for Warnings {
    type V = Seq<Warning>;

    closed spec fn view(&self) -> Seq<Warning> {
        self.warnings@
    }
}

impl Warnings {
    /// An empty warning list.
    pub fn new() -> (r: Warnings)
        ensures
            r@ =~= Seq::<Warning>::empty(),
    {
        Warnings { warnings: Vec::new() }
    }

    /// Warn about a semicolon that follows an item needing none.
    pub fn unnecessary_semi_colon(&mut self, source_id: SourceId, span: Span)
        ensures
            final(self)@ =~= old(self)@.push(Warning { source_id, span }),
    {
        self.warnings.push(Warning { source_id, span });
    }

    /// The number of recorded warnings.
    pub fn len(&self) -> (r: usize)
        ensures
            r == self@.len(),
    {
        self.warnings.len()
    }

    /// The warning at position `i`.
    pub fn get(&self, i: usize) -> (r: &Warning)
        requires
            i < self@.len(),
        ensures
            *r == self@[i as int],
    {
        &self.warnings[i]
    }
}

} // verus!
