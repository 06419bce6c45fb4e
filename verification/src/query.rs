//! The symbol table front end: records discovered declarations as
//! indexed entries keyed by item path, schedules function bodies as
//! deferred build work, and detects duplicate declarations.

use vstd::prelude::*;

use crate::ast::{DeclBody, Expr, ItemFn};
use crate::compile_meta::CompileMeta;
use crate::errors::{CompileError, CompileErrorKind};
use crate::item::{ComponentV, Item};
use crate::span::{SourceId, Span};
use crate::unit::UnitBuilder;

verus! {

/// The calling convention of a function-like unit, derived from whether
/// its frame is asynchronous and whether it yields.
#[derive(Clone, Copy, PartialEq, Eq, Structural)]
pub enum Call {
    /// A plain synchronous call.
    Immediate,
    /// A synchronous generator.
    Generator,
    /// An asynchronous call.
    Async,
    /// An asynchronous generator.
    Stream,
}

/// Whether a deferred build is known to be needed.
#[derive(Clone, Copy, PartialEq, Eq, Structural)]
pub enum Used {
    /// The build is needed.
    Used,
    /// The build is recorded but not yet known to be needed.
    Unused,
}

/// A function body scheduled for building.
pub struct Function {
    /// The declaration to build.
    pub ast: Box<ItemFn>,
    /// The calling convention.
    pub call: Call,
}

/// An instance function body scheduled for building.
pub struct InstanceFunction {
    /// The declaration to build.
    pub ast: Box<ItemFn>,
    /// The item of the enclosing `impl` block.
    pub impl_item: Item,
    /// The span of the declaration.
    pub instance_span: Span,
    /// The calling convention.
    pub call: Call,
}

/// One scheduled build.
pub enum Build {
    /// A free or top-level function.
    Function(Function),
    /// An instance function; always scheduled eagerly, because whether it
    /// is used cannot be known statically.
    InstanceFunction(InstanceFunction),
}

/// One entry of the deferred build queue.
pub struct BuildEntry {
    /// The item path of the declaration.
    pub item: Item,
    /// What to build.
    pub build: Build,
    /// The source the declaration came from.
    pub source_id: SourceId,
    /// Whether the build is known to be needed.
    pub used: Used,
}

/// A declaration recorded for on-demand conversion into metadata.
pub enum Indexed {
    /// An enum declaration.
    Enum,
    /// A struct declaration.
    Struct {
        /// The declared body.
        body: DeclBody,
    },
    /// An enum variant.
    Variant {
        /// The item of the enum the variant belongs to.
        enum_item: Item,
        /// The declared body.
        body: DeclBody,
    },
    /// A nested function, scheduled for building only when later found to
    /// be referenced.
    Function {
        /// The calling convention.
        call: Call,
        /// The declaration to build.
        ast: Box<ItemFn>,
        /// The enclosing `impl` item, for an instance function declared
        /// in an `impl` block that itself stands inside a body.
        impl_item: Option<Item>,
    },
    /// A constant declaration, evaluated on demand.
    Const {
        /// The initializer expression.
        expr: Box<Expr>,
    },
    /// A closure.
    Closure {
        /// The captured identifiers, in first-use order.
        captures: Vec<String>,
        /// The calling convention.
        call: Call,
    },
    /// An async block.
    AsyncBlock {
        /// The captured identifiers, in first-use order.
        captures: Vec<String>,
        /// The calling convention.
        call: Call,
    },
}

/// An indexed declaration with its position.
pub struct IndexedEntry {
    /// The span of the declaration.
    pub span: Span,
    /// The source the declaration came from.
    pub source_id: SourceId,
    /// The recorded declaration.
    pub indexed: Indexed,
}

/// The symbol table front end and deferred build registry.
pub struct Query {
    /// The unit under construction.
    pub unit: UnitBuilder,
    /// The deferred build queue, in scheduling order.
    pub queue: Vec<BuildEntry>,
    /// The indexed declarations keyed by item path, in insertion order.
    pub indexed: Vec<(Item, IndexedEntry)>,
}

impl Query {
    /// The item paths of the indexed declarations, in insertion order.
    pub open spec fn indexed_keys(&self) -> Seq<Seq<ComponentV>> {
        self.indexed@.map_values(|e: (Item, IndexedEntry)| e.0@)
    }

    /// The indexed declarations, in insertion order.
    pub open spec fn indexed_view(&self) -> Seq<(Item, IndexedEntry)> {
        self.indexed@
    }

    /// Whether `item` is already declared, as an indexed entry or as
    /// metadata of the unit.
    pub open spec fn declares(&self, item: Seq<ComponentV>) -> bool {
        self.indexed_keys().contains(item) || self.unit.keys_view().contains(item)
    }

    /// An empty registry.
    pub fn new() -> (r: Query)
        ensures
            r.indexed_keys() =~= Seq::<Seq<ComponentV>>::empty(),
            r.indexed_view() =~= Seq::<(Item, IndexedEntry)>::empty(),
            r.queue@ =~= Seq::<BuildEntry>::empty(),
            r.unit.keys_view() =~= Seq::<Seq<ComponentV>>::empty(),
            r.unit.metas_view() =~= Seq::<CompileMeta>::empty(),
            r.unit.imports_view() =~= Seq::<crate::unit::ImportEntry>::empty(),
    {
        let r = Query { unit: UnitBuilder::new(), queue: Vec::new(), indexed: Vec::new() };
        proof {
            assert(r.indexed_keys() =~= Seq::<Seq<ComponentV>>::empty());
        }
        r
    }

    /// Schedule one deferred build.
    pub fn queue_build(&mut self, entry: BuildEntry)
        ensures
            final(self).queue@ =~= old(self).queue@.push(entry),
            final(self).indexed_view() == old(self).indexed_view(),
            final(self).unit == old(self).unit,
    {
        self.queue.push(entry);
    }

    /// Record a declaration for later metadata conversion. Fails exactly
    /// when `item` is already declared, naming the conflicting path; the
    /// registry is then unchanged.
    pub fn index(&mut self, item: Item, entry: IndexedEntry, span: Span) -> (r: Result<
        (),
        CompileError,
    >)
        ensures
            if old(self).declares(item@) {
                &&& r is Err
                &&& (r->Err_0.kind matches CompileErrorKind::MetaConflict { item: it, .. }
                    && it@ == item@)
                &&& final(self).indexed_view() == old(self).indexed_view()
            } else {
                &&& r is Ok
                &&& final(self).indexed_view() =~= old(self).indexed_view().push((item, entry))
                &&& final(self).indexed_keys() =~= old(self).indexed_keys().push(item@)
            },
            final(self).unit == old(self).unit,
            final(self).queue == old(self).queue,
    {
        match self.find_indexed(&item) {
            Some(i) => {
                let existing = Some((self.indexed[i].1.source_id, self.indexed[i].1.span));
                return Err(
                    CompileError::new(
                        span,
                        CompileErrorKind::MetaConflict { item, existing },
                    ),
                );
            }
            None => {}
        }
        if self.unit.contains_item(&item) {
            let existing = match self.unit.lookup(&item) {
                Some(prior) => match &prior.source {
                    Some(cs) => Some((cs.source_id, cs.span)),
                    None => None,
                },
                None => None,
            };
            return Err(
                CompileError::new(
                    span,
                    CompileErrorKind::MetaConflict { item, existing },
                ),
            );
        }
        let ghost itemv = item@;
        self.indexed.push((item, entry));
        proof {
            assert(final(self).indexed_keys() =~= old(self).indexed_keys().push(itemv));
        }
        Ok(())
    }

    /// The position of the indexed entry for `item`, if any.
    fn find_indexed(&self, item: &Item) -> (r: Option<usize>)
        ensures
            r is Some <==> self.indexed_keys().contains(item@),
            r is Some ==> r->0 < self.indexed_view().len() && self.indexed_view()[
                r->0 as int
            ].0@ == item@,
    {
        let mut i: usize = 0;
        while i < self.indexed.len()
            invariant
                i <= self.indexed@.len(),
                forall|j: int| 0 <= j < i ==> self.indexed_keys()[j] != item@,
            decreases self.indexed@.len() - i,
        {
            proof {
                assert(self.indexed_keys()[i as int] == self.indexed@[i as int].0@);
            }
            if self.indexed[i].0.eq_item(item) {
                proof {
                    assert(self.indexed_keys()[i as int] == item@);
                }
                return Some(i);
            }
            i = i + 1;
        }
        None
    }

    /// The indexed entry for `item`, when there is one.
    pub fn indexed_entry(&self, item: &Item) -> (r: Option<&IndexedEntry>)
        ensures
            r is Some <==> self.indexed_keys().contains(item@),
    {
        let mut i: usize = 0;
        while i < self.indexed.len()
            invariant
                i <= self.indexed@.len(),
                forall|j: int| 0 <= j < i ==> self.indexed_keys()[j] != item@,
            decreases self.indexed@.len() - i,
        {
            proof {
                assert(self.indexed_keys()[i as int] == self.indexed@[i as int].0@);
            }
            if self.indexed[i].0.eq_item(item) {
                proof {
                    assert(self.indexed_keys()[i as int] == item@);
                }
                return Some(&self.indexed[i].1);
            }
            i = i + 1;
        }
        None
    }

    /// Record an enum declaration.
    pub fn index_enum(&mut self, item: Item, source_id: SourceId, span: Span) -> (r: Result<
        (),
        CompileError,
    >)
        ensures
            r is Err <==> old(self).declares(item@),
            r is Ok ==> final(self).indexed_view() =~= old(self).indexed_view().push(
                (item, IndexedEntry { span, source_id, indexed: Indexed::Enum }),
            ),
            r is Ok ==> final(self).indexed_keys() =~= old(self).indexed_keys().push(item@),
            r is Err ==> final(self).indexed_view() == old(self).indexed_view(),
            final(self).unit == old(self).unit,
            final(self).queue == old(self).queue,
    {
        self.index(item, IndexedEntry { span, source_id, indexed: Indexed::Enum }, span)
    }

    /// Record an enum variant.
    pub fn index_variant(
        &mut self,
        item: Item,
        enum_item: Item,
        body: DeclBody,
        source_id: SourceId,
        span: Span,
    ) -> (r: Result<(), CompileError>)
        ensures
            r is Err <==> old(self).declares(item@),
            r is Ok ==> final(self).indexed_view() =~= old(self).indexed_view().push(
                (
                    item,
                    IndexedEntry {
                        span,
                        source_id,
                        indexed: Indexed::Variant { enum_item, body },
                    },
                ),
            ),
            r is Err ==> final(self).indexed_view() == old(self).indexed_view(),
            r is Ok ==> final(self).indexed_keys() =~= old(self).indexed_keys().push(item@),
            final(self).unit == old(self).unit,
            final(self).queue == old(self).queue,
    {
        self.index(
            item,
            IndexedEntry { span, source_id, indexed: Indexed::Variant { enum_item, body } },
            span,
        )
    }

    /// Record a struct declaration.
    pub fn index_struct(&mut self, item: Item, body: DeclBody, source_id: SourceId, span: Span) -> (r:
        Result<(), CompileError>)
        ensures
            r is Err <==> old(self).declares(item@),
            r is Ok ==> final(self).indexed_view() =~= old(self).indexed_view().push(
                (item, IndexedEntry { span, source_id, indexed: Indexed::Struct { body } }),
            ),
            r is Err ==> final(self).indexed_view() == old(self).indexed_view(),
            r is Ok ==> final(self).indexed_keys() =~= old(self).indexed_keys().push(item@),
            final(self).unit == old(self).unit,
            final(self).queue == old(self).queue,
    {
        self.index(item, IndexedEntry { span, source_id, indexed: Indexed::Struct { body } }, span)
    }

    /// Record a constant declaration with its initializer, evaluated on
    /// demand.
    pub fn index_const(
        &mut self,
        item: Item,
        expr: Box<Expr>,
        source_id: SourceId,
        span: Span,
    ) -> (r: Result<(), CompileError>)
        ensures
            r is Err <==> old(self).declares(item@),
            r is Ok ==> final(self).indexed_view() =~= old(self).indexed_view().push(
                (item, IndexedEntry { span, source_id, indexed: Indexed::Const { expr } }),
            ),
            r is Err ==> final(self).indexed_view() == old(self).indexed_view(),
            r is Ok ==> final(self).indexed_keys() =~= old(self).indexed_keys().push(item@),
            final(self).unit == old(self).unit,
            final(self).queue == old(self).queue,
    {
        self.index(item, IndexedEntry { span, source_id, indexed: Indexed::Const { expr } }, span)
    }

    /// Record a closure with its captures and calling convention.
    pub fn index_closure(
        &mut self,
        item: Item,
        captures: Vec<String>,
        call: Call,
        source_id: SourceId,
        span: Span,
    ) -> (r: Result<(), CompileError>)
        ensures
            r is Err <==> old(self).declares(item@),
            r is Ok ==> final(self).indexed_view() =~= old(self).indexed_view().push(
                (
                    item,
                    IndexedEntry {
                        span,
                        source_id,
                        indexed: Indexed::Closure { captures, call },
                    },
                ),
            ),
            r is Err ==> final(self).indexed_view() == old(self).indexed_view(),
            r is Ok ==> final(self).indexed_keys() =~= old(self).indexed_keys().push(item@),
            final(self).unit == old(self).unit,
            final(self).queue == old(self).queue,
    {
        self.index(
            item,
            IndexedEntry { span, source_id, indexed: Indexed::Closure { captures, call } },
            span,
        )
    }

    /// Record an async block with its captures and calling convention.
    pub fn index_async_block(
        &mut self,
        item: Item,
        captures: Vec<String>,
        call: Call,
        source_id: SourceId,
        span: Span,
    ) -> (r: Result<(), CompileError>)
        ensures
            r is Err <==> old(self).declares(item@),
            r is Ok ==> final(self).indexed_view() =~= old(self).indexed_view().push(
                (
                    item,
                    IndexedEntry {
                        span,
                        source_id,
                        indexed: Indexed::AsyncBlock { captures, call },
                    },
                ),
            ),
            r is Err ==> final(self).indexed_view() == old(self).indexed_view(),
            r is Ok ==> final(self).indexed_keys() =~= old(self).indexed_keys().push(item@),
            final(self).unit == old(self).unit,
            final(self).queue == old(self).queue,
    {
        self.index(
            item,
            IndexedEntry { span, source_id, indexed: Indexed::AsyncBlock { captures, call } },
            span,
        )
    }

    /// The scheduled build for `item`, when there is one.
    pub fn find_build(&self, item: &Item) -> (r: Option<&BuildEntry>)
        ensures
            r is Some ==> r->0.item@ == item@,
    {
        let mut i: usize = 0;
        while i < self.queue.len()
            invariant
                i <= self.queue@.len(),
            decreases self.queue@.len() - i,
        {
            if self.queue[i].item.eq_item(item) {
                return Some(&self.queue[i]);
            }
            i = i + 1;
        }
        None
    }
}

} // verus!
