//! The indexer: a recursive tree walker that, given one syntax node and
//! the ambient path and scope context, registers declaration metadata,
//! schedules deferred builds, and enqueues follow-up tasks (file loads,
//! imports, macro expansions) rather than resolving them inline.
//!
//! Every walking function leaves the item path exactly as it found it and
//! the scope stack with the same shape, on every exit path including
//! early failure returns.

use vstd::prelude::*;

use crate::ast;
use crate::compile_meta::{
    CompileMeta, CompileMetaKind, CompileSource, Type, TypeHash,
};
use crate::errors::{CompileError, CompileErrorKind};
use crate::index_scopes::{scope_shape, IndexScopes, LevelV};
use crate::item::{ComponentV, Item};
use crate::items::{AnonKind, Items};
use crate::query::{Build, BuildEntry, Call, Function, Indexed, IndexedEntry, InstanceFunction, Query, Used};
use crate::span::{SourceId, Span};
use crate::worker::{
    Import, LoadFileKind, Macro, MacroKind, SourceLoader, Sources, Task, Visits,
};

verus! {

broadcast use vstd::std_specs::vec::axiom_vec_index_decreases;

/// The outcome of one step of indexing.
pub type CompileResult = Result<(), CompileError>;

/// The indexer: the ambient state one indexing task runs in, together
/// with the shared tables it populates.
pub struct Indexer {
    /// The filesystem root that the indexed file originated from.
    pub root: Option<String>,
    /// The source being indexed.
    pub source_id: SourceId,
    /// The path builder standing at the current item.
    pub items: Items,
    /// The scope tracker for the current fragment.
    pub scopes: IndexScopes,
    /// The enclosing `impl` items, innermost last.
    pub impl_items: Vec<Item>,
    /// The symbol table and deferred build registry.
    pub query: Query,
    /// The worker's task queue; indexing appends follow-up tasks.
    pub queue: Vec<Task>,
    /// The filesystem modules already loaded, with who loaded them.
    pub loaded: Vec<(Item, (SourceId, Span))>,
    /// The registered source texts.
    pub sources: Sources,
    /// The warnings accumulated so far.
    pub warnings: crate::errors::Warnings,
    /// The cross-cutting events observed so far.
    pub visits: Visits,
    /// The source loader for filesystem modules.
    pub loader: SourceLoader,
}

/// The item paths of the modules already loaded.
pub open spec fn loaded_paths(loaded: Seq<(Item, (SourceId, Span))>) -> Seq<Seq<ComponentV>> {
    loaded.map_values(|e: (Item, (SourceId, Span))| e.0@)
}

/// An element stays present when another is appended.
proof fn lemma_contains_after_push<A>(s: Seq<A>, x: A, y: A)
    requires
        s.contains(y),
    ensures
        s.push(x).contains(y),
{
    let j = choose|j: int| 0 <= j < s.len() && s[j] == y;
    assert(s.push(x)[j] == y);
}

/// The attributes a declaration carries.
pub open spec fn spec_item_attributes(item: ast::Item) -> Seq<ast::Attribute> {
    match item {
        ast::Item::ItemUse(i) => i.attributes@,
        ast::Item::ItemEnum(i) => i.attributes@,
        ast::Item::ItemStruct(i) => i.attributes@,
        ast::Item::ItemFn(i) => i.attributes@,
        ast::Item::ItemImpl(i) => i.attributes@,
        ast::Item::ItemMod(i) => i.attributes@,
        ast::Item::ItemConst(i) => i.attributes@,
        ast::Item::MacroCall(_) => Seq::empty(),
    }
}

/// Whether a declaration's registration is visible among the indexed
/// keys under the given path: a struct, enum or constant named `n` is
/// declared at `path::n`. Declarations of other kinds register
/// elsewhere (functions in the unit or build queue, imports and macros
/// as tasks) and this predicate asks nothing of them.
pub open spec fn file_item_declared(
    item: ast::Item,
    path: Seq<ComponentV>,
    keys: Seq<Seq<ComponentV>>,
) -> bool {
    &&& (item matches ast::Item::ItemStruct(st) ==> keys.contains(
        path.push(ComponentV::Str(st.ident.ident@)),
    ))
    &&& (item matches ast::Item::ItemEnum(e) ==> keys.contains(
        path.push(ComponentV::Str(e.name.ident@)),
    ))
    &&& (item matches ast::Item::ItemConst(c) ==> keys.contains(
        path.push(ComponentV::Str(c.name.ident@)),
    ))
}

/// A declaration stays visible as the indexed keys extend.
pub proof fn lemma_file_item_stays_declared(
    item: ast::Item,
    path: Seq<ComponentV>,
    pre: Seq<Seq<ComponentV>>,
    post: Seq<Seq<ComponentV>>,
)
    requires
        file_item_declared(item, path, pre),
        post.len() >= pre.len(),
        forall|j: int| 0 <= j < pre.len() ==> post[j] == pre[j],
    ensures
        file_item_declared(item, path, post),
{
    match item {
        ast::Item::ItemStruct(st) => {
            let key = path.push(ComponentV::Str(st.ident.ident@));
            let j = choose|j: int| 0 <= j < pre.len() && pre[j] == key;
            assert(post[j] == key);
        },
        ast::Item::ItemEnum(e) => {
            let key = path.push(ComponentV::Str(e.name.ident@));
            let j = choose|j: int| 0 <= j < pre.len() && pre[j] == key;
            assert(post[j] == key);
        },
        ast::Item::ItemConst(c) => {
            let key = path.push(ComponentV::Str(c.name.ident@));
            let j = choose|j: int| 0 <= j < pre.len() && pre[j] == key;
            assert(post[j] == key);
        },
        _ => {},
    }
}

/// Whether no field of a struct or variant body carries an attribute.
pub open spec fn body_fields_attr_free(body: ast::DeclBody) -> bool {
    match body {
        ast::DeclBody::Unit => true,
        ast::DeclBody::Tuple(fields) => forall|j: int|
            0 <= j < fields@.len() ==> #[trigger] fields@[j].attributes@.len() == 0,
        ast::DeclBody::Record(fields) => forall|j: int|
            0 <= j < fields@.len() ==> #[trigger] fields@[j].attributes@.len() == 0,
    }
}

/// Whether `post` holds every task `pre` held, unchanged and in place;
/// indexing only appends follow-up tasks at the tail.
pub open spec fn tasks_extend(pre: Seq<Task>, post: Seq<Task>) -> bool {
    &&& post.len() >= pre.len()
    &&& forall|j: int| 0 <= j < pre.len() ==> post[j] == pre[j]
}

/// Whether `post` holds every indexed declaration `pre` held, unchanged
/// and in place; indexing only appends new declarations.
pub open spec fn indexed_extend(
    pre: Seq<(Item, crate::query::IndexedEntry)>,
    post: Seq<(Item, crate::query::IndexedEntry)>,
) -> bool {
    &&& post.len() >= pre.len()
    &&& forall|j: int| 0 <= j < pre.len() ==> post[j] == pre[j]
}

/// A declared key stays declared as the indexed table extends.
pub proof fn lemma_indexed_key_stays(
    pre: Seq<(Item, crate::query::IndexedEntry)>,
    post: Seq<(Item, crate::query::IndexedEntry)>,
    key: Seq<ComponentV>,
)
    requires
        indexed_extend(pre, post),
        pre.map_values(|e: (Item, crate::query::IndexedEntry)| e.0@).contains(key),
    ensures
        post.map_values(|e: (Item, crate::query::IndexedEntry)| e.0@).contains(key),
{
    let keys_pre = pre.map_values(|e: (Item, crate::query::IndexedEntry)| e.0@);
    let keys_post = post.map_values(|e: (Item, crate::query::IndexedEntry)| e.0@);
    let j = choose|j: int| 0 <= j < keys_pre.len() && keys_pre[j] == key;
    assert(post[j] == pre[j]);
    assert(keys_post[j] == key);
}

/// Whether the deferred build queue and the unit's metadata are
/// untouched: walking inside a function body records nested declarations
/// for lazy scheduling but never schedules a build or inserts metadata
/// itself.
pub open spec fn builds_preserved(pre: Indexer, post: Indexer) -> bool {
    &&& post.query.queue == pre.query.queue
    &&& post.query.unit.metas_view() == pre.query.unit.metas_view()
    &&& post.query.unit.keys_view() == pre.query.unit.keys_view()
}

/// What every walking function preserves: the item path is restored
/// exactly, and the scope stack keeps its shape (the same levels of the
/// same kinds; declarations, captures and suspension marks may change).
/// Yield marks are never lost: a frame that had seen a yield before a
/// balanced piece of indexing work has still seen it afterwards.
pub open spec fn yields_monotone(pre: Seq<LevelV>, post: Seq<LevelV>) -> bool {
    forall|j: int|
        0 <= j < pre.len() && j < post.len() && (#[trigger] pre[j]).has_yield
            ==> post[j].has_yield
}

/// Whether a statement is a bare `yield` expression statement.
pub open spec fn stmt_is_yield(s: ast::Stmt) -> bool {
    ||| (s matches ast::Stmt::Expr(e) && e is ExprYield)
    ||| (s matches ast::Stmt::Semi(e, _) && e is ExprYield)
}

/// Whether some statement of the sequence is a bare `yield` statement.
pub open spec fn stmts_have_yield(stmts: Seq<ast::Stmt>) -> bool {
    exists|j: int| 0 <= j < stmts.len() && stmt_is_yield(#[trigger] stmts[j])
}

pub open spec fn frame_restored(pre: Indexer, post: Indexer) -> bool {
    &&& post.items.wf()
    &&& post.items@.path =~= pre.items@.path
    &&& scope_shape(post.scopes@) =~= scope_shape(pre.scopes@)
    &&& post.root == pre.root
    &&& post.source_id == pre.source_id
    &&& post.impl_items@ =~= pre.impl_items@
    &&& crate::worker::sources_extend(pre.sources, post.sources)
    &&& tasks_extend(pre.queue@, post.queue@)
    &&& indexed_extend(pre.query.indexed_view(), post.query.indexed_view())
    &&& post.scopes@.len() == pre.scopes@.len()
    &&& yields_monotone(pre.scopes@, post.scopes@)
}

impl Indexer {
    /// Construct the calling convention based on the parameters.
    pub fn call(generator: bool, is_async: bool) -> (r: Call)
        ensures
            r == (if is_async {
                if generator {
                    Call::Stream
                } else {
                    Call::Async
                }
            } else {
                if generator {
                    Call::Generator
                } else {
                    Call::Immediate
                }
            }),
    {
        if is_async {
            if generator {
                Call::Stream
            } else {
                Call::Async
            }
        } else if generator {
            Call::Generator
        } else {
            Call::Immediate
        }
    }

    /// Leave the innermost path scope.
    fn leave(&mut self)
        requires
            old(self).items.wf(),
            old(self).items@.path.len() > 0,
        ensures
            final(self).items.wf(),
            final(self).rest_eq(*old(self)),
            final(self).items@.path =~= old(self).items@.path.drop_last(),
    {
        let _ = self.items.pop();
    }

    /// Leave `n` innermost path scopes.
    fn leave_n(&mut self, n: usize)
        requires
            old(self).items.wf(),
            old(self).items@.path.len() >= n,
        ensures
            final(self).items.wf(),
            final(self).rest_eq(*old(self)),
            final(self).items@.path =~= old(self).items@.path.take(
                old(self).items@.path.len() - n,
            ),
    {
        let mut i: usize = 0;
        while i < n
            invariant
                i <= n,
                self.items.wf(),
                old(self).items@.path.len() >= n,
                self.rest_eq(*old(self)),
                self.items@.path =~= old(self).items@.path.take(
                    old(self).items@.path.len() - i,
                ),
            decreases n - i,
        {
            let _ = self.items.pop();
            proof {
                assert(self.items@.path =~= old(self).items@.path.take(
                    old(self).items@.path.len() - (i + 1),
                ));
            }
            i = i + 1;
        }
    }

    /// The source position of metadata declared at the current source.
    fn meta_source(&self, span: Span) -> (r: CompileSource)
        ensures
            r.span == span,
            r.source_id == self.source_id,
    {
        let path = match self.sources.get(self.source_id) {
            Some(entry) => match &entry.path {
                Some(p) => Some(p.clone()),
                None => None,
            },
            None => None,
        };
        CompileSource { span, path, source_id: self.source_id }
    }

    /// Reject attributes, which indexing does not support yet.
    fn no_attributes(&self, attributes: &Vec<ast::Attribute>, what: &str) -> (r: CompileResult)
        ensures
            r is Ok <==> attributes@.len() == 0,
    {
        if attributes.len() > 0 {
            Err(CompileError::unsupported(attributes[0].span, what))
        } else {
            Ok(())
        }
    }
}

/// Helper spec: everything of the indexer that [`frame_restored`] fixes,
/// except the item path itself.
impl Indexer {
    /// Whether all context but the path builder state matches `pre`.
    pub open spec fn rest_eq(&self, pre: Indexer) -> bool {
        &&& self.scopes@ == pre.scopes@
        &&& self.root == pre.root
        &&& self.source_id == pre.source_id
        &&& self.impl_items == pre.impl_items
        &&& self.query == pre.query
        &&& self.queue == pre.queue
        &&& self.loaded == pre.loaded
        &&& self.sources == pre.sources
        &&& self.warnings == pre.warnings
        &&& self.visits == pre.visits
        &&& self.loader == pre.loader
    }
}

impl Indexer {
    /// Whether all context but the scope tracker state matches `pre`.
    pub open spec fn rest_eq_scopes(&self, pre: Indexer) -> bool {
        &&& self.items == pre.items
        &&& self.root == pre.root
        &&& self.source_id == pre.source_id
        &&& self.impl_items == pre.impl_items
        &&& self.query == pre.query
        &&& self.queue == pre.queue
        &&& self.loaded == pre.loaded
        &&& self.sources == pre.sources
        &&& self.warnings == pre.warnings
        &&& self.visits == pre.visits
        &&& self.loader == pre.loader
    }

    /// Record a use of an identifier; the scope stack keeps its shape.
    fn scope_mark_use(&mut self, name: &str)
        ensures
            final(self).rest_eq_scopes(*old(self)),
            scope_shape(final(self).scopes@) =~= scope_shape(old(self).scopes@),
            final(self).scopes@.len() == old(self).scopes@.len(),
            forall|j: int|
                #![trigger final(self).scopes@[j]] #![trigger old(self).scopes@[j]] 0 <= j < final(self).scopes@.len() ==> final(self).scopes@[j].has_yield == old(self).scopes@[j].has_yield,
    {
        self.scopes.mark_use(name);
        proof {
            crate::index_scopes::lemma_mark_use_keeps_shape(old(self).scopes@, name@);
            crate::index_scopes::lemma_mark_use_keeps_yields(old(self).scopes@, name@);
        }
    }

    /// Declare an identifier at the innermost level; the scope stack
    /// keeps its shape. Fails exactly when the name is `self` outside a
    /// method context.
    fn scope_declare(&mut self, name: &str, span: Span) -> (r: CompileResult)
        ensures
            final(self).rest_eq_scopes(*old(self)),
            scope_shape(final(self).scopes@) =~= scope_shape(old(self).scopes@),
            final(self).scopes@.len() == old(self).scopes@.len(),
            forall|j: int|
                #![trigger final(self).scopes@[j]]
                #![trigger old(self).scopes@[j]]
                0 <= j < final(self).scopes@.len() ==> final(self).scopes@[j].has_yield == old(
                    self,
                ).scopes@[j].has_yield,
            ({
                let fi = crate::index_scopes::innermost_frame(old(self).scopes@);
                let invalid_self = name@ =~= "self"@ && (fi < 0 || old(self).scopes@[
                    fi
                ].is_closure);
                r is Err <==> (old(self).scopes@.len() == 0 || invalid_self)
            }),
    {
        match self.scopes.declare(name, span) {
            Ok(_) => {
                proof {
                    crate::index_scopes::lemma_innermost_frame_bounds(old(self).scopes@);
                    let o = old(self).scopes@;
                    let n = final(self).scopes@;
                    assert(n.len() == o.len());
                    assert forall|m: int|
                        0 <= m < n.len() implies scope_shape(n)[m] == scope_shape(o)[m] by {
                        assert(scope_shape(n)[m] == (n[m].kind, n[m].is_closure, n[m].is_async));
                        assert(scope_shape(o)[m] == (o[m].kind, o[m].is_closure, o[m].is_async));
                    }
                    assert(scope_shape(final(self).scopes@) =~= scope_shape(old(self).scopes@));
                }
                Ok(())
            }
            Err(_) => Err(CompileError::new(span, CompileErrorKind::UnsupportedSelf)),
        }
    }

    /// Mark a yield in the innermost frame; the scope stack keeps its
    /// shape. Fails exactly when no function-like frame is open.
    fn scope_mark_yield(&mut self, span: Span) -> (r: CompileResult)
        ensures
            final(self).rest_eq_scopes(*old(self)),
            scope_shape(final(self).scopes@) =~= scope_shape(old(self).scopes@),
            r is Err <==> crate::index_scopes::innermost_frame(old(self).scopes@) < 0,
            r is Err ==> r->Err_0.kind is YieldOutsideFunction,
            final(self).scopes@.len() == old(self).scopes@.len(),
            forall|j: int|
                #![trigger final(self).scopes@[j]]
                #![trigger old(self).scopes@[j]]
                0 <= j < final(self).scopes@.len() && j != crate::index_scopes::innermost_frame(
                    old(self).scopes@,
                ) ==> final(self).scopes@[j].has_yield == old(self).scopes@[j].has_yield,
            r is Ok ==> final(self).scopes@[crate::index_scopes::innermost_frame(
                old(self).scopes@,
            )].has_yield,
    {
        match self.scopes.mark_yield(span) {
            Ok(_) => {
                proof {
                    crate::index_scopes::lemma_innermost_frame_bounds(old(self).scopes@);
                    let o = old(self).scopes@;
                    let n = final(self).scopes@;
                    assert(n.len() == o.len());
                    assert forall|m: int|
                        0 <= m < n.len() implies scope_shape(n)[m] == scope_shape(o)[m] by {
                        assert(scope_shape(n)[m] == (n[m].kind, n[m].is_closure, n[m].is_async));
                        assert(scope_shape(o)[m] == (o[m].kind, o[m].is_closure, o[m].is_async));
                    }
                    assert(scope_shape(final(self).scopes@) =~= scope_shape(old(self).scopes@));
                }
                Ok(())
            }
            Err(_) => Err(CompileError::new(span, CompileErrorKind::YieldOutsideFunction)),
        }
    }

    /// Mark an await in the innermost frame; the scope stack keeps its
    /// shape. Fails exactly when no frame is open or the innermost frame
    /// is not asynchronous: a suspension marker legal only inside
    /// asynchronous frames is a scope-discipline error elsewhere.
    fn scope_mark_await(&mut self, span: Span) -> (r: CompileResult)
        ensures
            final(self).rest_eq_scopes(*old(self)),
            scope_shape(final(self).scopes@) =~= scope_shape(old(self).scopes@),
            ({
                let fi = crate::index_scopes::innermost_frame(old(self).scopes@);
                r is Err <==> (fi < 0 || !old(self).scopes@[fi].is_async)
            }),
            r is Err ==> r->Err_0.kind is AwaitOutsideAsync,
            final(self).scopes@.len() == old(self).scopes@.len(),
            forall|j: int|
                #![trigger final(self).scopes@[j]] #![trigger old(self).scopes@[j]] 0 <= j < final(self).scopes@.len() ==> final(self).scopes@[j].has_yield == old(self).scopes@[j].has_yield,
    {
        match self.scopes.mark_await(span) {
            Ok(_) => {
                proof {
                    crate::index_scopes::lemma_innermost_frame_bounds(old(self).scopes@);
                    let o = old(self).scopes@;
                    let n = final(self).scopes@;
                    assert(n.len() == o.len());
                    assert forall|m: int|
                        0 <= m < n.len() implies scope_shape(n)[m] == scope_shape(o)[m] by {
                        assert(scope_shape(n)[m] == (n[m].kind, n[m].is_closure, n[m].is_async));
                        assert(scope_shape(o)[m] == (o[m].kind, o[m].is_closure, o[m].is_async));
                    }
                    assert(scope_shape(final(self).scopes@) =~= scope_shape(old(self).scopes@));
                }
                Ok(())
            }
            Err(_) => Err(CompileError::new(span, CompileErrorKind::AwaitOutsideAsync)),
        }
    }

    /// Enter a plain scope.
    fn scope_enter_plain(&mut self)
        ensures
            final(self).rest_eq_scopes(*old(self)),
            scope_shape(final(self).scopes@) =~= scope_shape(old(self).scopes@).push(
                (crate::index_scopes::LevelKind::Plain, false, false),
            ),
            final(self).scopes@ =~= old(self).scopes@.push(
                crate::index_scopes::fresh_level(
                    crate::index_scopes::LevelKind::Plain,
                    false,
                    false,
                ),
            ),
            yields_monotone(old(self).scopes@, final(self).scopes@),
    {
        self.scopes.push_scope();
        proof {
            assert(scope_shape(final(self).scopes@) =~= scope_shape(old(self).scopes@).push(
                (crate::index_scopes::LevelKind::Plain, false, false),
            ));
        }
    }

    /// Leave a plain scope; provably in balance with
    /// [`Indexer::scope_enter_plain`].
    fn scope_leave_plain(&mut self)
        requires
            scope_shape(old(self).scopes@).len() > 0,
            scope_shape(old(self).scopes@).last() == (
                crate::index_scopes::LevelKind::Plain,
                false,
                false,
            ),
        ensures
            final(self).rest_eq_scopes(*old(self)),
            scope_shape(final(self).scopes@) =~= scope_shape(old(self).scopes@).drop_last(),
            final(self).scopes@ =~= old(self).scopes@.drop_last(),
            yields_monotone(old(self).scopes@, final(self).scopes@),
    {
        proof {
            assert(scope_shape(old(self).scopes@)[old(self).scopes@.len() - 1] == (
                old(self).scopes@.last().kind,
                old(self).scopes@.last().is_closure,
                old(self).scopes@.last().is_async,
            ));
        }
        match self.scopes.pop_scope() {
            Ok(_) => {
                proof {
                    assert(scope_shape(final(self).scopes@) =~= scope_shape(
                        old(self).scopes@,
                    ).drop_last());
                }
            }
            Err(_) => {
                proof {
                    assert(false);
                }
            }
        }
    }

    /// Enter an anonymous path scope, or report that the path space is
    /// exhausted.
    fn enter_anon(&mut self, kind: AnonKind, span: Span) -> (r: CompileResult)
        requires
            old(self).items.wf(),
        ensures
            final(self).items.wf(),
            final(self).rest_eq(*old(self)),
            r is Ok <==> crate::items::counter_of(old(self).items@.counters.last(), kind)
                < u64::MAX,
            r is Ok ==> final(self).items@ == crate::items::spec_push_anon(
                old(self).items@,
                kind,
            ),
            r is Err ==> final(self).items@ == old(self).items@,
            r is Err ==> r->Err_0.kind is PathLimitExceeded,
    {
        match self.items.push_anon(kind) {
            Ok(_) => Ok(()),
            Err(_) => Err(CompileError::new(span, CompileErrorKind::PathLimitExceeded)),
        }
    }

    /// Handle a filesystem module. With no filesystem root the module is
    /// unsupported; with no registered source text it is missing; loading
    /// the same module item twice fails, naming the prior load site. On
    /// success exactly one file-load task is appended at the queue tail,
    /// the module is recorded as loaded from this source and span, its
    /// text becomes a fresh source, and one module visit is recorded. On
    /// failure none of those tables change.
    pub fn handle_file_mod(&mut self, item_mod: &ast::ItemMod) -> (r: CompileResult)
        requires
            old(self).items.wf(),
        ensures
            frame_restored(*old(self), *final(self)),
            builds_preserved(*old(self), *final(self)),
            ({
                let mod_path = old(self).items@.path.push(
                    crate::item::ComponentV::Str(item_mod.name.ident@),
                );
                let known_source = old(self).loader.keys_view().contains(mod_path);
                let already = loaded_paths(old(self).loaded@).contains(mod_path);
                (old(self).root is None <==> (r is Err && r->Err_0.kind
                    is UnsupportedModuleSource))
            }),
            ({
                let mod_path = old(self).items@.path.push(
                    crate::item::ComponentV::Str(item_mod.name.ident@),
                );
                let known_source = old(self).loader.keys_view().contains(mod_path);
                let already = loaded_paths(old(self).loaded@).contains(mod_path);
                (old(self).root is Some && !known_source ==> (r is Err
                    && (r->Err_0.kind matches CompileErrorKind::MissingSourceFile { item }
                    && item@ == mod_path)))
            }),
            ({
                let mod_path = old(self).items@.path.push(
                    crate::item::ComponentV::Str(item_mod.name.ident@),
                );
                let known_source = old(self).loader.keys_view().contains(mod_path);
                let already = loaded_paths(old(self).loaded@).contains(mod_path);
                (old(self).root is Some && known_source && already ==> (r is Err
                    && (r->Err_0.kind matches CompileErrorKind::ModAlreadyLoaded {
                        item,
                        existing_source,
                        existing_span,
                    } && item@ == mod_path && exists|j: int|
                        0 <= j < old(self).loaded@.len() && #[trigger] old(self).loaded@[j].0@
                            == mod_path && existing_source == old(self).loaded@[j].1.0
                            && existing_span == old(self).loaded@[j].1.1)))
            }),
            ({
                let mod_path = old(self).items@.path.push(
                    crate::item::ComponentV::Str(item_mod.name.ident@),
                );
                let known_source = old(self).loader.keys_view().contains(mod_path);
                let already = loaded_paths(old(self).loaded@).contains(mod_path);
                (old(self).root is Some && known_source && !already <==> r is Ok)
            }),
            ({
                let mod_path = old(self).items@.path.push(
                    crate::item::ComponentV::Str(item_mod.name.ident@),
                );
                let known_source = old(self).loader.keys_view().contains(mod_path);
                let already = loaded_paths(old(self).loaded@).contains(mod_path);
                (r is Ok ==> {
                    let task = final(self).queue@.last();
                    &&& final(self).queue@ =~= old(self).queue@.push(task)
                    &&& (task matches Task::LoadFile { kind, item, source_id } && item@
                        == mod_path && source_id == old(self).sources.view_entries().len() as usize
                        && (kind matches LoadFileKind::Module { root } && root is Some))
                    &&& final(self).loaded@.len() == old(self).loaded@.len() + 1
                    &&& final(self).loaded@.last().0@ == mod_path
                    &&& final(self).loaded@.last().1 == (
                        old(self).source_id,
                        item_mod.span,
                    )
                    &&& final(self).loaded@ =~= old(self).loaded@.push(
                        final(self).loaded@.last(),
                    )
                    &&& final(self).sources.view_entries().len() == old(self).sources.view_entries().len() + 1
                    &&& (exists|j: int|
                        0 <= j < old(self).loader.entries_view().len()
                            && #[trigger] old(self).loader.entries_view()[j].0@ == mod_path
                            && final(self).sources.view_entries().last().text@ == old(self).loader.entries_view()[j].1@)
                    &&& final(self).visits.view_visits() =~= old(self).visits.view_visits().push(
                        (old(self).sources.view_entries().len() as usize, item_mod.span),
                    )
                })
            }),
            ({
                let mod_path = old(self).items@.path.push(
                    crate::item::ComponentV::Str(item_mod.name.ident@),
                );
                let known_source = old(self).loader.keys_view().contains(mod_path);
                let already = loaded_paths(old(self).loaded@).contains(mod_path);
                (r is Err ==> {
                    &&& final(self).queue == old(self).queue
                    &&& final(self).loaded == old(self).loaded
                    &&& final(self).sources == old(self).sources
                    &&& final(self).visits == old(self).visits
                })
            }),
    {
        let span = item_mod.span;
        self.items.push_name(item_mod.name.ident.as_str());
        let ghost mod_path = old(self).items@.path.push(
            crate::item::ComponentV::Str(item_mod.name.ident@),
        );

        let root: String = match &self.root {
            Some(root) => root.clone(),
            None => {
                self.leave();
                return Err(CompileError::new(span, CompileErrorKind::UnsupportedModuleSource));
            }
        };

        let item = self.items.item();
        proof {
            assert(item@ =~= mod_path);
        }
        let source_text = match self.loader.load(&item, span) {
            Ok(text) => text,
            Err(e) => {
                self.leave();
                return Err(e);
            }
        };

        let ghost snap = *self;
        let mut i: usize = 0;
        while i < self.loaded.len()
            invariant
                i <= self.loaded@.len(),
                *self == snap,
                mod_path == old(self).items@.path.push(
                    crate::item::ComponentV::Str(item_mod.name.ident@),
                ),
                item@ =~= mod_path,
                old(self).root is Some,
                old(self).loader.keys_view().contains(mod_path),
                self.query == old(self).query,
                self.items.wf(),
                self.items@.path.len() > 0,
                self.items@.path.drop_last() =~= old(self).items@.path,
                scope_shape(self.scopes@) =~= scope_shape(old(self).scopes@),
                self.scopes == old(self).scopes,
                self.impl_items@ =~= old(self).impl_items@,
                self.root == old(self).root,
                self.source_id == old(self).source_id,
                self.queue == old(self).queue,
                self.loaded == old(self).loaded,
                self.sources == old(self).sources,
                self.visits == old(self).visits,
                self.loader == old(self).loader,
                forall|j: int| 0 <= j < i ==> loaded_paths(self.loaded@)[j] != mod_path,
            decreases self.loaded@.len() - i,
        {
            proof {
                assert(loaded_paths(self.loaded@)[i as int] == self.loaded@[i as int].0@);
            }
            if self.loaded[i].0.eq_item(&item) {
                let existing = self.loaded[i].1;
                proof {
                    assert(old(self).loaded@[i as int].0@ == mod_path);
                    assert(loaded_paths(old(self).loaded@)[i as int] == mod_path);
                    assert(loaded_paths(old(self).loaded@).contains(mod_path));
                    assert(existing == old(self).loaded@[i as int].1);
                    assert(0 <= i < old(self).loaded@.len() && old(self).loaded@[i as int].0@
                        == mod_path && existing.0 == old(self).loaded@[i as int].1.0
                        && existing.1 == old(self).loaded@[i as int].1.1);
                }
                self.leave();
                return Err(
                    CompileError::new(
                        span,
                        CompileErrorKind::ModAlreadyLoaded {
                            item,
                            existing_source: existing.0,
                            existing_span: existing.1,
                        },
                    ),
                );
            }
            i = i + 1;
        }
        proof {
            assert(forall|j: int|
                0 <= j < loaded_paths(old(self).loaded@).len() ==> loaded_paths(
                    old(self).loaded@,
                )[j] != mod_path);
            assert(!loaded_paths(old(self).loaded@).contains(mod_path));
        }
        self.loaded.push((item.clone(), (self.source_id, span)));

        let source_id = self.sources.insert(source_text, None);
        self.visits.visit_mod(source_id, span);

        self.queue.push(
            Task::LoadFile {
                kind: LoadFileKind::Module { root: Some(root) },
                item,
                source_id,
            },
        );

        self.leave();
        proof {
            assert(final(self).queue@ =~= old(self).queue@.push(final(self).queue@.last()));
            assert(final(self).loaded@ =~= old(self).loaded@.push(final(self).loaded@.last()));
        }
        Ok(())
    }

    /// Index a whole file: every item in source order, warning about
    /// superfluous trailing semicolons.
    pub fn index_file(&mut self, file: ast::File, depth: u64) -> (r: CompileResult)
        requires
            old(self).items.wf(),
        ensures
            frame_restored(*old(self), *final(self)),
            r is Ok ==> file.attributes@.len() == 0,
            // Indexing a file indexes every item of it: none carries an
            // attribute, and every struct, enum and constant of the file
            // is declared under the file's path extended by its name.
            r is Ok ==> forall|j: int|
                0 <= j < file.items@.len() ==> (#[trigger] spec_item_attributes(
                    file.items@[j].item,
                )).len() == 0,
            r is Ok ==> forall|j: int|
                0 <= j < file.items@.len() ==> #[trigger] file_item_declared(
                    file.items@[j].item,
                    old(self).items@.path,
                    final(self).query.indexed_keys(),
                ),
        decreases depth,
    {
        if depth == 0 {
            return Err(
                CompileError::new(Span::empty(), CompileErrorKind::NestingLimitExceeded),
            );
        }
        if file.attributes.len() > 0 {
            return Err(
                CompileError::unsupported(
                    file.attributes[0].span,
                    "file attributes are not supported yet",
                ),
            );
        }
        let ast::File { attributes: _, mut items } = file;
        let ghost v0 = items@;
        let n0 = items.len();
        let mut k: usize = 0;
        while items.len() > 0
            invariant
                depth > 0,
                self.items.wf(),
                frame_restored(*old(self), *self),
                v0.len() == n0,
                k <= n0,
                k + items@.len() == n0,
                items@ =~= v0.skip(k as int),
                forall|j: int|
                    0 <= j < k ==> (#[trigger] spec_item_attributes(v0[j].item)).len() == 0,
                forall|j: int|
                    0 <= j < k ==> #[trigger] file_item_declared(
                        v0[j].item,
                        old(self).items@.path,
                        self.query.indexed_keys(),
                    ),
            decreases items@.len(),
        {
            proof {
                assert(v0.skip(k as int)[0] == v0[k as int]);
            }
            let fi = items.remove(0);
            proof {
                assert(fi == v0[k as int]);
                assert(items@ =~= v0.skip(k + 1));
            }
            match fi.semi {
                Some(semi_span) => {
                    if !fi.item.needs_semi_colon() {
                        self.warnings.unnecessary_semi_colon(self.source_id, semi_span);
                    }
                }
                None => {}
            }
            let ghost pre_keys = self.query.indexed_keys();
            let r = self.index_item(fi.item, depth - 1);
            match r {
                Ok(_) => {}
                Err(e) => {
                    return Err(e);
                }
            }
            proof {
                assert forall|j: int|
                    0 <= j < k + 1 implies #[trigger] file_item_declared(
                    v0[j].item,
                    old(self).items@.path,
                    self.query.indexed_keys(),
                ) by {
                    if j < k {
                        lemma_file_item_stays_declared(
                            v0[j].item,
                            old(self).items@.path,
                            pre_keys,
                            self.query.indexed_keys(),
                        );
                    } else {
                        let keys = self.query.indexed_keys();
                        match v0[k as int].item {
                            ast::Item::ItemStruct(st) => {
                                let path = old(self).items@.path.push(
                                    crate::item::ComponentV::Str(st.ident.ident@),
                                );
                                assert(keys.contains(path)) by {
                                    assert(keys[keys.len() - 1] == path);
                                }
                            },
                            ast::Item::ItemConst(c) => {
                                let path = old(self).items@.path.push(
                                    crate::item::ComponentV::Str(c.name.ident@),
                                );
                                assert(keys.contains(path)) by {
                                    assert(keys[keys.len() - 1] == path);
                                }
                            },
                            _ => {},
                        }
                    }
                }
            }
            k = k + 1;
        }
        proof {
            assert(v0.skip(n0 as int) =~= Seq::<ast::FileItem>::empty());
        }
        Ok(())
    }

    /// Index one declaration, routing it by its kind. A declaration that
    /// carries an attribute is rejected as unsupported syntax. An import
    /// appends exactly one import task bound to the current path; a macro
    /// invocation is never evaluated inline but appends exactly one
    /// expansion task carrying a snapshot of the path (with a fresh macro
    /// component pushed), the scopes and the enclosing `impl` context; a
    /// struct or constant records exactly one indexed declaration under
    /// the current path extended by its name, failing on a duplicate; an
    /// enum records itself and each of its variants.
    pub fn index_item(&mut self, item: ast::Item, depth: u64) -> (r: CompileResult)
        requires
            old(self).items.wf(),
        ensures
            frame_restored(*old(self), *final(self)),
            depth == 0 ==> r is Err,
            r is Ok ==> spec_item_attributes(item).len() == 0,
            (depth > 0 ==> (item matches ast::Item::ItemUse(u) ==> {
                &&& (r is Ok <==> u.attributes@.len() == 0)
                &&& (r is Ok ==> {
                    let task = final(self).queue@.last();
                    &&& final(self).queue@ =~= old(self).queue@.push(task)
                    &&& (task matches Task::Import(imp) && imp.ast == u && imp.item@ == old(self).items@.path && imp.source_id == old(self).source_id)
                    &&& builds_preserved(*old(self), *final(self))
                    &&& final(self).query == old(self).query
                })
            })),
            (depth > 0 ==> (item matches ast::Item::MacroCall(m) ==> {
                &&& (r is Ok <==> crate::items::counter_of(
                    old(self).items@.counters.last(),
                    AnonKind::Macro,
                ) < u64::MAX)
                &&& (r is Ok ==> {
                    let task = final(self).queue@.last();
                    &&& final(self).queue@ =~= old(self).queue@.push(task)
                    &&& (task matches Task::ExpandMacro(mt) && mt.ast == m && mt.kind
                        is Item && mt.items@ == crate::items::spec_push_anon(
                        old(self).items@,
                        AnonKind::Macro,
                    ) && mt.scopes@ =~= old(self).scopes@ && mt.source_id == old(self).source_id)
                    &&& final(self).query == old(self).query
                })
            })),
            (depth > 0 ==> (item matches ast::Item::ItemStruct(st) ==> {
                let struct_path = old(self).items@.path.push(
                    crate::item::ComponentV::Str(st.ident.ident@),
                );
                &&& (r is Ok <==> (st.attributes@.len() == 0 && body_fields_attr_free(st.body)
                    && !old(self).query.declares(struct_path)))
                &&& (r is Ok ==> {
                    let (key, entry) = final(self).query.indexed_view().last();
                    &&& final(self).query.indexed_view() =~= old(self).query.indexed_view().push((key, entry))
                    &&& key@ == struct_path
                    &&& entry.indexed is Struct
                    &&& final(self).queue == old(self).queue
                    &&& builds_preserved(*old(self), *final(self))
                })
            })),
            (depth > 0 ==> (item matches ast::Item::ItemConst(c) ==> {
                let const_path = old(self).items@.path.push(
                    crate::item::ComponentV::Str(c.name.ident@),
                );
                &&& (r is Ok <==> (c.attributes@.len() == 0 && !old(self).query.declares(
                    const_path,
                )))
                &&& (r is Ok ==> {
                    let (key, entry) = final(self).query.indexed_view().last();
                    &&& final(self).query.indexed_view() =~= old(self).query.indexed_view().push((key, entry))
                    &&& key@ == const_path
                    &&& (entry.indexed matches Indexed::Const { expr } && expr == c.expr)
                    &&& final(self).queue == old(self).queue
                    &&& builds_preserved(*old(self), *final(self))
                })
            })),
            (item matches ast::Item::ItemEnum(e) ==> {
                let enum_path = old(self).items@.path.push(
                    crate::item::ComponentV::Str(e.name.ident@),
                );
                r is Ok ==> {
                    &&& final(self).query.indexed_keys().contains(enum_path)
                    &&& forall|j: int|
                        0 <= j < e.variants@.len() ==> #[trigger] final(self).query.indexed_keys().contains(
                            enum_path.push(
                                crate::item::ComponentV::Str(e.variants@[j].name.ident@),
                            ),
                        )
                    &&& final(self).queue == old(self).queue
                    &&& builds_preserved(*old(self), *final(self))
                }
            }),
        decreases depth,
    {
        if depth == 0 {
            return Err(
                CompileError::new(Span::empty(), CompileErrorKind::NestingLimitExceeded),
            );
        }
        let span = item.span();
        match item {
            ast::Item::ItemUse(import) => {
                let r = self.no_attributes(&import.attributes, "use attributes are not supported");
                match r {
                    Ok(_) => {}
                    Err(e) => {
                        return Err(e);
                    }
                }
                let at = self.items.item();
                self.queue.push(
                    Task::Import(Import { item: at, ast: import, source_id: self.source_id }),
                );
                Ok(())
            }
            ast::Item::ItemEnum(item_enum) => {
                let r = self.no_attributes(
                    &item_enum.attributes,
                    "enum attributes are not supported",
                );
                match r {
                    Ok(_) => {}
                    Err(e) => {
                        return Err(e);
                    }
                }
                self.items.push_name(item_enum.name.ident.as_str());
                proof {
                    assert(self.items@.path =~= old(self).items@.path.push(
                        crate::item::ComponentV::Str(item_enum.name.ident@),
                    ));
                }
                let r = self.enum_inner(item_enum.variants, item_enum.span);
                self.leave();
                r
            }
            ast::Item::ItemStruct(item_struct) => {
                let r = self.no_attributes(
                    &item_struct.attributes,
                    "struct attributes are not supported",
                );
                match r {
                    Ok(_) => {}
                    Err(e) => {
                        return Err(e);
                    }
                }
                let r = self.struct_field_attributes(&item_struct.body);
                match r {
                    Ok(_) => {}
                    Err(e) => {
                        return Err(e);
                    }
                }
                self.items.push_name(item_struct.ident.ident.as_str());
                let item_path = self.items.item();
                proof {
                    assert(item_path@ =~= old(self).items@.path.push(
                        crate::item::ComponentV::Str(item_struct.ident.ident@),
                    ));
                }
                let r = self.query.index_struct(
                    item_path,
                    item_struct.body,
                    self.source_id,
                    item_struct.span,
                );
                self.leave();
                match r {
                    Ok(_) => Ok(()),
                    Err(e) => Err(e),
                }
            }
            ast::Item::ItemFn(decl_fn) => {
                let r = self.no_attributes(
                    &decl_fn.attributes,
                    "function attributes are not supported",
                );
                match r {
                    Ok(_) => {}
                    Err(e) => {
                        return Err(e);
                    }
                }
                self.index_item_fn(decl_fn)
            }
            ast::Item::ItemImpl(item_impl) => {
                let r = self.no_attributes(
                    &item_impl.attributes,
                    "impl attributes are not supported",
                );
                match r {
                    Ok(_) => {}
                    Err(e) => {
                        return Err(e);
                    }
                }
                self.items.push_name(item_impl.path.first.ident.as_str());
                let mut i: usize = 0;
                while i < item_impl.path.rest.len()
                    invariant
                        i <= item_impl.path.rest@.len(),
                        self.items.wf(),
                        self.rest_eq(*old(self)),
                        self.items@.path.len() == old(self).items@.path.len() + 1 + i,
                        self.items@.path.take(old(self).items@.path.len() as int) =~= old(self).items@.path,
                    decreases item_impl.path.rest@.len() - i,
                {
                    let ghost pre_path = self.items@.path;
                    self.items.push_name(item_impl.path.rest[i].ident.as_str());
                    proof {
                        assert(self.items@.path.take(old(self).items@.path.len() as int)
                            =~= pre_path.take(old(self).items@.path.len() as int));
                    }
                    i = i + 1;
                }
                let impl_item = self.items.item();
                self.impl_items.push(impl_item);
                let r = self.impl_inner(item_impl.functions);
                let _ = self.impl_items.pop();
                self.leave_n(item_impl.path.rest.len());
                self.leave();
                proof {
                    assert(self.items@.path =~= old(self).items@.path);
                }
                r
            }
            ast::Item::ItemMod(item_mod) => {
                let r = self.no_attributes(
                    &item_mod.attributes,
                    "module attributes are not supported",
                );
                match r {
                    Ok(_) => {}
                    Err(e) => {
                        return Err(e);
                    }
                }
                let ast::ItemMod { attributes: _, name, body, span: mod_span } = item_mod;
                match body {
                    ast::ItemModBody::EmptyBody(semi) => {
                        let file_mod = ast::ItemMod {
                            attributes: Vec::new(),
                            name,
                            body: ast::ItemModBody::EmptyBody(semi),
                            span: mod_span,
                        };
                        self.handle_file_mod(&file_mod)
                    }
                    ast::ItemModBody::InlineBody(file) => {
                        self.items.push_name(name.ident.as_str());
                        let r = self.index_file(*file, depth - 1);
                        self.leave();
                        r
                    }
                }
            }
            ast::Item::ItemConst(item_const) => {
                let r = self.no_attributes(
                    &item_const.attributes,
                    "attributes on constants are not supported",
                );
                match r {
                    Ok(_) => {}
                    Err(e) => {
                        return Err(e);
                    }
                }
                self.items.push_name(item_const.name.ident.as_str());
                let item_path = self.items.item();
                proof {
                    assert(item_path@ =~= old(self).items@.path.push(
                        crate::item::ComponentV::Str(item_const.name.ident@),
                    ));
                }
                let r = self.query.index_const(
                    item_path,
                    item_const.expr,
                    self.source_id,
                    item_const.span,
                );
                self.leave();
                match r {
                    Ok(_) => Ok(()),
                    Err(e) => Err(e),
                }
            }
            ast::Item::MacroCall(macro_call) => {
                let r = self.enter_anon(AnonKind::Macro, span);
                match r {
                    Ok(_) => {}
                    Err(e) => {
                        return Err(e);
                    }
                }
                let snapshot = self.items.snapshot();
                let scopes = self.scopes.snapshot();
                let impl_items = self.clone_impl_items();
                self.queue.push(
                    Task::ExpandMacro(
                        Macro {
                            kind: MacroKind::Item,
                            root: self.clone_root(),
                            items: snapshot,
                            ast: macro_call,
                            source_id: self.source_id,
                            scopes,
                            impl_items,
                        },
                    ),
                );
                self.leave();
                proof {
                    let task = self.queue@.last();
                    assert(self.queue@ =~= old(self).queue@.push(task));
                    assert(task matches Task::ExpandMacro(mt) && mt.kind is Item);
                    assert(task matches Task::ExpandMacro(mt) && mt.items@
                        == crate::items::spec_push_anon(old(self).items@, AnonKind::Macro));
                    assert(task matches Task::ExpandMacro(mt) && mt.scopes@ =~= old(self).scopes@);
                    assert(task matches Task::ExpandMacro(mt) && mt.source_id == old(self).source_id);
                    assert(self.query == old(self).query);
                }
                Ok(())
            }
        }
    }

    /// A value copy of the enclosing `impl` items.
    fn clone_impl_items(&self) -> (r: Vec<Item>)
        ensures
            r@.len() == self.impl_items@.len(),
            forall|j: int| 0 <= j < r@.len() ==> #[trigger] r@[j]@ == self.impl_items@[j]@,
    {
        let mut out: Vec<Item> = Vec::new();
        let mut i: usize = 0;
        while i < self.impl_items.len()
            invariant
                i <= self.impl_items@.len(),
                out@.len() == i as int,
                forall|j: int| 0 <= j < i ==> #[trigger] out@[j]@ == self.impl_items@[j]@,
            decreases self.impl_items@.len() - i,
        {
            out.push(self.impl_items[i].clone());
            i = i + 1;
        }
        out
    }

    /// A value copy of the filesystem root.
    fn clone_root(&self) -> (r: Option<String>)
        ensures
            r is Some <==> self.root is Some,
            r is Some ==> r->0@ == self.root->0@,
    {
        match &self.root {
            Some(root) => Some(root.clone()),
            None => None,
        }
    }

    /// Reject attributes on the fields of a struct or variant body.
    fn struct_field_attributes(&self, body: &ast::DeclBody) -> (r: CompileResult)
        ensures
            r is Ok <==> body_fields_attr_free(*body),
    {
        let fields: &Vec<ast::Field> = match body {
            ast::DeclBody::Unit => {
                return Ok(());
            }
            ast::DeclBody::Tuple(fields) => fields,
            ast::DeclBody::Record(fields) => fields,
        };
        let ghost b = *body;
        let mut i: usize = 0;
        while i < fields.len()
            invariant
                i <= fields@.len(),
                b == *body,
                (b matches ast::DeclBody::Tuple(fs) && fs == *fields) || (b matches
                    ast::DeclBody::Record(fs) && fs == *fields),
                forall|j: int| 0 <= j < i ==> #[trigger] fields@[j].attributes@.len() == 0,
            decreases fields@.len() - i,
        {
            if fields[i].attributes.len() > 0 {
                return Err(
                    CompileError::unsupported(
                        fields[i].attributes[0].span,
                        "field attributes are not supported",
                    ),
                );
            }
            i = i + 1;
        }
        Ok(())
    }

    /// Index the variants of an enum whose name scope is already entered.
    fn enum_inner(&mut self, variants: Vec<ast::ItemVariant>, span: Span) -> (r: CompileResult)
        requires
            old(self).items.wf(),
        ensures
            frame_restored(*old(self), *final(self)),
            builds_preserved(*old(self), *final(self)),
            final(self).queue == old(self).queue,
            r is Ok ==> final(self).query.indexed_keys().contains(old(self).items@.path),
            r is Ok ==> forall|j: int|
                0 <= j < variants@.len() ==> #[trigger] final(self).query.indexed_keys().contains(
                    old(self).items@.path.push(
                        crate::item::ComponentV::Str(variants@[j].name.ident@),
                    ),
                ),
    {
        let ghost v0 = variants@;
        let n0 = variants.len();
        let enum_item = self.items.item();
        let r = self.query.index_enum(enum_item.clone(), self.source_id, span);
        match r {
            Ok(_) => {}
            Err(e) => {
                return Err(e);
            }
        }
        proof {
            assert(self.query.indexed_keys().last() == enum_item@);
            assert(self.query.indexed_keys().contains(old(self).items@.path));
        }
        let mut variants = variants;
        let mut k: usize = 0;
        while variants.len() > 0
            invariant
                self.items.wf(),
                frame_restored(*old(self), *self),
                builds_preserved(*old(self), *self),
                self.queue == old(self).queue,
                enum_item@ =~= old(self).items@.path,
                v0.len() == n0,
                k <= n0,
                k + variants@.len() == n0,
                variants@ =~= v0.skip(k as int),
                self.query.indexed_keys().contains(old(self).items@.path),
                forall|j: int|
                    0 <= j < k ==> #[trigger] self.query.indexed_keys().contains(
                        old(self).items@.path.push(
                            crate::item::ComponentV::Str(v0[j].name.ident@),
                        ),
                    ),
            decreases variants@.len(),
        {
            proof {
                assert(v0.skip(k as int)[0] == v0[k as int]);
            }
            let variant = variants.remove(0);
            proof {
                assert(variant == v0[k as int]);
                assert(variants@ =~= v0.skip(k + 1));
            }
            let r = self.no_attributes(
                &variant.attributes,
                "variant attributes are not supported yet",
            );
            match r {
                Ok(_) => {}
                Err(e) => {
                    return Err(e);
                }
            }
            let r = self.struct_field_attributes(&variant.body);
            match r {
                Ok(_) => {}
                Err(e) => {
                    return Err(e);
                }
            }
            let variant_span = variant.name.span;
            self.items.push_name(variant.name.ident.as_str());
            let variant_item = self.items.item();
            proof {
                assert(variant_item@ =~= old(self).items@.path.push(
                    crate::item::ComponentV::Str(v0[k as int].name.ident@),
                ));
            }
            let ghost keys_before = self.query.indexed_keys();
            let r = self.query.index_variant(
                variant_item,
                enum_item.clone(),
                variant.body,
                self.source_id,
                variant_span,
            );
            self.leave();
            match r {
                Ok(_) => {}
                Err(e) => {
                    return Err(e);
                }
            }
            proof {
                assert(self.query.indexed_keys() =~= keys_before.push(variant_item@));
                lemma_contains_after_push(keys_before, variant_item@, old(self).items@.path);
                assert forall|j: int|
                    0 <= j < k + 1 implies #[trigger] self.query.indexed_keys().contains(
                    old(self).items@.path.push(
                        crate::item::ComponentV::Str(v0[j].name.ident@),
                    ),
                ) by {
                    if j < k {
                        lemma_contains_after_push(
                            keys_before,
                            variant_item@,
                            old(self).items@.path.push(
                                crate::item::ComponentV::Str(v0[j].name.ident@),
                            ),
                        );
                    } else {
                        assert(self.query.indexed_keys().last() == variant_item@);
                    }
                }
            }
            k = k + 1;
        }
        proof {
            assert(v0.skip(v0.len() as int) =~= Seq::<ast::ItemVariant>::empty());
        }
        Ok(())
    }

    /// Index the functions of an `impl` block whose path scopes and impl
    /// context are already entered.
    fn impl_inner(&mut self, functions: Vec<ast::ItemFn>) -> (r: CompileResult)
        requires
            old(self).items.wf(),
        ensures
            frame_restored(*old(self), *final(self)),
    {
        let mut functions = functions;
        while functions.len() > 0
            invariant
                self.items.wf(),
                frame_restored(*old(self), *self),
            decreases functions@.len(),
        {
            let f = functions.remove(0);
            let r = self.index_item_fn(Box::new(f));
            match r {
                Ok(_) => {}
                Err(e) => {
                    return Err(e);
                }
            }
        }
        Ok(())
    }
}

impl Indexer {
    /// Enter the frame of a plain function body.
    fn scope_enter_function(&mut self, is_async: bool)
        ensures
            final(self).rest_eq_scopes(*old(self)),
            scope_shape(final(self).scopes@) =~= scope_shape(old(self).scopes@).push(
                (crate::index_scopes::LevelKind::Frame, false, is_async),
            ),
            final(self).scopes@ =~= old(self).scopes@.push(
                crate::index_scopes::fresh_level(
                    crate::index_scopes::LevelKind::Frame,
                    is_async,
                    false,
                ),
            ),
            yields_monotone(old(self).scopes@, final(self).scopes@),
            final(self).scopes@.len() == old(self).scopes@.len() + 1,
            final(self).scopes@.last().kind is Frame,
            !final(self).scopes@.last().is_closure,
    {
        self.scopes.push_function(is_async);
        proof {
            assert(scope_shape(final(self).scopes@) =~= scope_shape(old(self).scopes@).push(
                (crate::index_scopes::LevelKind::Frame, false, is_async),
            ));
        }
    }

    /// Finalize a plain function frame, yielding its classification;
    /// provably in balance with [`Indexer::scope_enter_function`].
    fn scope_leave_function(&mut self, span: Span, ghost_async: Ghost<bool>) -> (r:
        crate::index_scopes::FunctionInfo)
        requires
            scope_shape(old(self).scopes@).len() > 0,
            scope_shape(old(self).scopes@).last() == (
                crate::index_scopes::LevelKind::Frame,
                false,
                ghost_async@,
            ),
        ensures
            final(self).rest_eq_scopes(*old(self)),
            scope_shape(final(self).scopes@) =~= scope_shape(old(self).scopes@).drop_last(),
            final(self).scopes@ =~= old(self).scopes@.drop_last(),
            yields_monotone(old(self).scopes@, final(self).scopes@),
            r.is_async == ghost_async@,
            r.generator == old(self).scopes@.last().has_yield,
    {
        proof {
            assert(scope_shape(old(self).scopes@)[old(self).scopes@.len() - 1] == (
                old(self).scopes@.last().kind,
                old(self).scopes@.last().is_closure,
                old(self).scopes@.last().is_async,
            ));
        }
        match self.scopes.pop_function(span) {
            Ok(f) => {
                proof {
                    assert(scope_shape(final(self).scopes@) =~= scope_shape(
                        old(self).scopes@,
                    ).drop_last());
                }
                f
            }
            Err(_) => {
                proof {
                    assert(false);
                }
                crate::index_scopes::FunctionInfo { is_async: false, generator: false }
            }
        }
    }

    /// Enter the frame of a closure or async block body.
    fn scope_enter_closure(&mut self, is_async: bool)
        ensures
            final(self).rest_eq_scopes(*old(self)),
            scope_shape(final(self).scopes@) =~= scope_shape(old(self).scopes@).push(
                (crate::index_scopes::LevelKind::Frame, true, is_async),
            ),
            final(self).scopes@ =~= old(self).scopes@.push(
                crate::index_scopes::fresh_level(
                    crate::index_scopes::LevelKind::Frame,
                    is_async,
                    true,
                ),
            ),
            yields_monotone(old(self).scopes@, final(self).scopes@),
            final(self).scopes@.len() == old(self).scopes@.len() + 1,
            final(self).scopes@.last().kind is Frame,
            final(self).scopes@.last().is_closure,
    {
        self.scopes.push_closure(is_async);
        proof {
            assert(scope_shape(final(self).scopes@) =~= scope_shape(old(self).scopes@).push(
                (crate::index_scopes::LevelKind::Frame, true, is_async),
            ));
        }
    }

    /// Finalize a closure or async block frame; provably in balance with
    /// [`Indexer::scope_enter_closure`].
    fn scope_leave_closure(&mut self, span: Span, ghost_async: Ghost<bool>) -> (r:
        crate::index_scopes::ClosureInfo)
        requires
            scope_shape(old(self).scopes@).len() > 0,
            scope_shape(old(self).scopes@).last() == (
                crate::index_scopes::LevelKind::Frame,
                true,
                ghost_async@,
            ),
        ensures
            final(self).rest_eq_scopes(*old(self)),
            scope_shape(final(self).scopes@) =~= scope_shape(old(self).scopes@).drop_last(),
            final(self).scopes@ =~= old(self).scopes@.drop_last(),
            yields_monotone(old(self).scopes@, final(self).scopes@),
            r.is_async == ghost_async@,
            r.generator == old(self).scopes@.last().has_yield,
            crate::index_scopes::names_view(r.captures@) =~= old(self).scopes@.last().captures,
    {
        proof {
            assert(scope_shape(old(self).scopes@)[old(self).scopes@.len() - 1] == (
                old(self).scopes@.last().kind,
                old(self).scopes@.last().is_closure,
                old(self).scopes@.last().is_async,
            ));
        }
        match self.scopes.pop_closure(span) {
            Ok(c) => {
                proof {
                    assert(scope_shape(final(self).scopes@) =~= scope_shape(
                        old(self).scopes@,
                    ).drop_last());
                }
                c
            }
            Err(_) => {
                proof {
                    assert(false);
                }
                crate::index_scopes::ClosureInfo {
                    is_async: false,
                    generator: false,
                    captures: Vec::new(),
                }
            }
        }
    }

    /// Declare the arguments of a function whose frame was just entered;
    /// never fails there, because the innermost frame is a plain
    /// function.
    fn declare_fn_args(&mut self, args: &Vec<ast::FnArg>)
        requires
            old(self).scopes@.len() > 0,
            old(self).scopes@.last().kind is Frame,
            !old(self).scopes@.last().is_closure,
        ensures
            final(self).rest_eq_scopes(*old(self)),
            scope_shape(final(self).scopes@) =~= scope_shape(old(self).scopes@),
            final(self).scopes@.len() == old(self).scopes@.len(),
            final(self).scopes@.last().kind is Frame,
            !final(self).scopes@.last().is_closure,
            final(self).scopes@.last().has_yield == old(self).scopes@.last().has_yield,
            forall|j: int|
                #![trigger final(self).scopes@[j]]
                #![trigger old(self).scopes@[j]]
                0 <= j < final(self).scopes@.len() ==> final(self).scopes@[j].has_yield == old(
                    self,
                ).scopes@[j].has_yield,
    {
        let ghost snap = *self;
        let mut i: usize = 0;
        while i < args.len()
            invariant
                i <= args@.len(),
                self.rest_eq_scopes(snap),
                snap == *old(self),
                scope_shape(self.scopes@) =~= scope_shape(old(self).scopes@),
                self.scopes@.len() == old(self).scopes@.len(),
                old(self).scopes@.len() > 0,
                self.scopes@.last().kind is Frame,
                !self.scopes@.last().is_closure,
                self.scopes@.last().has_yield == old(self).scopes@.last().has_yield,
                forall|j: int|
                    #![trigger self.scopes@[j]]
                    #![trigger old(self).scopes@[j]]
                    0 <= j < self.scopes@.len() ==> self.scopes@[j].has_yield == old(
                        self,
                    ).scopes@[j].has_yield,
            decreases args@.len() - i,
        {
            let ghost pre = *self;
            let r = match &args[i] {
                ast::FnArg::Self_(s) => self.scope_declare("self", *s),
                ast::FnArg::Ident(ident) => self.scope_declare(ident.ident.as_str(), ident.span),
                ast::FnArg::Ignore(_) => Ok(()),
            };
            proof {
                let fi = crate::index_scopes::innermost_frame(pre.scopes@);
                assert(fi == pre.scopes@.len() - 1);
                assert(!pre.scopes@[fi].is_closure);
                assert(r is Ok);
                assert(scope_shape(self.scopes@)[self.scopes@.len() - 1] == (
                    self.scopes@.last().kind,
                    self.scopes@.last().is_closure,
                    self.scopes@.last().is_async,
                ));
            }
            i = i + 1;
        }
    }

    /// Index a function declaration: classify its body, then route it to
    /// its destination. An instance function requires an enclosing `impl`
    /// context and is eagerly scheduled as an instance build for that
    /// context; a top-level function is eagerly scheduled; both get
    /// function metadata under their fresh path. A nested function is
    /// only recorded for lazy scheduling. A declaration that fails —
    /// inside its body, for want of an `impl` context, or as a duplicate
    /// path — contributes no build entry and no metadata.
    pub fn index_item_fn(&mut self, decl_fn: Box<ast::ItemFn>) -> (r: CompileResult)
        requires
            old(self).items.wf(),
        ensures
            frame_restored(*old(self), *final(self)),
            r is Err ==> builds_preserved(*old(self), *final(self)),
            ({
                let instance = decl_fn.args@.len() > 0 && decl_fn.args@[0] is Self_;
                let toplevel = old(self).items@.path.len() == 0;
                let fn_path = old(self).items@.path.push(
                    crate::item::ComponentV::Str(decl_fn.name.ident@),
                );
                &&& (r is Ok && instance ==> old(self).impl_items@.len() > 0)
                // Success is owed: a function with an empty body indexes
                // exactly when its path is fresh and an instance function
                // has its impl context.
                &&& (decl_fn.body.statements@.len() == 0 ==> (r is Ok <==> {
                    &&& (instance ==> old(self).impl_items@.len() > 0)
                    &&& (instance || toplevel ==> !old(self).query.unit.keys_view().contains(
                        fn_path,
                    ))
                    &&& (!(instance || toplevel) ==> !old(self).query.declares(fn_path))
                }))
                // An empty body marks no suspension, so the calling
                // convention follows the async qualifier alone: never a
                // generator or a stream.
                &&& (decl_fn.body.statements@.len() == 0 && r is Ok && (instance || toplevel)
                    ==> {
                    let entry = final(self).query.queue@.last();
                    &&& (instance ==> (entry.build matches Build::InstanceFunction(f)
                        && f.call == (if decl_fn.async_ is Some {
                        Call::Async
                    } else {
                        Call::Immediate
                    })))
                    &&& (!instance ==> (entry.build matches Build::Function(f) && f.call == (
                    if decl_fn.async_ is Some {
                        Call::Async
                    } else {
                        Call::Immediate
                    })))
                })
                &&& (decl_fn.body.statements@.len() == 0 && r is Ok && !(instance || toplevel)
                    ==> (final(self).query.indexed_view().last().1.indexed matches
                    Indexed::Function { call, .. } && call == (if decl_fn.async_ is Some {
                    Call::Async
                } else {
                    Call::Immediate
                })))
                // A yield among the body's statements makes the function
                // a generator: asynchronous ones become streams.
                &&& (stmts_have_yield(decl_fn.body.statements@) && r is Ok && (instance
                    || toplevel) ==> {
                    let entry = final(self).query.queue@.last();
                    &&& (instance ==> (entry.build matches Build::InstanceFunction(f)
                        && f.call == (if decl_fn.async_ is Some {
                        Call::Stream
                    } else {
                        Call::Generator
                    })))
                    &&& (!instance ==> (entry.build matches Build::Function(f) && f.call == (
                    if decl_fn.async_ is Some {
                        Call::Stream
                    } else {
                        Call::Generator
                    })))
                })
                &&& (stmts_have_yield(decl_fn.body.statements@) && r is Ok && !(instance
                    || toplevel) ==> (final(self).query.indexed_view().last().1.indexed matches
                    Indexed::Function { call, .. } && call == (if decl_fn.async_ is Some {
                    Call::Stream
                } else {
                    Call::Generator
                })))
                &&& (r is Ok && (instance || toplevel) ==> {
                    let entry = final(self).query.queue@.last();
                    &&& final(self).query.queue@.len() == old(self).query.queue@.len() + 1
                    &&& entry.used is Used
                    &&& entry.item@ == fn_path
                    &&& (instance ==> (entry.build matches Build::InstanceFunction(f)
                        && f.impl_item@ == old(self).impl_items@.last()@
                        && ((f.call is Async || f.call is Stream) <==> decl_fn.async_
                        is Some)))
                    &&& (!instance ==> (entry.build matches Build::Function(f) && ((f.call
                        is Async || f.call is Stream) <==> decl_fn.async_ is Some)))
                    &&& final(self).query.unit.keys_view() =~= old(self).query.unit.keys_view().push(fn_path)
                    &&& final(self).query.unit.metas_view().len() == old(self).query.unit.metas_view().len() + 1
                })
                &&& (r is Ok && !(instance || toplevel) ==> {
                    let (key, entry) = final(self).query.indexed_view().last();
                    &&& builds_preserved(*old(self), *final(self))
                    &&& final(self).query.indexed_view().len() > 0
                    &&& key@ == fn_path
                    &&& (entry.indexed matches Indexed::Function { call, .. } && ((call
                        is Async || call is Stream) <==> decl_fn.async_ is Some))
                })
            }),
    {
        let span = decl_fn.span;
        let is_toplevel = self.items.is_empty();
        self.items.push_name(decl_fn.name.ident.as_str());
        let item = self.items.item();
        let ghost itemv = item@;
        let ghost fn_path = old(self).items@.path.push(
            crate::item::ComponentV::Str(decl_fn.name.ident@),
        );
        proof {
            assert(itemv =~= fn_path);
        }
        let is_async = decl_fn.async_.is_some();
        self.scope_enter_function(is_async);
        let ghost entered = *self;
        self.declare_fn_args(&decl_fn.args);
        let ghost args_done = *self;
        proof {
            crate::index_scopes::lemma_innermost_frame_shape(
                entered.scopes@,
                args_done.scopes@,
            );
            assert(crate::index_scopes::innermost_frame(entered.scopes@)
                == entered.scopes@.len() - 1);
        }
        let walked = self.index_block(&decl_fn.body);
        proof {
            if walked is Ok && stmts_have_yield(decl_fn.body.statements@) {
                assert(self.scopes@[entered.scopes@.len() - 1].has_yield);
                assert(self.scopes@.last().has_yield);
            }
        }
        let f = self.scope_leave_function(span, Ghost(is_async));
        proof {
            if walked is Ok && stmts_have_yield(decl_fn.body.statements@) {
                assert(f.generator);
            }
        }
        let ghost mid_indexed = self.query.indexed_view();
        proof {
            assert(indexed_extend(old(self).query.indexed_view(), mid_indexed));
        }
        match walked {
            Ok(_) => {}
            Err(e) => {
                self.leave();
                return Err(e);
            }
        }
        let call = Self::call(f.generator, f.is_async);

        if decl_fn.is_instance() {
            if self.impl_items.len() == 0 {
                self.leave();
                return Err(
                    CompileError::new(span, CompileErrorKind::InstanceFunctionOutsideImpl),
                );
            }
            let impl_item = self.impl_items[self.impl_items.len() - 1].clone();
            let source = self.meta_source(span);
            let type_of = Type::of_hash(TypeHash::type_hash(&item));
            let inserted = self.query.unit.insert_meta(
                CompileMeta {
                    kind: CompileMetaKind::Function { type_of, item: item.clone() },
                    source: Some(source),
                },
                span,
            );
            match inserted {
                Ok(_) => {}
                Err(e) => {
                    self.leave();
                    proof {
                        assert(self.query.indexed_view() == mid_indexed);
                        assert(indexed_extend(
                            old(self).query.indexed_view(),
                            self.query.indexed_view(),
                        ));
                    }
                    return Err(e);
                }
            }
            self.query.queue_build(
                BuildEntry {
                    item,
                    build: Build::InstanceFunction(
                        InstanceFunction { ast: decl_fn, impl_item, instance_span: span, call },
                    ),
                    source_id: self.source_id,
                    used: Used::Used,
                },
            );
            self.leave();
            proof {
                assert(self.query.queue@.last().item@ == fn_path);
                assert(self.query.unit.keys_view() =~= old(self).query.unit.keys_view().push(
                    fn_path,
                ));
            }
            Ok(())
        } else if is_toplevel {
            let source = self.meta_source(span);
            let type_of = Type::of_hash(TypeHash::type_hash(&item));
            let inserted = self.query.unit.insert_meta(
                CompileMeta {
                    kind: CompileMetaKind::Function { type_of, item: item.clone() },
                    source: Some(source),
                },
                span,
            );
            match inserted {
                Ok(_) => {}
                Err(e) => {
                    self.leave();
                    proof {
                        assert(self.query.indexed_view() == mid_indexed);
                        assert(indexed_extend(
                            old(self).query.indexed_view(),
                            self.query.indexed_view(),
                        ));
                    }
                    return Err(e);
                }
            }
            self.query.queue_build(
                BuildEntry {
                    item,
                    build: Build::Function(Function { ast: decl_fn, call }),
                    source_id: self.source_id,
                    used: Used::Used,
                },
            );
            self.leave();
            proof {
                assert(self.query.queue@.last().item@ == fn_path);
                assert(self.query.unit.keys_view() =~= old(self).query.unit.keys_view().push(
                    fn_path,
                ));
            }
            Ok(())
        } else {
            let r = self.query.index(
                item,
                IndexedEntry {
                    span,
                    source_id: self.source_id,
                    indexed: Indexed::Function { call, ast: decl_fn, impl_item: None },
                },
                span,
            );
            self.leave();
            match r {
                Ok(_) => {
                    proof {
                        assert(self.query.indexed_view().last().0@ == fn_path);
                    }
                    Ok(())
                }
                Err(e) => Err(e),
            }
        }
    }

    /// Index a nested function declaration reached inside another body:
    /// classified the same way, recorded for lazy scheduling without its
    /// syntax.
    fn index_inner_fn(&mut self, decl_fn: &ast::ItemFn) -> (r: CompileResult)
        requires
            old(self).items.wf(),
        ensures
            frame_restored(*old(self), *final(self)),
            builds_preserved(*old(self), *final(self)),
        decreases *decl_fn,
    {
        let r = self.no_attributes(&decl_fn.attributes, "function attributes are not supported");
        match r {
            Ok(_) => {}
            Err(e) => {
                return Err(e);
            }
        }
        let span = decl_fn.span;
        self.items.push_name(decl_fn.name.ident.as_str());
        let item = self.items.item();
        let is_async = decl_fn.async_.is_some();
        self.scope_enter_function(is_async);
        let ghost entered = *self;
        self.declare_fn_args(&decl_fn.args);
        let ghost args_done = *self;
        proof {
            crate::index_scopes::lemma_innermost_frame_shape(
                entered.scopes@,
                args_done.scopes@,
            );
            assert(crate::index_scopes::innermost_frame(entered.scopes@)
                == entered.scopes@.len() - 1);
        }
        let walked = self.index_block(&decl_fn.body);
        proof {
            if walked is Ok && stmts_have_yield(decl_fn.body.statements@) {
                assert(self.scopes@[entered.scopes@.len() - 1].has_yield);
                assert(self.scopes@.last().has_yield);
            }
        }
        let f = self.scope_leave_function(span, Ghost(is_async));
        proof {
            if walked is Ok && stmts_have_yield(decl_fn.body.statements@) {
                assert(f.generator);
            }
        }
        match walked {
            Ok(_) => {}
            Err(e) => {
                self.leave();
                return Err(e);
            }
        }
        let call = Self::call(f.generator, f.is_async);
        let impl_item: Option<Item> = if decl_fn.is_instance() {
            if self.impl_items.len() == 0 {
                self.leave();
                return Err(
                    CompileError::new(span, CompileErrorKind::InstanceFunctionOutsideImpl),
                );
            }
            Some(self.impl_items[self.impl_items.len() - 1].clone())
        } else {
            None
        };
        let r = self.query.index(
            item,
            IndexedEntry {
                span,
                source_id: self.source_id,
                indexed: Indexed::Function {
                    call,
                    ast: Box::new(crate::clone_ast::clone_item_fn(decl_fn)),
                    impl_item,
                },
            },
            span,
        );
        self.leave();
        match r {
            Ok(_) => Ok(()),
            Err(e) => Err(e),
        }
    }

    /// Index a block: a fresh anonymous path component and a fresh plain
    /// scope around its statements.
    pub fn index_block(&mut self, block: &ast::Block) -> (r: CompileResult)
        requires
            old(self).items.wf(),
        ensures
            frame_restored(*old(self), *final(self)),
            builds_preserved(*old(self), *final(self)),
            block.statements@.len() == 0 ==> (r is Ok <==> crate::items::counter_of(
                old(self).items@.counters.last(),
                AnonKind::Block,
            ) < u64::MAX),
            block.statements@.len() == 0 ==> final(self).query == old(self).query,
            (block.statements@.len() == 0 && r is Ok) ==> final(self).scopes@ =~= old(self).scopes@,
            // A yield among the block's statements marks the enclosing
            // function-like frame.
            r is Ok && stmts_have_yield(block.statements@)
                && crate::index_scopes::innermost_frame(old(self).scopes@) >= 0
                ==> final(self).scopes@[crate::index_scopes::innermost_frame(
                old(self).scopes@,
            )].has_yield,
        decreases *block,
    {
        let span = block.span;
        let entered = self.enter_anon(AnonKind::Block, span);
        match entered {
            Ok(_) => {}
            Err(e) => {
                return Err(e);
            }
        }
        self.scope_enter_plain();
        let ghost mid = *self;
        proof {
            assert(decreases_to!(*block => block.statements));
            assert(mid.scopes@.drop_last() =~= old(self).scopes@);
            assert(crate::index_scopes::innermost_frame(mid.scopes@)
                == crate::index_scopes::innermost_frame(old(self).scopes@));
            crate::index_scopes::lemma_innermost_frame_bounds(old(self).scopes@);
        }
        let r = self.index_stmts(&block.statements);
        let ghost walked = *self;
        self.scope_leave_plain();
        self.leave();
        proof {
            let fi = crate::index_scopes::innermost_frame(old(self).scopes@);
            if r is Ok && stmts_have_yield(block.statements@) && fi >= 0 {
                assert(walked.scopes@[fi].has_yield);
                assert(self.scopes@[fi].has_yield);
            }
        }
        r
    }

    /// Index the statements of a block, in source order.
    fn index_stmts(&mut self, statements: &Vec<ast::Stmt>) -> (r: CompileResult)
        requires
            old(self).items.wf(),
        ensures
            frame_restored(*old(self), *final(self)),
            builds_preserved(*old(self), *final(self)),
            statements@.len() == 0 ==> r is Ok && final(self).query == old(self).query
                && final(self).scopes@ =~= old(self).scopes@,
            r is Ok && stmts_have_yield(statements@) && crate::index_scopes::innermost_frame(
                old(self).scopes@,
            ) >= 0 ==> final(self).scopes@[crate::index_scopes::innermost_frame(
                old(self).scopes@,
            )].has_yield,
        decreases *statements,
    {
        let ghost fi = crate::index_scopes::innermost_frame(old(self).scopes@);
        proof {
            crate::index_scopes::lemma_innermost_frame_bounds(old(self).scopes@);
        }
        let mut i: usize = 0;
        while i < statements.len()
            invariant
                i <= statements@.len(),
                self.items.wf(),
                frame_restored(*old(self), *self),
                builds_preserved(*old(self), *self),
                statements@.len() == 0 ==> self.query == old(self).query && self.scopes@
                    =~= old(self).scopes@,
                fi == crate::index_scopes::innermost_frame(old(self).scopes@),
                fi < old(self).scopes@.len(),
                fi >= 0 && stmts_have_yield(statements@.take(i as int))
                    ==> self.scopes@[fi].has_yield,
            decreases statements@.len() - i,
        {
            proof {
                assert(decreases_to!(*statements => statements[i as int]));
            }
            let ghost mid = *self;
            let r = self.index_stmt(&statements[i]);
            match r {
                Ok(_) => {}
                Err(e) => {
                    return Err(e);
                }
            }
            proof {
                if fi >= 0 && stmts_have_yield(statements@.take(i + 1)) {
                    if stmt_is_yield(statements@[i as int]) {
                        crate::index_scopes::lemma_innermost_frame_shape(
                            old(self).scopes@,
                            mid.scopes@,
                        );
                        assert(self.scopes@[fi].has_yield);
                    } else {
                        assert(stmts_have_yield(statements@.take(i as int))) by {
                            let w = choose|j: int|
                                0 <= j < statements@.take(i + 1).len() && stmt_is_yield(
                                    #[trigger] statements@.take(i + 1)[j],
                                );
                            assert(statements@.take(i as int)[w] == statements@.take(i + 1)[w]);
                        }
                        assert(mid.scopes@[fi].has_yield);
                        assert(self.scopes@[fi].has_yield);
                    }
                }
            }
            i = i + 1;
        }
        proof {
            assert(statements@.take(statements@.len() as int) =~= statements@);
        }
        Ok(())
    }

    /// Index one statement.
    fn index_stmt(&mut self, stmt: &ast::Stmt) -> (r: CompileResult)
        requires
            old(self).items.wf(),
        ensures
            frame_restored(*old(self), *final(self)),
            builds_preserved(*old(self), *final(self)),
            r is Ok && stmt_is_yield(*stmt) && crate::index_scopes::innermost_frame(
                old(self).scopes@,
            ) >= 0 ==> final(self).scopes@[crate::index_scopes::innermost_frame(
                old(self).scopes@,
            )].has_yield,
        decreases *stmt,
    {
        match stmt {
            ast::Stmt::Item(decl) => self.index_inner_item(decl),
            ast::Stmt::Expr(expr) => self.index_expr(expr),
            ast::Stmt::Semi(expr, _) => self.index_expr(expr),
        }
    }

    /// Index a declaration reached inside a body. Structure and scoping
    /// are handled exactly as at the top level; the declaration itself is
    /// recorded from what the walk can read in place.
    fn index_inner_item(&mut self, item: &ast::Item) -> (r: CompileResult)
        requires
            old(self).items.wf(),
        ensures
            frame_restored(*old(self), *final(self)),
            builds_preserved(*old(self), *final(self)),
        decreases *item,
    {
        let span = item.span();
        match item {
            ast::Item::ItemUse(import) => {
                let r = self.no_attributes(&import.attributes, "use attributes are not supported");
                match r {
                    Ok(_) => {}
                    Err(e) => {
                        return Err(e);
                    }
                }
                let at = self.items.item();
                self.queue.push(
                    Task::Import(
                        Import { item: at, ast: import.clone(), source_id: self.source_id },
                    ),
                );
                Ok(())
            }
            ast::Item::ItemEnum(item_enum) => {
                let r = self.no_attributes(
                    &item_enum.attributes,
                    "enum attributes are not supported",
                );
                match r {
                    Ok(_) => {}
                    Err(e) => {
                        return Err(e);
                    }
                }
                self.items.push_name(item_enum.name.ident.as_str());
                let r = self.enum_inner(clone_variants(&item_enum.variants), item_enum.span);
                self.leave();
                r
            }
            ast::Item::ItemStruct(item_struct) => {
                let r = self.no_attributes(
                    &item_struct.attributes,
                    "struct attributes are not supported",
                );
                match r {
                    Ok(_) => {}
                    Err(e) => {
                        return Err(e);
                    }
                }
                let r = self.struct_field_attributes(&item_struct.body);
                match r {
                    Ok(_) => {}
                    Err(e) => {
                        return Err(e);
                    }
                }
                self.items.push_name(item_struct.ident.ident.as_str());
                let item_path = self.items.item();
                let r = self.query.index_struct(
                    item_path,
                    item_struct.body.clone(),
                    self.source_id,
                    item_struct.span,
                );
                self.leave();
                match r {
                    Ok(_) => Ok(()),
                    Err(e) => Err(e),
                }
            }
            ast::Item::ItemFn(decl_fn) => self.index_inner_fn(decl_fn),
            ast::Item::ItemImpl(item_impl) => {
                let r = self.no_attributes(
                    &item_impl.attributes,
                    "impl attributes are not supported",
                );
                match r {
                    Ok(_) => {}
                    Err(e) => {
                        return Err(e);
                    }
                }
                self.items.push_name(item_impl.path.first.ident.as_str());
                let mut i: usize = 0;
                while i < item_impl.path.rest.len()
                    invariant
                        i <= item_impl.path.rest@.len(),
                        self.items.wf(),
                        self.rest_eq(*old(self)),
                        self.items@.path.len() == old(self).items@.path.len() + 1 + i,
                        self.items@.path.take(old(self).items@.path.len() as int) =~= old(self).items@.path,
                    decreases item_impl.path.rest@.len() - i,
                {
                    let ghost pre_path = self.items@.path;
                    self.items.push_name(item_impl.path.rest[i].ident.as_str());
                    proof {
                        assert(self.items@.path.take(old(self).items@.path.len() as int)
                            =~= pre_path.take(old(self).items@.path.len() as int));
                    }
                    i = i + 1;
                }
                let impl_item = self.items.item();
                self.impl_items.push(impl_item);
                let r = self.inner_impl_fns(&item_impl.functions);
                let _ = self.impl_items.pop();
                self.leave_n(item_impl.path.rest.len());
                self.leave();
                proof {
                    assert(self.items@.path =~= old(self).items@.path);
                }
                r
            }
            ast::Item::ItemMod(item_mod) => {
                let r = self.no_attributes(
                    &item_mod.attributes,
                    "module attributes are not supported",
                );
                match r {
                    Ok(_) => {}
                    Err(e) => {
                        return Err(e);
                    }
                }
                match &item_mod.body {
                    ast::ItemModBody::EmptyBody(_) => self.handle_file_mod(item_mod),
                    ast::ItemModBody::InlineBody(file) => {
                        self.items.push_name(item_mod.name.ident.as_str());
                        let r = self.index_file_ref(file);
                        self.leave();
                        r
                    }
                }
            }
            ast::Item::ItemConst(item_const) => {
                let r = self.no_attributes(
                    &item_const.attributes,
                    "attributes on constants are not supported",
                );
                match r {
                    Ok(_) => {}
                    Err(e) => {
                        return Err(e);
                    }
                }
                self.items.push_name(item_const.name.ident.as_str());
                let item_path = self.items.item();
                let r = self.query.index_const(
                    item_path,
                    Box::new(crate::clone_ast::clone_expr(&item_const.expr)),
                    self.source_id,
                    item_const.span,
                );
                self.leave();
                match r {
                    Ok(_) => Ok(()),
                    Err(e) => Err(e),
                }
            }
            ast::Item::MacroCall(macro_call) => {
                let r = self.enter_anon(AnonKind::Macro, span);
                match r {
                    Ok(_) => {}
                    Err(e) => {
                        return Err(e);
                    }
                }
                let snapshot = self.items.snapshot();
                let scopes = self.scopes.snapshot();
                let impl_items = self.clone_impl_items();
                self.queue.push(
                    Task::ExpandMacro(
                        Macro {
                            kind: MacroKind::Item,
                            root: self.clone_root(),
                            items: snapshot,
                            ast: macro_call.clone(),
                            source_id: self.source_id,
                            scopes,
                            impl_items,
                        },
                    ),
                );
                self.leave();
                Ok(())
            }
        }
    }

    /// Index the functions of an `impl` block reached inside a body.
    fn inner_impl_fns(&mut self, functions: &Vec<ast::ItemFn>) -> (r: CompileResult)
        requires
            old(self).items.wf(),
        ensures
            frame_restored(*old(self), *final(self)),
            builds_preserved(*old(self), *final(self)),
        decreases *functions,
    {
        let mut i: usize = 0;
        while i < functions.len()
            invariant
                i <= functions@.len(),
                self.items.wf(),
                frame_restored(*old(self), *self),
                builds_preserved(*old(self), *self),
            decreases functions@.len() - i,
        {
            proof {
                assert(decreases_to!(*functions => functions[i as int]));
            }
            let r = self.index_inner_fn(&functions[i]);
            match r {
                Ok(_) => {}
                Err(e) => {
                    return Err(e);
                }
            }
            i = i + 1;
        }
        Ok(())
    }

    /// Index a file body reached as an inline module inside another body.
    fn index_file_ref(&mut self, file: &ast::File) -> (r: CompileResult)
        requires
            old(self).items.wf(),
        ensures
            frame_restored(*old(self), *final(self)),
            builds_preserved(*old(self), *final(self)),
        decreases *file,
    {
        if file.attributes.len() > 0 {
            return Err(
                CompileError::unsupported(
                    file.attributes[0].span,
                    "file attributes are not supported yet",
                ),
            );
        }
        let mut i: usize = 0;
        while i < file.items.len()
            invariant
                i <= file.items@.len(),
                self.items.wf(),
                frame_restored(*old(self), *self),
                builds_preserved(*old(self), *self),
                decreases_to!(*file => file.items),
            decreases file.items@.len() - i,
        {
            proof {
                assert(decreases_to!(file.items => file.items[i as int]));
            }
            let fi = &file.items[i];
            match fi.semi {
                Some(semi_span) => {
                    if !fi.item.needs_semi_colon() {
                        self.warnings.unnecessary_semi_colon(self.source_id, semi_span);
                    }
                }
                None => {}
            }
            let r = self.index_inner_item(&fi.item);
            match r {
                Ok(_) => {}
                Err(e) => {
                    return Err(e);
                }
            }
            i = i + 1;
        }
        Ok(())
    }
}

/// A value copy of the variants of an enum, for a declaration reached by
/// reference.
fn clone_variants(variants: &Vec<ast::ItemVariant>) -> (r: Vec<ast::ItemVariant>)
    ensures
        r@.len() == variants@.len(),
{
    let mut out: Vec<ast::ItemVariant> = Vec::new();
    let mut i: usize = 0;
    while i < variants.len()
        invariant
            i <= variants@.len(),
            out@.len() == i as int,
        decreases variants@.len() - i,
    {
        let v = &variants[i];
        out.push(
            ast::ItemVariant {
                attributes: v.attributes.clone(),
                name: v.name.clone(),
                body: v.body.clone(),
            },
        );
        i = i + 1;
    }
    out
}

impl Indexer {
    /// Index one expression, dispatching on its kind. A macro invocation
    /// is never evaluated inline but appends exactly one expansion task
    /// carrying a snapshot of the path (with a fresh macro component),
    /// the scopes and the `impl` context. An `.await`, or a `select`,
    /// outside an asynchronous frame is a scope-discipline error, judged
    /// by the innermost function-like frame only; a `yield` needs some
    /// enclosing frame. An indexed closure or async block registers its
    /// deferred declaration under a fresh anonymous path.
    pub fn index_expr(&mut self, expr: &ast::Expr) -> (r: CompileResult)
        requires
            old(self).items.wf(),
        ensures
            frame_restored(*old(self), *final(self)),
            builds_preserved(*old(self), *final(self)),
            ((*expr) matches ast::Expr::MacroCall(m) ==> {
                &&& (r is Ok <==> crate::items::counter_of(
                    old(self).items@.counters.last(),
                    AnonKind::Macro,
                ) < u64::MAX)
                &&& (r is Ok ==> {
                    let task = final(self).queue@.last();
                    &&& final(self).queue@ =~= old(self).queue@.push(task)
                    &&& (task matches Task::ExpandMacro(mt) && mt.ast.path.first
                        == m.path.first && mt.ast.path.rest@ =~= m.path.rest@ && mt.ast.span
                        == m.span && mt.kind is Expr && mt.items@
                        == crate::items::spec_push_anon(
                        old(self).items@,
                        AnonKind::Macro,
                    ) && mt.scopes@ =~= old(self).scopes@ && mt.source_id == old(self).source_id)
                    &&& final(self).query == old(self).query
                })
            }),
            ((*expr) matches ast::Expr::ExprAwait(a) ==> {
                let fi = crate::index_scopes::innermost_frame(old(self).scopes@);
                &&& ((fi < 0 || !old(self).scopes@[fi].is_async) ==> (r is Err
                    && r->Err_0.kind is AwaitOutsideAsync))
                &&& (r is Ok ==> fi >= 0 && old(self).scopes@[fi].is_async)
            }),
            ((*expr) matches ast::Expr::ExprSelect(sel) ==> {
                let fi = crate::index_scopes::innermost_frame(old(self).scopes@);
                &&& ((fi < 0 || !old(self).scopes@[fi].is_async) ==> (r is Err
                    && r->Err_0.kind is AwaitOutsideAsync))
                &&& (r is Ok ==> fi >= 0 && old(self).scopes@[fi].is_async)
            }),
            ((*expr) matches ast::Expr::ExprYield(y) ==> {
                let fi = crate::index_scopes::innermost_frame(old(self).scopes@);
                &&& (fi < 0 ==> (r is Err && r->Err_0.kind is YieldOutsideFunction))
                &&& (r is Ok ==> fi >= 0 && final(self).scopes@[fi].has_yield)
            }),
            ((*expr) matches ast::Expr::ExprClosure(c) ==> (r is Ok ==> {
                let (key, entry) = final(self).query.indexed_view().last();
                &&& final(self).query.indexed_view().len() > 0
                &&& key@ == crate::items::spec_push_anon(
                    old(self).items@,
                    AnonKind::Closure,
                ).path
                &&& entry.indexed is Closure
            })),
            ((*expr) matches ast::Expr::ExprAsync(b) ==> (r is Ok ==> {
                let (key, entry) = final(self).query.indexed_view().last();
                &&& final(self).query.indexed_view().len() > 0
                &&& key@ == crate::items::spec_push_anon(
                    old(self).items@,
                    AnonKind::AsyncBlock,
                ).path
                &&& entry.indexed is AsyncBlock
            })),
        decreases *expr,
    {
        match expr {
            ast::Expr::Self_(_) => {
                self.scope_mark_use("self");
                Ok(())
            }
            ast::Expr::Path(path) => {
                self.index_path(path);
                Ok(())
            }
            ast::Expr::ExprLet(expr_let) => self.index_expr_let(expr_let),
            ast::Expr::ExprBlock(block) => self.index_expr_block(block),
            ast::Expr::ExprAsync(expr_async) => self.index_expr_async(expr_async),
            ast::Expr::ExprGroup(inner, _) => self.index_expr(inner),
            ast::Expr::ExprIf(expr_if) => self.index_expr_if(expr_if),
            ast::Expr::ExprBinary(expr_binary) => {
                let r = self.index_expr(&expr_binary.lhs);
                match r {
                    Ok(_) => {}
                    Err(e) => {
                        return Err(e);
                    }
                }
                self.index_expr(&expr_binary.rhs)
            }
            ast::Expr::ExprMatch(expr_match) => self.index_expr_match(expr_match),
            ast::Expr::ExprClosure(expr_closure) => self.index_expr_closure(expr_closure),
            ast::Expr::ExprWhile(expr_while) => self.index_expr_while(expr_while),
            ast::Expr::ExprLoop(expr_loop) => self.index_expr_loop(expr_loop),
            ast::Expr::ExprFor(expr_for) => self.index_expr_for(expr_for),
            ast::Expr::ExprIndexSet(e) => {
                let r = self.index_expr(&e.value);
                match r {
                    Ok(_) => {}
                    Err(err) => {
                        return Err(err);
                    }
                }
                let r = self.index_expr(&e.index);
                match r {
                    Ok(_) => {}
                    Err(err) => {
                        return Err(err);
                    }
                }
                self.index_expr(&e.target)
            }
            ast::Expr::ExprFieldAccess(e) => self.index_expr(&e.expr),
            ast::Expr::ExprUnary(e) => self.index_expr(&e.expr),
            ast::Expr::ExprIndexGet(e) => {
                let r = self.index_expr(&e.index);
                match r {
                    Ok(_) => {}
                    Err(err) => {
                        return Err(err);
                    }
                }
                self.index_expr(&e.target)
            }
            ast::Expr::ExprBreak(e) => {
                match &e.expr {
                    Some(ast::ExprBreakValue::Expr(inner)) => self.index_expr(inner),
                    Some(ast::ExprBreakValue::Label(_)) => Ok(()),
                    None => Ok(()),
                }
            }
            ast::Expr::ExprYield(e) => {
                let r = self.scope_mark_yield(e.span);
                match r {
                    Ok(_) => {}
                    Err(err) => {
                        return Err(err);
                    }
                }
                let ghost marked = *self;
                proof {
                    crate::index_scopes::lemma_innermost_frame_bounds(old(self).scopes@);
                    assert(marked.scopes@[crate::index_scopes::innermost_frame(
                        old(self).scopes@,
                    )].has_yield);
                }
                let walked = match &e.expr {
                    Some(inner) => self.index_expr(inner),
                    None => Ok(()),
                };
                proof {
                    assert(self.scopes@[crate::index_scopes::innermost_frame(
                        old(self).scopes@,
                    )].has_yield);
                }
                walked
            }
            ast::Expr::ExprReturn(e) => {
                match &e.expr {
                    Some(inner) => self.index_expr(inner),
                    None => Ok(()),
                }
            }
            ast::Expr::ExprAwait(e) => {
                let r = self.scope_mark_await(e.span);
                match r {
                    Ok(_) => {}
                    Err(err) => {
                        return Err(err);
                    }
                }
                self.index_expr(&e.expr)
            }
            ast::Expr::ExprTry(e) => self.index_expr(&e.expr),
            ast::Expr::ExprSelect(expr_select) => self.index_expr_select(expr_select),
            ast::Expr::ExprCall(expr_call) => self.index_expr_call(expr_call),
            ast::Expr::ExprLit(expr_lit) => self.index_expr_lit(expr_lit),
            ast::Expr::MacroCall(macro_call) => {
                let r = self.enter_anon(AnonKind::Macro, macro_call.span);
                match r {
                    Ok(_) => {}
                    Err(e) => {
                        return Err(e);
                    }
                }
                let snapshot = self.items.snapshot();
                let scopes = self.scopes.snapshot();
                let impl_items = self.clone_impl_items();
                self.queue.push(
                    Task::ExpandMacro(
                        Macro {
                            kind: MacroKind::Expr,
                            root: self.clone_root(),
                            items: snapshot,
                            ast: macro_call.clone(),
                            source_id: self.source_id,
                            scopes,
                            impl_items,
                        },
                    ),
                );
                self.leave();
                proof {
                    let task = self.queue@.last();
                    assert(self.queue@ =~= old(self).queue@.push(task));
                    assert(task matches Task::ExpandMacro(mt) && mt.kind is Expr);
                    assert(task matches Task::ExpandMacro(mt) && mt.items@
                        == crate::items::spec_push_anon(old(self).items@, AnonKind::Macro));
                    assert(task matches Task::ExpandMacro(mt) && mt.scopes@ =~= old(self).scopes@);
                    assert(task matches Task::ExpandMacro(mt) && mt.source_id == old(self).source_id);
                    assert(self.query == old(self).query);
                }
                Ok(())
            }
        }
    }

    /// Index a path: a single identifier marks a use.
    fn index_path(&mut self, path: &ast::Path)
        requires
            old(self).items.wf(),
        ensures
            final(self).items == old(self).items,
            frame_restored(*old(self), *final(self)),
            builds_preserved(*old(self), *final(self)),
    {
        match path.try_as_ident() {
            Some(ident) => {
                self.scope_mark_use(ident.ident.as_str());
            }
            None => {}
        }
    }

    /// Index a `let` binding: the pattern declares, the expression is
    /// walked.
    fn index_expr_let(&mut self, expr_let: &ast::ExprLet) -> (r: CompileResult)
        requires
            old(self).items.wf(),
        ensures
            frame_restored(*old(self), *final(self)),
            builds_preserved(*old(self), *final(self)),
        decreases *expr_let,
    {
        let r = self.index_pat(&expr_let.pat);
        match r {
            Ok(_) => {}
            Err(e) => {
                return Err(e);
            }
        }
        self.index_expr(&expr_let.expr)
    }

    /// Index a block expression.
    fn index_expr_block(&mut self, expr_block: &ast::ExprBlock) -> (r: CompileResult)
        requires
            old(self).items.wf(),
        ensures
            frame_restored(*old(self), *final(self)),
            builds_preserved(*old(self), *final(self)),
        decreases *expr_block,
    {
        let r = self.no_attributes(
            &expr_block.attributes,
            "block attributes are not supported yet",
        );
        match r {
            Ok(_) => {}
            Err(e) => {
                return Err(e);
            }
        }
        self.index_block(&expr_block.block)
    }

    /// Index an async block: a fresh anonymous path component, an
    /// asynchronous closure frame, and a deferred registration of its
    /// captures and calling convention.
    fn index_expr_async(&mut self, expr_async: &ast::ExprAsync) -> (r: CompileResult)
        requires
            old(self).items.wf(),
        ensures
            frame_restored(*old(self), *final(self)),
            builds_preserved(*old(self), *final(self)),
            r is Ok ==> ({
                let (key, entry) = final(self).query.indexed_view().last();
                &&& final(self).query.indexed_view().len() > 0
                &&& key@ == crate::items::spec_push_anon(
                    old(self).items@,
                    AnonKind::AsyncBlock,
                ).path
                &&& entry.indexed is AsyncBlock
            }),
        decreases *expr_async,
    {
        let span = expr_async.span;
        let r = self.no_attributes(
            &expr_async.attributes,
            "async block attributes are not supported yet",
        );
        match r {
            Ok(_) => {}
            Err(e) => {
                return Err(e);
            }
        }
        let entered = self.enter_anon(AnonKind::AsyncBlock, span);
        match entered {
            Ok(_) => {}
            Err(e) => {
                return Err(e);
            }
        }
        self.scope_enter_closure(true);
        let walked = self.index_block(&expr_async.block);
        let c = self.scope_leave_closure(span, Ghost(true));
        match walked {
            Ok(_) => {}
            Err(e) => {
                self.leave();
                return Err(e);
            }
        }
        let call = Self::call(c.generator, c.is_async);
        let item = self.items.item();
        proof {
            assert(item@ =~= crate::items::spec_push_anon(
                old(self).items@,
                AnonKind::AsyncBlock,
            ).path);
        }
        let r = self.query.index_async_block(item, c.captures, call, self.source_id, span);
        self.leave();
        match r {
            Ok(_) => Ok(()),
            Err(e) => Err(e),
        }
    }

    /// Index an `if` expression.
    fn index_expr_if(&mut self, expr_if: &ast::ExprIf) -> (r: CompileResult)
        requires
            old(self).items.wf(),
        ensures
            frame_restored(*old(self), *final(self)),
            builds_preserved(*old(self), *final(self)),
        decreases *expr_if,
    {
        let r = self.index_condition(&expr_if.condition);
        match r {
            Ok(_) => {}
            Err(e) => {
                return Err(e);
            }
        }
        let r = self.index_block(&expr_if.block);
        match r {
            Ok(_) => {}
            Err(e) => {
                return Err(e);
            }
        }
        let mut i: usize = 0;
        while i < expr_if.expr_else_ifs.len()
            invariant
                i <= expr_if.expr_else_ifs@.len(),
                self.items.wf(),
                frame_restored(*old(self), *self),
                builds_preserved(*old(self), *self),
            decreases expr_if.expr_else_ifs@.len() - i,
        {
            proof {
                assert(decreases_to!(*expr_if => expr_if.expr_else_ifs));
                assert(decreases_to!(expr_if.expr_else_ifs => expr_if.expr_else_ifs[i as int]));
            }
            let arm = &expr_if.expr_else_ifs[i];
            let r = self.index_condition(&arm.condition);
            match r {
                Ok(_) => {}
                Err(e) => {
                    return Err(e);
                }
            }
            let r = self.index_block(&arm.block);
            match r {
                Ok(_) => {}
                Err(e) => {
                    return Err(e);
                }
            }
            i = i + 1;
        }
        match &expr_if.expr_else {
            Some(block) => self.index_block(block),
            None => Ok(()),
        }
    }

    /// Index a condition.
    fn index_condition(&mut self, condition: &ast::Condition) -> (r: CompileResult)
        requires
            old(self).items.wf(),
        ensures
            frame_restored(*old(self), *final(self)),
            builds_preserved(*old(self), *final(self)),
        decreases *condition,
    {
        match condition {
            ast::Condition::Expr(expr) => self.index_expr(expr),
            ast::Condition::ExprLet(expr_let) => self.index_expr_let(expr_let),
        }
    }

    /// Index a `match`: the scrutinee and each guard in the enclosing
    /// scope, each arm's pattern and body in a fresh child scope.
    fn index_expr_match(&mut self, expr_match: &ast::ExprMatch) -> (r: CompileResult)
        requires
            old(self).items.wf(),
        ensures
            frame_restored(*old(self), *final(self)),
            builds_preserved(*old(self), *final(self)),
        decreases *expr_match,
    {
        let r = self.index_expr(&expr_match.expr);
        match r {
            Ok(_) => {}
            Err(e) => {
                return Err(e);
            }
        }
        let mut i: usize = 0;
        while i < expr_match.branches.len()
            invariant
                i <= expr_match.branches@.len(),
                self.items.wf(),
                frame_restored(*old(self), *self),
                builds_preserved(*old(self), *self),
            decreases expr_match.branches@.len() - i,
        {
            proof {
                assert(decreases_to!(*expr_match => expr_match.branches));
                assert(decreases_to!(expr_match.branches => expr_match.branches[i as int]));
            }
            let branch = &expr_match.branches[i];
            match &branch.condition {
                Some(condition) => {
                    let r = self.index_expr(condition);
                    match r {
                        Ok(_) => {}
                        Err(e) => {
                            return Err(e);
                        }
                    }
                }
                None => {}
            }
            self.scope_enter_plain();
            let r = self.index_pat(&branch.pat);
            match r {
                Ok(_) => {}
                Err(e) => {
                    self.scope_leave_plain();
                    return Err(e);
                }
            }
            let r = self.index_expr(&branch.body);
            self.scope_leave_plain();
            match r {
                Ok(_) => {}
                Err(e) => {
                    return Err(e);
                }
            }
            i = i + 1;
        }
        Ok(())
    }

    /// Index a closure: a fresh anonymous path component, a closure
    /// frame, declared arguments, the walked body, and a deferred
    /// registration of its captures and calling convention.
    fn index_expr_closure(&mut self, expr_closure: &ast::ExprClosure) -> (r: CompileResult)
        requires
            old(self).items.wf(),
        ensures
            frame_restored(*old(self), *final(self)),
            builds_preserved(*old(self), *final(self)),
            r is Ok ==> ({
                let (key, entry) = final(self).query.indexed_view().last();
                &&& final(self).query.indexed_view().len() > 0
                &&& key@ == crate::items::spec_push_anon(
                    old(self).items@,
                    AnonKind::Closure,
                ).path
                &&& entry.indexed is Closure
            }),
        decreases *expr_closure,
    {
        let span = expr_closure.span;
        let entered = self.enter_anon(AnonKind::Closure, span);
        match entered {
            Ok(_) => {}
            Err(e) => {
                return Err(e);
            }
        }
        let is_async = expr_closure.async_.is_some();
        self.scope_enter_closure(is_async);

        let mut i: usize = 0;
        let mut arg_error: Option<CompileError> = None;
        while i < expr_closure.args.len()
            invariant
                i <= expr_closure.args@.len(),
                self.items.wf(),
                self.items@ == crate::items::spec_push_anon(
                    old(self).items@,
                    AnonKind::Closure,
                ),
                scope_shape(self.scopes@) =~= scope_shape(old(self).scopes@).push(
                    (crate::index_scopes::LevelKind::Frame, true, is_async),
                ),
                self.scopes@.len() == old(self).scopes@.len() + 1,
                yields_monotone(old(self).scopes@, self.scopes@),
                self.root == old(self).root,
                self.source_id == old(self).source_id,
                self.impl_items == old(self).impl_items,
                self.query == old(self).query,
                self.queue == old(self).queue,
                self.loaded == old(self).loaded,
                self.sources == old(self).sources,
                self.warnings == old(self).warnings,
                self.visits == old(self).visits,
                self.loader == old(self).loader,
            decreases expr_closure.args@.len() - i,
        {
            if arg_error.is_none() {
                match &expr_closure.args[i] {
                    ast::FnArg::Self_(s) => {
                        arg_error = Some(
                            CompileError::new(*s, CompileErrorKind::UnsupportedSelf),
                        );
                    }
                    ast::FnArg::Ident(ident) => {
                        let r = self.scope_declare(ident.ident.as_str(), span);
                        match r {
                            Ok(_) => {}
                            Err(e) => {
                                arg_error = Some(e);
                            }
                        }
                    }
                    ast::FnArg::Ignore(_) => {}
                }
            }
            i = i + 1;
        }
        match arg_error {
            Some(e) => {
                let _ = self.scope_leave_closure(span, Ghost(is_async));
                self.leave();
                return Err(e);
            }
            None => {}
        }

        let walked = self.index_expr(&expr_closure.body);
        let c = self.scope_leave_closure(span, Ghost(is_async));
        match walked {
            Ok(_) => {}
            Err(e) => {
                self.leave();
                return Err(e);
            }
        }
        let call = Self::call(c.generator, c.is_async);
        let item = self.items.item();
        proof {
            assert(item@ =~= crate::items::spec_push_anon(
                old(self).items@,
                AnonKind::Closure,
            ).path);
        }
        let r = self.query.index_closure(item, c.captures, call, self.source_id, span);
        self.leave();
        match r {
            Ok(_) => Ok(()),
            Err(e) => Err(e),
        }
    }

    /// Index a `while` loop: condition and body share a fresh child
    /// scope.
    fn index_expr_while(&mut self, expr_while: &ast::ExprWhile) -> (r: CompileResult)
        requires
            old(self).items.wf(),
        ensures
            frame_restored(*old(self), *final(self)),
            builds_preserved(*old(self), *final(self)),
        decreases *expr_while,
    {
        self.scope_enter_plain();
        let r = self.index_condition(&expr_while.condition);
        match r {
            Ok(_) => {}
            Err(e) => {
                self.scope_leave_plain();
                return Err(e);
            }
        }
        let r = self.index_block(&expr_while.body);
        self.scope_leave_plain();
        r
    }

    /// Index an unconditional loop.
    fn index_expr_loop(&mut self, expr_loop: &ast::ExprLoop) -> (r: CompileResult)
        requires
            old(self).items.wf(),
        ensures
            frame_restored(*old(self), *final(self)),
            builds_preserved(*old(self), *final(self)),
        decreases *expr_loop,
    {
        self.scope_enter_plain();
        let r = self.index_block(&expr_loop.body);
        self.scope_leave_plain();
        r
    }

    /// Index a `for` loop: the iterator expression is evaluated in the
    /// parent scope, because the loop variable is not yet in scope while
    /// evaluating the iterable; the variable and body live in a fresh
    /// child scope.
    fn index_expr_for(&mut self, expr_for: &ast::ExprFor) -> (r: CompileResult)
        requires
            old(self).items.wf(),
        ensures
            frame_restored(*old(self), *final(self)),
            builds_preserved(*old(self), *final(self)),
        decreases *expr_for,
    {
        let r = self.index_expr(&expr_for.iter);
        match r {
            Ok(_) => {}
            Err(e) => {
                return Err(e);
            }
        }
        self.scope_enter_plain();
        let r = self.scope_declare(expr_for.var.ident.as_str(), expr_for.var.span);
        match r {
            Ok(_) => {}
            Err(e) => {
                self.scope_leave_plain();
                return Err(e);
            }
        }
        proof {
            assert(decreases_to!(*expr_for => expr_for.body));
        }
        let r = self.index_expr_block(&expr_for.body);
        self.scope_leave_plain();
        r
    }

    /// Index a `select`: it marks the enclosing frame as awaiting; each
    /// branch's future expression is evaluated in the parent scope, its
    /// pattern and body in a fresh child scope, and an optional default
    /// branch gets its own child scope.
    fn index_expr_select(&mut self, expr_select: &ast::ExprSelect) -> (r: CompileResult)
        requires
            old(self).items.wf(),
        ensures
            frame_restored(*old(self), *final(self)),
            builds_preserved(*old(self), *final(self)),
            ({
                let fi = crate::index_scopes::innermost_frame(old(self).scopes@);
                &&& ((fi < 0 || !old(self).scopes@[fi].is_async) ==> (r is Err
                    && r->Err_0.kind is AwaitOutsideAsync))
                &&& (r is Ok ==> fi >= 0 && old(self).scopes@[fi].is_async)
            }),
        decreases *expr_select,
    {
        let r = self.scope_mark_await(expr_select.span);
        match r {
            Ok(_) => {}
            Err(e) => {
                return Err(e);
            }
        }
        let ghost fi0 = crate::index_scopes::innermost_frame(old(self).scopes@);
        let mut i: usize = 0;
        while i < expr_select.branches.len()
            invariant
                i <= expr_select.branches@.len(),
                self.items.wf(),
                frame_restored(*old(self), *self),
                builds_preserved(*old(self), *self),
                fi0 == crate::index_scopes::innermost_frame(old(self).scopes@),
                fi0 >= 0 && old(self).scopes@[fi0].is_async,
            decreases expr_select.branches@.len() - i,
        {
            proof {
                assert(decreases_to!(*expr_select => expr_select.branches));
                assert(decreases_to!(expr_select.branches => expr_select.branches[i as int]));
            }
            let branch = &expr_select.branches[i];
            let r = self.index_expr(&branch.expr);
            match r {
                Ok(_) => {}
                Err(e) => {
                    return Err(e);
                }
            }
            self.scope_enter_plain();
            let r = self.index_pat(&branch.pat);
            match r {
                Ok(_) => {}
                Err(e) => {
                    self.scope_leave_plain();
                    return Err(e);
                }
            }
            let r = self.index_expr(&branch.body);
            self.scope_leave_plain();
            match r {
                Ok(_) => {}
                Err(e) => {
                    return Err(e);
                }
            }
            i = i + 1;
        }
        match &expr_select.default_branch {
            Some(body) => {
                self.scope_enter_plain();
                let r = self.index_expr(body);
                self.scope_leave_plain();
                r
            }
            None => Ok(()),
        }
    }

    /// Index a call: the arguments, then the called expression.
    fn index_expr_call(&mut self, expr_call: &ast::ExprCall) -> (r: CompileResult)
        requires
            old(self).items.wf(),
        ensures
            frame_restored(*old(self), *final(self)),
            builds_preserved(*old(self), *final(self)),
        decreases *expr_call,
    {
        let mut i: usize = 0;
        while i < expr_call.args.len()
            invariant
                i <= expr_call.args@.len(),
                self.items.wf(),
                frame_restored(*old(self), *self),
                builds_preserved(*old(self), *self),
            decreases expr_call.args@.len() - i,
        {
            proof {
                assert(decreases_to!(*expr_call => expr_call.args));
                assert(decreases_to!(expr_call.args => expr_call.args[i as int]));
            }
            let r = self.index_expr(&expr_call.args[i]);
            match r {
                Ok(_) => {}
                Err(e) => {
                    return Err(e);
                }
            }
            i = i + 1;
        }
        self.index_expr(&expr_call.expr)
    }

    /// Index a literal expression: templates, tuples, vectors and
    /// objects hold expressions to walk; scalar literals hold nothing.
    fn index_expr_lit(&mut self, expr_lit: &ast::ExprLit) -> (r: CompileResult)
        requires
            old(self).items.wf(),
        ensures
            frame_restored(*old(self), *final(self)),
            builds_preserved(*old(self), *final(self)),
        decreases *expr_lit,
    {
        let r = self.no_attributes(&expr_lit.attributes, "literal attributes are not supported");
        match r {
            Ok(_) => {}
            Err(e) => {
                return Err(e);
            }
        }
        match &expr_lit.lit {
            ast::Lit::Template(lit_template) => {
                let mut i: usize = 0;
                while i < lit_template.components.len()
                    invariant
                        i <= lit_template.components@.len(),
                        self.items.wf(),
                        frame_restored(*old(self), *self),
                        builds_preserved(*old(self), *self),
                        decreases_to!(expr_lit.lit => *lit_template),
                    decreases lit_template.components@.len() - i,
                {
                    proof {
                        assert(decreases_to!(*lit_template => lit_template.components));
                        assert(decreases_to!(lit_template.components => lit_template.components[
                            i as int
                        ]));
                    }
                    match &lit_template.components[i] {
                        ast::TemplateComponent::Expr(inner) => {
                            let r = self.index_expr(inner);
                            match r {
                                Ok(_) => {}
                                Err(e) => {
                                    return Err(e);
                                }
                            }
                        }
                        ast::TemplateComponent::String(_) => {}
                    }
                    i = i + 1;
                }
                Ok(())
            }
            ast::Lit::Tuple(lit_tuple) => {
                let mut i: usize = 0;
                while i < lit_tuple.items.len()
                    invariant
                        i <= lit_tuple.items@.len(),
                        self.items.wf(),
                        frame_restored(*old(self), *self),
                        builds_preserved(*old(self), *self),
                        decreases_to!(expr_lit.lit => *lit_tuple),
                    decreases lit_tuple.items@.len() - i,
                {
                    proof {
                        assert(decreases_to!(*lit_tuple => lit_tuple.items));
                        assert(decreases_to!(lit_tuple.items => lit_tuple.items[i as int]));
                    }
                    let r = self.index_expr(&lit_tuple.items[i]);
                    match r {
                        Ok(_) => {}
                        Err(e) => {
                            return Err(e);
                        }
                    }
                    i = i + 1;
                }
                Ok(())
            }
            ast::Lit::Vec(lit_vec) => {
                let mut i: usize = 0;
                while i < lit_vec.items.len()
                    invariant
                        i <= lit_vec.items@.len(),
                        self.items.wf(),
                        frame_restored(*old(self), *self),
                        builds_preserved(*old(self), *self),
                        decreases_to!(expr_lit.lit => *lit_vec),
                    decreases lit_vec.items@.len() - i,
                {
                    proof {
                        assert(decreases_to!(*lit_vec => lit_vec.items));
                        assert(decreases_to!(lit_vec.items => lit_vec.items[i as int]));
                    }
                    let r = self.index_expr(&lit_vec.items[i]);
                    match r {
                        Ok(_) => {}
                        Err(e) => {
                            return Err(e);
                        }
                    }
                    i = i + 1;
                }
                Ok(())
            }
            ast::Lit::Object(lit_object) => {
                let mut i: usize = 0;
                while i < lit_object.assignments.len()
                    invariant
                        i <= lit_object.assignments@.len(),
                        self.items.wf(),
                        frame_restored(*old(self), *self),
                        builds_preserved(*old(self), *self),
                        decreases_to!(expr_lit.lit => *lit_object),
                    decreases lit_object.assignments@.len() - i,
                {
                    proof {
                        assert(decreases_to!(*lit_object => lit_object.assignments));
                        assert(decreases_to!(lit_object.assignments => lit_object.assignments[
                            i as int
                        ]));
                    }
                    match &lit_object.assignments[i].assign {
                        Some(inner) => {
                            let r = self.index_expr(inner);
                            match r {
                                Ok(_) => {}
                                Err(e) => {
                                    return Err(e);
                                }
                            }
                        }
                        None => {}
                    }
                    i = i + 1;
                }
                Ok(())
            }
            _ => Ok(()),
        }
    }

    /// Index a pattern: a single-identifier path declares a binding;
    /// composite patterns recurse; scalar patterns declare nothing.
    fn index_pat(&mut self, pat: &ast::Pat) -> (r: CompileResult)
        requires
            old(self).items.wf(),
        ensures
            frame_restored(*old(self), *final(self)),
            builds_preserved(*old(self), *final(self)),
        decreases *pat,
    {
        match pat {
            ast::Pat::PatPath(path) => {
                match path.try_as_ident() {
                    Some(ident) => self.index_ident(ident),
                    None => Ok(()),
                }
            }
            ast::Pat::PatObject(pat_object) => {
                let mut i: usize = 0;
                while i < pat_object.fields.len()
                    invariant
                        i <= pat_object.fields@.len(),
                        self.items.wf(),
                        frame_restored(*old(self), *self),
                        builds_preserved(*old(self), *self),
                        decreases_to!(*pat => *pat_object),
                    decreases pat_object.fields@.len() - i,
                {
                    proof {
                        assert(decreases_to!(*pat_object => pat_object.fields));
                        assert(decreases_to!(pat_object.fields => pat_object.fields[i as int]));
                    }
                    let field = &pat_object.fields[i];
                    match &field.binding {
                        Some(binding) => {
                            let r = self.index_pat(binding);
                            match r {
                                Ok(_) => {}
                                Err(e) => {
                                    return Err(e);
                                }
                            }
                        }
                        None => {
                            let r = self.index_ident(&field.key);
                            match r {
                                Ok(_) => {}
                                Err(e) => {
                                    return Err(e);
                                }
                            }
                        }
                    }
                    i = i + 1;
                }
                Ok(())
            }
            ast::Pat::PatVec(pat_vec) => {
                let mut i: usize = 0;
                while i < pat_vec.items.len()
                    invariant
                        i <= pat_vec.items@.len(),
                        self.items.wf(),
                        frame_restored(*old(self), *self),
                        builds_preserved(*old(self), *self),
                        decreases_to!(*pat => *pat_vec),
                    decreases pat_vec.items@.len() - i,
                {
                    proof {
                        assert(decreases_to!(*pat_vec => pat_vec.items));
                        assert(decreases_to!(pat_vec.items => pat_vec.items[i as int]));
                    }
                    let r = self.index_pat(&pat_vec.items[i]);
                    match r {
                        Ok(_) => {}
                        Err(e) => {
                            return Err(e);
                        }
                    }
                    i = i + 1;
                }
                Ok(())
            }
            ast::Pat::PatTuple(pat_tuple) => {
                let mut i: usize = 0;
                while i < pat_tuple.items.len()
                    invariant
                        i <= pat_tuple.items@.len(),
                        self.items.wf(),
                        frame_restored(*old(self), *self),
                        builds_preserved(*old(self), *self),
                        decreases_to!(*pat => *pat_tuple),
                    decreases pat_tuple.items@.len() - i,
                {
                    proof {
                        assert(decreases_to!(*pat_tuple => pat_tuple.items));
                        assert(decreases_to!(pat_tuple.items => pat_tuple.items[i as int]));
                    }
                    let r = self.index_pat(&pat_tuple.items[i]);
                    match r {
                        Ok(_) => {}
                        Err(e) => {
                            return Err(e);
                        }
                    }
                    i = i + 1;
                }
                Ok(())
            }
            _ => Ok(()),
        }
    }

    /// Declare the identifier bound by a pattern.
    fn index_ident(&mut self, ident: &ast::Ident) -> (r: CompileResult)
        requires
            old(self).items.wf(),
        ensures
            frame_restored(*old(self), *final(self)),
            builds_preserved(*old(self), *final(self)),
    {
        self.scope_declare(ident.ident.as_str(), ident.span)
    }
}

} // verus!
