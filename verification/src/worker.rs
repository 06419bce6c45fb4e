//! The worker: owns the FIFO task queue and drains it to completion,
//! dispatching each queued unit of work to the indexer, the import
//! resolver or the macro expander, and accumulating errors rather than
//! stopping at the first failure.

use vstd::prelude::*;

use crate::ast;
use crate::errors::{CompileError, CompileErrorKind, Errors, LoadErrorKind};
use crate::index::Indexer;
use crate::index_scopes::IndexScopes;
use crate::item::{ComponentV, Item};
use crate::items::Items;
use crate::module::{components_view, is_child_of, Context};
use crate::span::{SourceId, Span};
use crate::unit::UnitBuilder;

verus! {

/// One registered source text.
pub struct SourceEntry {
    /// The source text.
    pub text: String,
    /// The path the text came from, when it has one.
    pub path: Option<String>,
}

/// The registered source texts, addressed by [`SourceId`].
pub struct Sources {
    entries: Vec<SourceEntry>,
}

impl Sources {
    /// The registered entries, in insertion order.
    pub closed spec fn view_entries(&self) -> Seq<SourceEntry> {
        self.entries@
    }

    /// An empty registry.
    pub fn new() -> (r: Sources)
        ensures
            r.view_entries() =~= Seq::<SourceEntry>::empty(),
    {
        Sources { entries: Vec::new() }
    }

    /// Register a source text, returning its id.
    pub fn insert(&mut self, text: String, path: Option<String>) -> (r: SourceId)
        ensures
            r == old(self).view_entries().len(),
            final(self).view_entries() =~= old(self).view_entries().push(
                SourceEntry { text, path },
            ),
    {
        let id = self.entries.len();
        self.entries.push(SourceEntry { text, path });
        id
    }

    /// The entry registered under `id`, if any.
    pub fn get(&self, id: SourceId) -> (r: Option<&SourceEntry>)
        ensures
            id < self.view_entries().len() ==> r is Some && *r->0 == self.view_entries()[
                id as int
            ],
            id >= self.view_entries().len() ==> r is None,
    {
        if id < self.entries.len() {
            Some(&self.entries[id])
        } else {
            None
        }
    }
}

/// Whether `post` holds every source `pre` held, unchanged and in
/// place; new sources may follow. Source ids therefore stay valid for
/// the whole pass.
pub open spec fn sources_extend(pre: Sources, post: Sources) -> bool {
    &&& post.view_entries().len() >= pre.view_entries().len()
    &&& forall|j: int|
        0 <= j < pre.view_entries().len() ==> post.view_entries()[j] == pre.view_entries()[j]
}

/// The source loader: hands out the text of filesystem modules from a
/// table registered up front, keyed by the module's item path.
pub struct SourceLoader {
    entries: Vec<(Item, String)>,
}

impl SourceLoader {
    /// The registered module paths.
    pub closed spec fn keys_view(&self) -> Seq<Seq<ComponentV>> {
        self.entries@.map_values(|e: (Item, String)| e.0@)
    }

    /// The registered entries.
    pub closed spec fn entries_view(&self) -> Seq<(Item, String)> {
        self.entries@
    }

    /// A loader with nothing registered.
    pub fn new() -> (r: SourceLoader)
        ensures
            r.keys_view() =~= Seq::<Seq<ComponentV>>::empty(),
    {
        let r = SourceLoader { entries: Vec::new() };
        proof {
            assert(r.keys_view() =~= Seq::<Seq<ComponentV>>::empty());
        }
        r
    }

    /// Register the source text of the module at `item`.
    pub fn register(&mut self, item: Item, text: String)
        ensures
            final(self).entries_view() =~= old(self).entries_view().push((item, text)),
            final(self).keys_view() =~= old(self).keys_view().push(item@),
    {
        let ghost itemv = item@;
        self.entries.push((item, text));
        proof {
            assert(final(self).keys_view() =~= old(self).keys_view().push(itemv));
        }
    }

    /// The source text of the module at `item`: the text registered first
    /// under that path. Fails exactly when no text is registered for it.
    pub fn load(&self, item: &Item, span: Span) -> (r: Result<String, CompileError>)
        ensures
            r is Ok <==> self.keys_view().contains(item@),
            r is Ok ==> exists|j: int|
                0 <= j < self.entries_view().len() && #[trigger] self.entries_view()[j].0@
                    == item@ && r->Ok_0@ == self.entries_view()[j].1@,
            r is Err ==> (r->Err_0.kind matches CompileErrorKind::MissingSourceFile { item: it }
                && it@ == item@),
    {
        let mut i: usize = 0;
        while i < self.entries.len()
            invariant
                i <= self.entries@.len(),
                forall|j: int| 0 <= j < i ==> self.keys_view()[j] != item@,
            decreases self.entries@.len() - i,
        {
            proof {
                assert(self.keys_view()[i as int] == self.entries@[i as int].0@);
            }
            if self.entries[i].0.eq_item(item) {
                proof {
                    assert(self.keys_view()[i as int] == item@);
                    assert(self.entries_view()[i as int].0@ == item@);
                }
                return Ok(self.entries[i].1.clone());
            }
            i = i + 1;
        }
        Err(
            CompileError::new(
                span,
                CompileErrorKind::MissingSourceFile { item: item.clone() },
            ),
        )
    }
}

/// The macro evaluator: a table from macro name to replacement source
/// text, parsed and re-indexed in the snapshotted context of the call.
pub struct MacroTable {
    entries: Vec<(String, String)>,
}

impl MacroTable {
    /// The registered macro names.
    pub closed spec fn keys_view(&self) -> Seq<Seq<char>> {
        self.entries@.map_values(|e: (String, String)| e.0@)
    }

    /// A table with nothing registered.
    pub fn new() -> (r: MacroTable)
        ensures
            r.keys_view() =~= Seq::<Seq<char>>::empty(),
    {
        let r = MacroTable { entries: Vec::new() };
        proof {
            assert(r.keys_view() =~= Seq::<Seq<char>>::empty());
        }
        r
    }

    /// Register the expansion text of the macro called `name`.
    pub fn register(&mut self, name: String, expansion: String)
        ensures
            final(self).keys_view() =~= old(self).keys_view().push(name@),
    {
        let ghost namev = name@;
        self.entries.push((name, expansion));
        proof {
            assert(final(self).keys_view() =~= old(self).keys_view().push(namev));
        }
    }

    /// The registered entries.
    pub closed spec fn entries_view(&self) -> Seq<(String, String)> {
        self.entries@
    }

    /// The expansion text of the macro called `name`: the text registered
    /// first under that name, when any is registered.
    pub fn lookup(&self, name: &str) -> (r: Option<String>)
        ensures
            r is Some <==> self.keys_view().contains(name@),
            r is Some ==> exists|j: int|
                0 <= j < self.entries_view().len() && #[trigger] self.entries_view()[j].0@
                    == name@ && r->0@ == self.entries_view()[j].1@,
    {
        let owned = name.to_owned();
        let mut i: usize = 0;
        while i < self.entries.len()
            invariant
                i <= self.entries@.len(),
                owned@ == name@,
                forall|j: int| 0 <= j < i ==> self.keys_view()[j] != name@,
            decreases self.entries@.len() - i,
        {
            proof {
                assert(self.keys_view()[i as int] == self.entries@[i as int].0@);
            }
            if String::eq(&self.entries[i].0, &owned) {
                proof {
                    assert(self.keys_view()[i as int] == name@);
                    assert(self.entries_view()[i as int].0@ == name@);
                }
                return Some(self.entries[i].1.clone());
            }
            i = i + 1;
        }
        None
    }
}

/// The cross-cutting events observed during one pass: a pure side
/// channel for external tooling, with no influence on indexing results.
pub struct Visits {
    visits: Vec<(SourceId, Span)>,
}

impl Visits {
    /// The recorded events, in order.
    pub closed spec fn view_visits(&self) -> Seq<(SourceId, Span)> {
        self.visits@
    }

    /// An empty log.
    pub fn new() -> (r: Visits)
        ensures
            r.view_visits() =~= Seq::<(SourceId, Span)>::empty(),
    {
        Visits { visits: Vec::new() }
    }

    /// Record that a module file boundary was crossed.
    pub fn visit_mod(&mut self, source_id: SourceId, span: Span)
        ensures
            final(self).view_visits() =~= old(self).view_visits().push((source_id, span)),
    {
        self.visits.push((source_id, span));
    }
}

/// The kind of a loaded file.
pub enum LoadFileKind {
    /// A root file, which determines the filesystem root.
    Root,
    /// A loaded module, which inherits its root from the file it was
    /// loaded from.
    Module {
        /// The inherited root, when there is one.
        root: Option<String>,
    },
}

/// The syntax fragment an indexing task walks.
pub enum IndexAst {
    /// The root of a file.
    File(ast::File),
    /// A single item.
    Item(ast::Item),
    /// A single expression.
    Expr(ast::Expr),
}

/// An indexing task: a syntax fragment bound to a saved path and scope
/// context.
pub struct IndexTask {
    /// The filesystem root the fragment came from.
    pub root: Option<String>,
    /// The item being built.
    pub item: Item,
    /// The path builder position to index at.
    pub items: Items,
    /// The source the fragment came from.
    pub source_id: SourceId,
    /// The scope stack to index in.
    pub scopes: IndexScopes,
    /// The enclosing `impl` items.
    pub impl_items: Vec<Item>,
    /// The fragment itself.
    pub ast: IndexAst,
}

/// An import to process.
pub struct Import {
    /// The scope the import was declared in.
    pub item: Item,
    /// The `use` declaration.
    pub ast: ast::ItemUse,
    /// The source the import came from.
    pub source_id: usize,
}

/// The position of a macro invocation.
pub enum MacroKind {
    /// The macro stands in expression position.
    Expr,
    /// The macro stands in item position.
    Item,
}

/// A macro expansion task, carrying a full snapshot of the invocation
/// context so expansion behaves as if written inline at the call site.
pub struct Macro {
    /// The kind of the macro.
    pub kind: MacroKind,
    /// The filesystem root at which the macro is being expanded.
    pub root: Option<String>,
    /// The item path where the macro is being expanded.
    pub items: Items,
    /// The invocation causing the expansion.
    pub ast: ast::MacroCall,
    /// The source the invocation came from.
    pub source_id: usize,
    /// Snapshot of the scopes at the invocation.
    pub scopes: IndexScopes,
    /// Snapshot of the enclosing `impl` items at the invocation.
    pub impl_items: Vec<Item>,
}

/// A single task that can be fed to the worker.
pub enum Task {
    /// Load a file: parse its registered source and re-enqueue it as an
    /// indexing task over the whole file.
    LoadFile {
        /// The kind of loaded file.
        kind: LoadFileKind,
        /// The item of the file to load.
        item: Item,
        /// The source id of the item being loaded.
        source_id: SourceId,
    },
    /// An indexing task, which will index the specified fragment.
    Index(IndexTask),
    /// Task to process an import.
    Import(Import),
    /// Task to expand a macro; this can produce additional indexing
    /// tasks.
    ExpandMacro(Macro),
}

/// An item that has been expanded by a macro.
pub enum Expanded {
    /// The expansion resulted in an expression.
    Expr(ast::Expr),
}

/// The name a plain `use` path component contributes.
pub open spec fn use_component_name(c: ast::ItemUseComponent) -> ComponentV {
    match c {
        ast::ItemUseComponent::Ident(ident) => ComponentV::Str(ident.ident@),
        ast::ItemUseComponent::Wildcard(_) => ComponentV::Str(Seq::empty()),
    }
}

/// The prefix a `use` path names before its final component: the leading
/// identifier followed by every interior component.
pub open spec fn import_prefix(u: ast::ItemUse) -> Seq<ComponentV> {
    seq![ComponentV::Str(u.first.ident@)] + u.rest@.take(u.rest@.len() - 1).map_values(
        |c: ast::ItemUseComponent| use_component_name(c),
    )
}

/// Whether the prefix is a known module: visible in the native registry
/// or declared in the in-progress unit.
pub open spec fn is_known_prefix(
    context: Context,
    unit: UnitBuilder,
    pv: Seq<ComponentV>,
) -> bool {
    crate::module::some_path_has_prefix(context.names_view(), pv) || crate::module::some_path_has_prefix(
        unit.keys_view(),
        pv,
    )
}

/// The names of the import entries that `post` holds beyond `pre`.
pub open spec fn added_names(
    pre_imports: Seq<crate::unit::ImportEntry>,
    post_imports: Seq<crate::unit::ImportEntry>,
) -> Seq<Seq<ComponentV>> {
    post_imports.skip(pre_imports.len() as int).map_values(
        |e: crate::unit::ImportEntry| e.name@,
    )
}

/// What a successful final-wildcard import guarantees: the entries
/// appended to `pre_imports` have pairwise distinct names; every direct
/// child of the prefix `pv` visible in the registry names `ctx` or the
/// unit keys `keys` gets its entry; and every appended entry names the
/// prefix extended by such a child.
pub open spec fn wildcard_expansion(
    pv: Seq<ComponentV>,
    ctx: Seq<Seq<ComponentV>>,
    keys: Seq<Seq<ComponentV>>,
    pre_imports: Seq<crate::unit::ImportEntry>,
    post_imports: Seq<crate::unit::ImportEntry>,
) -> bool {
    let names = added_names(pre_imports, post_imports);
    &&& post_imports.len() >= pre_imports.len()
    &&& (forall|i1: int, i2: int|
        0 <= i1 < i2 < names.len() ==> names[i1] != names[i2])
    &&& (forall|c: ComponentV|
        #[trigger] is_child_of(ctx, pv, c) || is_child_of(keys, pv, c) ==> names.contains(
            pv.push(c),
        ))
    &&& (forall|m: int|
        0 <= m < names.len() ==> (#[trigger] names[m]).len() == pv.len() + 1 && names[m].take(
            pv.len() as int,
        ) == pv && (is_child_of(ctx, pv, names[m].last()) || is_child_of(
            keys,
            pv,
            names[m].last(),
        )))
}

impl Import {
    /// Process the import, populating the unit. An interior wildcard is
    /// unsupported; a final wildcard expands to one import entry per
    /// distinct direct child of its prefix visible in the native registry
    /// or the in-progress unit, and fails with a missing-module error
    /// when the prefix is known to neither.
    pub fn process(self, context: &Context, unit: &mut UnitBuilder) -> (r: Result<
        (),
        CompileError,
    >)
        ensures
            final(unit).keys_view() == old(unit).keys_view(),
            final(unit).metas_view() == old(unit).metas_view(),
            r is Err ==> final(unit).imports_view() == old(unit).imports_view(),
            r is Err ==> (r->Err_0.kind is UnsupportedWildcard || r->Err_0.kind matches
                CompileErrorKind::MissingModule { .. }),
            ({
                let interior_wildcard = exists|j: int|
                    0 <= j < self.ast.rest@.len() - 1 && !(#[trigger] self.ast.rest@[j]
                        is Ident);
                let final_wildcard = self.ast.rest@.len() > 0 && self.ast.rest@.last()
                    is Wildcard;
                let pv = import_prefix(self.ast);
                &&& (interior_wildcard ==> (r is Err && r->Err_0.kind
                    is UnsupportedWildcard))
                &&& (!interior_wildcard && !final_wildcard ==> {
                    let entry = final(unit).imports_view().last();
                    &&& r is Ok
                    &&& final(unit).imports_view() =~= old(unit).imports_view().push(entry)
                    &&& entry.at == self.item
                    &&& entry.span == self.ast.span
                    &&& entry.source_id == self.source_id
                    &&& (self.ast.rest@.len() == 0 ==> entry.name@ =~= seq![
                        ComponentV::Str(self.ast.first.ident@),
                    ])
                    &&& (self.ast.rest@.len() > 0 ==> entry.name@ =~= pv.push(
                        use_component_name(self.ast.rest@.last()),
                    ))
                })
                &&& (!interior_wildcard && final_wildcard ==> {
                    let known = is_known_prefix(*context, *old(unit), pv);
                    &&& (r is Ok <==> known)
                    &&& (!known ==> (r->Err_0.kind matches CompileErrorKind::MissingModule {
                        item,
                    } && item@ == pv))
                })
            }),
            r is Ok ==> final(unit).imports_view().len() >= old(unit).imports_view().len(),
            (r is Ok && self.ast.rest@.len() > 0 && self.ast.rest@.last() is Wildcard
                && !(exists|j: int|
                0 <= j < self.ast.rest@.len() - 1 && !(#[trigger] self.ast.rest@[j] is Ident)))
                ==> wildcard_expansion(
                import_prefix(self.ast),
                context.names_view(),
                old(unit).keys_view(),
                old(unit).imports_view(),
                final(unit).imports_view(),
            ),
            // Every appended wildcard entry carries the importing scope,
            // the declaration's span and its source.
            (r is Ok ==> forall|m: int|
                old(unit).imports_view().len() <= m < final(unit).imports_view().len()
                    ==> (#[trigger] final(unit).imports_view()[m]).at@ == self.item@
                    && final(unit).imports_view()[m].span == self.ast.span
                    && final(unit).imports_view()[m].source_id == self.source_id),
    {
        let span = self.ast.span;
        let source_id = self.source_id;
        let ghost pv = import_prefix(self.ast);
        let mut name = Item::new();
        name.push_name(self.ast.first.ident.as_str());

        let rest_len = self.ast.rest.len();
        let interior_count = if rest_len > 0 {
            rest_len - 1
        } else {
            0
        };
        let mut i: usize = 0;
        while i < interior_count
            invariant
                rest_len == self.ast.rest@.len(),
                interior_count == (if self.ast.rest@.len() > 0 {
                    self.ast.rest@.len() - 1
                } else {
                    0
                }),
                i <= interior_count,
                *unit == *old(unit),
                pv == import_prefix(self.ast),
                forall|j: int| 0 <= j < i ==> self.ast.rest@[j] is Ident,
                name@ =~= seq![ComponentV::Str(self.ast.first.ident@)] + self.ast.rest@.take(
                    i as int,
                ).map_values(|c: ast::ItemUseComponent| use_component_name(c)),
            decreases interior_count - i,
        {
            match &self.ast.rest[i] {
                ast::ItemUseComponent::Wildcard(t) => {
                    return Err(CompileError::new(*t, CompileErrorKind::UnsupportedWildcard));
                }
                ast::ItemUseComponent::Ident(ident) => {
                    name.push_name(ident.ident.as_str());
                    proof {
                        assert(name@ =~= seq![ComponentV::Str(self.ast.first.ident@)]
                            + self.ast.rest@.take(i + 1).map_values(
                            |c: ast::ItemUseComponent| use_component_name(c),
                        ));
                    }
                }
            }
            i = i + 1;
        }
        proof {
            if rest_len > 0 {
                assert(name@ =~= pv);
            }
        }

        if rest_len == 0 {
            unit.new_import(self.item, name, span, source_id);
            return Ok(());
        }

        match &self.ast.rest[rest_len - 1] {
            ast::ItemUseComponent::Ident(ident) => {
                name.push_name(ident.ident.as_str());
                unit.new_import(self.item, name, span, source_id);
                Ok(())
            }
            ast::ItemUseComponent::Wildcard(_) => {
                if !context.contains_prefix(&name) && !unit.contains_prefix(&name) {
                    return Err(
                        CompileError::new(span, CompileErrorKind::MissingModule { item: name }),
                    );
                }
                let from_context = context.iter_components(&name);
                let from_unit = unit.iter_components(&name);
                let mut children = from_context;
                let ghost ctxv = context.names_view();
                let ghost ukv = unit.keys_view();
                let mut k: usize = 0;
                while k < from_unit.len()
                    invariant
                        k <= from_unit@.len(),
                        *unit == *old(unit),
                        name@ =~= pv,
                        pv == import_prefix(self.ast),
                        ctxv == context.names_view(),
                        ukv == unit.keys_view(),
                        forall|i1: int, i2: int|
                            0 <= i1 < i2 < children@.len() ==> children@[i1]@ != children@[i2]@,
                        forall|i1: int, i2: int|
                            0 <= i1 < i2 < from_unit@.len() ==> from_unit@[i1]@ != from_unit@[
                                i2
                            ]@,
                        forall|c: ComponentV|
                            #[trigger] is_child_of(ukv, pv, c) <==> components_view(
                                from_unit@,
                            ).contains(c),
                        forall|c: ComponentV|
                            #[trigger] components_view(children@).contains(c) ==> is_child_of(
                                ctxv,
                                pv,
                                c,
                            ) || is_child_of(ukv, pv, c),
                        forall|c: ComponentV|
                            #[trigger] is_child_of(ctxv, pv, c) ==> components_view(
                                children@,
                            ).contains(c),
                        forall|j: int|
                            0 <= j < k ==> components_view(children@).contains(
                                #[trigger] components_view(from_unit@)[j],
                            ),
                    decreases from_unit@.len() - k,
                {
                    let c = &from_unit[k];
                    proof {
                        assert(components_view(from_unit@)[k as int] == from_unit@[k as int]@);
                        assert(components_view(from_unit@).contains(from_unit@[k as int]@));
                    }
                    if !crate::module::components_contain(&children, c) {
                        let ghost prev = children@;
                        children.push(c.clone());
                        proof {
                            assert(components_view(children@) =~= components_view(prev).push(
                                c@,
                            ));
                            assert(components_view(children@)[prev.len() as int] == c@);
                            assert forall|i1: int, i2: int|
                                0 <= i1 < i2 < children@.len() implies children@[i1]@
                                != children@[i2]@ by {
                                if i2 == prev.len() {
                                    assert(components_view(prev)[i1] == prev[i1]@);
                                    assert(!components_view(prev).contains(c@));
                                    assert(children@[i2]@ == c@);
                                }
                            }
                            assert forall|cc: ComponentV|
                                #[trigger] components_view(children@).contains(
                                    cc,
                                ) implies components_view(prev).contains(cc) || cc == c@ by {
                                let j = choose|j: int|
                                    0 <= j < components_view(children@).len()
                                        && #[trigger] components_view(children@)[j] == cc;
                                if j < prev.len() {
                                    assert(components_view(prev)[j] == cc);
                                }
                            }
                            assert forall|cc: ComponentV|
                                components_view(prev).contains(cc) implies #[trigger] components_view(
                                children@,
                            ).contains(cc) by {
                                let j = choose|j: int|
                                    0 <= j < components_view(prev).len()
                                        && #[trigger] components_view(prev)[j] == cc;
                                assert(components_view(children@)[j] == cc);
                            }
                        }
                    } else {
                        proof {
                            assert(components_view(children@).contains(c@));
                        }
                    }
                    k = k + 1;
                }
                proof {
                    assert forall|c: ComponentV|
                        #[trigger] is_child_of(ukv, pv, c) implies components_view(
                        children@,
                    ).contains(c) by {
                        let j = choose|j: int|
                            0 <= j < components_view(from_unit@).len()
                                && #[trigger] components_view(from_unit@)[j] == c;
                    }
                }

                let ghost base_imports = unit.imports_view();
                let mut k: usize = 0;
                while k < children.len()
                    invariant
                        k <= children@.len(),
                        unit.keys_view() == old(unit).keys_view(),
                        unit.metas_view() == old(unit).metas_view(),
                        base_imports == old(unit).imports_view(),
                        unit.imports_view().len() == base_imports.len() + k,
                        name@ =~= pv,
                        pv == import_prefix(self.ast),
                        span == self.ast.span,
                        source_id == self.source_id,
                        ctxv == context.names_view(),
                        ukv == old(unit).keys_view(),
                        forall|i1: int, i2: int|
                            0 <= i1 < i2 < children@.len() ==> children@[i1]@ != children@[i2]@,
                        forall|c: ComponentV|
                            #[trigger] components_view(children@).contains(c) ==> is_child_of(
                                ctxv,
                                pv,
                                c,
                            ) || is_child_of(ukv, pv, c),
                        forall|c: ComponentV|
                            (#[trigger] is_child_of(ctxv, pv, c) || is_child_of(ukv, pv, c))
                                ==> components_view(children@).contains(c),
                        forall|m: int|
                            0 <= m < k ==> #[trigger] unit.imports_view().skip(
                                base_imports.len() as int,
                            )[m].name@ =~= pv.push(children@[m]@),
                        forall|m: int|
                            base_imports.len() <= m < unit.imports_view().len()
                                ==> (#[trigger] unit.imports_view()[m]).at@ == self.item@
                                && unit.imports_view()[m].span == self.ast.span
                                && unit.imports_view()[m].source_id == self.source_id,
                    decreases children@.len() - k,
                {
                    let mut child_name = name.clone();
                    child_name.push(children[k].clone());
                    let ghost pre_imports = unit.imports_view();
                    unit.new_import(self.item.clone(), child_name, span, source_id);
                    proof {
                        assert(unit.imports_view().last().at@ == self.item@);
                        assert forall|m: int|
                            base_imports.len() <= m < unit.imports_view().len() implies (
                        #[trigger] unit.imports_view()[m]).at@ == self.item@
                            && unit.imports_view()[m].span == self.ast.span
                            && unit.imports_view()[m].source_id == self.source_id by {
                            if m < pre_imports.len() {
                                assert(unit.imports_view()[m] == pre_imports[m]);
                            } else {
                                assert(unit.imports_view()[m] == unit.imports_view().last());
                            }
                        }
                        assert(unit.imports_view().skip(base_imports.len() as int)[k as int].name@
                            =~= pv.push(children@[k as int]@));
                        assert forall|m: int|
                            0 <= m < k + 1 implies #[trigger] unit.imports_view().skip(
                            base_imports.len() as int,
                        )[m].name@ =~= pv.push(children@[m]@) by {
                            assert(unit.imports_view().skip(base_imports.len() as int)[m]
                                == pre_imports.skip(base_imports.len() as int).push(
                                unit.imports_view().last(),
                            )[m]);
                        }
                    }
                    k = k + 1;
                }
                proof {
                    let added = unit.imports_view().skip(base_imports.len() as int);
                    assert(added.len() == children@.len());
                    let pvx = import_prefix(self.ast);
                    assert(pvx == pv);
                    assert(ctxv == context.names_view());
                    assert(ukv == old(unit).keys_view());
                    let pre = old(unit).imports_view();
                    let post = unit.imports_view();
                    let names = added_names(pre, post);
                    assert(names.len() == children@.len());
                    assert forall|m: int|
                        0 <= m < names.len() implies #[trigger] names[m] == pv.push(
                        children@[m]@,
                    ) by {
                        assert(names[m] == added[m].name@);
                        assert(added[m].name@ =~= pv.push(children@[m]@));
                    }
                    assert forall|i1: int, i2: int|
                        0 <= i1 < i2 < names.len() implies names[i1] != names[i2] by {
                        assert(names[i1] == pv.push(children@[i1]@));
                        assert(names[i2] == pv.push(children@[i2]@));
                        assert(children@[i1]@ != children@[i2]@);
                        assert(names[i1].last() != names[i2].last());
                    }
                    assert forall|c: ComponentV|
                        #[trigger] is_child_of(ctxv, pvx, c) || is_child_of(
                            ukv,
                            pvx,
                            c,
                        ) implies names.contains(pv.push(c)) by {
                        assert(components_view(children@).contains(c));
                        let j = choose|j: int|
                            0 <= j < components_view(children@).len()
                                && #[trigger] components_view(children@)[j] == c;
                        assert(names[j] == pv.push(c));
                    }
                    assert forall|m: int|
                        0 <= m < names.len() implies (#[trigger] names[m]).len() == pvx.len() + 1
                        && names[m].take(pvx.len() as int) == pvx && (is_child_of(
                        ctxv,
                        pvx,
                        names[m].last(),
                    ) || is_child_of(ukv, pvx, names[m].last())) by {
                        let c = children@[m]@;
                        assert(names[m] == pv.push(c));
                        assert(names[m].take(pvx.len() as int) =~= pvx);
                        assert(names[m].last() == c);
                        assert(components_view(children@)[m] == c);
                        assert(components_view(children@).contains(c));
                    }
                    assert(post.len() >= pre.len());
                    assert(wildcard_expansion(pvx, ctxv, ukv, pre, post));
                                }
                Ok(())
            }
        }
    }
}

/// What processing one task guarantees, relative to the state the task
/// ran against: `pre` for everything but the queue, whose remaining
/// tasks are `rest`. A failing task records exactly one error tagged
/// with its originating source and leaves the queue alone; a successful
/// file load or macro expansion appends exactly one indexing task at the
/// queue tail — a file load over the saved item with fresh scopes, an
/// expansion in the snapshotted context with the synthetic macro
/// component popped for an item expansion; an import touches only the
/// unit's import table.
pub open spec fn task_effect(task: Task, pre: Worker, post: Worker, rest: Seq<Task>) -> bool {
    &&& post.indexer.items.wf()
    &&& pre.errors@.is_prefix_of(post.errors@)
    &&& post.errors@.len() <= pre.errors@.len() + 1
    &&& sources_extend(pre.indexer.sources, post.indexer.sources)
    &&& post.context == pre.context
    &&& post.macros == pre.macros
    &&& post.indexer.queue@.len() >= rest.len()
    &&& (task matches Task::Import(imp) ==> {
        &&& post.indexer.queue@ =~= rest
        &&& post.indexer.query.unit.keys_view() == pre.indexer.query.unit.keys_view()
        &&& (post.errors@.len() > pre.errors@.len() ==> post.errors@.last().source_id
            == imp.source_id && post.errors@.last().kind is Compile)
        &&& (post.errors@.len() == pre.errors@.len()
            ==> post.indexer.query.unit.imports_view().len()
            >= pre.indexer.query.unit.imports_view().len())
    })
    &&& (task matches Task::LoadFile { kind, item, source_id } ==> {
        &&& (post.errors@.len() > pre.errors@.len() ==> post.errors@.last().source_id
            == source_id && post.indexer.queue@ =~= rest)
        &&& (post.errors@.len() == pre.errors@.len() ==> {
            let queued = post.indexer.queue@.last();
            &&& post.indexer.queue@ =~= rest.push(queued)
            &&& (queued matches Task::Index(t) && t.source_id == source_id && t.items@.path
                =~= item@ && t.scopes@ =~= Seq::<crate::index_scopes::LevelV>::empty()
                && t.impl_items@ =~= Seq::<Item>::empty() && t.ast is File)
        })
    })
    &&& (task matches Task::ExpandMacro(m) ==> {
        &&& (post.errors@.len() > pre.errors@.len() ==> post.errors@.last().source_id
            == m.source_id && post.indexer.queue@ =~= rest)
        &&& ((m.kind is Item && (m.items@.path.len() == 0 || !(m.items@.path.last()
            is Macro))) ==> post.errors@.len() > pre.errors@.len()
            && (post.errors@.last().kind matches LoadErrorKind::Compile(e) && e.kind
            is Internal))
        &&& (post.errors@.len() == pre.errors@.len() ==> {
            let queued = post.indexer.queue@.last();
            &&& post.indexer.queue@ =~= rest.push(queued)
            &&& (queued matches Task::Index(t) && t.source_id == m.source_id && t.root
                == m.root && t.scopes@ =~= m.scopes@ && t.impl_items == m.impl_items
                && (m.kind is Expr ==> t.items@ == m.items@ && t.ast is Expr) && (m.kind
                is Item ==> t.items@ == crate::items::spec_pop(m.items@) && t.ast is Item))
        })
    })
    &&& (task matches Task::Index(t0) ==> {
        &&& (post.errors@.len() > pre.errors@.len() ==> post.errors@.last().source_id
            == t0.source_id)
        &&& ((t0.ast is Expr && post.errors@.len() == pre.errors@.len()) ==> post.expanded@.len()
            == pre.expanded@.len() + 1 && post.expanded@.last().0 == t0.item)
        &&& (!(t0.ast is Expr && post.errors@.len() == pre.errors@.len()) ==> post.expanded@
            =~= pre.expanded@)
    })
    &&& (!(task is Index) ==> post.expanded@ =~= pre.expanded@)
}

/// One step of the pass: the front task of a non-empty queue is popped,
/// one unit of budget is spent, and the task's documented effect holds
/// against the remaining queue.
pub open spec fn step(pre: Worker, post: Worker) -> bool {
    &&& pre.indexer.queue@.len() > 0
    &&& pre.budget > 0
    &&& post.budget == pre.budget - 1
    &&& task_effect(
        pre.indexer.queue@.first(),
        pre,
        post,
        pre.indexer.queue@.drop_first(),
    )
}

/// A complete pass from `pre` to `post`: a chain of steps, each popping
/// the then-front task — strict first-in, first-out order, every queued
/// task processed exactly once, tasks produced along the way appended at
/// the tail and drained in turn.
pub open spec fn fifo_run(trace: Seq<Worker>, pre: Worker, post: Worker) -> bool {
    &&& trace.len() >= 1
    &&& trace.first() == pre
    &&& trace.last() == post
    &&& forall|i: int| 0 <= i < trace.len() - 1 ==> #[trigger] step(trace[i], trace[i + 1])
}

/// A whole pass from `pre` to `post`: a chain of FIFO steps from `pre`,
/// ending either with an empty queue — the normal case, the pass runs to
/// exhaustion — or with the defensive task budget spent, in which case
/// exactly one internal error is recorded on top of the chain's end.
pub open spec fn complete_run(trace: Seq<Worker>, pre: Worker, post: Worker) -> bool {
    &&& trace.len() >= 1
    &&& trace.first() == pre
    &&& (forall|i: int| 0 <= i < trace.len() - 1 ==> #[trigger] step(trace[i], trace[i + 1]))
    &&& ({
        let end = trace.last();
        if end.indexer.queue@.len() == 0 {
            post == end
        } else {
            &&& end.budget == 0
            &&& post.budget == 0
            &&& post.indexer == end.indexer
            &&& post.context == end.context
            &&& post.macros == end.macros
            &&& post.expanded == end.expanded
            &&& post.errors@ =~= end.errors@.push(post.errors@.last())
            &&& post.errors@.last().kind is Internal
        }
    })
}

/// How deep declarations may nest within one indexing task.
pub const INDEX_DEPTH: u64 = 4096;

/// How many tasks one pass may process; macro expansions that generate
/// one another without end are cut off with an internal error instead of
/// looping forever.
pub const TASK_BUDGET: u64 = 1000000;

/// The worker: drains the task queue to completion, accumulating errors
/// rather than stopping at the first failure.
pub struct Worker {
    /// The indexer, owning the queue and the shared tables.
    pub indexer: Indexer,
    /// The native registry imports resolve against.
    pub context: Context,
    /// The failures accumulated so far.
    pub errors: Errors,
    /// The registered macro expansions.
    pub macros: MacroTable,
    /// The items whose macro expansion produced an expression.
    pub expanded: Vec<(Item, Expanded)>,
    /// How many further tasks this pass may process.
    pub budget: u64,
}

impl Worker {
    /// Construct a new worker over the given initial queue.
    pub fn new(
        queue: Vec<Task>,
        context: Context,
        sources: Sources,
        loader: SourceLoader,
        macros: MacroTable,
    ) -> (r: Worker)
        ensures
            r.indexer.queue == queue,
            r.context == context,
            r.macros == macros,
            r.indexer.sources == sources,
            r.indexer.loader == loader,
            r.errors@ =~= Seq::<crate::errors::LoadError>::empty(),
            r.expanded@ =~= Seq::<(Item, Expanded)>::empty(),
            r.budget == TASK_BUDGET,
            r.indexer.items.wf(),
            r.indexer.root is None,
            r.indexer.source_id == 0,
            r.indexer.items@.path =~= Seq::<ComponentV>::empty(),
            r.indexer.scopes@ =~= Seq::<crate::index_scopes::LevelV>::empty(),
            r.indexer.impl_items@ =~= Seq::<Item>::empty(),
            r.indexer.loaded@ =~= Seq::<(Item, (SourceId, Span))>::empty(),
            r.indexer.warnings@ =~= Seq::<crate::errors::Warning>::empty(),
            r.indexer.visits.view_visits() =~= Seq::<(SourceId, Span)>::empty(),
            r.indexer.query.queue@ =~= Seq::<crate::query::BuildEntry>::empty(),
            r.indexer.query.indexed_view() =~= Seq::<
                (Item, crate::query::IndexedEntry),
            >::empty(),
            r.indexer.query.unit.keys_view() =~= Seq::<Seq<ComponentV>>::empty(),
            r.indexer.query.unit.imports_view() =~= Seq::<crate::unit::ImportEntry>::empty(),
    {
        Worker {
            indexer: Indexer {
                root: None,
                source_id: 0,
                items: Items::new(),
                scopes: IndexScopes::new(),
                impl_items: Vec::new(),
                query: crate::query::Query::new(),
                queue,
                loaded: Vec::new(),
                sources,
                warnings: crate::errors::Warnings::new(),
                visits: crate::worker::Visits::new(),
                loader,
            },
            context,
            errors: Errors::new(),
            macros,
            expanded: Vec::new(),
            budget: TASK_BUDGET,
        }
    }

    /// Run the worker until the task queue is empty: tasks execute in
    /// strict first-in, first-out order, including tasks produced while
    /// processing an earlier one; a failing task records its error and
    /// processing continues with the next. Failures only accumulate:
    /// every error recorded before the call is still in place, in order,
    /// when it returns. The queue is drained unless the defensive task
    /// budget ran out, which records an error of its own.
    pub fn run(&mut self)
        requires
            old(self).indexer.items.wf(),
        ensures
            final(self).indexer.items.wf(),
            old(self).errors@.is_prefix_of(final(self).errors@),
            sources_extend(old(self).indexer.sources, final(self).indexer.sources),
            final(self).context == old(self).context,
            final(self).macros == old(self).macros,
            final(self).indexer.queue@.len() == 0 || (final(self).budget == 0
                && final(self).errors@.len() > old(self).errors@.len()),
            final(self).budget <= old(self).budget,
            // One unit of budget per processed task: draining the queue
            // means every task of it, and every task those produced, went
            // through the task step.
            final(self).indexer.queue@.len() == 0 ==> old(self).budget - final(self).budget
                >= old(self).indexer.queue@.len(),
            // The pass is a chain of FIFO steps: each step pops the
            // then-front task, spends one unit of budget, and has the
            // task's documented effect; every task is processed exactly
            // once and never retried.
            exists|trace: Seq<Worker>| #[trigger] complete_run(
                trace,
                *old(self),
                *final(self),
            ),
    {
        let ghost mut trace: Seq<Worker> = seq![*self];
        while self.indexer.queue.len() > 0 && self.budget > 0
            invariant
                self.indexer.items.wf(),
                old(self).errors@.is_prefix_of(self.errors@),
                sources_extend(old(self).indexer.sources, self.indexer.sources),
                self.context == old(self).context,
                self.macros == old(self).macros,
                self.budget <= old(self).budget,
                (old(self).budget - self.budget) + self.indexer.queue@.len() >= old(self).indexer.queue@.len(),
                trace.len() >= 1,
                trace.first() == *old(self),
                trace.last() == *self,
                forall|i: int|
                    0 <= i < trace.len() - 1 ==> #[trigger] step(trace[i], trace[i + 1]),
            decreases self.budget,
        {
            let ghost pre_state = *self;
            self.budget = self.budget - 1;
            let task = self.indexer.queue.remove(0);
            proof {
                assert(task == pre_state.indexer.queue@.first());
                assert(self.indexer.queue@ =~= pre_state.indexer.queue@.drop_first());
            }
            let ghost mid_state = *self;
            self.run_one(task);
            proof {
                assert(task_effect(task, mid_state, *self, mid_state.indexer.queue@));
                assert(task_effect(task, pre_state, *self, pre_state.indexer.queue@.drop_first()));
                assert(step(pre_state, *self));
                let ghost prev_trace = trace;
                trace = trace.push(*self);
                assert(trace.last() == *self);
                assert(trace.first() == *old(self));
                assert forall|i: int|
                    0 <= i < trace.len() - 1 implies #[trigger] step(trace[i], trace[i + 1]) by {
                    if i < prev_trace.len() - 1 {
                        assert(trace[i] == prev_trace[i]);
                        assert(trace[i + 1] == prev_trace[i + 1]);
                    } else {
                        assert(trace[i] == pre_state);
                        assert(trace[i + 1] == *self);
                    }
                }
            }
        }
        if self.indexer.queue.len() > 0 {
            let ghost end_state = *self;
            self.errors.push(
                crate::errors::LoadError::internal(0, "task budget exhausted"),
            );
            proof {
                assert(trace.last() == end_state);
                assert(self.errors@ =~= end_state.errors@.push(self.errors@.last()));
                assert(complete_run(trace, *old(self), *self));
            }
        } else {
            proof {
                assert(complete_run(trace, *old(self), *self));
            }
        }
    }

    /// Process a single task: a failing task records exactly one error
    /// tagged with its originating source, and a successful one has the
    /// task's documented effect. A file load re-enqueues its parsed file
    /// at the queue tail as an indexing task over the saved item, with
    /// fresh scopes; a macro expansion re-enqueues its parsed fragment in
    /// the snapshotted context, an item expansion first popping the
    /// synthetic macro component that reserved its path; an import has
    /// [`Import::process`]'s effect on the unit.
    pub fn run_one(&mut self, task: Task)
        requires
            old(self).indexer.items.wf(),
        ensures
            final(self).budget == old(self).budget,
            task_effect(task, *old(self), *final(self), old(self).indexer.queue@),
    {
        match task {
            Task::LoadFile { kind, item, source_id } => {
                let text = match self.indexer.sources.get(source_id) {
                    Some(entry) => entry.text.clone(),
                    None => {
                        self.errors.push(
                            crate::errors::LoadError::internal(
                                source_id,
                                "missing queued source by id",
                            ),
                        );
                        return ;
                    }
                };
                let file = match crate::parse::parse_file(text.as_str()) {
                    Ok(file) => file,
                    Err(error) => {
                        self.errors.push(crate::errors::LoadError::parse(source_id, error));
                        return ;
                    }
                };
                let root: Option<String> = match kind {
                    LoadFileKind::Root => {
                        match self.indexer.sources.get(source_id) {
                            Some(entry) => match &entry.path {
                                Some(path) => Some(path.clone()),
                                None => None,
                            },
                            None => None,
                        }
                    }
                    LoadFileKind::Module { root } => root,
                };
                let items = Items::from_item(&item);
                self.indexer.queue.push(
                    Task::Index(
                        IndexTask {
                            root,
                            item,
                            items,
                            source_id,
                            scopes: IndexScopes::new(),
                            impl_items: Vec::new(),
                            ast: IndexAst::File(file),
                        },
                    ),
                );
            }
            Task::Index(index_task) => {
                let IndexTask { root, item, items, source_id, scopes, impl_items, ast } =
                    index_task;
                self.indexer.root = root;
                self.indexer.source_id = source_id;
                self.indexer.items = items;
                self.indexer.scopes = scopes;
                self.indexer.impl_items = impl_items;
                proof {
                    self.indexer.items.lemma_wf();
                }
                match ast {
                    IndexAst::File(file) => {
                        match self.indexer.index_file(file, INDEX_DEPTH) {
                            Ok(_) => {}
                            Err(error) => {
                                self.errors.push(
                                    crate::errors::LoadError::compile(source_id, error),
                                );
                            }
                        }
                    }
                    IndexAst::Item(item_ast) => {
                        match self.indexer.index_item(item_ast, INDEX_DEPTH) {
                            Ok(_) => {}
                            Err(error) => {
                                self.errors.push(
                                    crate::errors::LoadError::compile(source_id, error),
                                );
                            }
                        }
                    }
                    IndexAst::Expr(expr_ast) => {
                        match self.indexer.index_expr(&expr_ast) {
                            Ok(_) => {
                                self.expanded.push((item, Expanded::Expr(expr_ast)));
                            }
                            Err(error) => {
                                self.errors.push(
                                    crate::errors::LoadError::compile(source_id, error),
                                );
                            }
                        }
                    }
                }
            }
            Task::Import(import) => {
                let source_id = import.source_id;
                match import.process(&self.context, &mut self.indexer.query.unit) {
                    Ok(_) => {}
                    Err(error) => {
                        self.errors.push(crate::errors::LoadError::compile(source_id, error));
                    }
                }
            }
            Task::ExpandMacro(m) => {
                self.expand_macro(m);
            }
        }
    }

    /// Expand one macro invocation in its snapshotted context, and
    /// re-enqueue the parsed result as an indexing task. Item macros pop
    /// the synthetic path component that reserved a path for the
    /// expansion before restoring the original item position; finding
    /// anything else there is an internal consistency failure.
    fn expand_macro(&mut self, m: Macro)
        requires
            old(self).indexer.items.wf(),
        ensures
            final(self).indexer.items.wf(),
            old(self).errors@.is_prefix_of(final(self).errors@),
            final(self).errors@.len() <= old(self).errors@.len() + 1,
            final(self).indexer.sources == old(self).indexer.sources,
            final(self).context == old(self).context,
            final(self).macros == old(self).macros,
            final(self).budget == old(self).budget,
            final(self).expanded@ =~= old(self).expanded@,
            (final(self).errors@.len() > old(self).errors@.len() ==> final(self).errors@.last().source_id == m.source_id && final(self).indexer.queue == old(self).indexer.queue),
            ((m.kind is Item && (m.items@.path.len() == 0 || !(m.items@.path.last()
                is Macro))) ==> final(self).errors@.len() > old(self).errors@.len() && (final(self).errors@.last().kind matches LoadErrorKind::Compile(e) && e.kind is Internal)),
            (final(self).errors@.len() == old(self).errors@.len() ==> {
                let queued = final(self).indexer.queue@.last();
                &&& final(self).indexer.queue@ =~= old(self).indexer.queue@.push(queued)
                &&& (queued matches Task::Index(t) && t.source_id == m.source_id && t.root
                    == m.root && t.scopes@ =~= m.scopes@ && t.impl_items == m.impl_items
                    && (m.kind is Expr ==> t.items@ == m.items@ && t.ast is Expr) && (m.kind
                    is Item ==> t.items@ == crate::items::spec_pop(m.items@) && t.ast
                    is Item))
            }),
    {
        let Macro { kind, root, mut items, ast, source_id, scopes, impl_items } = m;
        proof {
            items.lemma_wf();
        }
        let item = items.item();
        let is_item_macro = matches!(kind, MacroKind::Item);
        if is_item_macro {
            let popped = items.pop();
            let popped_macro = match &popped {
                Some(component) => component.is_macro(),
                None => false,
            };
            if !popped_macro {
                self.errors.push(
                    crate::errors::LoadError::compile(
                        source_id,
                        CompileError::internal(
                            ast.span,
                            "expected macro item as last component of macro expansion",
                        ),
                    ),
                );
                return ;
            }
        }
        let name: &ast::Ident = if ast.path.rest.len() > 0 {
            &ast.path.rest[ast.path.rest.len() - 1]
        } else {
            &ast.path.first
        };
        let expansion = match self.macros.lookup(name.ident.as_str()) {
            Some(expansion) => expansion,
            None => {
                let mut missing = Item::new();
                missing.push_name(name.ident.as_str());
                self.errors.push(
                    crate::errors::LoadError::compile(
                        source_id,
                        CompileError::new(
                            ast.span,
                            CompileErrorKind::MissingMacro { item: missing },
                        ),
                    ),
                );
                return ;
            }
        };
        let parsed: IndexAst = if is_item_macro {
            match crate::parse::parse_item_text(expansion.as_str()) {
                Ok(item_ast) => IndexAst::Item(item_ast),
                Err(error) => {
                    self.errors.push(crate::errors::LoadError::parse(source_id, error));
                    return ;
                }
            }
        } else {
            match crate::parse::parse_expr_text(expansion.as_str()) {
                Ok(expr_ast) => IndexAst::Expr(expr_ast),
                Err(error) => {
                    self.errors.push(crate::errors::LoadError::parse(source_id, error));
                    return ;
                }
            }
        };
        self.indexer.queue.push(
            Task::Index(
                IndexTask {
                    root,
                    item,
                    items,
                    source_id,
                    scopes,
                    impl_items,
                    ast: parsed,
                },
            ),
        );
    }
}

} // verus!
