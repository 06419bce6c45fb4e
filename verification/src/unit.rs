//! The in-progress unit: compile metadata keyed by item path, and the
//! import table. Inserting metadata for a path that already has metadata
//! fails, naming the conflicting path; all insertions are immediately
//! visible to subsequently processed tasks.

use vstd::prelude::*;

use crate::compile_meta::{kind_item, CompileMeta};
use crate::compile_meta::CompileSource;
use crate::errors::{CompileError, CompileErrorKind};
use crate::item::{is_path_prefix, Component, ComponentV, Item};
use crate::module::{components_view, is_child_of, some_path_has_prefix};
use crate::span::{SourceId, Span};

verus! {

/// One resolved import: within the scope `at`, the path `name` is
/// visible.
pub struct ImportEntry {
    /// The scope the import was declared in.
    pub at: Item,
    /// The imported path.
    pub name: Item,
    /// Where the import was declared.
    pub span: Span,
    /// The source the import was declared in.
    pub source_id: SourceId,
}

/// Whether a sequence of paths is pairwise distinct.
pub open spec fn paths_distinct(keys: Seq<Seq<ComponentV>>) -> bool {
    forall|i: int, j: int| 0 <= i < j < keys.len() ==> keys[i] != keys[j]
}

/// A key sequence stays pairwise distinct when a fresh key is appended:
/// this is why non-conflicting declarations always end up with unique
/// item paths, and a clash is reported instead of overwriting.
pub proof fn lemma_fresh_key_keeps_paths_distinct(keys: Seq<Seq<ComponentV>>, k: Seq<ComponentV>)
    requires
        paths_distinct(keys),
        !keys.contains(k),
    ensures
        paths_distinct(keys.push(k)),
{
    assert forall|i: int, j: int|
        0 <= i < j < keys.push(k).len() implies keys.push(k)[i] != keys.push(k)[j] by {
        if j == keys.len() {
            assert(keys.push(k)[i] == keys[i]);
            assert(!keys.contains(k));
        }
    }
}

/// The prior declaration site a metadata record carries, when it has
/// one.
pub open spec fn spec_source_of(m: CompileMeta) -> Option<(SourceId, Span)> {
    match m.source {
        Some(cs) => Some((cs.source_id, cs.span)),
        None => None,
    }
}

/// The unit under construction.
pub struct UnitBuilder {
    metas: Vec<CompileMeta>,
    imports: Vec<ImportEntry>,
}

impl UnitBuilder {
    /// The item paths that already have metadata, in insertion order.
    pub closed spec fn keys_view(&self) -> Seq<Seq<ComponentV>> {
        self.metas@.map_values(|m: CompileMeta| kind_item(m.kind))
    }

    /// The metadata records, in insertion order.
    pub closed spec fn metas_view(&self) -> Seq<CompileMeta> {
        self.metas@
    }

    /// The import entries, in insertion order.
    pub closed spec fn imports_view(&self) -> Seq<ImportEntry> {
        self.imports@
    }

    /// An empty unit.
    pub fn new() -> (r: UnitBuilder)
        ensures
            r.keys_view() =~= Seq::<Seq<ComponentV>>::empty(),
            r.metas_view() =~= Seq::<CompileMeta>::empty(),
            r.imports_view() =~= Seq::<ImportEntry>::empty(),
    {
        let r = UnitBuilder { metas: Vec::new(), imports: Vec::new() };
        proof {
            assert(r.keys_view() =~= Seq::<Seq<ComponentV>>::empty());
        }
        r
    }

    /// Whether `item` already has metadata.
    pub fn contains_item(&self, item: &Item) -> (r: bool)
        ensures
            r == self.keys_view().contains(item@),
    {
        let mut i: usize = 0;
        while i < self.metas.len()
            invariant
                i <= self.metas@.len(),
                forall|j: int| 0 <= j < i ==> self.keys_view()[j] != item@,
            decreases self.metas@.len() - i,
        {
            proof {
                assert(self.keys_view()[i as int] == kind_item(self.metas@[i as int].kind));
            }
            if self.metas[i].item().eq_item(item) {
                proof {
                    assert(self.keys_view()[i as int] == item@);
                }
                return true;
            }
            i = i + 1;
        }
        false
    }

    /// The metadata for `item`, when it has any.
    pub fn lookup(&self, item: &Item) -> (r: Option<&CompileMeta>)
        ensures
            r is Some <==> self.keys_view().contains(item@),
            r is Some ==> kind_item(r->0.kind) == item@ && self.metas_view().contains(*r->0),
    {
        let mut i: usize = 0;
        while i < self.metas.len()
            invariant
                i <= self.metas@.len(),
                forall|j: int| 0 <= j < i ==> self.keys_view()[j] != item@,
            decreases self.metas@.len() - i,
        {
            proof {
                assert(self.keys_view()[i as int] == kind_item(self.metas@[i as int].kind));
            }
            if self.metas[i].item().eq_item(item) {
                proof {
                    assert(self.keys_view()[i as int] == item@);
                    assert(self.metas_view()[i as int] == self.metas@[i as int]);
                }
                return Some(&self.metas[i]);
            }
            i = i + 1;
        }
        proof {
            assert(forall|j: int|
                0 <= j < self.keys_view().len() ==> self.keys_view()[j] != item@);
        }
        None
    }

    /// Insert metadata for a newly discovered declaration. Fails exactly
    /// when the declaration's item path already has metadata, naming the
    /// conflicting path; the unit is then unchanged. On success the
    /// record is appended, so non-conflicting declarations keep pairwise
    /// distinct paths (see [`lemma_fresh_key_keeps_paths_distinct`]).
    pub fn insert_meta(&mut self, meta: CompileMeta, span: Span) -> (r: Result<(), CompileError>)
        ensures
            if old(self).keys_view().contains(kind_item(meta.kind)) {
                &&& r is Err
                &&& (r->Err_0.kind matches CompileErrorKind::MetaConflict { item, existing }
                    && item@ == kind_item(meta.kind) && exists|j: int|
                        0 <= j < old(self).metas_view().len() && kind_item(
                            #[trigger] old(self).metas_view()[j].kind,
                        ) == kind_item(meta.kind) && existing == spec_source_of(
                            old(self).metas_view()[j],
                        ))
                &&& final(self).keys_view() == old(self).keys_view()
                &&& final(self).metas_view() == old(self).metas_view()
            } else {
                &&& r is Ok
                &&& final(self).metas_view() =~= old(self).metas_view().push(meta)
                &&& final(self).keys_view() =~= old(self).keys_view().push(kind_item(meta.kind))
            },
            final(self).imports_view() == old(self).imports_view(),
            paths_distinct(old(self).keys_view()) ==> paths_distinct(final(self).keys_view()),
    {
        let item = meta.item().clone();
        let existing: Option<(SourceId, Span)> = match self.lookup(&item) {
            Some(prior) => {
                match &prior.source {
                    Some(cs) => Some((cs.source_id, cs.span)),
                    None => None,
                }
            }
            None => None,
        };
        if self.contains_item(&item) {
            return Err(
                CompileError::new(
                    span,
                    CompileErrorKind::MetaConflict { item, existing },
                ),
            );
        }
        self.metas.push(meta);
        proof {
            assert(final(self).keys_view() =~= old(self).keys_view().push(kind_item(meta.kind)));
            if paths_distinct(old(self).keys_view()) {
                lemma_fresh_key_keeps_paths_distinct(old(self).keys_view(), kind_item(meta.kind));
            }
        }
        Ok(())
    }

    /// Record that within the scope `at`, the path `name` is imported.
    pub fn new_import(&mut self, at: Item, name: Item, span: Span, source_id: SourceId)
        ensures
            final(self).imports_view() =~= old(self).imports_view().push(
                ImportEntry { at, name, span, source_id },
            ),
            final(self).keys_view() == old(self).keys_view(),
            final(self).metas_view() == old(self).metas_view(),
    {
        self.imports.push(ImportEntry { at, name, span, source_id });
    }

    /// The number of import entries.
    pub fn import_count(&self) -> (r: usize)
        ensures
            r == self.imports_view().len(),
    {
        self.imports.len()
    }

    /// The import entry at position `i`.
    pub fn import_at(&self, i: usize) -> (r: &ImportEntry)
        requires
            i < self.imports_view().len(),
        ensures
            *r == self.imports_view()[i as int],
    {
        &self.imports[i]
    }

    /// Whether some declared item path starts with `prefix`.
    pub fn contains_prefix(&self, prefix: &Item) -> (r: bool)
        ensures
            r == some_path_has_prefix(self.keys_view(), prefix@),
    {
        let mut i: usize = 0;
        while i < self.metas.len()
            invariant
                i <= self.metas@.len(),
                forall|j: int| 0 <= j < i ==> !is_path_prefix(prefix@, self.keys_view()[j]),
            decreases self.metas@.len() - i,
        {
            proof {
                assert(self.keys_view()[i as int] == kind_item(self.metas@[i as int].kind));
            }
            if self.metas[i].item().starts_with(prefix) {
                proof {
                    assert(is_path_prefix(prefix@, self.keys_view()[i as int]));
                }
                return true;
            }
            i = i + 1;
        }
        false
    }

    /// The distinct direct children of `prefix` among the declared item
    /// paths.
    pub fn iter_components(&self, prefix: &Item) -> (r: Vec<Component>)
        ensures
            forall|i1: int, i2: int| 0 <= i1 < i2 < r@.len() ==> r@[i1]@ != r@[i2]@,
            forall|c: ComponentV|
                #[trigger] is_child_of(self.keys_view(), prefix@, c) <==> components_view(
                    r@,
                ).contains(c),
    {
        let mut names: Vec<Item> = Vec::new();
        let mut i: usize = 0;
        while i < self.metas.len()
            invariant
                i <= self.metas@.len(),
                names@.len() == i as int,
                forall|j: int|
                    0 <= j < i ==> names@[j]@ == self.keys_view()[j],
            decreases self.metas@.len() - i,
        {
            proof {
                assert(self.keys_view()[i as int] == kind_item(self.metas@[i as int].kind));
            }
            names.push(self.metas[i].item().clone());
            i = i + 1;
        }
        proof {
            assert(crate::module::paths_view(names@) =~= self.keys_view());
        }
        crate::module::children_of(&names, prefix)
    }
}

} // verus!
