//! The native registry: modules of host-provided names, installed into a
//! context that import resolution queries for prefixes and children.
//!
//! The core never calls a native function; it only needs to know what
//! names exist, so a module records item paths alone.

use vstd::prelude::*;

use crate::item::{is_path_prefix, Component, ComponentV, Item};

verus! {

/// Whether some path in `paths` has `prefix` as a prefix.
pub open spec fn some_path_has_prefix(
    paths: Seq<Seq<ComponentV>>,
    prefix: Seq<ComponentV>,
) -> bool {
    exists|i: int| 0 <= i < paths.len() && is_path_prefix(prefix, paths[i])
}

/// Whether `c` is a direct child of `prefix` in `paths`: some path
/// extends `prefix` and continues with `c`.
pub open spec fn is_child_of(
    paths: Seq<Seq<ComponentV>>,
    prefix: Seq<ComponentV>,
    c: ComponentV,
) -> bool {
    exists|i: int|
        0 <= i < paths.len() && #[trigger] paths[i].len() > prefix.len() && is_path_prefix(
            prefix,
            paths[i],
        ) && paths[i][prefix.len() as int] == c
}

/// The views of a list of item paths.
pub open spec fn paths_view(paths: Seq<Item>) -> Seq<Seq<ComponentV>> {
    paths.map_values(|p: Item| p@)
}

/// The views of a list of path components.
pub open spec fn components_view(v: Seq<Component>) -> Seq<ComponentV> {
    v.map_values(|c: Component| c@)
}

/// Whether some path of `paths` starts with `prefix`.
pub fn paths_contain_prefix(paths: &Vec<Item>, prefix: &Item) -> (r: bool)
    ensures
        r == some_path_has_prefix(paths_view(paths@), prefix@),
{
    let mut i: usize = 0;
    while i < paths.len()
        invariant
            i <= paths@.len(),
            forall|j: int| 0 <= j < i ==> !is_path_prefix(prefix@, paths_view(paths@)[j]),
        decreases paths@.len() - i,
    {
        if paths[i].starts_with(prefix) {
            proof {
                assert(paths_view(paths@)[i as int] == paths@[i as int]@);
                assert(is_path_prefix(prefix@, paths_view(paths@)[i as int]));
            }
            return true;
        }
        proof {
            assert(paths_view(paths@)[i as int] == paths@[i as int]@);
        }
        i = i + 1;
    }
    false
}

/// Whether `components` already holds a component whose value is `c`.
pub fn components_contain(components: &Vec<Component>, c: &Component) -> (r: bool)
    ensures
        r == components_view(components@).contains(c@),
{
    let mut i: usize = 0;
    while i < components.len()
        invariant
            i <= components@.len(),
            forall|j: int| 0 <= j < i ==> components_view(components@)[j] != c@,
        decreases components@.len() - i,
    {
        if components[i].eq_component(c) {
            proof {
                assert(components_view(components@)[i as int] == c@);
            }
            return true;
        }
        proof {
            assert(components_view(components@)[i as int] == components@[i as int]@);
        }
        i = i + 1;
    }
    false
}

/// Collect from `paths` every direct child of `prefix` not already in
/// `out`, keeping entries pairwise distinct.
fn collect_children(out: &mut Vec<Component>, paths: &Vec<Item>, prefix: &Item)
    requires
        forall|i1: int, i2: int|
            0 <= i1 < i2 < old(out)@.len() ==> old(out)@[i1]@ != old(out)@[i2]@,
    ensures
        forall|i1: int, i2: int|
            0 <= i1 < i2 < final(out)@.len() ==> final(out)@[i1]@ != final(out)@[i2]@,
        forall|c: ComponentV|
            #[trigger] is_child_of(paths_view(paths@), prefix@, c) || components_view(
                old(out)@,
            ).contains(c) <==> components_view(final(out)@).contains(c),
{
    let ghost pview = paths_view(paths@);
    let ghost before = out@;
    let mut i: usize = 0;
    while i < paths.len()
        invariant
            i <= paths@.len(),
            pview == paths_view(paths@),
            before == old(out)@,
            forall|i1: int, i2: int|
                0 <= i1 < i2 < out@.len() ==> out@[i1]@ != out@[i2]@,
            forall|c: ComponentV|
                components_view(before).contains(c) ==> #[trigger] components_view(
                    out@,
                ).contains(c),
            forall|c: ComponentV|
                #[trigger] components_view(out@).contains(c) ==> components_view(before).contains(
                    c,
                ) || exists|j: int|
                    0 <= j < i && #[trigger] pview[j].len() > prefix@.len() && is_path_prefix(
                        prefix@,
                        pview[j],
                    ) && pview[j][prefix@.len() as int] == c,
            forall|j: int|
                0 <= j < i && pview[j].len() > prefix@.len() && is_path_prefix(prefix@, pview[j])
                    ==> components_view(out@).contains(
                    #[trigger] pview[j][prefix@.len() as int],
                ),
        decreases paths@.len() - i,
    {
        let p = &paths[i];
        proof {
            assert(pview[i as int] == p@);
        }
        if p.len() > prefix.len() && p.starts_with(prefix) {
            let c = p.get(prefix.len());
            if !components_contain(out, c) {
                let ghost prev = out@;
                out.push(c.clone());
                proof {
                    assert(components_view(out@) =~= components_view(prev).push(c@));
                    assert(components_view(out@)[prev.len() as int] == c@);
                    assert forall|i1: int, i2: int|
                        0 <= i1 < i2 < out@.len() implies out@[i1]@ != out@[i2]@ by {
                        if i2 == prev.len() {
                            assert(components_view(prev)[i1] == prev[i1]@);
                            assert(!components_view(prev).contains(c@));
                            assert(out@[i2]@ == c@);
                        }
                    }
                    assert forall|cc: ComponentV|
                        #[trigger] components_view(out@).contains(cc) implies components_view(
                        prev,
                    ).contains(cc) || cc == c@ by {
                        let j = choose|j: int|
                            0 <= j < components_view(out@).len() && #[trigger] components_view(
                                out@,
                            )[j] == cc;
                        if j < prev.len() {
                            assert(components_view(prev)[j] == cc);
                        }
                    }
                    assert(components_view(out@).contains(c@));
                    assert forall|cc: ComponentV|
                        components_view(prev).contains(cc) implies #[trigger] components_view(
                        out@,
                    ).contains(cc) by {
                        let j = choose|j: int|
                            0 <= j < components_view(prev).len() && #[trigger] components_view(
                                prev,
                            )[j] == cc;
                        assert(components_view(out@)[j] == cc);
                    }
                }
            } else {
                proof {
                    assert(components_view(out@).contains(c@));
                }
            }
        }
        i = i + 1;
    }
    proof {
        assert forall|c: ComponentV|
            is_child_of(pview, prefix@, c) implies components_view(out@).contains(c) by {
            let j = choose|j: int|
                0 <= j < pview.len() && #[trigger] pview[j].len() > prefix@.len()
                    && is_path_prefix(prefix@, pview[j]) && pview[j][prefix@.len() as int] == c;
        }
    }
}

/// The distinct direct children of `prefix` among `paths`.
pub fn children_of(paths: &Vec<Item>, prefix: &Item) -> (r: Vec<Component>)
    ensures
        forall|i1: int, i2: int| 0 <= i1 < i2 < r@.len() ==> r@[i1]@ != r@[i2]@,
        forall|c: ComponentV|
            #[trigger] is_child_of(paths_view(paths@), prefix@, c) <==> components_view(
                r@,
            ).contains(c),
{
    let mut out: Vec<Component> = Vec::new();
    collect_children(&mut out, paths, prefix);
    out
}

/// What installing or registering a conflicting name reports.
#[derive(Debug)]
pub enum ContextError {
    /// A name was registered twice.
    ConflictingName {
        /// The conflicting path.
        item: Item,
    },
    /// An instance function name was registered twice.
    ConflictingInstanceFunction {
        /// The conflicting name.
        name: String,
    },
}

/// A native module: a base path and the names declared under it.
#[derive(Debug)]
pub struct Module {
    /// The base path of the module.
    base: Item,
    /// The absolute paths of the registered names.
    names: Vec<Item>,
    /// The registered instance function names.
    inst_fns: Vec<String>,
}

impl Module {
    /// The registered absolute paths.
    pub closed spec fn names_view(&self) -> Seq<Seq<ComponentV>> {
        paths_view(self.names@)
    }

    /// The registered instance function names.
    pub closed spec fn inst_fns_view(&self) -> Seq<Seq<char>> {
        self.names_view_of_inst_fns()
    }

    /// Helper for [`Module::inst_fns_view`].
    pub closed spec fn names_view_of_inst_fns(&self) -> Seq<Seq<char>> {
        self.inst_fns@.map_values(|s: String| s@)
    }

    /// A module rooted at `base` with nothing registered yet.
    pub fn new(base: Item) -> (r: Module)
        ensures
            r.names_view() =~= Seq::<Seq<ComponentV>>::empty(),
            r.inst_fns_view() =~= Seq::<Seq<char>>::empty(),
            r.base_view() =~= base@,
    {
        let r = Module { base, names: Vec::new(), inst_fns: Vec::new() };
        proof {
            assert(r.names_view() =~= Seq::<Seq<ComponentV>>::empty());
            assert(r.inst_fns_view() =~= Seq::<Seq<char>>::empty());
        }
        r
    }

    /// The base path of the module.
    pub closed spec fn base_view(&self) -> Seq<ComponentV> {
        self.base@
    }

    /// The absolute path `base` followed by `rel`.
    pub open spec fn abs_path_of(&self, rel: Seq<Seq<char>>) -> Seq<ComponentV> {
        self.base_view() + rel.map_values(|s: Seq<char>| ComponentV::Str(s))
    }

    /// Register the name `base::rel..` . Fails exactly when the same
    /// absolute path was registered before; the module is then unchanged.
    fn register(&mut self, rel: Vec<String>) -> (r: Result<(), ContextError>)
        ensures
            ({
                let abs = old(self).abs_path_of(rel@.map_values(|s: String| s@));
                if old(self).names_view().contains(abs) {
                    &&& r is Err
                    &&& final(self).names_view() == old(self).names_view()
                } else {
                    &&& r is Ok
                    &&& final(self).names_view() =~= old(self).names_view().push(abs)
                }
            }),
            final(self).base_view() == old(self).base_view(),
            final(self).inst_fns_view() == old(self).inst_fns_view(),
    {
        let mut item = self.base.clone();
        let mut i: usize = 0;
        while i < rel.len()
            invariant
                i <= rel@.len(),
                item@ =~= self.base@ + rel@.map_values(|s: String| s@).map_values(
                    |s: Seq<char>| ComponentV::Str(s),
                ).take(i as int),
            decreases rel@.len() - i,
        {
            item.push_name(rel[i].as_str());
            proof {
                assert(item@ =~= self.base@ + rel@.map_values(|s: String| s@).map_values(
                    |s: Seq<char>| ComponentV::Str(s),
                ).take(i + 1));
            }
            i = i + 1;
        }
        proof {
            let rv = rel@.map_values(|s: String| s@).map_values(|s: Seq<char>| ComponentV::Str(s));
            assert(rv.take(rel@.len() as int) =~= rv);
            assert(item@ =~= self.abs_path_of(rel@.map_values(|s: String| s@)));
        }
        let mut j: usize = 0;
        while j < self.names.len()
            invariant
                j <= self.names@.len(),
                item@ =~= old(self).abs_path_of(rel@.map_values(|s: String| s@)),
                self == old(self),
                forall|m: int| 0 <= m < j ==> self.names_view()[m] != item@,
            decreases self.names@.len() - j,
        {
            if self.names[j].eq_item(&item) {
                proof {
                    assert(self.names_view()[j as int] == item@);
                }
                return Err(ContextError::ConflictingName { item });
            }
            proof {
                assert(self.names_view()[j as int] == self.names@[j as int]@);
            }
            j = j + 1;
        }
        self.names.push(item);
        proof {
            assert(final(self).names_view() =~= old(self).names_view().push(
                old(self).abs_path_of(rel@.map_values(|s: String| s@)),
            ));
        }
        Ok(())
    }

    /// Register a type name under the module base.
    pub fn ty(&mut self, rel: Vec<String>) -> (r: Result<(), ContextError>)
        ensures
            ({
                let abs = old(self).abs_path_of(rel@.map_values(|s: String| s@));
                if old(self).names_view().contains(abs) {
                    &&& r is Err
                    &&& final(self).names_view() == old(self).names_view()
                } else {
                    &&& r is Ok
                    &&& final(self).names_view() =~= old(self).names_view().push(abs)
                }
            }),
            final(self).base_view() == old(self).base_view(),
            final(self).inst_fns_view() == old(self).inst_fns_view(),
    {
        self.register(rel)
    }

    /// Register a free function name under the module base.
    pub fn function(&mut self, rel: Vec<String>) -> (r: Result<(), ContextError>)
        ensures
            ({
                let abs = old(self).abs_path_of(rel@.map_values(|s: String| s@));
                if old(self).names_view().contains(abs) {
                    &&& r is Err
                    &&& final(self).names_view() == old(self).names_view()
                } else {
                    &&& r is Ok
                    &&& final(self).names_view() =~= old(self).names_view().push(abs)
                }
            }),
            final(self).base_view() == old(self).base_view(),
            final(self).inst_fns_view() == old(self).inst_fns_view(),
    {
        self.register(rel)
    }

    /// Register an instance function name. Fails exactly when the same
    /// name was registered before; the module is then unchanged.
    pub fn inst_fn(&mut self, name: &str) -> (r: Result<(), ContextError>)
        ensures
            if old(self).inst_fns_view().contains(name@) {
                &&& r is Err
                &&& final(self).inst_fns_view() == old(self).inst_fns_view()
            } else {
                &&& r is Ok
                &&& final(self).inst_fns_view() =~= old(self).inst_fns_view().push(name@)
            },
            final(self).base_view() == old(self).base_view(),
            final(self).names_view() == old(self).names_view(),
    {
        let owned = name.to_owned();
        let mut j: usize = 0;
        while j < self.inst_fns.len()
            invariant
                j <= self.inst_fns@.len(),
                owned@ == name@,
                self == old(self),
                forall|m: int| 0 <= m < j ==> self.inst_fns_view()[m] != name@,
            decreases self.inst_fns@.len() - j,
        {
            if String::eq(&self.inst_fns[j], &owned) {
                proof {
                    assert(self.inst_fns_view()[j as int] == name@);
                }
                return Err(ContextError::ConflictingInstanceFunction { name: owned });
            }
            proof {
                assert(self.inst_fns_view()[j as int] == self.inst_fns@[j as int]@);
            }
            j = j + 1;
        }
        self.inst_fns.push(owned);
        proof {
            assert(final(self).inst_fns_view() =~= old(self).inst_fns_view().push(name@));
        }
        Ok(())
    }
}

/// The native registry: every name of every installed module.
pub struct Context {
    names: Vec<Item>,
}

impl Context {
    /// The registered absolute paths.
    pub closed spec fn names_view(&self) -> Seq<Seq<ComponentV>> {
        paths_view(self.names@)
    }

    /// An empty registry.
    pub fn new() -> (r: Context)
        ensures
            r.names_view() =~= Seq::<Seq<ComponentV>>::empty(),
    {
        let r = Context { names: Vec::new() };
        proof {
            assert(r.names_view() =~= Seq::<Seq<ComponentV>>::empty());
        }
        r
    }

    /// Install every name of `module` into the registry.
    pub fn install(&mut self, module: Module)
        ensures
            final(self).names_view() =~= old(self).names_view() + module.names_view(),
    {
        let ghost mview = module.names_view();
        let Module { base: _, names, inst_fns: _ } = module;
        let ghost incoming = names@;
        proof {
            assert(paths_view(incoming) == mview);
        }
        let mut i: usize = 0;
        while i < names.len()
            invariant
                i <= names@.len(),
                names@ == incoming,
                self.names@.len() == old(self).names@.len() + i,
                self.names_view() =~= old(self).names_view() + paths_view(incoming).take(i as int),
            decreases names@.len() - i,
        {
            let ghost before = self.names@;
            self.names.push(names[i].clone());
            proof {
                assert(self.names_view() =~= paths_view(before).push(incoming[i as int]@));
                assert(paths_view(incoming).take(i + 1) =~= paths_view(incoming).take(
                    i as int,
                ).push(incoming[i as int]@));
                assert(self.names_view() =~= old(self).names_view() + paths_view(incoming).take(
                    i + 1,
                ));
            }
            i = i + 1;
        }
        proof {
            assert(paths_view(incoming).take(incoming.len() as int) =~= paths_view(incoming));
        }
        let _ = names;
    }

    /// Whether some registered name starts with `prefix`.
    pub fn contains_prefix(&self, prefix: &Item) -> (r: bool)
        ensures
            r == some_path_has_prefix(self.names_view(), prefix@),
    {
        paths_contain_prefix(&self.names, prefix)
    }

    /// The distinct direct children of `prefix` among the registered
    /// names.
    pub fn iter_components(&self, prefix: &Item) -> (r: Vec<Component>)
        ensures
            forall|i1: int, i2: int| 0 <= i1 < i2 < r@.len() ==> r@[i1]@ != r@[i2]@,
            forall|c: ComponentV|
                #[trigger] is_child_of(self.names_view(), prefix@, c) <==> components_view(
                    r@,
                ).contains(c),
    {
        let mut out: Vec<Component> = Vec::new();
        collect_children(&mut out, &self.names, prefix);
        out
    }

    /// The registered names, for resolution over several sources.
    pub fn names(&self) -> (r: &Vec<Item>)
        ensures
            paths_view(r@) == self.names_view(),
    {
        &self.names
    }
}

} // verus!
