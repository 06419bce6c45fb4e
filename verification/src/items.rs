//! The path builder: grows and shrinks the current item path with stack
//! discipline, and hands out per-kind indices for anonymous components so
//! that siblings stay distinct.
//!
//! Every entering operation has a matching [`Items::pop`]; callers leave a
//! scope on every exit path, including early failure returns. A builder can
//! be snapshotted (deep-copied) so deferred work, such as a macro
//! expansion, can resume at the exact same position later.

use vstd::prelude::*;

use crate::item::{Component, ComponentV, Item};

verus! {

/// Per-kind counters for the anonymous children of one path level.
#[derive(Clone, Copy, PartialEq, Eq, Structural)]
pub struct Counters {
    /// Index the next anonymous block child will get.
    pub blocks: u64,
    /// Index the next closure child will get.
    pub closures: u64,
    /// Index the next async block child will get.
    pub async_blocks: u64,
    /// Index the next macro expansion child will get.
    pub macros: u64,
}

/// The kinds of anonymous path components.
#[derive(Clone, Copy, PartialEq, Eq, Structural)]
pub enum AnonKind {
    /// An anonymous block.
    Block,
    /// A closure.
    Closure,
    /// An async block.
    AsyncBlock,
    /// A macro expansion.
    Macro,
}

/// Counters of a freshly entered level: every kind starts at zero.
pub open spec fn fresh_counters() -> Counters {
    Counters { blocks: 0, closures: 0, async_blocks: 0, macros: 0 }
}

/// The counter that `c` holds for anonymous children of kind `k`.
pub open spec fn counter_of(c: Counters, k: AnonKind) -> u64 {
    match k {
        AnonKind::Block => c.blocks,
        AnonKind::Closure => c.closures,
        AnonKind::AsyncBlock => c.async_blocks,
        AnonKind::Macro => c.macros,
    }
}

/// `c` with the counter for kind `k` advanced past index `i`.
pub open spec fn bumped(c: Counters, k: AnonKind) -> Counters {
    match k {
        AnonKind::Block => Counters { blocks: (c.blocks + 1) as u64, ..c },
        AnonKind::Closure => Counters { closures: (c.closures + 1) as u64, ..c },
        AnonKind::AsyncBlock => Counters { async_blocks: (c.async_blocks + 1) as u64, ..c },
        AnonKind::Macro => Counters { macros: (c.macros + 1) as u64, ..c },
    }
}

/// The anonymous path component of kind `k` with index `i`.
pub open spec fn anon_component(k: AnonKind, i: int) -> ComponentV {
    match k {
        AnonKind::Block => ComponentV::Block(i),
        AnonKind::Closure => ComponentV::Closure(i),
        AnonKind::AsyncBlock => ComponentV::AsyncBlock(i),
        AnonKind::Macro => ComponentV::Macro(i),
    }
}

/// One level of the live path: the component that named it and the
/// counters for its anonymous children.
struct Level {
    component: Component,
    counters: Counters,
}

/// The mathematical state of a path builder: the current path and, for
/// the root and for each level, the counters of its anonymous children.
/// `counters` always has exactly one more entry than `path`; its last
/// entry belongs to the innermost level.
pub ghost struct ItemsV {
    /// The current path, outermost component first.
    pub path: Seq<ComponentV>,
    /// Anonymous-child counters: root first, innermost level last.
    pub counters: Seq<Counters>,
}

/// The path builder.
pub struct Items {
    root_counters: Counters,
    levels: Vec<Level>,
}

impl View for Items {
    type V = ItemsV;

    closed spec fn view(&self) -> ItemsV {
        ItemsV {
            path: self.levels@.map_values(|l: Level| l.component@),
            counters: seq![self.root_counters] + self.levels@.map_values(
                |l: Level| l.counters,
            ),
        }
    }
}

/// The state after entering a named scope: the name joins the path and a
/// fresh level of counters opens.
pub open spec fn spec_push_name(s: ItemsV, name: Seq<char>) -> ItemsV {
    ItemsV {
        path: s.path.push(ComponentV::Str(name)),
        counters: s.counters.push(fresh_counters()),
    }
}

/// The state after entering an anonymous scope of kind `k`: the innermost
/// level hands out its next index of that kind and keeps counting from
/// there, and a fresh level opens.
pub open spec fn spec_push_anon(s: ItemsV, k: AnonKind) -> ItemsV {
    let i = counter_of(s.counters.last(), k);
    ItemsV {
        path: s.path.push(anon_component(k, i as int)),
        counters: s.counters.update(s.counters.len() - 1, bumped(s.counters.last(), k)).push(
            fresh_counters(),
        ),
    }
}

/// The component that entering an anonymous scope of kind `k` from state
/// `s` appends to the path.
pub open spec fn spec_anon_of(s: ItemsV, k: AnonKind) -> ComponentV {
    anon_component(k, counter_of(s.counters.last(), k) as int)
}

/// The state after leaving the innermost scope. The enclosing level keeps
/// its counters, so later anonymous siblings continue from larger indices.
pub open spec fn spec_pop(s: ItemsV) -> ItemsV {
    if s.path.len() == 0 {
        s
    } else {
        ItemsV { path: s.path.drop_last(), counters: s.counters.drop_last() }
    }
}

impl Items {
    /// Whether the builder's two stacks line up; true of every reachable
    /// state.
    pub open spec fn wf(&self) -> bool {
        self@.counters.len() == self@.path.len() + 1
    }

    /// A builder standing at the compilation root.
    pub fn new() -> (r: Items)
        ensures
            r.wf(),
            r@.path =~= Seq::<ComponentV>::empty(),
            r@.counters =~= seq![fresh_counters()],
    {
        let r = Items { root_counters: Counters { blocks: 0, closures: 0, async_blocks: 0, macros: 0 }, levels: Vec::new() };
        proof {
            assert(r@.path =~= Seq::<ComponentV>::empty());
            assert(r@.counters =~= seq![fresh_counters()]);
        }
        r
    }

    /// A builder standing at the given path, with fresh counters at every
    /// level.
    pub fn from_item(item: &Item) -> (r: Items)
        ensures
            r.wf(),
            r@.path =~= item@,
    {
        let mut levels: Vec<Level> = Vec::new();
        let mut i: usize = 0;
        while i < item.len()
            invariant
                i <= item@.len(),
                levels@.len() == i as int,
                forall|j: int| 0 <= j < i ==> levels@[j].component@ == item@[j],
            decreases item@.len() - i,
        {
            levels.push(
                Level {
                    component: item.get(i).clone(),
                    counters: Counters { blocks: 0, closures: 0, async_blocks: 0, macros: 0 },
                },
            );
            i = i + 1;
        }
        let r = Items { root_counters: Counters { blocks: 0, closures: 0, async_blocks: 0, macros: 0 }, levels };
        proof {
            assert(r@.path =~= item@);
        }
        r
    }

    /// The current path depth.
    pub fn depth(&self) -> (r: usize)
        ensures
            r == self@.path.len(),
    {
        self.levels.len()
    }

    /// Whether the builder stands at the root.
    pub fn is_empty(&self) -> (r: bool)
        ensures
            r == (self@.path.len() == 0),
    {
        self.levels.len() == 0
    }

    /// The item path as currently built.
    pub fn item(&self) -> (r: Item)
        ensures
            r@ =~= self@.path,
    {
        let mut it = Item::new();
        let mut i: usize = 0;
        while i < self.levels.len()
            invariant
                i <= self.levels.len(),
                it@.len() == i as int,
                forall|j: int| 0 <= j < i ==> it@[j] == self@.path[j],
            decreases self.levels.len() - i,
        {
            it.push(self.levels[i].component.clone());
            i = i + 1;
        }
        proof {
            assert(it@ =~= self@.path);
        }
        it
    }

    /// Enter a named scope.
    pub fn push_name(&mut self, name: &str)
        requires
            old(self).wf(),
        ensures
            final(self).wf(),
            final(self)@ == spec_push_name(old(self)@, name@),
    {
        self.levels.push(
            Level {
                component: Component::Str(name.to_owned()),
                counters: Counters { blocks: 0, closures: 0, async_blocks: 0, macros: 0 },
            },
        );
        proof {
            assert(final(self)@.path =~= spec_push_name(old(self)@, name@).path);
            assert(final(self)@.counters =~= spec_push_name(old(self)@, name@).counters);
        }
    }

    /// The counters of the innermost level.
    fn current_counters(&self) -> (r: Counters)
        requires
            self.wf(),
        ensures
            r == self@.counters.last(),
    {
        if self.levels.len() == 0 {
            self.root_counters
        } else {
            self.levels[self.levels.len() - 1].counters
        }
    }

    /// Store `c` as the counters of the innermost level.
    fn set_current_counters(&mut self, c: Counters)
        requires
            old(self).wf(),
        ensures
            final(self).wf(),
            final(self)@.path == old(self)@.path,
            final(self)@.counters =~= old(self)@.counters.update(
                old(self)@.counters.len() - 1,
                c,
            ),
    {
        if self.levels.len() == 0 {
            self.root_counters = c;
        } else {
            let i = self.levels.len() - 1;
            let component = self.levels[i].component.clone();
            let ghost before = self@;
            self.levels.set(i, Level { component, counters: c });
            proof {
                assert(final(self)@.path =~= before.path);
                assert(final(self)@.counters =~= before.counters.update(
                    before.counters.len() - 1,
                    c,
                ));
            }
        }
        proof {
            if old(self).levels@.len() == 0 {
                assert(final(self)@.counters =~= old(self)@.counters.update(
                    old(self)@.counters.len() - 1,
                    c,
                ));
            }
        }
    }

    /// Enter an anonymous scope of kind `k`. Fails only when the counter
    /// for that kind is exhausted; the builder is then unchanged.
    pub fn push_anon(&mut self, k: AnonKind) -> (r: Result<(), ()>)
        requires
            old(self).wf(),
        ensures
            final(self).wf(),
            counter_of(old(self)@.counters.last(), k) < u64::MAX ==> {
                &&& r is Ok
                &&& final(self)@ == spec_push_anon(old(self)@, k)
            },
            counter_of(old(self)@.counters.last(), k) == u64::MAX ==> {
                &&& r is Err
                &&& final(self)@ == old(self)@
            },
    {
        let c = self.current_counters();
        let i: u64 = match k {
            AnonKind::Block => c.blocks,
            AnonKind::Closure => c.closures,
            AnonKind::AsyncBlock => c.async_blocks,
            AnonKind::Macro => c.macros,
        };
        if i == u64::MAX {
            return Err(());
        }
        let bump = match k {
            AnonKind::Block => Counters { blocks: i + 1, ..c },
            AnonKind::Closure => Counters { closures: i + 1, ..c },
            AnonKind::AsyncBlock => Counters { async_blocks: i + 1, ..c },
            AnonKind::Macro => Counters { macros: i + 1, ..c },
        };
        self.set_current_counters(bump);
        let component = match k {
            AnonKind::Block => Component::Block(i),
            AnonKind::Closure => Component::Closure(i),
            AnonKind::AsyncBlock => Component::AsyncBlock(i),
            AnonKind::Macro => Component::Macro(i),
        };
        self.levels.push(
            Level {
                component,
                counters: Counters { blocks: 0, closures: 0, async_blocks: 0, macros: 0 },
            },
        );
        proof {
            assert(final(self)@.path =~= spec_push_anon(old(self)@, k).path);
            assert(final(self)@.counters =~= spec_push_anon(old(self)@, k).counters);
        }
        Ok(())
    }

    /// Leave the innermost scope, returning the component that named it.
    pub fn pop(&mut self) -> (r: Option<Component>)
        requires
            old(self).wf(),
        ensures
            final(self).wf(),
            final(self)@ == spec_pop(old(self)@),
            old(self)@.path.len() == 0 ==> r is None,
            old(self)@.path.len() > 0 ==> r is Some && r->0@ == old(self)@.path.last(),
    {
        match self.levels.pop() {
            Some(level) => {
                proof {
                    assert(final(self)@.path =~= spec_pop(old(self)@).path);
                    assert(final(self)@.counters =~= spec_pop(old(self)@).counters);
                }
                Some(level.component)
            }
            None => {
                proof {
                    assert(final(self)@.path =~= spec_pop(old(self)@).path);
                    assert(final(self)@.counters =~= spec_pop(old(self)@).counters);
                }
                None
            }
        }
    }

    /// Every builder built through this interface keeps its two stacks
    /// in line.
    pub proof fn lemma_wf(&self)
        ensures
            self.wf(),
    {
    }

    /// A deep copy with the exact same state; deferred work indexed from
    /// the copy behaves as if it ran here.
    pub fn snapshot(&self) -> (r: Items)
        requires
            self.wf(),
        ensures
            r.wf(),
            r@ == self@,
    {
        let mut levels: Vec<Level> = Vec::new();
        let mut i: usize = 0;
        while i < self.levels.len()
            invariant
                i <= self.levels.len(),
                levels@.len() == i as int,
                forall|j: int| 0 <= j < i ==> levels@[j].component@ == self.levels@[j].component@
                    && levels@[j].counters == self.levels@[j].counters,
            decreases self.levels.len() - i,
        {
            levels.push(
                Level {
                    component: self.levels[i].component.clone(),
                    counters: self.levels[i].counters,
                },
            );
            i = i + 1;
        }
        let r = Items { root_counters: self.root_counters, levels };
        proof {
            assert(r@.path =~= self@.path);
            assert(r@.counters =~= self@.counters);
        }
        r
    }
}

/// Anonymous siblings are pairwise distinct: entering an anonymous scope
/// of kind `k`, leaving it, and entering another of the same kind under
/// the same enclosing path yields two different path components, because
/// the enclosing level's counter strictly grew.
pub proof fn lemma_anonymous_siblings_distinct(s: ItemsV, k: AnonKind)
    requires
        s.counters.len() > 0,
        counter_of(s.counters.last(), k) < u64::MAX,
    ensures
        spec_anon_of(s, k) != spec_anon_of(spec_pop(spec_push_anon(s, k)), k),
        spec_pop(spec_push_anon(s, k)).path =~= s.path,
{
    let s1 = spec_push_anon(s, k);
    let s2 = spec_pop(s1);
    assert(s2.path =~= s.path);
    assert(s2.counters =~= s.counters.update(s.counters.len() - 1, bumped(s.counters.last(), k)));
    assert(counter_of(s2.counters.last(), k) == counter_of(s.counters.last(), k) + 1);
}

/// Round trip of deferral and resumption: work deferred under a fresh
/// anonymous component of kind `k` resumes from exactly the deferring
/// path extended by that component, and once its balanced steps are done,
/// leaving the component restores the path to exactly what it was when
/// the snapshot was taken. The index that was handed out stays spent, so
/// a sibling deferred next from the restored state receives a different
/// component.
pub proof fn lemma_snapshot_resume_exact(s: ItemsV, k: AnonKind)
    requires
        s.counters.len() == s.path.len() + 1,
        counter_of(s.counters.last(), k) < u64::MAX,
    ensures
        spec_push_anon(s, k).path =~= s.path.push(spec_anon_of(s, k)),
        spec_pop(spec_push_anon(s, k)).path =~= s.path,
        counter_of(spec_pop(spec_push_anon(s, k)).counters.last(), k) == counter_of(
            s.counters.last(),
            k,
        ) + 1,
        spec_anon_of(spec_pop(spec_push_anon(s, k)), k) != spec_anon_of(s, k),
{
    let pushed = spec_push_anon(s, k);
    assert(pushed.counters.drop_last() =~= s.counters.update(
        s.counters.len() - 1,
        bumped(s.counters.last(), k),
    ));
    assert(spec_pop(pushed).counters.last() == bumped(s.counters.last(), k));
}

} // verus!
