//! Hierarchical item paths: the unique identifier of a declaration.
//!
//! A path is an ordered sequence of components. Named declarations
//! contribute a name component; anonymous constructs (blocks, closures,
//! async blocks, macro expansions) contribute an indexed component whose
//! index is handed out by the enclosing scope, so that siblings of the
//! same kind stay distinct.

use vstd::prelude::*;

use crate::text::spec_digits;

verus! {

/// One component of an item path.
#[derive(Debug)]
pub enum Component {
    /// A named component, from a declaration such as a function or module.
    Str(String),
    /// An anonymous block, disambiguated by an index.
    Block(u64),
    /// An anonymous closure, disambiguated by an index.
    Closure(u64),
    /// An anonymous async block, disambiguated by an index.
    AsyncBlock(u64),
    /// An anonymous macro expansion, disambiguated by an index.
    Macro(u64),
}

/// The mathematical value of a [`Component`]: names as character
/// sequences, indices as unbounded integers.
pub ghost enum ComponentV {
    /// A named component.
    Str(Seq<char>),
    /// An anonymous block.
    Block(int),
    /// An anonymous closure.
    Closure(int),
    /// An anonymous async block.
    AsyncBlock(int),
    /// An anonymous macro expansion.
    Macro(int),
}

impl View for Component {
    type V = ComponentV;

    open spec fn view(&self) -> ComponentV {
        match self {
            Component::Str(s) => ComponentV::Str(s@),
            Component::Block(n) => ComponentV::Block(*n as int),
            Component::Closure(n) => ComponentV::Closure(*n as int),
            Component::AsyncBlock(n) => ComponentV::AsyncBlock(*n as int),
            Component::Macro(n) => ComponentV::Macro(*n as int),
        }
    }
}

impl Component {
    /// Whether this component marks an anonymous macro expansion.
    pub fn is_macro(&self) -> (r: bool)
        ensures
            r == self@ is Macro,
    {
        match self {
            Component::Macro(_) => true,
            _ => false,
        }
    }

    /// Structural equality of two components.
    pub fn eq_component(&self, other: &Component) -> (r: bool)
        ensures
            r == (self@ == other@),
    {
        match (self, other) {
            (Component::Str(a), Component::Str(b)) => String::eq(a, b),
            (Component::Block(a), Component::Block(b)) => *a == *b,
            (Component::Closure(a), Component::Closure(b)) => *a == *b,
            (Component::AsyncBlock(a), Component::AsyncBlock(b)) => *a == *b,
            (Component::Macro(a), Component::Macro(b)) => *a == *b,
            _ => false,
        }
    }
}

impl Clone for Component {
    fn clone(&self) -> (r: Component)
        ensures
            r@ == self@,
    {
        match self {
            Component::Str(s) => Component::Str(s.clone()),
            Component::Block(n) => Component::Block(*n),
            Component::Closure(n) => Component::Closure(*n),
            Component::AsyncBlock(n) => Component::AsyncBlock(*n),
            Component::Macro(n) => Component::Macro(*n),
        }
    }
}

/// The hierarchical path of one declaration within a compilation.
#[derive(Debug)]
pub struct Item {
    pub components: Vec<Component>,
}

impl View for Item {
    type V = Seq<ComponentV>;

    open spec fn view(&self) -> Seq<ComponentV> {
        self.components@.map_values(|c: Component| c@)
    }
}

/// Whether `a` is a (not necessarily strict) prefix of `b`.
pub open spec fn is_path_prefix(a: Seq<ComponentV>, b: Seq<ComponentV>) -> bool {
    a.len() <= b.len() && a =~= b.subrange(0, a.len() as int)
}

impl Item {
    /// The empty path, naming the compilation root.
    pub fn new() -> (r: Item)
        ensures
            r@ =~= Seq::<ComponentV>::empty(),
    {
        Item { components: Vec::new() }
    }

    /// The number of components.
    pub fn len(&self) -> (r: usize)
        ensures
            r == self@.len(),
    {
        self.components.len()
    }

    /// Whether the path is empty.
    pub fn is_empty(&self) -> (r: bool)
        ensures
            r == (self@.len() == 0),
    {
        self.components.len() == 0
    }

    /// The component at position `i`.
    pub fn get(&self, i: usize) -> (r: &Component)
        requires
            i < self@.len(),
        ensures
            r@ == self@[i as int],
    {
        &self.components[i]
    }

    /// Append one component.
    pub fn push(&mut self, c: Component)
        ensures
            final(self)@ =~= old(self)@.push(c@),
    {
        self.components.push(c);
    }

    /// Append a named component.
    pub fn push_name(&mut self, name: &str)
        ensures
            final(self)@ =~= old(self)@.push(ComponentV::Str(name@)),
    {
        self.components.push(Component::Str(name.to_owned()));
    }

    /// Remove and return the last component, if any.
    pub fn pop(&mut self) -> (r: Option<Component>)
        ensures
            old(self)@.len() == 0 ==> {
                &&& r is None
                &&& final(self)@ =~= old(self)@
            },
            old(self)@.len() > 0 ==> {
                &&& r is Some
                &&& r->0@ == old(self)@.last()
                &&& final(self)@ =~= old(self)@.drop_last()
            },
    {
        let r = self.components.pop();
        proof {
            if old(self)@.len() > 0 {
                assert(final(self)@ =~= old(self)@.drop_last());
            }
        }
        r
    }

    /// Structural equality of two paths.
    pub fn eq_item(&self, other: &Item) -> (r: bool)
        ensures
            r == (self@ =~= other@),
    {
        if self.components.len() != other.components.len() {
            return false;
        }
        let mut i: usize = 0;
        while i < self.components.len()
            invariant
                i <= self.components.len(),
                self.components.len() == other.components.len(),
                forall|j: int| 0 <= j < i ==> self@[j] == other@[j],
            decreases self.components.len() - i,
        {
            if !self.components[i].eq_component(&other.components[i]) {
                proof {
                    assert(self@[i as int] != other@[i as int]);
                }
                return false;
            }
            i = i + 1;
        }
        proof {
            assert(self@ =~= other@);
        }
        true
    }

    /// Whether `prefix` is a prefix of this path.
    pub fn starts_with(&self, prefix: &Item) -> (r: bool)
        ensures
            r == is_path_prefix(prefix@, self@),
    {
        if prefix.components.len() > self.components.len() {
            proof {
                assert(!is_path_prefix(prefix@, self@));
            }
            return false;
        }
        let mut i: usize = 0;
        while i < prefix.components.len()
            invariant
                i <= prefix.components.len(),
                prefix.components.len() <= self.components.len(),
                forall|j: int| 0 <= j < i ==> prefix@[j] == self@[j],
            decreases prefix.components.len() - i,
        {
            if !prefix.components[i].eq_component(&self.components[i]) {
                proof {
                    assert(!is_path_prefix(prefix@, self@)) by {
                        assert(prefix@[i as int] != self@.subrange(
                            0,
                            prefix@.len() as int,
                        )[i as int]);
                    }
                }
                return false;
            }
            i = i + 1;
        }
        proof {
            assert(prefix@ =~= self@.subrange(0, prefix@.len() as int));
        }
        true
    }
}

/// The rendered text of one path component: a name as itself, an
/// anonymous component as its `$`-prefixed kind and index.
pub open spec fn spec_component_text(c: ComponentV) -> Seq<char> {
    match c {
        ComponentV::Str(s) => s,
        ComponentV::Block(i) => seq!['$', 'b', 'l', 'o', 'c', 'k'] + spec_digits(i),
        ComponentV::Closure(i) => seq!['$', 'c', 'l', 'o', 's', 'u', 'r', 'e'] + spec_digits(i),
        ComponentV::AsyncBlock(i) => seq!['$', 'a', 's', 'y', 'n', 'c'] + spec_digits(i),
        ComponentV::Macro(i) => seq!['$', 'm', 'a', 'c', 'r', 'o'] + spec_digits(i),
    }
}

/// The rendered text of a path: its components' texts joined by `::`.
pub open spec fn spec_item_text(path: Seq<ComponentV>) -> Seq<char>
    decreases path.len(),
{
    if path.len() == 0 {
        Seq::empty()
    } else if path.len() == 1 {
        spec_component_text(path[0])
    } else {
        spec_item_text(path.drop_last()) + seq![':', ':'] + spec_component_text(path.last())
    }
}

impl Item {
    /// Render the path as text: named components joined by `::`,
    /// anonymous components with a `$`-prefixed kind and index.
    pub fn display_string(&self) -> (r: String)
        ensures
            r@ == spec_item_text(self@),
    {
        let mut out = String::new();
        let mut i: usize = 0;
        proof {
            assert(out@ =~= spec_item_text(self@.take(0)));
        }
        while i < self.components.len()
            invariant
                i <= self.components@.len(),
                out@ == spec_item_text(self@.take(i as int)),
            decreases self.components@.len() - i,
        {
            if i > 0 {
                proof {
                    reveal_strlit("::");
                }
                out.append("::");
                proof {
                    assert(out@ =~= spec_item_text(self@.take(i as int)) + seq![':', ':']);
                }
            }
            let ghost before = out@;
            match &self.components[i] {
                Component::Str(name) => {
                    out.append(name.as_str());
                    proof {
                        assert(out@ =~= before + spec_component_text(self@[i as int]));
                    }
                }
                Component::Block(n) => {
                    proof {
                        reveal_strlit("$block");
                    }
                    out.append("$block");
                    let text = crate::text::u64_to_string(*n);
                    out.append(text.as_str());
                    proof {
                        assert(out@ =~= before + spec_component_text(self@[i as int]));
                    }
                }
                Component::Closure(n) => {
                    proof {
                        reveal_strlit("$closure");
                    }
                    out.append("$closure");
                    let text = crate::text::u64_to_string(*n);
                    out.append(text.as_str());
                    proof {
                        assert(out@ =~= before + spec_component_text(self@[i as int]));
                    }
                }
                Component::AsyncBlock(n) => {
                    proof {
                        reveal_strlit("$async");
                    }
                    out.append("$async");
                    let text = crate::text::u64_to_string(*n);
                    out.append(text.as_str());
                    proof {
                        assert(out@ =~= before + spec_component_text(self@[i as int]));
                    }
                }
                Component::Macro(n) => {
                    proof {
                        reveal_strlit("$macro");
                    }
                    out.append("$macro");
                    let text = crate::text::u64_to_string(*n);
                    out.append(text.as_str());
                    proof {
                        assert(out@ =~= before + spec_component_text(self@[i as int]));
                    }
                }
            }
            proof {
                assert(self@.take(i + 1).drop_last() =~= self@.take(i as int));
                assert(self@.take(i + 1).last() == self@[i as int]);
                if i == 0 {
                    assert(out@ =~= spec_item_text(self@.take(1)));
                } else {
                    assert(out@ =~= spec_item_text(self@.take(i + 1)));
                }
            }
            i = i + 1;
        }
        proof {
            assert(self@.take(self@.len() as int) =~= self@);
        }
        out
    }
}

impl Clone for Item {
    fn clone(&self) -> (r: Item)
        ensures
            r@ =~= self@,
    {
        let mut components: Vec<Component> = Vec::new();
        let mut i: usize = 0;
        while i < self.components.len()
            invariant
                i <= self.components.len(),
                components@.len() == i as int,
                forall|j: int| 0 <= j < i ==> components@[j]@ == self@[j],
            decreases self.components.len() - i,
        {
            components.push(self.components[i].clone());
            i = i + 1;
        }
        let r = Item { components };
        proof {
            assert(r@ =~= self@);
        }
        r
    }
}

} // verus!
