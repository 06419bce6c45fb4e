//! The scope tracker: a stack of per-function scope frames and plain
//! block scopes, tracking declared identifiers, identifier uses,
//! suspension markers (yield and await) and the captures of closures.
//!
//! A *frame* is the bookkeeping of one function-like body: a top-level
//! function, an instance function, a closure or an async block. Plain
//! scopes (blocks, loop bodies, match arms, select branches) only affect
//! identifier visibility. Using an identifier that is declared in an
//! enclosing frame and not shadowed locally registers it as a capture of
//! every closure frame crossed on the way out, in first-use order.

use vstd::prelude::*;

use crate::span::Span;

verus! {

/// The character sequences of a list of identifier names.
pub open spec fn names_view(v: Seq<String>) -> Seq<Seq<char>> {
    v.map_values(|s: String| s@)
}

/// Appending a name and then viewing is viewing and then appending.
pub proof fn lemma_names_view_push(v: Seq<String>, s: String)
    ensures
        names_view(v.push(s)) =~= names_view(v).push(s@),
{
}


/// Whether a scope level is a plain block scope or a function-like frame.
#[derive(Clone, Copy, PartialEq, Eq, Structural)]
pub enum LevelKind {
    /// A block, loop body, match arm or select branch: visibility only.
    Plain,
    /// A function-like body.
    Frame,
}

/// One level of the scope stack.
struct Level {
    kind: LevelKind,
    /// For frames: whether the body was created with the async qualifier.
    is_async: bool,
    /// For frames: whether the body is a closure or async block, which may
    /// capture from enclosing frames. A plain function may not.
    is_closure: bool,
    /// For frames: whether a yield was marked inside.
    has_yield: bool,
    /// For frames: whether an await was marked inside.
    has_await: bool,
    /// Identifiers declared directly at this level.
    declared: Vec<String>,
    /// For closure frames: captured identifiers in first-use order.
    captures: Vec<String>,
}

/// The mathematical value of one scope level.
pub ghost struct LevelV {
    /// Plain scope or function-like frame.
    pub kind: LevelKind,
    /// Whether the frame was created asynchronous.
    pub is_async: bool,
    /// Whether the frame is a closure or async block.
    pub is_closure: bool,
    /// Whether a yield was marked in the frame.
    pub has_yield: bool,
    /// Whether an await was marked in the frame.
    pub has_await: bool,
    /// Identifiers declared directly at this level.
    pub declared: Seq<Seq<char>>,
    /// Captured identifiers in first-use order.
    pub captures: Seq<Seq<char>>,
}

impl View for Level {
    type V = LevelV;

    closed spec fn view(&self) -> LevelV {
        LevelV {
            kind: self.kind,
            is_async: self.is_async,
            is_closure: self.is_closure,
            has_yield: self.has_yield,
            has_await: self.has_await,
            declared: names_view(self.declared@),
            captures: names_view(self.captures@),
        }
    }
}

/// Whether identifier `name` is declared directly at level `l`.
pub open spec fn level_declares(l: LevelV, name: Seq<char>) -> bool {
    l.declared.contains(name)
}

/// Whether level `l` blocks the outward search for identifiers: a plain
/// (non-closure) function frame hides everything outside it.
pub open spec fn is_barrier(l: LevelV) -> bool {
    l.kind is Frame && !l.is_closure
}

/// Whether level `l` is a closure or async block frame, which records
/// captures.
pub open spec fn is_capturing_frame(l: LevelV) -> bool {
    l.kind is Frame && l.is_closure
}

/// The classification a finished function frame yields.
pub struct FunctionInfo {
    /// Whether the function was declared asynchronous.
    pub is_async: bool,
    /// Whether a yield was marked inside, making it a generator.
    pub generator: bool,
}

/// The classification and captures a finished closure or async block
/// frame yields.
pub struct ClosureInfo {
    /// Whether the closure was created asynchronous.
    pub is_async: bool,
    /// Whether a yield was marked inside, making it a generator.
    pub generator: bool,
    /// The captured identifiers, in first-use order.
    pub captures: Vec<String>,
}

/// The scope tracker.
pub struct IndexScopes {
    levels: Vec<Level>,
}

impl View for IndexScopes {
    type V = Seq<LevelV>;

    closed spec fn view(&self) -> Seq<LevelV> {
        self.levels@.map_values(|l: Level| l@)
    }
}

/// The shape of a scope stack: for each level its kind, whether it is a
/// closure frame, and whether it is asynchronous. Declaring, marking
/// uses and marking suspensions never change the shape; only entering
/// and leaving scopes do.
pub open spec fn scope_shape(levels: Seq<LevelV>) -> Seq<(LevelKind, bool, bool)> {
    levels.map_values(|l: LevelV| (l.kind, l.is_closure, l.is_async))
}

/// Recording a use keeps the scope stack's shape.
pub proof fn lemma_mark_use_keeps_shape(levels: Seq<LevelV>, name: Seq<char>)
    ensures
        scope_shape(spec_mark_use(levels, name)) =~= scope_shape(levels),
{
}

/// Recording a use changes no yield marks.
pub proof fn lemma_mark_use_keeps_yields(levels: Seq<LevelV>, name: Seq<char>)
    ensures
        spec_mark_use(levels, name).len() == levels.len(),
        forall|j: int|
            0 <= j < levels.len() ==> (#[trigger] spec_mark_use(levels, name)[j]).has_yield
                == levels[j].has_yield,
{
}

/// The innermost frame index depends only on the stack's shape.
pub proof fn lemma_innermost_frame_shape(a: Seq<LevelV>, b: Seq<LevelV>)
    requires
        scope_shape(a) =~= scope_shape(b),
    ensures
        innermost_frame(a) == innermost_frame(b),
    decreases a.len(),
{
    assert(scope_shape(a).len() == a.len());
    assert(scope_shape(b).len() == b.len());
    assert(a.len() == b.len());
    if a.len() > 0 {
        assert(scope_shape(a)[a.len() - 1] == (a.last().kind, a.last().is_closure, a.last().is_async));
        assert(scope_shape(b)[b.len() - 1] == (b.last().kind, b.last().is_closure, b.last().is_async));
        if !(a.last().kind is Frame) {
            assert(scope_shape(a.drop_last()) =~= scope_shape(b.drop_last())) by {
                assert forall|j: int| 0 <= j < a.len() - 1 implies scope_shape(a.drop_last())[j]
                    == scope_shape(b.drop_last())[j] by {
                    assert(scope_shape(a)[j] == scope_shape(b)[j]);
                }
            }
            lemma_innermost_frame_shape(a.drop_last(), b.drop_last());
        }
    }
}

/// The innermost frame index is always within the stack.
pub proof fn lemma_innermost_frame_bounds(levels: Seq<LevelV>)
    ensures
        -1 <= innermost_frame(levels) < levels.len(),
    decreases levels.len(),
{
    if levels.len() == 0 {
    } else if levels.last().kind is Frame {
    } else {
        lemma_innermost_frame_bounds(levels.drop_last());
    }
}

/// The level a freshly pushed scope or frame starts from.
pub open spec fn fresh_level(kind: LevelKind, is_async: bool, is_closure: bool) -> LevelV {
    LevelV {
        kind,
        is_async,
        is_closure,
        has_yield: false,
        has_await: false,
        declared: Seq::empty(),
        captures: Seq::empty(),
    }
}

/// The index of the innermost function-like frame of `levels`, or -1 when
/// no frame is on the stack.
pub open spec fn innermost_frame(levels: Seq<LevelV>) -> int
    decreases levels.len(),
{
    if levels.len() == 0 {
        -1
    } else if levels.last().kind is Frame {
        levels.len() - 1
    } else {
        innermost_frame(levels.drop_last())
    }
}

impl IndexScopes {
    /// An empty scope stack.
    pub fn new() -> (r: IndexScopes)
        ensures
            r@ =~= Seq::<LevelV>::empty(),
    {
        let r = IndexScopes { levels: Vec::new() };
        proof {
            assert(r@ =~= Seq::<LevelV>::empty());
        }
        r
    }

    /// The number of levels on the stack.
    pub fn depth(&self) -> (r: usize)
        ensures
            r == self@.len(),
    {
        self.levels.len()
    }

    /// Enter a plain scope: a block, loop body, match arm or select
    /// branch. It only affects identifier visibility.
    pub fn push_scope(&mut self)
        ensures
            final(self)@ =~= old(self)@.push(fresh_level(LevelKind::Plain, false, false)),
    {
        self.levels.push(Level {
            kind: LevelKind::Plain,
            is_async: false,
            is_closure: false,
            has_yield: false,
            has_await: false,
            declared: Vec::new(),
            captures: Vec::new(),
        });
        proof {
            let l = final(self)@.last();
            assert(l.declared =~= Seq::<Seq<char>>::empty());
            assert(l.captures =~= Seq::<Seq<char>>::empty());
            assert(l == fresh_level(LevelKind::Plain, false, false));
            assert(final(self)@ =~= old(self)@.push(fresh_level(LevelKind::Plain, false, false)));
        }
    }

    /// Enter the frame of a plain function body.
    pub fn push_function(&mut self, is_async: bool)
        ensures
            final(self)@ =~= old(self)@.push(fresh_level(LevelKind::Frame, is_async, false)),
    {
        self.levels.push(Level {
            kind: LevelKind::Frame,
            is_async,
            is_closure: false,
            has_yield: false,
            has_await: false,
            declared: Vec::new(),
            captures: Vec::new(),
        });
        proof {
            let l = final(self)@.last();
            assert(l.declared =~= Seq::<Seq<char>>::empty());
            assert(l.captures =~= Seq::<Seq<char>>::empty());
            assert(l == fresh_level(LevelKind::Frame, is_async, false));
            assert(final(self)@ =~= old(self)@.push(fresh_level(LevelKind::Frame, is_async, false)));
        }
    }

    /// Enter the frame of a closure or async block body.
    pub fn push_closure(&mut self, is_async: bool)
        ensures
            final(self)@ =~= old(self)@.push(fresh_level(LevelKind::Frame, is_async, true)),
    {
        self.levels.push(Level {
            kind: LevelKind::Frame,
            is_async,
            is_closure: true,
            has_yield: false,
            has_await: false,
            declared: Vec::new(),
            captures: Vec::new(),
        });
        proof {
            let l = final(self)@.last();
            assert(l.declared =~= Seq::<Seq<char>>::empty());
            assert(l.captures =~= Seq::<Seq<char>>::empty());
            assert(l == fresh_level(LevelKind::Frame, is_async, true));
            assert(final(self)@ =~= old(self)@.push(fresh_level(LevelKind::Frame, is_async, true)));
        }
    }

    /// Declare identifier `name` at the innermost level. Fails exactly
    /// when `name` is `self` outside a method context: when no frame is
    /// open, or the innermost frame is a closure or async block. The
    /// stack is unchanged on failure.
    pub fn declare(&mut self, name: &str, span: Span) -> (r: Result<(), ()>)
        ensures
            ({
                let fi = innermost_frame(old(self)@);
                let invalid_self = name@ =~= "self"@ && (fi < 0 || old(self)@[fi].is_closure);
                if old(self)@.len() == 0 || invalid_self {
                    &&& r is Err
                    &&& final(self)@ == old(self)@
                } else {
                    &&& r is Ok
                    &&& final(self)@ =~= old(self)@.update(
                        old(self)@.len() - 1,
                        LevelV {
                            declared: old(self)@.last().declared.push(name@),
                            ..old(self)@.last()
                        },
                    )
                }
            }),
    {
        let _ = span;
        if self.levels.len() == 0 {
            return Err(());
        }
        if crate::text::str_eq_str(name, "self") {
            let fi = self.find_innermost_frame();
            match fi {
                None => {
                    return Err(());
                }
                Some(i) => {
                    if self.levels[i].is_closure {
                        return Err(());
                    }
                }
            }
        }
        let i = self.levels.len() - 1;
        let lev = &mut self.levels[i];
        lev.declared.push(name.to_owned());
        proof {
            let k = old(self)@.len() - 1;
            assert(final(self)@[k].declared =~= old(self)@[k].declared.push(name@));
            assert(final(self)@[k] == (LevelV {
                declared: old(self)@.last().declared.push(name@),
                ..old(self)@.last()
            }));
            assert(final(self)@ =~= old(self)@.update(
                k,
                LevelV { declared: old(self)@.last().declared.push(name@), ..old(self)@.last() },
            ));
        }
        Ok(())
    }

    /// The index of the innermost function-like frame, if any.
    fn find_innermost_frame(&self) -> (r: Option<usize>)
        ensures
            innermost_frame(self@) < 0 <==> r is None,
            r is Some ==> r->0 == innermost_frame(self@) && r->0 < self@.len(),
    {
        let mut j = self.levels.len();
        proof {
            assert(self@.subrange(0, self@.len() as int) =~= self@);
        }
        while j > 0
            invariant
                j <= self@.len(),
                innermost_frame(self@) == innermost_frame(self@.subrange(0, j as int)),
            decreases j,
        {
            j = j - 1;
            proof {
                assert(self@.subrange(0, j + 1).drop_last() =~= self@.subrange(0, j as int));
                assert(self@.subrange(0, j + 1).last() == self@[j as int]);
            }
            if matches!(self.levels[j].kind, LevelKind::Frame) {
                return Some(j);
            }
        }
        proof {
            assert(self@.subrange(0, 0) =~= Seq::<LevelV>::empty());
        }
        None
    }

    /// Mark a yield in the innermost frame, making it a generator. Fails
    /// exactly when no function-like frame is open.
    pub fn mark_yield(&mut self, span: Span) -> (r: Result<(), ()>)
        ensures
            ({
                let fi = innermost_frame(old(self)@);
                if fi < 0 {
                    &&& r is Err
                    &&& final(self)@ == old(self)@
                } else {
                    &&& r is Ok
                    &&& final(self)@ =~= old(self)@.update(
                        fi,
                        LevelV { has_yield: true, ..old(self)@[fi] },
                    )
                }
            }),
    {
        let _ = span;
        match self.find_innermost_frame() {
            None => Err(()),
            Some(i) => {
                let lev = &mut self.levels[i];
                lev.has_yield = true;
                proof {
                    let fi = innermost_frame(old(self)@);
                    assert(final(self)@ =~= old(self)@.update(
                        fi,
                        LevelV { has_yield: true, ..old(self)@[fi] },
                    ));
                }
                Ok(())
            }
        }
    }

    /// Mark an await in the innermost frame. Awaiting is legal only
    /// inside an asynchronous frame; the call fails exactly when no frame
    /// is open or the innermost frame is not asynchronous, and the stack
    /// is unchanged on failure.
    pub fn mark_await(&mut self, span: Span) -> (r: Result<(), ()>)
        ensures
            ({
                let fi = innermost_frame(old(self)@);
                if fi < 0 || !old(self)@[fi].is_async {
                    &&& r is Err
                    &&& final(self)@ == old(self)@
                } else {
                    &&& r is Ok
                    &&& final(self)@ =~= old(self)@.update(
                        fi,
                        LevelV { has_await: true, ..old(self)@[fi] },
                    )
                }
            }),
    {
        let _ = span;
        match self.find_innermost_frame() {
            None => Err(()),
            Some(i) => {
                if !self.levels[i].is_async {
                    return Err(());
                }
                let lev = &mut self.levels[i];
                lev.has_await = true;
                proof {
                    let fi = innermost_frame(old(self)@);
                    assert(final(self)@ =~= old(self)@.update(
                        fi,
                        LevelV { has_await: true, ..old(self)@[fi] },
                    ));
                }
                Ok(())
            }
        }
    }

    /// Leave a plain scope. Fails exactly when the innermost level is not
    /// a plain scope; the stack is unchanged on failure.
    pub fn pop_scope(&mut self) -> (r: Result<(), ()>)
        ensures
            if old(self)@.len() > 0 && old(self)@.last().kind is Plain {
                &&& r is Ok
                &&& final(self)@ =~= old(self)@.drop_last()
            } else {
                &&& r is Err
                &&& final(self)@ == old(self)@
            },
    {
        if self.levels.len() == 0 {
            return Err(());
        }
        if !matches!(self.levels[self.levels.len() - 1].kind, LevelKind::Plain) {
            return Err(());
        }
        let _ = self.levels.pop();
        proof {
            assert(final(self)@ =~= old(self)@.drop_last());
        }
        Ok(())
    }

    /// Finalize a plain function frame, yielding its classification.
    /// Fails exactly when the innermost level is not such a frame; the
    /// stack is unchanged on failure.
    pub fn pop_function(&mut self, span: Span) -> (r: Result<FunctionInfo, ()>)
        ensures
            if old(self)@.len() > 0 && old(self)@.last().kind is Frame && !old(
                self,
            )@.last().is_closure {
                &&& r is Ok
                &&& final(self)@ =~= old(self)@.drop_last()
                &&& r->Ok_0.is_async == old(self)@.last().is_async
                &&& r->Ok_0.generator == old(self)@.last().has_yield
            } else {
                &&& r is Err
                &&& final(self)@ == old(self)@
            },
    {
        let _ = span;
        if self.levels.len() == 0 {
            return Err(());
        }
        let last = self.levels.len() - 1;
        if !matches!(self.levels[last].kind, LevelKind::Frame) || self.levels[last].is_closure {
            return Err(());
        }
        match self.levels.pop() {
            Some(level) => {
                proof {
                    assert(final(self)@ =~= old(self)@.drop_last());
                }
                Ok(FunctionInfo { is_async: level.is_async, generator: level.has_yield })
            }
            None => Err(()),
        }
    }

    /// Finalize a closure or async block frame, yielding its
    /// classification and its captures in first-use order. Fails exactly
    /// when the innermost level is not such a frame; the stack is
    /// unchanged on failure.
    pub fn pop_closure(&mut self, span: Span) -> (r: Result<ClosureInfo, ()>)
        ensures
            if old(self)@.len() > 0 && is_capturing_frame(old(self)@.last()) {
                &&& r is Ok
                &&& final(self)@ =~= old(self)@.drop_last()
                &&& r->Ok_0.is_async == old(self)@.last().is_async
                &&& r->Ok_0.generator == old(self)@.last().has_yield
                &&& names_view(r->Ok_0.captures@) =~= old(self)@.last().captures
            } else {
                &&& r is Err
                &&& final(self)@ == old(self)@
            },
    {
        let _ = span;
        if self.levels.len() == 0 {
            return Err(());
        }
        let last = self.levels.len() - 1;
        if !matches!(self.levels[last].kind, LevelKind::Frame) || !self.levels[last].is_closure {
            return Err(());
        }
        match self.levels.pop() {
            Some(level) => {
                proof {
                    assert(final(self)@ =~= old(self)@.drop_last());
                }
                Ok(ClosureInfo {
                    is_async: level.is_async,
                    generator: level.has_yield,
                    captures: level.captures,
                })
            }
            None => Err(()),
        }
    }
}

/// The level that identifier `name` resolves to when the search starts at
/// index `j` and walks outward: the first level declaring `name`, or -1
/// when a plain function frame is crossed first or the stack runs out.
pub open spec fn find_declaring_level(levels: Seq<LevelV>, name: Seq<char>, j: int) -> int
    decreases j + 1,
{
    if j < 0 || j >= levels.len() {
        -1
    } else if level_declares(levels[j], name) {
        j
    } else if is_barrier(levels[j]) {
        -1
    } else {
        find_declaring_level(levels, name, j - 1)
    }
}

/// Level `l` with `name` registered as a capture: appended in first-use
/// order, and only when not already present.
pub open spec fn with_capture(l: LevelV, name: Seq<char>) -> LevelV {
    if l.captures.contains(name) {
        l
    } else {
        LevelV { captures: l.captures.push(name), ..l }
    }
}

/// The scope stack after a use of identifier `name`: when the use
/// resolves to a declaration at some enclosing level, every closure or
/// async block frame crossed on the way out captures `name`; a local use,
/// or one that resolves to nothing on the stack, changes nothing.
pub open spec fn spec_mark_use(levels: Seq<LevelV>, name: Seq<char>) -> Seq<LevelV> {
    let fi = find_declaring_level(levels, name, levels.len() - 1);
    if fi < 0 {
        levels
    } else {
        Seq::new(
            levels.len(),
            |j: int|
                if j > fi && is_capturing_frame(levels[j]) {
                    with_capture(levels[j], name)
                } else {
                    levels[j]
                },
        )
    }
}

/// Whether `names` holds `name`.
fn names_contain(names: &Vec<String>, name: &String) -> (r: bool)
    ensures
        r == names_view(names@).contains(name@),
{
    let ghost viewed = names_view(names@);
    let mut i: usize = 0;
    while i < names.len()
        invariant
            i <= names@.len(),
            viewed == names_view(names@),
            forall|k: int| 0 <= k < i ==> viewed[k] != name@,
        decreases names@.len() - i,
    {
        if String::eq(&names[i], name) {
            proof {
                assert(viewed[i as int] == name@);
            }
            return true;
        }
        i = i + 1;
    }
    proof {
        assert(forall|k: int| 0 <= k < viewed.len() ==> viewed[k] != name@);
    }
    false
}

impl IndexScopes {
    /// The level that a use of `name` resolves to, walking outward from
    /// the innermost level and stopping at plain function frames.
    fn find_declaring(&self, name: &String) -> (r: Option<usize>)
        ensures
            ({
                let top = find_declaring_level(self@, name@, self@.len() - 1);
                match r {
                    None => top < 0,
                    Some(i) => top == i && i < self@.len(),
                }
            }),
    {
        let mut j = self.levels.len();
        let ghost top = find_declaring_level(self@, name@, self@.len() - 1);
        while j > 0
            invariant
                j <= self@.len(),
                top == find_declaring_level(self@, name@, self@.len() - 1),
                top == find_declaring_level(self@, name@, j - 1),
            decreases j,
        {
            j = j - 1;
            if names_contain(&self.levels[j].declared, name) {
                proof {
                    assert(level_declares(self@[j as int], name@));
                }
                return Some(j);
            }
            if matches!(self.levels[j].kind, LevelKind::Frame) && !self.levels[j].is_closure {
                proof {
                    assert(is_barrier(self@[j as int]));
                }
                return None;
            }
        }
        None
    }

    /// Record a use of identifier `name`. A use that resolves to a
    /// declaration in an enclosing level registers `name` as a capture of
    /// every closure or async block frame it crosses, each exactly once,
    /// in first-use order; a local or unresolved use changes nothing.
    pub fn mark_use(&mut self, name: &str)
        ensures
            final(self)@ =~= spec_mark_use(old(self)@, name@),
    {
        let owned = name.to_owned();
        let ghost top = find_declaring_level(self@, name@, self@.len() - 1);
        let found = self.find_declaring(&owned);
        match found {
            None => {
                proof {
                    assert(final(self)@ =~= spec_mark_use(old(self)@, name@));
                }
            }
            Some(fi) => {
                let n = self.levels.len();
                proof {
                    assert(self@.len() == self.levels@.len());
                    assert(fi < n);
                    assert(self@ =~= Seq::new(
                        old(self)@.len(),
                        |m: int|
                            if fi < m < fi + 1 && is_capturing_frame(old(self)@[m]) {
                                with_capture(old(self)@[m], name@)
                            } else {
                                old(self)@[m]
                            },
                    ));
                }
                let mut k = fi + 1;
                while k < self.levels.len()
                    invariant
                        owned@ == name@,
                        fi < k <= old(self)@.len(),
                        self@.len() == old(self)@.len(),
                        top == fi,
                        top == find_declaring_level(old(self)@, name@, old(self)@.len() - 1),
                        self@ =~= Seq::new(
                            old(self)@.len(),
                            |m: int|
                                if fi < m < k && is_capturing_frame(old(self)@[m]) {
                                    with_capture(old(self)@[m], name@)
                                } else {
                                    old(self)@[m]
                                },
                        ),
                    decreases self@.len() - k,
                {
                    let ghost sv = self@;
                    let ghost pre = self.levels@;
                    proof {
                        assert forall|m: int| 0 <= m < pre.len() implies sv[m] == pre[m]@ by {
                            assert(sv[m] == self.levels@[m]@);
                        }
                        assert(sv[k as int] == old(self)@[k as int]);
                    }
                    let is_capturing = matches!(self.levels[k].kind, LevelKind::Frame)
                        && self.levels[k].is_closure;
                    proof {
                        assert(is_capturing == is_capturing_frame(sv[k as int]));
                    }
                    if is_capturing {
                        if !names_contain(&self.levels[k].captures, &owned) {
                            let lev = &mut self.levels[k];
                            lev.captures.push(owned.clone());
                            proof {
                                assert(self.levels@[k as int].captures@ =~= pre[
                                    k as int
                                ].captures@.push(owned));
                                lemma_names_view_push(pre[k as int].captures@, owned);
                                assert(self@[k as int] == self.levels@[k as int]@);
                                assert(self@[k as int].captures =~= old(self)@[
                                    k as int
                                ].captures.push(name@));
                                assert(self@[k as int] == with_capture(
                                    old(self)@[k as int],
                                    name@,
                                ));
                            }
                        } else {
                            proof {
                                assert(names_view(self.levels@[k as int].captures@).contains(
                                    owned@,
                                ));
                                assert(old(self)@[k as int].captures.contains(name@));
                                assert(self@[k as int] == with_capture(
                                    old(self)@[k as int],
                                    name@,
                                ));
                            }
                        }
                    }
                    proof {
                        assert forall|m: int|
                            0 <= m < self@.len() && m != k implies self@[m] == sv[m] by {
                            assert(self.levels@[m] == pre[m]);
                            assert(self@[m] == self.levels@[m]@);
                        }
                        assert forall|m: int|
                            0 <= m < self@.len() implies self@[m] == (if fi < m < k + 1
                                && is_capturing_frame(old(self)@[m]) {
                                with_capture(old(self)@[m], name@)
                            } else {
                                old(self)@[m]
                            }) by {
                            if m != k {
                                assert(self@[m] == sv[m]);
                                assert(sv[m] == (if fi < m < k && is_capturing_frame(
                                    old(self)@[m],
                                ) {
                                    with_capture(old(self)@[m], name@)
                                } else {
                                    old(self)@[m]
                                }));
                            }
                        }
                        assert(self@ =~= Seq::new(
                            old(self)@.len(),
                            |m: int|
                                if fi < m < k + 1 && is_capturing_frame(old(self)@[m]) {
                                    with_capture(old(self)@[m], name@)
                                } else {
                                    old(self)@[m]
                                },
                        ));
                    }
                    k = k + 1;
                }
                proof {
                    assert(final(self)@ =~= spec_mark_use(old(self)@, name@));
                }
            }
        }
    }
}

/// A value copy of a list of names.
fn clone_names(v: &Vec<String>) -> (r: Vec<String>)
    ensures
        r@ =~= v@,
{
    let mut out: Vec<String> = Vec::new();
    let mut i: usize = 0;
    while i < v.len()
        invariant
            i <= v@.len(),
            out@ =~= v@.take(i as int),
        decreases v@.len() - i,
    {
        out.push(v[i].clone());
        proof {
            assert(out@ =~= v@.take(i + 1));
        }
        i = i + 1;
    }
    proof {
        assert(v@.take(v@.len() as int) =~= v@);
    }
    out
}

impl IndexScopes {
    /// A deep copy with the exact same state; deferred work resumed from
    /// the copy sees the very scopes that stood at the snapshot.
    pub fn snapshot(&self) -> (r: IndexScopes)
        ensures
            r@ =~= self@,
    {
        let mut levels: Vec<Level> = Vec::new();
        let mut i: usize = 0;
        while i < self.levels.len()
            invariant
                i <= self.levels@.len(),
                levels@.len() == i as int,
                forall|j: int| 0 <= j < i ==> levels@[j]@ == self.levels@[j]@,
            decreases self.levels@.len() - i,
        {
            let l = &self.levels[i];
            let copied = Level {
                kind: l.kind,
                is_async: l.is_async,
                is_closure: l.is_closure,
                has_yield: l.has_yield,
                has_await: l.has_await,
                declared: clone_names(&l.declared),
                captures: clone_names(&l.captures),
            };
            proof {
                assert(copied@ == self.levels@[i as int]@);
            }
            levels.push(copied);
            i = i + 1;
        }
        let r = IndexScopes { levels };
        proof {
            assert(r@ =~= self@);
        }
        r
    }
}

/// Helper: registering a capture leaves declarations, frame kinds and
/// suspension flags untouched, so name resolution is unaffected.
proof fn lemma_find_unchanged_by_captures(a: Seq<LevelV>, b: Seq<LevelV>, name: Seq<char>, j: int)
    requires
        a.len() == b.len(),
        forall|m: int| 0 <= m < a.len() ==> b[m].declared == a[m].declared,
        forall|m: int| 0 <= m < a.len() ==> b[m].kind == a[m].kind,
        forall|m: int| 0 <= m < a.len() ==> b[m].is_closure == a[m].is_closure,
    ensures
        find_declaring_level(b, name, j) == find_declaring_level(a, name, j),
    decreases j + 1,
{
    if j < 0 || j >= a.len() {
    } else {
        lemma_find_unchanged_by_captures(a, b, name, j - 1);
    }
}

/// A closure captures an identifier at most once: a second use of the
/// same identifier leaves the scope stack exactly as the first use left
/// it, whatever the stack looked like.
pub proof fn lemma_capture_exactly_once(levels: Seq<LevelV>, name: Seq<char>)
    ensures
        spec_mark_use(spec_mark_use(levels, name), name) =~= spec_mark_use(levels, name),
{
    let s1 = spec_mark_use(levels, name);
    let fi = find_declaring_level(levels, name, levels.len() - 1);
    if fi < 0 {
    } else {
        lemma_find_unchanged_by_captures(levels, s1, name, levels.len() - 1);
        let s2 = spec_mark_use(s1, name);
        assert forall|m: int| 0 <= m < s1.len() implies s2[m] == s1[m] by {
            if m > fi && is_capturing_frame(s1[m]) {
                if !levels[m].captures.contains(name) {
                    let c = levels[m].captures;
                    assert(s1[m].captures == c.push(name));
                    assert(c.push(name)[c.len() as int] == name);
                }
                assert(s1[m].captures.contains(name));
            }
        }
    }
}

/// Captures come in first-use order: when a use of `first` and then a use
/// of `second` both register captures in the frame at level `f`, that
/// frame's capture list ends with `first` followed by `second`.
pub proof fn lemma_capture_first_use_order(
    levels: Seq<LevelV>,
    first: Seq<char>,
    second: Seq<char>,
    f: int,
)
    requires
        0 <= f < levels.len(),
        is_capturing_frame(levels[f]),
        find_declaring_level(levels, first, levels.len() - 1) >= 0,
        f > find_declaring_level(levels, first, levels.len() - 1),
        !levels[f].captures.contains(first),
        find_declaring_level(
            spec_mark_use(levels, first),
            second,
            levels.len() - 1,
        ) >= 0,
        f > find_declaring_level(spec_mark_use(levels, first), second, levels.len() - 1),
        !spec_mark_use(levels, first)[f].captures.contains(second),
    ensures
        spec_mark_use(spec_mark_use(levels, first), second)[f].captures =~= levels[f].captures.push(
            first,
        ).push(second),
{
    let s1 = spec_mark_use(levels, first);
    assert(s1[f].captures == levels[f].captures.push(first));
    let s2 = spec_mark_use(s1, second);
    assert(s2[f].captures == s1[f].captures.push(second));
}

/// Whether every frame's capture list is free of duplicates.
pub open spec fn captures_distinct(levels: Seq<LevelV>) -> bool {
    forall|m: int, i1: int, i2: int|
        0 <= m < levels.len() && 0 <= i1 < i2 < levels[m].captures.len() ==> levels[m].captures[i1]
            != levels[m].captures[i2]
}

/// Recording a use never duplicates an entry in any capture list.
pub proof fn lemma_captures_stay_distinct(levels: Seq<LevelV>, name: Seq<char>)
    requires
        captures_distinct(levels),
    ensures
        captures_distinct(spec_mark_use(levels, name)),
{
    let s1 = spec_mark_use(levels, name);
    let fi = find_declaring_level(levels, name, levels.len() - 1);
    if fi >= 0 {
        assert forall|m: int, i1: int, i2: int|
            0 <= m < s1.len() && 0 <= i1 < i2 < s1[m].captures.len() implies s1[m].captures[i1]
            != s1[m].captures[i2] by {
            if m > fi && is_capturing_frame(levels[m]) && !levels[m].captures.contains(name) {
                let c = levels[m].captures;
                assert(s1[m].captures == c.push(name));
                if i2 < c.len() {
                } else {
                    assert(s1[m].captures[i2] == name);
                    assert(s1[m].captures[i1] == c[i1]);
                    assert(!c.contains(name));
                }
            }
        }
    }
}

} // verus!
