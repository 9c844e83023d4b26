use vstd::prelude::*;

verus! {

/// The element on top of a stack whose contents are `s`, if any.
pub open spec fn top<T>(s: Seq<T>) -> Option<T> {
    if s.len() == 0 {
        None
    } else {
        Some(s.last())
    }
}

/// The contents that remain once the top of `s` is taken away; an empty
/// stack stays as it is.
pub open spec fn below_top<T>(s: Seq<T>) -> Seq<T> {
    if s.len() == 0 {
        s
    } else {
        s.drop_last()
    }
}

/// A LIFO container that owns its elements. It is neither `Clone` nor `Copy`:
/// moving it hands over the whole container.
pub struct Stack<T> {
    items: Vec<T>,
}

impl<T> View for Stack<T> {
    type V = Seq<T>;

    /// The elements from the bottom (index 0) to the top (the last index).
    closed spec fn view(&self) -> Seq<T> {
        self.items@
    }
}

impl<T> Stack<T> {
    /// The number of elements held.
    pub open spec fn spec_len(&self) -> nat {
        self@.len()
    }

    /// Whether no element is held.
    pub open spec fn spec_is_empty(&self) -> bool {
        self@.len() == 0
    }

    /// Creates an empty stack.
    pub fn new() -> (r: Self)
        ensures
            r@ == Seq::<T>::empty(),
    {
        Stack { items: Vec::new() }
    }

    /// Puts `item` on top of the stack.
    pub fn push(&mut self, item: T)
        ensures
            final(self)@ == old(self)@.push(item),
    {
        self.items.push(item);
    }

    /// Removes and returns the top element; on an empty stack returns `None`
    /// and leaves the stack unchanged.
    pub fn pop(&mut self) -> (r: Option<T>)
        ensures
            r == top(old(self)@),
            final(self)@ == below_top(old(self)@),
    {
        self.items.pop()
    }

    /// A reference to the top element without removing it, or `None` when
    /// the stack is empty.
    pub fn peek(&self) -> (r: Option<&T>)
        ensures
            match r {
                Some(x) => top(self@) == Some(*x),
                None => top(self@) == None::<T>,
            },
    {
        self.items.as_slice().last()
    }

    /// Whether the stack holds no element.
    pub fn is_empty(&self) -> (r: bool)
        ensures
            r == self.spec_is_empty(),
    {
        self.items.is_empty()
    }

    /// The number of elements held.
    pub fn len(&self) -> (r: usize)
        ensures
            r == self.spec_len(),
    {
        self.items.len()
    }
}

/// The contents after pushing the elements of `vs` one by one, first to
/// last, onto a stack holding `s`.
pub open spec fn pushed_all<T>(s: Seq<T>, vs: Seq<T>) -> Seq<T>
    decreases vs.len(),
{
    if vs.len() == 0 {
        s
    } else {
        pushed_all(s.push(vs[0]), vs.drop_first())
    }
}

/// What `n` successive pops return, in order, from a stack holding `s`.
pub open spec fn pop_results<T>(s: Seq<T>, n: nat) -> Seq<Option<T>>
    decreases n,
{
    if n == 0 {
        Seq::empty()
    } else {
        seq![top(s)] + pop_results(below_top(s), (n - 1) as nat)
    }
}

/// The contents after `n` successive pops from a stack holding `s`.
pub open spec fn popped_all<T>(s: Seq<T>, n: nat) -> Seq<T>
    decreases n,
{
    if n == 0 {
        s
    } else {
        popped_all(below_top(s), (n - 1) as nat)
    }
}

proof fn lemma_pushed_all_is_concat<T>(s: Seq<T>, vs: Seq<T>)
    ensures
        pushed_all(s, vs) == s + vs,
    decreases vs.len(),
{
    if vs.len() == 0 {
        assert(s + vs =~= s);
    } else {
        lemma_pushed_all_is_concat(s.push(vs[0]), vs.drop_first());
        assert(s.push(vs[0]) + vs.drop_first() =~= s + vs);
    }
}

proof fn lemma_pop_concat<T>(s: Seq<T>, vs: Seq<T>)
    ensures
        pop_results(s + vs, vs.len()) =~= Seq::new(vs.len(), |i: int| Some(vs[vs.len() - 1 - i])),
        popped_all(s + vs, vs.len()) == s,
    decreases vs.len(),
{
    if vs.len() == 0 {
        assert(s + vs =~= s);
    } else {
        let rest = vs.drop_last();
        assert((s + vs).last() == vs.last());
        assert((s + vs).drop_last() =~= s + rest);
        lemma_pop_concat(s, rest);
    }
}

/// Pushing `vs[0]`, ..., `vs[n - 1]` onto any stack and then popping `n`
/// times yields `vs[n - 1]`, ..., `vs[0]` in that order, and leaves the
/// stack as it was before the pushes.
pub proof fn law_lifo<T>(s: Seq<T>, vs: Seq<T>)
    ensures
        pop_results(pushed_all(s, vs), vs.len()) == Seq::new(
            vs.len(),
            |i: int| Some(vs[vs.len() - 1 - i]),
        ),
        popped_all(pushed_all(s, vs), vs.len()) == s,
{
    lemma_pushed_all_is_concat(s, vs);
    lemma_pop_concat(s, vs);
}

/// A stack is empty exactly when its length is zero.
pub proof fn law_is_empty_iff_len_zero<T>(st: &Stack<T>)
    ensures
        st.spec_is_empty() <==> st.spec_len() == 0,
{
}

/// A freshly made stack has length zero, is empty, and both peeking and
/// popping find nothing (popping leaves it as it is).
pub proof fn law_fresh_stack<T>(st: &Stack<T>)
    requires
        st@ == Seq::<T>::empty(),
    ensures
        st.spec_len() == 0,
        st.spec_is_empty(),
        top(st@) == None::<T>,
        below_top(st@) == st@,
{
}

/// The answers of `peek`, `len` and `is_empty` depend on the contents alone,
/// so asking again without a push or pop in between gives the same answers.
pub proof fn law_queries_depend_on_contents<T>(a: &Stack<T>, b: &Stack<T>)
    requires
        a@ == b@,
    ensures
        top(a@) == top(b@),
        a.spec_len() == b.spec_len(),
        a.spec_is_empty() == b.spec_is_empty(),
{
}

/// Pushing `v` and popping at once returns `v` and restores the contents
/// (and so the length) held before the push.
pub proof fn law_push_then_pop<T>(s: Seq<T>, v: T)
    ensures
        top(s.push(v)) == Some(v),
        below_top(s.push(v)) == s,
        below_top(s.push(v)).len() == s.len(),
{
    assert(s.push(v).drop_last() =~= s);
}

} // verus!
