//! A last-in-first-out container with an optional capacity limit.

use vstd::prelude::*;

verus! {

/// Last-in-first-out container. Items are pushed onto and popped from the
/// top, which is the last element of the backing sequence. `capacity` is an
/// optional upper bound on the number of items held at once; `None` means
/// unbounded.
#[derive(Default, Debug, Clone, PartialEq, Eq)]
pub struct Stack<T> {
    pub data: Vec<T>,
    pub capacity: Option<usize>,
}

impl<T> View for Stack<T> {
    type V = Seq<T>;

    open spec fn view(&self) -> Seq<T> {
        self.data@
    }
}

impl<T> Stack<T> {
    /// The capacity bound, when one is set, holds of the contents.
    pub open spec fn wf(&self) -> bool {
        match self.capacity {
            Some(c) => self@.len() <= c,
            None => true,
        }
    }

    /// A stack already holding as many items as its capacity allows.
    /// An unbounded stack is never full.
    pub open spec fn is_full(&self) -> bool {
        match self.capacity {
            Some(c) => self@.len() >= c,
            None => false,
        }
    }

    /// An empty, unbounded stack.
    pub fn new() -> (s: Stack<T>)
        ensures
            s@ == Seq::<T>::empty(),
            s.capacity is None,
            s.wf(),
    {
        Stack { data: Vec::<T>::new(), capacity: None }
    }

    /// An empty stack whose capacity is fixed at `capacity`, with backing
    /// storage reserved for that many items.
    pub fn with_capacity(capacity: usize) -> (s: Stack<T>)
        ensures
            s@ == Seq::<T>::empty(),
            s.capacity == Some(capacity),
            s.wf(),
    {
        Stack { data: Vec::<T>::with_capacity(capacity), capacity: Some(capacity) }
    }

    /// The number of items currently held.
    pub fn len(&self) -> (r: usize)
        ensures
            r == self@.len(),
    {
        self.data.len()
    }

    /// Strict insertion: pushes `value` onto the top and returns the new
    /// length, unless the stack is full, in which case it fails and the
    /// stack is left unchanged.
    pub fn push(&mut self, value: T) -> (r: Result<usize, &'static str>)
        requires
            old(self).wf(),
            !old(self).is_full() ==> old(self)@.len() < usize::MAX,
        ensures
            final(self).wf(),
            final(self).capacity == old(self).capacity,
            old(self).is_full() ==> (r matches Err(m) && m@ == "The stack is full"@)
                && final(self)@ == old(self)@,
            !old(self).is_full() ==> (r matches Ok(n) && n == old(self)@.len() + 1)
                && final(self)@ == old(self)@.push(value),
    {
        match self.capacity {
            None => {
                self.data.push(value);
                Ok(self.data.len())
            }
            Some(capacity) => {
                if self.data.len() >= capacity {
                    Err("The stack is full")
                } else {
                    self.data.push(value);
                    Ok(self.data.len())
                }
            }
        }
    }

    /// Forcing insertion: pushes `value` onto the top unconditionally,
    /// evicting the current top item first when the stack is full. With no
    /// capacity set the stack is never full, so this simply appends.
    /// Returns the new length. A capacity of zero is excluded: no eviction
    /// could make room for the new item under such a bound.
    pub fn force_push(&mut self, value: T) -> (r: usize)
        requires
            old(self).wf(),
            old(self).capacity != Some(0usize),
            !old(self).is_full() ==> old(self)@.len() < usize::MAX,
        ensures
            final(self).wf(),
            final(self).capacity == old(self).capacity,
            old(self).is_full() ==> final(self)@ == old(self)@.drop_last().push(value)
                && r == old(self)@.len(),
            !old(self).is_full() ==> final(self)@ == old(self)@.push(value)
                && r == old(self)@.len() + 1,
    {
        match self.capacity {
            None => {
                self.data.push(value);
                self.data.len()
            }
            Some(capacity) => {
                if self.data.len() >= capacity {
                    self.data.pop();
                }
                self.data.push(value);
                self.data.len()
            }
        }
    }

    /// Whether the stack holds no items.
    pub fn is_empty(&self) -> (r: bool)
        ensures
            r <==> self@.len() == 0,
    {
        self.data.is_empty()
    }

    /// Removes and returns the top (most recently pushed) item; fails when
    /// the stack is empty, leaving it unchanged.
    pub fn pop(&mut self) -> (r: Result<T, &'static str>)
        requires
            old(self).wf(),
        ensures
            final(self).wf(),
            final(self).capacity == old(self).capacity,
            old(self)@.len() == 0 ==> (r matches Err(m) && m@ == "The stack is empty"@)
                && final(self)@ == old(self)@,
            old(self)@.len() > 0 ==> (r matches Ok(v) && v == old(self)@.last())
                && final(self)@ == old(self)@.drop_last(),
    {
        if self.data.is_empty() {
            Err("The stack is empty")
        } else {
            Ok(self.data.pop().unwrap())
        }
    }

    /// Borrows the top item without removing it, or `None` when the stack
    /// is empty.
    pub fn peek(&self) -> (r: Option<&T>)
        ensures
            match r {
                Some(item) => self@.len() > 0 && *item == self@.last(),
                None => self@.len() == 0,
            },
    {
        if self.data.is_empty() {
            None
        } else {
            Some(&self.data[self.data.len() - 1])
        }
    }

    /// Changes the capacity limit without ever touching the contents.
    /// `None` clears the limit; `Some(c)` fails when `c` is below the
    /// current length and otherwise becomes the new limit, with backing
    /// storage reserved so at least `c` slots are available. Echoes the
    /// resulting capacity back on success.
    pub fn set_capacity(&mut self, capacity: Option<usize>) -> (r: Result<
        Option<usize>,
        &'static str,
    >)
        requires
            old(self).wf(),
        ensures
            final(self).wf(),
            final(self)@ == old(self)@,
            capacity is None ==> r == Ok::<Option<usize>, &'static str>(None)
                && final(self).capacity is None,
            capacity matches Some(c) ==> (if c >= old(self)@.len() {
                r == Ok::<Option<usize>, &'static str>(Some(c))
                    && final(self).capacity == Some(c)
            } else {
                (r matches Err(m) && m@ == "The capacity is too small"@)
                    && final(self).capacity == old(self).capacity
            }),
            capacity == old(self).capacity ==> r is Ok
                && final(self).capacity == old(self).capacity,
    {
        match capacity {
            None => {
                self.capacity = None;
                Ok(None)
            }
            Some(c) => {
                if c < self.data.len() {
                    Err("The capacity is too small")
                } else {
                    self.capacity = Some(c);
                    let extra = c - self.data.len();
                    self.data.reserve(extra);
                    Ok(Some(c))
                }
            }
        }
    }

    /// Unconditional capacity change. A new bound below the current length
    /// evicts items from the top downward until the contents fit; a larger
    /// one reserves extra backing slots. Always returns the resulting
    /// capacity.
    pub fn force_set_capacity(&mut self, capacity: Option<usize>) -> (r: Option<usize>)
        requires
            old(self).wf(),
        ensures
            final(self).wf(),
            r == capacity,
            final(self).capacity == capacity,
            capacity is None ==> final(self)@ == old(self)@,
            capacity matches Some(c) ==> (if c >= old(self)@.len() {
                final(self)@ == old(self)@
            } else {
                final(self)@ == old(self)@.subrange(0, c as int)
            }),
    {
        match capacity {
            None => {
                self.capacity = None;
                self.capacity
            }
            Some(c) => {
                if c < self.data.len() {
                    proof {
                        assert(self.data@ =~= old(self)@.subrange(0, self.data@.len() as int));
                    }
                    while c < self.data.len()
                        invariant
                            c <= self.data@.len(),
                            self.data@.len() <= old(self)@.len(),
                            self.data@ == old(self)@.subrange(0, self.data@.len() as int),
                        decreases self.data@.len(),
                    {
                        let ghost prev = self.data@;
                        self.data.pop();
                        proof {
                            assert(self.data@ == prev.subrange(0, prev.len() - 1));
                            assert(self.data@ =~= old(self)@.subrange(
                                0,
                                self.data@.len() as int,
                            ));
                        }
                    }
                } else {
                    let extra = c - self.data.len();
                    self.data.reserve(extra);
                }
                self.capacity = Some(c);
                self.capacity
            }
        }
    }
}

/// The contents of a stack after pushing `items` in order onto contents
/// `s`: each successful push appends at the top, as `Stack::push` ensures.
pub open spec fn push_all<T>(s: Seq<T>, items: Seq<T>) -> Seq<T>
    decreases items.len(),
{
    if items.len() == 0 {
        s
    } else {
        push_all(s.push(items[0]), items.drop_first())
    }
}

/// The items yielded by popping until the stack is empty: each pop
/// returns the top item and drops it, as `Stack::pop` ensures.
pub open spec fn pop_all<T>(s: Seq<T>) -> Seq<T>
    decreases s.len(),
{
    if s.len() == 0 {
        Seq::empty()
    } else {
        seq![s.last()] + pop_all(s.drop_last())
    }
}

/// Pushing a sequence of items extends the contents by exactly those
/// items, in order.
pub proof fn lemma_push_all_appends<T>(s: Seq<T>, items: Seq<T>)
    ensures
        push_all(s, items) == s + items,
    decreases items.len(),
{
    if items.len() == 0 {
        assert(s + items =~= s);
    } else {
        lemma_push_all_appends(s.push(items[0]), items.drop_first());
        assert(s.push(items[0]) + items.drop_first() =~= s + items);
    }
}

/// LIFO law: starting from an empty stack, successful pushes of `items`
/// leave exactly those items, and popping repeatedly yields them in
/// reverse insertion order.
pub proof fn lemma_lifo<T>(items: Seq<T>)
    ensures
        push_all(Seq::<T>::empty(), items) == items,
        pop_all(items) == items.reverse(),
    decreases items.len(),
{
    lemma_push_all_appends(Seq::<T>::empty(), items);
    assert(Seq::<T>::empty() + items =~= items);
    if items.len() == 0 {
        assert(pop_all(items) =~= items.reverse());
    } else {
        lemma_lifo(items.drop_last());
        assert(seq![items.last()] + items.drop_last().reverse() =~= items.reverse());
    }
}

/// A stack whose capacity limit is cleared, as `set_capacity(None)`
/// ensures, is never full, so strict insertion can never fail afterwards.
pub proof fn lemma_unbounded_never_full<T>(s: Stack<T>)
    requires
        s.capacity is None,
    ensures
        !s.is_full(),
{
}

} // verus!
