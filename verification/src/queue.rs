//! A first-in-first-out container with an optional capacity limit.

use vstd::prelude::*;

verus! {

/// First-in-first-out container. Items are appended at the back and removed
/// from the front. `capacity` is an optional upper bound on the number of
/// items held at once; `None` means unbounded.
#[derive(Debug, PartialEq, Eq)]
pub struct Queue<T> {
    pub vec: Vec<T>,
    pub capacity: Option<usize>,
}

impl<T> View for Queue<T> {
    type V = Seq<T>;

    open spec fn view(&self) -> Seq<T> {
        self.vec@
    }
}

impl<T> From<Vec<T>> for Queue<T> {
    /// Adopts `vec` verbatim as the contents of an unbounded queue.
    fn from(vec: Vec<T>) -> (q: Queue<T>) {
        Queue { vec, capacity: None }
    }
}

impl<T> vstd::std_specs::convert::FromSpecImpl<Vec<T>> for Queue<T> {
    open spec fn obeys_from_spec() -> bool {
        true
    }

    open spec fn from_spec(vec: Vec<T>) -> Queue<T> {
        Queue { vec, capacity: None }
    }
}

impl<T> Queue<T> {
    /// The capacity bound, when one is set, holds of the contents.
    pub open spec fn wf(&self) -> bool {
        match self.capacity {
            Some(c) => self@.len() <= c,
            None => true,
        }
    }

    /// A queue already holding as many items as its capacity allows.
    /// An unbounded queue is never full.
    pub open spec fn is_full(&self) -> bool {
        match self.capacity {
            Some(c) => self@.len() >= c,
            None => false,
        }
    }

    /// An empty, unbounded queue.
    pub fn new() -> (q: Queue<T>)
        ensures
            q@ == Seq::<T>::empty(),
            q.capacity is None,
            q.wf(),
    {
        Queue { vec: Vec::new(), capacity: None }
    }

    /// An empty queue whose capacity is fixed at `capacity`, with backing
    /// storage reserved for that many items.
    pub fn with_capacity(capacity: usize) -> (q: Queue<T>)
        ensures
            q@ == Seq::<T>::empty(),
            q.capacity == Some(capacity),
            q.wf(),
    {
        Queue { vec: Vec::with_capacity(capacity), capacity: Some(capacity) }
    }

    /// Strict insertion: appends `arg` at the back and returns the new
    /// length, unless the queue is full, in which case it fails and the
    /// queue is left unchanged.
    pub fn queue(&mut self, arg: T) -> (r: Result<usize, ()>)
        requires
            old(self).wf(),
            !old(self).is_full() ==> old(self)@.len() < usize::MAX,
        ensures
            final(self).wf(),
            final(self).capacity == old(self).capacity,
            old(self).is_full() ==> r is Err && final(self)@ == old(self)@,
            !old(self).is_full() ==> (r matches Ok(n) && n == old(self)@.len() + 1)
                && final(self)@ == old(self)@.push(arg),
    {
        match self.capacity {
            None => {
                self.vec.push(arg);
                Ok(self.vec.len())
            }
            Some(capacity) => {
                if self.vec.len() < capacity {
                    self.vec.push(arg);
                    Ok(self.vec.len())
                } else {
                    Err(())
                }
            }
        }
    }

    /// Removes and returns the front (oldest) item, or `None` when the
    /// queue is empty; the remaining items keep their insertion order.
    pub fn dequeue(&mut self) -> (r: Option<T>)
        requires
            old(self).wf(),
        ensures
            final(self).wf(),
            final(self).capacity == old(self).capacity,
            old(self)@.len() == 0 ==> r is None && final(self)@ == old(self)@,
            old(self)@.len() > 0 ==> r == Some(old(self)@[0])
                && final(self)@ == old(self)@.drop_first(),
    {
        match self.vec.is_empty() {
            true => None,
            _ => {
                let item = self.vec.remove(0);
                proof {
                    assert(old(self)@.remove(0) =~= old(self)@.drop_first());
                }
                Some(item)
            }
        }
    }

    /// Forcing insertion: appends `arg` at the back unconditionally,
    /// evicting the front (oldest) item first when the queue is full.
    /// Returns the new length. A capacity of zero is excluded: no eviction
    /// could make room for the new item under such a bound.
    pub fn force_queue(&mut self, arg: T) -> (r: usize)
        requires
            old(self).wf(),
            old(self).capacity != Some(0usize),
            !old(self).is_full() ==> old(self)@.len() < usize::MAX,
        ensures
            final(self).wf(),
            final(self).capacity == old(self).capacity,
            old(self).is_full() ==> final(self)@ == old(self)@.drop_first().push(arg)
                && r == old(self)@.len(),
            !old(self).is_full() ==> final(self)@ == old(self)@.push(arg)
                && r == old(self)@.len() + 1,
    {
        match self.capacity {
            None => {
                self.vec.push(arg);
                self.vec.len()
            }
            Some(capacity) => {
                if self.vec.len() == capacity {
                    self.vec.remove(0);
                    proof {
                        assert(old(self)@.remove(0) =~= old(self)@.drop_first());
                    }
                }
                self.vec.push(arg);
                self.vec.len()
            }
        }
    }

    /// The number of items currently held.
    pub fn len(&self) -> (r: usize)
        ensures
            r == self@.len(),
    {
        self.vec.len()
    }

    /// Borrows the front (oldest) item without removing it, or `None` when
    /// the queue is empty.
    pub fn peek(&self) -> (r: Option<&T>)
        ensures
            match r {
                Some(item) => self@.len() > 0 && *item == self@[0],
                None => self@.len() == 0,
            },
    {
        if self.vec.is_empty() {
            None
        } else {
            Some(&self.vec[0])
        }
    }

    /// Whether the queue holds no items.
    pub fn is_empty(&self) -> (r: bool)
        ensures
            r <==> self@.len() == 0,
    {
        self.vec.is_empty()
    }

    /// Changes the capacity limit without ever touching the contents.
    /// `None` clears the limit; `Some(c)` fails when `c` is below the
    /// current length and otherwise becomes the new limit, with backing
    /// storage reserved so at least `c` slots are available. Re-setting the
    /// current capacity is a no-op success.
    pub fn set_capacity(&mut self, capacity: Option<usize>) -> (r: Result<(), ()>)
        requires
            old(self).wf(),
        ensures
            final(self).wf(),
            final(self)@ == old(self)@,
            capacity is None ==> r is Ok && final(self).capacity is None,
            capacity matches Some(c) ==> (if c >= old(self)@.len() {
                r is Ok && final(self).capacity == Some(c)
            } else {
                r is Err && final(self).capacity == old(self).capacity
            }),
            capacity == old(self).capacity ==> r is Ok
                && final(self).capacity == old(self).capacity,
    {
        match capacity {
            None => {
                self.capacity = None;
                Ok(())
            }
            Some(c) => {
                if c < self.vec.len() {
                    Err(())
                } else {
                    let extra = c - self.vec.len();
                    self.vec.reserve(extra);
                    self.capacity = Some(c);
                    Ok(())
                }
            }
        }
    }
}

/// The contents of a queue after enqueuing `items` in order onto contents
/// `q`: each successful enqueue appends at the back, as `Queue::queue`
/// ensures.
pub open spec fn enqueue_all<T>(q: Seq<T>, items: Seq<T>) -> Seq<T>
    decreases items.len(),
{
    if items.len() == 0 {
        q
    } else {
        enqueue_all(q.push(items[0]), items.drop_first())
    }
}

/// The items yielded by dequeuing until the queue is empty: each dequeue
/// returns the front item and drops it, as `Queue::dequeue` ensures.
pub open spec fn drain_all<T>(q: Seq<T>) -> Seq<T>
    decreases q.len(),
{
    if q.len() == 0 {
        Seq::empty()
    } else {
        seq![q[0]] + drain_all(q.drop_first())
    }
}

/// Enqueuing a sequence of items extends the contents by exactly those
/// items, in order.
pub proof fn lemma_enqueue_all_appends<T>(q: Seq<T>, items: Seq<T>)
    ensures
        enqueue_all(q, items) == q + items,
    decreases items.len(),
{
    if items.len() == 0 {
        assert(q + items =~= q);
    } else {
        lemma_enqueue_all_appends(q.push(items[0]), items.drop_first());
        assert(q.push(items[0]) + items.drop_first() =~= q + items);
    }
}

/// FIFO law: starting from an empty queue, successful enqueues of `items`
/// leave exactly those items, so the length equals the number enqueued,
/// and dequeuing repeatedly yields them in their original order.
pub proof fn lemma_fifo<T>(items: Seq<T>)
    ensures
        enqueue_all(Seq::<T>::empty(), items) == items,
        enqueue_all(Seq::<T>::empty(), items).len() == items.len(),
        drain_all(items) == items,
    decreases items.len(),
{
    lemma_enqueue_all_appends(Seq::<T>::empty(), items);
    assert(Seq::<T>::empty() + items =~= items);
    if items.len() == 0 {
        assert(drain_all(items) =~= items);
    } else {
        lemma_fifo(items.drop_first());
        assert(seq![items[0]] + items.drop_first() =~= items);
    }
}

/// A queue whose capacity limit is cleared, as `set_capacity(None)`
/// ensures, is never full, so strict insertion can never fail afterwards.
pub proof fn lemma_unbounded_never_full<T>(q: Queue<T>)
    requires
        q.capacity is None,
    ensures
        !q.is_full(),
{
}

} // verus!
