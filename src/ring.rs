//! A fixed-capacity FIFO store that evicts its oldest item when full.

use std::collections::VecDeque;
use vstd::prelude::*;

verus! {

/// The retained items after `x` is pushed onto `s` in a buffer of capacity `cap`:
/// `x` goes to the back, and the front item leaves when `s` is already full.
pub open spec fn pushed<T>(s: Seq<T>, cap: nat, x: T) -> Seq<T> {
    if cap == 0 {
        s
    } else if s.len() >= cap {
        s.drop_first().push(x)
    } else {
        s.push(x)
    }
}

/// The item that pushing `x` onto `s` evicts, if any.
pub open spec fn evicted<T>(s: Seq<T>, cap: nat, x: T) -> Option<T> {
    if cap == 0 {
        Some(x)
    } else if s.len() >= cap {
        Some(s[0])
    } else {
        None
    }
}

/// The retained items after every item of `xs` is pushed, in order, onto `s`.
pub open spec fn pushed_all<T>(s: Seq<T>, cap: nat, xs: Seq<T>) -> Seq<T>
    decreases xs.len(),
{
    if xs.len() == 0 {
        s
    } else {
        pushed_all(pushed(s, cap, xs[0]), cap, xs.drop_first())
    }
}

/// The last `n` items of `s` (all of `s` when it is shorter).
pub open spec fn last_n<T>(s: Seq<T>, n: nat) -> Seq<T> {
    if s.len() <= n {
        s
    } else {
        s.subrange(s.len() - n, s.len() as int)
    }
}

proof fn lemma_pushed_is_last_n<T>(s: Seq<T>, cap: nat, x: T)
    requires
        s.len() <= cap,
    ensures
        pushed(s, cap, x) == last_n(s.push(x), cap),
{
    if cap == 0 {
        assert(last_n(s.push(x), cap) =~= Seq::<T>::empty());
        assert(s =~= Seq::<T>::empty());
    } else if s.len() >= cap {
        assert(pushed(s, cap, x) =~= last_n(s.push(x), cap));
    }
}

proof fn lemma_last_n_absorbs<T>(a: Seq<T>, b: Seq<T>, n: nat)
    ensures
        last_n(last_n(a, n) + b, n) == last_n(a + b, n),
{
    if a.len() > n {
        let la = last_n(a, n);
        assert(la.len() == n);
        if b.len() >= n {
            assert(last_n(la + b, n) =~= last_n(a + b, n));
        } else {
            assert(last_n(la + b, n) =~= last_n(a + b, n));
        }
    }
}

/// Pushing items one after another into a buffer that holds `s` (within its
/// capacity `cap`) leaves exactly the last `cap` items of `s` followed by the
/// pushed items, in arrival order.
pub proof fn lemma_pushes_keep_last<T>(s: Seq<T>, cap: nat, xs: Seq<T>)
    requires
        s.len() <= cap,
    ensures
        pushed_all(s, cap, xs) == last_n(s + xs, cap),
    decreases xs.len(),
{
    if xs.len() == 0 {
        assert(s + xs =~= s);
    } else {
        let s1 = pushed(s, cap, xs[0]);
        lemma_pushed_is_last_n(s, cap, xs[0]);
        assert(s1.len() <= cap);
        lemma_pushes_keep_last(s1, cap, xs.drop_first());
        lemma_last_n_absorbs(s.push(xs[0]), xs.drop_first(), cap);
        assert(s.push(xs[0]) + xs.drop_first() =~= s + xs);
    }
}

/// For a buffer of capacity `cap` that starts empty, pushing `cap + k` items
/// keeps exactly the last `cap` of them, in arrival order.
pub proof fn lemma_ring_retains_last<T>(cap: nat, xs: Seq<T>)
    requires
        xs.len() >= cap,
    ensures
        pushed_all(Seq::<T>::empty(), cap, xs) == xs.subrange(xs.len() - cap, xs.len() as int),
        pushed_all(Seq::<T>::empty(), cap, xs).len() == cap,
{
    lemma_pushes_keep_last(Seq::<T>::empty(), cap, xs);
    assert(Seq::<T>::empty() + xs =~= xs);
    if xs.len() == cap {
        assert(xs.subrange(0, xs.len() as int) =~= xs);
    }
}

/// A bounded FIFO buffer: it never holds more than `capacity` items, and a push
/// into a full buffer evicts the oldest item.
pub struct RingBuffer<T> {
    items: VecDeque<T>,
    capacity: usize,
}

impl<T> RingBuffer<T> {
    /// The retained items, oldest first.
    pub closed spec fn view(&self) -> Seq<T> {
        self.items@
    }

    pub closed spec fn capacity_spec(&self) -> nat {
        self.capacity as nat
    }

    pub closed spec fn well_formed(&self) -> bool {
        self.items@.len() <= self.capacity
    }

    pub fn new(capacity: usize) -> (r: Self)
        ensures
            r.well_formed(),
            r@ == Seq::<T>::empty(),
            r.capacity_spec() == capacity,
    {
        RingBuffer { items: VecDeque::new(), capacity }
    }

    /// The capacity this buffer was made with.
    pub fn capacity(&self) -> (r: usize)
        ensures
            r == self.capacity_spec(),
    {
        self.capacity
    }

    /// The number of retained items.
    pub fn len(&self) -> (r: usize)
        ensures
            r == self@.len(),
    {
        self.items.len()
    }

    /// Appends `item` at the back; when the buffer is already full, the oldest
    /// item is evicted first and returned. With capacity zero nothing is
    /// retained and `item` itself comes back.
    pub fn push(&mut self, item: T) -> (r: Option<T>)
        requires
            old(self).well_formed(),
        ensures
            final(self).well_formed(),
            final(self)@.len() <= final(self).capacity_spec(),
            final(self).capacity_spec() == old(self).capacity_spec(),
            final(self)@ == pushed(old(self)@, old(self).capacity_spec(), item),
            r == evicted(old(self)@, old(self).capacity_spec(), item),
    {
        if self.capacity == 0 {
            Some(item)
        } else if self.items.len() >= self.capacity {
            let popped = self.items.pop_front();
            self.items.push_back(item);
            popped
        } else {
            self.items.push_back(item);
            None
        }
    }

    /// Removes and returns the oldest item.
    pub fn pop(&mut self) -> (r: Option<T>)
        requires
            old(self).well_formed(),
        ensures
            final(self).well_formed(),
            final(self)@.len() <= final(self).capacity_spec(),
            final(self).capacity_spec() == old(self).capacity_spec(),
            old(self)@.len() == 0 ==> r.is_none() && final(self)@ == old(self)@,
            old(self)@.len() > 0 ==> r == Some(old(self)@[0]) && final(self)@ == old(self)@.drop_first(),
    {
        self.items.pop_front()
    }

    /// Removes every retained item and returns them, oldest first.
    pub fn take(&mut self) -> (r: Vec<T>)
        requires
            old(self).well_formed(),
        ensures
            final(self).well_formed(),
            final(self)@.len() <= final(self).capacity_spec(),
            final(self).capacity_spec() == old(self).capacity_spec(),
            r@ == old(self)@,
            final(self)@ == Seq::<T>::empty(),
    {
        let mut out: Vec<T> = Vec::new();
        while self.items.len() > 0
            invariant
                self.capacity == old(self).capacity,
                out@ + self.items@ == old(self)@,
            decreases self.items@.len(),
        {
            let x = self.items.pop_front();
            match x {
                Some(v) => {
                    out.push(v);
                },
                None => {},
            }
            assert(out@ + self.items@ =~= old(self)@);
        }
        assert(out@ =~= old(self)@);
        out
    }
}

} // verus!
