//! The iteration adapter: a lazy, finite, double-ended, restartable
//! cursor over the keys or the values of a collection, walking the
//! snapshot taken when the cursor was made.

use vstd::prelude::*;

verus! {

/// A cursor over a snapshot of items.  It hands items out from the front
/// with [`ArrayTypedIter::next`] and from the back with
/// [`ArrayTypedIter::next_back`], and is exhausted when the two ends
/// meet.
#[derive(Debug)]
pub struct ArrayTypedIter<T> {
    /// The snapshot being walked; never changes after creation.
    pub items: Vec<T>,
    /// The index of the next item the front end hands out.
    pub front: usize,
    /// One past the index of the next item the back end hands out.
    pub back: usize,
}

impl<T> ArrayTypedIter<T> {
    /// The two ends lie inside the snapshot, in order.
    pub open spec fn wf(self) -> bool {
        self.front <= self.back <= self.items@.len()
    }

    /// The items not yet handed out, in front-to-back order.
    pub open spec fn remaining(self) -> Seq<T> {
        self.items@.subrange(self.front as int, self.back as int)
    }
}

impl<T: Copy> ArrayTypedIter<T> {
    /// A cursor over the whole snapshot.
    pub fn new(items: Vec<T>) -> (it: ArrayTypedIter<T>)
        ensures
            it.wf(),
            it.items == items,
            it.remaining() == items@,
    {
        let n = items.len();
        let it = ArrayTypedIter { items, front: 0, back: n };
        proof {
            assert(it.remaining() =~= it.items@);
        }
        it
    }

    /// Hands out the next item from the front, or nothing when the
    /// cursor is exhausted.  Never changes the snapshot.
    pub fn next(&mut self) -> (r: Option<T>)
        requires
            old(self).wf(),
        ensures
            final(self).wf(),
            final(self).items == old(self).items,
            old(self).remaining().len() == 0 ==> r is None && *final(self) == *old(self),
            old(self).remaining().len() > 0 ==> r == Some(old(self).remaining()[0])
                && final(self).remaining() == old(self).remaining().drop_first(),
    {
        if self.front < self.back {
            let v = self.items[self.front];
            self.front = self.front + 1;
            proof {
                assert(self.remaining() =~= old(self).remaining().drop_first());
            }
            Some(v)
        } else {
            None
        }
    }

    /// Hands out the next item from the back, or nothing when the cursor
    /// is exhausted.  Never changes the snapshot.
    pub fn next_back(&mut self) -> (r: Option<T>)
        requires
            old(self).wf(),
        ensures
            final(self).wf(),
            final(self).items == old(self).items,
            old(self).remaining().len() == 0 ==> r is None && *final(self) == *old(self),
            old(self).remaining().len() > 0 ==> r == Some(old(self).remaining().last())
                && final(self).remaining() == old(self).remaining().drop_last(),
    {
        if self.front < self.back {
            let v = self.items[self.back - 1];
            self.back = self.back - 1;
            proof {
                assert(self.remaining() =~= old(self).remaining().drop_last());
            }
            Some(v)
        } else {
            None
        }
    }

    /// How many items are left: an exact count, as a lower and an upper
    /// bound that agree.
    pub fn size_hint(&self) -> (r: (usize, Option<usize>))
        requires
            self.wf(),
        ensures
            r.0 == self.remaining().len(),
            r.1 == Some(r.0),
    {
        let n = self.back - self.front;
        (n, Some(n))
    }

    /// Restarts the traversal over the whole snapshot.
    pub fn restart(&mut self)
        ensures
            final(self).wf(),
            final(self).items == old(self).items,
            final(self).remaining() == old(self).items@,
    {
        self.front = 0;
        self.back = self.items.len();
        proof {
            assert(self.remaining() =~= self.items@);
        }
    }
}

} // verus!
