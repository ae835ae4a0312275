//! A fixed-capacity circular buffer with overwrite-on-full push and
//! retrieval of the most recent elements in chronological order.

use vstd::prelude::*;

verus! {

/// A circular buffer of fixed capacity `size`.
///
/// While the buffer has not yet wrapped, the backing storage grows up to
/// `size` elements; afterwards the slot at `front` (the oldest element) is
/// overwritten in place. Retrieval returns the most recent elements,
/// oldest first.
pub struct RingBuffer<T> {
    raw: Vec<T>,
    front: usize,
    filled: bool,
    size: usize,
}

impl<T> RingBuffer<T> {
    /// Structural well-formedness: established by [`new`](Self::new) and
    /// preserved by every operation.
    pub closed spec fn well_formed(self) -> bool {
        &&& self.size >= 1
        &&& self.front < self.size
        &&& (self.filled ==> self.raw@.len() == self.size)
        &&& (!self.filled ==> self.raw@.len() == self.front)
    }

    /// The fixed capacity, as set at construction.
    pub closed spec fn capacity(self) -> int {
        self.size as int
    }

    /// The elements currently held, oldest first.
    pub closed spec fn contents(self) -> Seq<T> {
        if self.filled {
            self.raw@.subrange(self.front as int, self.size as int) + self.raw@.subrange(
                0,
                self.front as int,
            )
        } else {
            self.raw@
        }
    }

    /// The most recent `n` elements (all of them when fewer than `n` are
    /// held), oldest first.
    pub open spec fn recent(self, n: int) -> Seq<T> {
        let len = self.contents().len() as int;
        let k = if n < len {
            n
        } else {
            len
        };
        self.contents().subrange(len - k, len)
    }
}

impl<T: Copy> RingBuffer<T> {
    /// Creates an empty buffer of fixed capacity `size`.
    pub fn new(size: usize) -> (r: RingBuffer<T>)
        requires
            size >= 1,
        ensures
            r.well_formed(),
            r.capacity() == size,
            r.contents() == Seq::<T>::empty(),
    {
        RingBuffer { raw: Vec::new(), front: 0, filled: false, size }
    }

    /// The fixed capacity.
    pub fn size(&self) -> (r: usize)
        requires
            self.well_formed(),
        ensures
            r == self.capacity(),
    {
        self.size
    }

    /// How many elements are currently held.
    pub fn len(&self) -> (r: usize)
        requires
            self.well_formed(),
        ensures
            r == self.contents().len(),
    {
        self.raw.len()
    }

    /// Whether the buffer has wrapped at least once; from then on it always
    /// holds exactly `capacity` elements and the oldest is overwritten next.
    pub fn filled(&self) -> (r: bool)
        requires
            self.well_formed(),
        ensures
            r == (self.contents().len() == self.capacity()),
    {
        self.filled
    }

    /// Appends `value`, overwriting the oldest element once the buffer is
    /// full.
    pub fn push(&mut self, value: T)
        requires
            old(self).well_formed(),
        ensures
            final(self).well_formed(),
            final(self).capacity() == old(self).capacity(),
            old(self).contents().len() < old(self).capacity() ==> final(self).contents()
                == old(self).contents().push(value),
            old(self).contents().len() == old(self).capacity() ==> final(self).contents()
                == old(self).contents().subrange(1, old(self).contents().len() as int).push(value),
    {
        let ghost pre = *self;
        if self.raw.len() < self.size {
            self.raw.push(value);
        } else {
            let front = self.front;
            self.raw[front] = value;
        }
        self.front = if self.front + 1 == self.size {
            0
        } else {
            self.front + 1
        };
        if self.front == 0 {
            self.filled = true;
        }
        proof {
            if pre.contents().len() < pre.capacity() {
                assert(self.contents() =~= pre.contents().push(value));
            } else {
                assert(self.contents() =~= pre.contents().subrange(
                    1,
                    pre.contents().len() as int,
                ).push(value));
            }
        }
    }

    /// Copies out the most recent `min(num, capacity)` elements that exist,
    /// oldest to newest.
    pub fn get(&self, num: usize) -> (r: Vec<T>)
        requires
            self.well_formed(),
        ensures
            r@ == self.recent(num as int),
    {
        if num == 0 {
            return Vec::new();
        }
        self.get_critical(num)
    }

    /// Same retrieval as [`get`](Self::get), but invokes `task` before the
    /// combined operation ends, so a caller holding the buffer exclusively
    /// can react to the snapshot without an intervening push.
    pub fn get_and_do<F: FnOnce()>(&self, num: usize, task: F) -> (r: Vec<T>)
        requires
            self.well_formed(),
            num >= 1 ==> task.requires(()),
        ensures
            r@ == self.recent(num as int),
    {
        if num == 0 {
            return Vec::new();
        }
        let result = self.get_critical(num);
        task();
        result
    }

    /// Copies out everything currently held, oldest to newest.
    pub fn get_all(&self) -> (r: Vec<T>)
        requires
            self.well_formed(),
        ensures
            r@ == self.contents(),
    {
        let size = self.size;
        let r = self.get(size);
        proof {
            assert(r@ =~= self.contents());
        }
        r
    }

    fn get_critical(&self, num: usize) -> (r: Vec<T>)
        requires
            self.well_formed(),
            num >= 1,
        ensures
            r@ == self.recent(num as int),
    {
        let mut result: Vec<T> = Vec::new();
        let fetch = if num < self.size {
            num
        } else {
            self.size
        };
        let front = self.front;
        if self.filled {
            let back = if fetch > front {
                self.size - (fetch - front)
            } else {
                front - fetch
            };
            if back < front {
                let mut i: usize = back;
                while i < front
                    invariant
                        self.well_formed(),
                        self.filled,
                        back <= i <= front <= self.raw@.len(),
                        result@ == self.raw@.subrange(back as int, i as int),
                    decreases front - i,
                {
                    result.push(self.raw[i]);
                    proof {
                        assert(self.raw@.subrange(back as int, i + 1 as int) =~= self.raw@.subrange(
                            back as int,
                            i as int,
                        ).push(self.raw@[i as int]));
                    }
                    i = i + 1;
                }
            } else {
                let mut i: usize = back;
                while i < self.size
                    invariant
                        self.well_formed(),
                        self.filled,
                        back <= i <= self.size == self.raw@.len(),
                        result@ == self.raw@.subrange(back as int, i as int),
                    decreases self.size - i,
                {
                    result.push(self.raw[i]);
                    proof {
                        assert(self.raw@.subrange(back as int, i + 1 as int) =~= self.raw@.subrange(
                            back as int,
                            i as int,
                        ).push(self.raw@[i as int]));
                    }
                    i = i + 1;
                }
                let mut j: usize = 0;
                while j < front
                    invariant
                        self.well_formed(),
                        self.filled,
                        back <= self.size == self.raw@.len(),
                        j <= front,
                        front <= self.raw@.len(),
                        result@ == self.raw@.subrange(back as int, self.size as int)
                            + self.raw@.subrange(0, j as int),
                    decreases front - j,
                {
                    result.push(self.raw[j]);
                    proof {
                        assert(self.raw@.subrange(back as int, self.size as int) + self.raw@.subrange(
                            0,
                            j + 1 as int,
                        ) =~= (self.raw@.subrange(back as int, self.size as int)
                            + self.raw@.subrange(0, j as int)).push(self.raw@[j as int]));
                    }
                    j = j + 1;
                }
            }
            proof {
                assert(result@ =~= self.recent(num as int));
            }
        } else {
            let start = if fetch > front {
                0
            } else {
                front - fetch
            };
            let mut i: usize = start;
            while i < front
                invariant
                    self.well_formed(),
                    !self.filled,
                    start <= i <= front == self.raw@.len(),
                    result@ == self.raw@.subrange(start as int, i as int),
                decreases front - i,
            {
                result.push(self.raw[i]);
                proof {
                    assert(self.raw@.subrange(start as int, i + 1 as int) =~= self.raw@.subrange(
                        start as int,
                        i as int,
                    ).push(self.raw@[i as int]));
                }
                i = i + 1;
            }
            proof {
                assert(result@ =~= self.recent(num as int));
            }
        }
        result
    }
}

/// Bounds every well-formed buffer keeps: the capacity is at least one and
/// the contents never exceed it, so in particular the most recent
/// `capacity` elements are all of them.
pub proof fn lemma_well_formed_bounds<T>(buffer: RingBuffer<T>)
    requires
        buffer.well_formed(),
    ensures
        1 <= buffer.capacity(),
        buffer.contents().len() <= buffer.capacity(),
{
}

/// Retrieval is idempotent: two calls of [`RingBuffer::get`] without an
/// intervening push each return exactly `recent(n)` of the unchanged
/// buffer, hence identical sequences.
pub proof fn lemma_get_idempotent<T>(buffer: RingBuffer<T>, n: int, first: Seq<T>, second: Seq<T>)
    requires
        first == buffer.recent(n),
        second == buffer.recent(n),
    ensures
        first == second,
{
}

} // verus!
