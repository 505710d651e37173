//! A bounded first-in, first-out record of the most recent samples.

use vstd::prelude::*;

verus! {

/// Smallest capacity a buffer can have.
pub const MIN_CAPACITY: usize = 1;

/// Largest capacity a buffer can have.
pub const MAX_CAPACITY: usize = 100;

/// Capacity of a freshly created buffer.
pub const DEFAULT_CAPACITY: usize = 10;

/// The newest `n` elements of `s` in the order they have there, or all of `s`
/// when it holds no more than `n`.
pub open spec fn newest(s: Seq<u64>, n: nat) -> Seq<u64> {
    if s.len() <= n {
        s
    } else {
        s.subrange(s.len() - n, s.len() as int)
    }
}

/// The admissible capacity nearest to `n`.
pub open spec fn clamp_capacity(n: int) -> int {
    if n < MIN_CAPACITY {
        MIN_CAPACITY as int
    } else if n > MAX_CAPACITY {
        MAX_CAPACITY as int
    } else {
        n
    }
}

/// Contents after one sample is appended to `s` under `capacity`: the sample
/// goes to the back, and if that makes the sequence longer than `capacity`
/// the single oldest element leaves at the front.
pub open spec fn pushed(s: Seq<u64>, capacity: nat, value: u64) -> Seq<u64> {
    let appended = s.push(value);
    if appended.len() > capacity {
        appended.drop_first()
    } else {
        appended
    }
}

/// Contents after every element of `values` is appended in order, starting
/// from `s`.
pub open spec fn pushed_all(s: Seq<u64>, capacity: nat, values: Seq<u64>) -> Seq<u64>
    decreases values.len(),
{
    if values.len() == 0 {
        s
    } else {
        pushed(pushed_all(s, capacity, values.drop_last()), capacity, values.last())
    }
}

/// The most recent samples, oldest first, never more than `capacity()` of
/// them.
pub struct HistoryBuffer {
    samples: Vec<u64>,
    capacity: usize,
}

impl View for HistoryBuffer {
    type V = Seq<u64>;

    closed spec fn view(&self) -> Seq<u64> {
        self.samples@
    }
}

impl HistoryBuffer {
    #[verifier::type_invariant]
    spec fn inv(&self) -> bool {
        &&& MIN_CAPACITY <= self.capacity <= MAX_CAPACITY
        &&& self.samples@.len() <= self.capacity
    }

    /// The capacity as contracts see it.
    pub closed spec fn spec_capacity(&self) -> usize {
        self.capacity
    }

    /// An empty buffer with the default capacity.
    pub fn new() -> (buffer: Self)
        ensures
            buffer@ == Seq::<u64>::empty(),
            buffer.capacity() == DEFAULT_CAPACITY,
    {
        HistoryBuffer { samples: Vec::new(), capacity: DEFAULT_CAPACITY }
    }

    /// The largest number of samples the buffer retains.
    #[verifier::when_used_as_spec(spec_capacity)]
    pub fn capacity(&self) -> (c: usize)
        ensures
            c == self.spec_capacity(),
            MIN_CAPACITY <= c <= MAX_CAPACITY,
            self@.len() <= c,
    {
        proof {
            use_type_invariant(self);
        }
        self.capacity
    }

    /// The number of samples currently held.
    pub fn len(&self) -> (n: usize)
        ensures
            n == self@.len(),
            n <= self.capacity(),
    {
        proof {
            use_type_invariant(self);
        }
        self.samples.len()
    }

    /// Whether no sample has been recorded yet.
    pub fn is_empty(&self) -> (empty: bool)
        ensures
            empty == (self@.len() == 0),
    {
        self.samples.len() == 0
    }

    /// Appends `value` as the newest sample; when the buffer is already full
    /// the oldest sample is evicted to make room.
    pub fn push(&mut self, value: u64)
        ensures
            final(self).capacity() == old(self).capacity(),
            final(self)@ == pushed(old(self)@, old(self).capacity() as nat, value),
            final(self)@.len() <= final(self).capacity(),
    {
        proof {
            use_type_invariant(&*self);
        }
        let mut samples: Vec<u64> = Vec::new();
        core::mem::swap(&mut self.samples, &mut samples);
        if samples.len() >= self.capacity {
            samples.remove(0);
        }
        samples.push(value);
        self.samples = samples;
    }

    /// Changes the capacity to the admissible value nearest to `n`, evicting
    /// the oldest samples if more are held than the new capacity allows.
    pub fn set_capacity(&mut self, n: usize)
        ensures
            final(self).capacity() == clamp_capacity(n as int),
            final(self)@ == newest(old(self)@, final(self).capacity() as nat),
            final(self)@.len() <= final(self).capacity(),
    {
        proof {
            use_type_invariant(&*self);
        }
        let target: usize = if n < MIN_CAPACITY {
            MIN_CAPACITY
        } else if n > MAX_CAPACITY {
            MAX_CAPACITY
        } else {
            n
        };
        let held: usize = self.samples.len();
        if held > target {
            let mut samples: Vec<u64> = Vec::new();
            core::mem::swap(&mut self.samples, &mut samples);
            self.samples = samples.split_off(held - target);
        }
        self.capacity = target;
    }

    /// A copy of the samples in chronological order, oldest first.
    pub fn values(&self) -> (out: Vec<u64>)
        ensures
            out@ == self@,
    {
        self.samples.clone()
    }
}

/// `newest(s, n)` is the suffix of `s` of length `min(s.len(), n)`: it keeps
/// the back of `s` element for element and drops only from the front.
pub proof fn lemma_newest_is_suffix(s: Seq<u64>, n: nat)
    ensures
        newest(s, n).len() == if s.len() <= n { s.len() } else { n },
        forall|i: int|
            0 <= i < newest(s, n).len() ==> #[trigger] newest(s, n)[i] == s[s.len() - newest(
                s,
                n,
            ).len() + i],
{
}

/// One push into contents that fit the capacity puts the value last and
/// evicts at most one sample, the oldest, and only when the buffer was full.
pub proof fn lemma_push_evicts_at_most_one(s: Seq<u64>, capacity: nat, value: u64)
    requires
        1 <= capacity,
        s.len() <= capacity,
    ensures
        pushed(s, capacity, value).last() == value,
        s.len() < capacity ==> pushed(s, capacity, value) == s.push(value),
        s.len() == capacity ==> pushed(s, capacity, value) == s.drop_first().push(value),
        pushed(s, capacity, value).len() <= capacity,
{
    if s.len() == capacity {
        assert(s.push(value).drop_first() =~= s.drop_first().push(value));
    }
}

/// Any run of pushes leaves the newest `capacity` elements of everything
/// that was ever in the buffer: starting from contents `s` that fit the
/// capacity, pushing `values` in order gives the newest `capacity` elements
/// of `s` followed by `values`.
pub proof fn lemma_pushes_keep_newest(s: Seq<u64>, capacity: nat, values: Seq<u64>)
    requires
        s.len() <= capacity,
    ensures
        pushed_all(s, capacity, values) == newest(s + values, capacity),
    decreases values.len(),
{
    if values.len() == 0 {
        assert(s + values =~= s);
    } else {
        let earlier = values.drop_last();
        lemma_pushes_keep_newest(s, capacity, earlier);
        let before = newest(s + earlier, capacity);
        assert(s + values =~= (s + earlier).push(values.last()));
        assert(pushed(before, capacity, values.last()) =~= newest(s + values, capacity));
    }
}

/// After `values.len()` pushes into an empty buffer the buffer holds
/// `min(values.len(), capacity)` samples.
pub proof fn lemma_pushes_length(capacity: nat, values: Seq<u64>)
    ensures
        pushed_all(Seq::empty(), capacity, values).len() == if values.len() <= capacity {
            values.len()
        } else {
            capacity
        },
{
    lemma_pushes_keep_newest(Seq::empty(), capacity, values);
    assert(Seq::<u64>::empty() + values =~= values);
}

/// The buffer is first-in, first-out: pushing more values than the capacity
/// into an empty buffer leaves exactly the last `capacity` of them, in the
/// order in which they were pushed.
pub proof fn lemma_pushes_fifo(capacity: nat, values: Seq<u64>)
    requires
        capacity < values.len(),
    ensures
        pushed_all(Seq::empty(), capacity, values) == values.subrange(
            values.len() - capacity,
            values.len() as int,
        ),
{
    lemma_pushes_keep_newest(Seq::empty(), capacity, values);
    assert(Seq::<u64>::empty() + values =~= values);
}

/// Lowering the capacity below the number of samples held drops samples
/// from the front only: what remains is the last `capacity` elements of the
/// contents before the change.
pub proof fn lemma_shrink_trims_front(s: Seq<u64>, capacity: nat)
    requires
        capacity < s.len(),
    ensures
        newest(s, capacity) == s.subrange(s.len() - capacity, s.len() as int),
        newest(s, capacity).len() == capacity,
        forall|i: int|
            0 <= i < capacity ==> #[trigger] newest(s, capacity)[i] == s[s.len() - capacity + i],
{
}

} // verus!
