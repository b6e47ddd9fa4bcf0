//! Bounded FIFO buffer of interleaved PCM samples.
//!
//! The buffer sits between the frame decoder (its single writer) and the
//! audio callback (its single reader). Its capacity is fixed at creation:
//! `push` appends as many samples as fit and reports how many, so the writer
//! can wait for space instead of dropping anything, and `pop_into` fills the
//! caller's slice from the front and reports how many samples it wrote, never
//! waiting. Samples leave in exactly the order they entered.

use vstd::prelude::*;

verus! {

use vstd::arithmetic::div_mod::{
    lemma_add_mod_noop_right,
    lemma_mod_sub_multiples_vanish,
    lemma_small_mod,
};
use vstd::pervasive::VecAdditionalExecFns;

/// `x % cap` written out for the one wrap the ring ever needs: an index that
/// overshot the store by less than one full turn.
proof fn lemma_wrap_once(x: int, cap: int)
    requires
        0 < cap,
        0 <= x < 2 * cap,
    ensures
        x % cap == if x < cap { x } else { x - cap },
{
    if x < cap {
        lemma_small_mod(x as nat, cap as nat);
    } else {
        lemma_mod_sub_multiples_vanish(x, cap);
        lemma_small_mod((x - cap) as nat, cap as nat);
    }
}

/// Two queued positions occupy two different slots of the store.
proof fn lemma_ring_slots_distinct(head: int, j: int, k: int, cap: int)
    requires
        0 <= head < cap,
        0 <= j < k < cap,
    ensures
        (head + j) % cap != (head + k) % cap,
{
    lemma_wrap_once(head + j, cap);
    lemma_wrap_once(head + k, cap);
}

/// Free space of a buffer with the given contents and capacity.
pub open spec fn free_space(contents: Seq<i16>, cap: nat) -> int {
    cap - contents.len()
}

/// How many samples a push of `samples` appends: all of them if they fit,
/// otherwise exactly as many as there is room for.
pub open spec fn push_count(contents: Seq<i16>, cap: nat, samples: Seq<i16>) -> int {
    if samples.len() as int <= free_space(contents, cap) {
        samples.len() as int
    } else {
        free_space(contents, cap)
    }
}

/// Contents after pushing `samples`: the old contents followed by the prefix
/// of `samples` that fit.
pub open spec fn push_result(contents: Seq<i16>, cap: nat, samples: Seq<i16>) -> Seq<i16> {
    contents + samples.take(push_count(contents, cap, samples))
}

/// How many samples a pop with room for `requested` removes: the whole
/// request if that much is queued, otherwise everything that is.
pub open spec fn pop_count(contents: Seq<i16>, requested: nat) -> int {
    if requested <= contents.len() {
        requested as int
    } else {
        contents.len() as int
    }
}

/// The samples a pop with room for `requested` hands out: the front of the
/// queue, in queue order.
pub open spec fn popped_samples(contents: Seq<i16>, requested: nat) -> Seq<i16> {
    contents.take(pop_count(contents, requested))
}

/// Contents left behind by a pop with room for `requested`.
pub open spec fn remaining_samples(contents: Seq<i16>, requested: nat) -> Seq<i16> {
    contents.skip(pop_count(contents, requested))
}

/// Fixed-capacity circular queue of PCM samples.
///
/// `data` is the backing store and never changes length after creation;
/// `head` is the slot of the oldest queued sample and `count` how many are
/// queued. The queue's abstract value is the sequence of queued samples,
/// oldest first.
pub struct SampleBuffer {
    data: Vec<i16>,
    head: usize,
    count: usize,
}

impl View for SampleBuffer {
    type V = Seq<i16>;

    closed spec fn view(&self) -> Seq<i16> {
        Seq::new(
            self.count as nat,
            |i: int| self.data@[(self.head + i) % (self.data@.len() as int)],
        )
    }
}

impl SampleBuffer {
    /// Capacity fixed at creation.
    pub closed spec fn cap(&self) -> nat {
        self.data@.len()
    }

    /// Well-formedness: the backing store is non-empty, the head points into
    /// it, and no more samples are queued than there are slots.
    pub closed spec fn wf(&self) -> bool {
        &&& 1 <= self.data@.len()
        &&& self.head < self.data@.len()
        &&& self.count <= self.data@.len()
    }

    /// A fresh, empty buffer with room for `capacity` samples.
    pub fn new(capacity: usize) -> (buf: SampleBuffer)
        requires
            1 <= capacity,
        ensures
            buf.wf(),
            buf.cap() == capacity,
            buf@ == Seq::<i16>::empty(),
    {
        let mut data: Vec<i16> = Vec::new();
        while data.len() < capacity
            invariant
                data@.len() <= capacity,
            decreases capacity - data@.len(),
        {
            data.push(0i16);
        }
        let buf = SampleBuffer { data, head: 0, count: 0 };
        proof {
            assert(buf@ =~= Seq::<i16>::empty());
        }
        buf
    }

    /// The capacity the buffer was created with.
    pub fn capacity(&self) -> (c: usize)
        ensures
            c == self.cap(),
    {
        self.data.len()
    }

    /// How many samples are queued.
    pub fn len(&self) -> (n: usize)
        ensures
            n == self@.len(),
    {
        self.count
    }

    /// How many more samples fit right now.
    pub fn free_len(&self) -> (n: usize)
        requires
            self.wf(),
        ensures
            n == free_space(self@, self.cap()),
    {
        self.data.len() - self.count
    }

    /// Appends as many of `samples` as fit, in order, and reports how many.
    /// Nothing already queued moves, and nothing is dropped: the suffix that
    /// did not fit stays with the caller, who learns its start from `n`.
    pub fn push(&mut self, samples: &Vec<i16>) -> (n: usize)
        requires
            old(self).wf(),
        ensures
            final(self).wf(),
            final(self).cap() == old(self).cap(),
            n == push_count(old(self)@, old(self).cap(), samples@),
            final(self)@ == push_result(old(self)@, old(self).cap(), samples@),
    {
        let cap = self.data.len();
        let free = cap - self.count;
        let k = if samples.len() <= free { samples.len() } else { free };
        proof {
            assert(self@ =~= old(self)@ + samples@.take(0));
        }
        let mut i: usize = 0;
        while i < k
            invariant
                self.wf(),
                cap == self.data@.len(),
                cap == old(self).cap(),
                self.head == old(self).head,
                self.count == old(self).count + i,
                i <= k,
                k <= samples@.len(),
                k as int == push_count(old(self)@, old(self).cap(), samples@),
                self@ == old(self)@ + samples@.take(i as int),
            decreases k - i,
        {
            let ghost prev = *self;
            let idx = if self.head >= cap - self.count {
                self.head - (cap - self.count)
            } else {
                self.head + self.count
            };
            proof {
                lemma_wrap_once(self.head + self.count, cap as int);
            }
            self.data.set(idx, samples[i]);
            self.count = self.count + 1;
            i = i + 1;
            proof {
                let h = prev.head as int;
                let c = prev.count as int;
                let target = old(self)@ + samples@.take(i as int);
                assert(self@.len() == target.len());
                assert forall|j: int| 0 <= j < self@.len() implies self@[j] == target[j] by {
                    if j < c {
                        lemma_ring_slots_distinct(h, j, c, cap as int);
                        assert(self@[j] == prev@[j]);
                        assert(prev@[j] == target[j]);
                    } else {
                        assert(self@[j] == samples@[i - 1]);
                    }
                }
                assert(self@ =~= target);
            }
        }
        proof {
            assert(self@ =~= push_result(old(self)@, old(self).cap(), samples@));
        }
        k
    }

    /// Fills the front of `out` with the oldest queued samples, in queue
    /// order, and reports how many it wrote. It takes whatever is there, up
    /// to `out`'s length, and never waits: a short count on an under-filled
    /// buffer leaves the tail of `out` exactly as the caller had it.
    pub fn pop_into(&mut self, out: &mut Vec<i16>) -> (n: usize)
        requires
            old(self).wf(),
        ensures
            final(self).wf(),
            final(self).cap() == old(self).cap(),
            n == pop_count(old(self)@, old(out)@.len()),
            final(self)@ == remaining_samples(old(self)@, old(out)@.len()),
            final(out)@.len() == old(out)@.len(),
            final(out)@.take(n as int) == popped_samples(old(self)@, old(out)@.len()),
            forall|j: int| n <= j < old(out)@.len() ==> final(out)@[j] == old(out)@[j],
    {
        let cap = self.data.len();
        let k = if out.len() <= self.count { out.len() } else { self.count };
        proof {
            assert(self@ =~= old(self)@.skip(0));
        }
        let mut i: usize = 0;
        while i < k
            invariant
                self.wf(),
                cap == self.data@.len(),
                cap == old(self).cap(),
                self.data@ == old(self).data@,
                self.count == old(self).count - i,
                i <= k,
                k <= out@.len(),
                k as int == pop_count(old(self)@, old(out)@.len()),
                out@.len() == old(out)@.len(),
                self@ == old(self)@.skip(i as int),
                forall|j: int| 0 <= j < i ==> out@[j] == old(self)@[j],
                forall|j: int| i <= j < out@.len() ==> out@[j] == old(out)@[j],
            decreases k - i,
        {
            let ghost prev = *self;
            let v = self.data[self.head];
            proof {
                lemma_small_mod(prev.head as nat, cap as nat);
                assert(v == prev@[0]);
            }
            out.set(i, v);
            self.head = if self.head + 1 == cap { 0 } else { self.head + 1 };
            self.count = self.count - 1;
            i = i + 1;
            proof {
                let h = prev.head as int;
                lemma_wrap_once(h + 1, cap as int);
                assert forall|j: int| 0 <= j < self.count implies self@[j] == prev@[j + 1] by {
                    lemma_add_mod_noop_right(j, h + 1, cap as int);
                }
                assert(self@ =~= prev@.skip(1));
                assert(prev@.skip(1) =~= old(self)@.skip(i as int));
            }
        }
        proof {
            assert(self@ =~= remaining_samples(old(self)@, old(out)@.len()));
            assert(out@.take(k as int) =~= popped_samples(old(self)@, old(out)@.len()));
        }
        k
    }
}

/// Samples come back in the order they went in: pushing `samples` into an
/// empty buffer that has room for all of them and then popping with room for
/// `requested` of them yields exactly `requested` samples, and they are the
/// first `requested` samples pushed.
pub proof fn lemma_fifo_order(cap: nat, samples: Seq<i16>, requested: nat)
    requires
        samples.len() <= cap,
        requested <= samples.len(),
    ensures
        push_count(Seq::<i16>::empty(), cap, samples) == samples.len(),
        push_result(Seq::<i16>::empty(), cap, samples) == samples,
        pop_count(push_result(Seq::<i16>::empty(), cap, samples), requested) == requested,
        popped_samples(push_result(Seq::<i16>::empty(), cap, samples), requested)
            == samples.take(requested as int),
{
    assert(push_result(Seq::<i16>::empty(), cap, samples) =~= samples);
    assert(popped_samples(samples, requested) =~= samples.take(requested as int));
}

/// Popping never waits for the writer: on an under-filled buffer it returns
/// the short count of everything queued and leaves the buffer empty.
pub proof fn lemma_pop_underfilled(contents: Seq<i16>, requested: nat)
    requires
        contents.len() < requested,
    ensures
        pop_count(contents, requested) == contents.len(),
        popped_samples(contents, requested) == contents,
        remaining_samples(contents, requested) == Seq::<i16>::empty(),
{
    assert(popped_samples(contents, requested) =~= contents);
    assert(remaining_samples(contents, requested) =~= Seq::<i16>::empty());
}

/// Pushing never loses samples: the queue after the push, followed by the
/// suffix the writer keeps, is the old queue followed by the whole frame. In
/// particular a full buffer accepts nothing and is left unchanged, so the
/// writer still holds every sample and can wait for space.
pub proof fn lemma_push_no_loss(contents: Seq<i16>, cap: nat, samples: Seq<i16>)
    requires
        contents.len() <= cap,
    ensures
        push_result(contents, cap, samples) + samples.skip(push_count(contents, cap, samples))
            == contents + samples,
        free_space(contents, cap) == 0 ==> push_result(contents, cap, samples) == contents,
{
    let n = push_count(contents, cap, samples);
    assert(push_result(contents, cap, samples) + samples.skip(n) =~= contents + samples);
    if free_space(contents, cap) == 0 {
        assert(push_result(contents, cap, samples) =~= contents);
    }
}

/// A pop frees exactly as much space as it took samples, so a writer waiting
/// on a full buffer is unblocked by the reader making progress.
pub proof fn lemma_pop_frees_space(contents: Seq<i16>, cap: nat, requested: nat)
    requires
        contents.len() <= cap,
    ensures
        free_space(remaining_samples(contents, requested), cap)
            == free_space(contents, cap) + pop_count(contents, requested),
{
}

} // verus!
