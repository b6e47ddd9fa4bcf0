//! The compute step of the real-time audio callback.
//!
//! On every device callback the player drains what the buffer has into the
//! device's output span, scales the drained samples to the current volume and
//! silences the rest. The callback never waits on the decoder: an under-filled
//! buffer simply yields a short count and the tail renders as silence.

use vstd::prelude::*;

verus! {

use crate::buffer::{pop_count, remaining_samples, SampleBuffer};
use crate::volume::{scale_sample, scale_spec};
use vstd::pervasive::VecAdditionalExecFns;

/// Scales the first `filled` samples of `out` to `volume` percent, in place,
/// and zero-fills everything after them.
pub fn render(out: &mut Vec<i16>, filled: usize, volume: u8)
    requires
        filled <= old(out)@.len(),
        volume <= 100,
    ensures
        final(out)@.len() == old(out)@.len(),
        forall|i: int|
            0 <= i < filled ==> final(out)@[i] as int == scale_spec(old(out)@[i] as int, volume as int),
        forall|i: int| filled <= i < old(out)@.len() ==> final(out)@[i] == 0i16,
{
    let n = out.len();
    let mut i: usize = 0;
    while i < n
        invariant
            n == out@.len(),
            n == old(out)@.len(),
            filled <= n,
            volume <= 100,
            i <= n,
            forall|j: int|
                0 <= j < i && j < filled ==> out@[j] as int == scale_spec(
                    old(out)@[j] as int,
                    volume as int,
                ),
            forall|j: int| filled <= j < i ==> out@[j] == 0i16,
            forall|j: int| i <= j < n ==> out@[j] == old(out)@[j],
        decreases n - i,
    {
        if i < filled {
            let s = out[i];
            out.set(i, scale_sample(s, volume));
        } else {
            out.set(i, 0i16);
        }
        i = i + 1;
    }
}

/// One whole callback, minus the device: drains up to `out.len()` samples
/// from the buffer into `out`, scales them to `volume` percent and silences
/// the unfilled tail. Returns how many samples came from the buffer.
pub fn fill_output(buf: &mut SampleBuffer, out: &mut Vec<i16>, volume: u8) -> (n: usize)
    requires
        old(buf).wf(),
        volume <= 100,
    ensures
        final(buf).wf(),
        final(buf).cap() == old(buf).cap(),
        n == pop_count(old(buf)@, old(out)@.len()),
        final(buf)@ == remaining_samples(old(buf)@, old(out)@.len()),
        final(out)@.len() == old(out)@.len(),
        forall|i: int|
            0 <= i < n ==> final(out)@[i] as int == scale_spec(old(buf)@[i] as int, volume as int),
        forall|i: int| n <= i < old(out)@.len() ==> final(out)@[i] == 0i16,
{
    let n = buf.pop_into(out);
    proof {
        assert forall|i: int| 0 <= i < n implies out@[i] == old(buf)@[i] by {
            assert(out@.take(n as int)[i] == old(buf)@.take(n as int)[i]);
        }
    }
    render(out, n, volume);
    n
}

} // verus!
