//! Integer volume scaling.
//!
//! Volume is a percentage from 0 to 100. A sample scaled to volume `v` is
//! `sample * v / 100`, truncating toward zero, all in integers: the real-time
//! callback applies this to every sample it hands the device, so it must be
//! exact, overflow-free and branch-cheap.

use vstd::prelude::*;

verus! {

use vstd::arithmetic::div_mod::{lemma_div_is_ordered, lemma_div_multiples_vanish, lemma_div_of0};

/// A sample scaled to `v` percent of its value, truncating toward zero.
pub open spec fn scale_spec(s: int, v: int) -> int {
    if s >= 0 {
        (s * v) / 100
    } else {
        -((-s * v) / 100)
    }
}

/// Scales one PCM sample to `volume` percent, truncating toward zero.
pub fn scale_sample(s: i16, volume: u8) -> (r: i16)
    requires
        volume <= 100,
    ensures
        r as int == scale_spec(s as int, volume as int),
{
    if s >= 0 {
        assert(s as int * volume as int <= 32767 * 100) by (nonlinear_arith)
            requires
                0 <= s as int <= 32767,
                0 <= volume as int <= 100,
        ;
        assert(0 <= s as int * volume as int) by (nonlinear_arith)
            requires
                0 <= s as int,
                0 <= volume as int,
        ;
        let prod: u32 = (s as u32) * (volume as u32);
        let q: u32 = prod / 100;
        proof {
            lemma_div_is_ordered(prod as int, (32767 * 100) as int, 100);
        }
        q as i16
    } else {
        assert(-(s as int) * (volume as int) <= 32768 * 100) by (nonlinear_arith)
            requires
                0 < -(s as int) <= 32768,
                0 <= volume as int <= 100,
        ;
        assert(0 <= -(s as int) * (volume as int)) by (nonlinear_arith)
            requires
                0 <= -(s as int),
                0 <= volume as int,
        ;
        let mag: u32 = (-(s as i32)) as u32;
        let prod: u32 = mag * (volume as u32);
        let q: u32 = prod / 100;
        proof {
            lemma_div_is_ordered(prod as int, (32768 * 100) as int, 100);
            lemma_div_is_ordered(0, prod as int, 100);
        }
        let neg: i32 = -(q as i32);
        neg as i16
    }
}

/// Full volume reproduces a sample exactly: truncation loses nothing when
/// the factor is one hundred percent.
pub proof fn lemma_full_volume_is_identity(s: int)
    ensures
        scale_spec(s, 100) == s,
{
    if s >= 0 {
        lemma_div_multiples_vanish(s, 100);
        assert(s * 100 == 100 * s);
    } else {
        lemma_div_multiples_vanish(-s, 100);
        assert(-s * 100 == 100 * -s);
    }
}

/// Volume zero silences every sample, whatever is in the buffer.
pub proof fn lemma_zero_volume_is_silence(s: int)
    ensures
        scale_spec(s, 0) == 0,
{
    lemma_div_of0(100);
    assert(s * 0 == 0) by (nonlinear_arith);
    assert(-s * 0 == 0) by (nonlinear_arith);
}

/// Over a whole span of samples: full volume is a bit-exact pass-through,
/// and volume zero is silence, whatever the span holds.
pub proof fn lemma_extremes_over_span(s: Seq<i16>)
    ensures
        forall|i: int| 0 <= i < s.len() ==> scale_spec(s[i] as int, 100) == s[i] as int,
        forall|i: int| 0 <= i < s.len() ==> scale_spec(s[i] as int, 0) == 0,
{
    assert forall|i: int| 0 <= i < s.len() implies scale_spec(s[i] as int, 100) == s[i] as int by {
        lemma_full_volume_is_identity(s[i] as int);
    }
    assert forall|i: int| 0 <= i < s.len() implies scale_spec(s[i] as int, 0) == 0 by {
        lemma_zero_volume_is_silence(s[i] as int);
    }
}

/// Scaling is saturation-free by construction: for volumes up to one hundred
/// percent the result never grows past the sample, so it always stays in
/// sixteen-bit range.
pub proof fn lemma_scale_never_exceeds_sample(s: int, v: int)
    requires
        0 <= v <= 100,
    ensures
        s >= 0 ==> 0 <= scale_spec(s, v) <= s,
        s < 0 ==> s <= scale_spec(s, v) <= 0,
{
    if s >= 0 {
        assert(s * v <= s * 100) by (nonlinear_arith)
            requires
                0 <= s,
                v <= 100,
        ;
        assert(0 <= s * v) by (nonlinear_arith)
            requires
                0 <= s,
                0 <= v,
        ;
        lemma_div_is_ordered(s * v, s * 100, 100);
        lemma_div_is_ordered(0, s * v, 100);
        lemma_div_multiples_vanish(s, 100);
        assert(s * 100 == 100 * s);
    } else {
        assert(-s * v <= -s * 100) by (nonlinear_arith)
            requires
                0 <= -s,
                v <= 100,
        ;
        assert(0 <= -s * v) by (nonlinear_arith)
            requires
                0 <= -s,
                0 <= v,
        ;
        lemma_div_is_ordered(-s * v, -s * 100, 100);
        lemma_div_is_ordered(0, -s * v, 100);
        lemma_div_multiples_vanish(-s, 100);
        assert(-s * 100 == 100 * -s);
    }
}

} // verus!
