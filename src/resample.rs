//! Linear-interpolation resampling plan: for each output sample, which input
//! samples it blends and with what weight. The blend itself is arithmetic on
//! samples and is left to the caller.
use vstd::prelude::*;

verus! {

/// Canonical sample rate of everything handed to the transcriber.
pub const TARGET_SAMPLE_RATE: u32 = 16000;

/// Output sample = `input[lo] * (1 - f) + input[hi] * f` with
/// `f = frac / to_rate`.
#[derive(Debug, Clone, Copy, PartialEq, Eq, Structural)]
pub struct Tap {
    pub lo: usize,
    pub hi: usize,
    pub frac: u32,
}

/// Number of output samples: `floor(len * to / from)`.
pub open spec fn resampled_len_spec(len: nat, from: nat, to: nat) -> nat {
    (len * to / from) as nat
}

/// Index of the input sample at or before output sample `i`.
pub open spec fn tap_lo(from: nat, to: nat, i: nat) -> nat {
    (i * from / to) as nat
}

/// Weight of the later input sample for output sample `i`, in units of `1 / to`.
pub open spec fn tap_frac(from: nat, to: nat, i: nat) -> nat {
    (i * from % to) as nat
}

/// Whether output sample `i` interpolates (a later input sample exists).
pub open spec fn tap_blends(len: nat, from: nat, to: nat, i: nat) -> bool {
    tap_lo(from, to, i) + 1 < len
}

/// Number of output samples when `len` input samples at `from_rate` are
/// resampled to `to_rate`.
pub fn resampled_len(input_len: usize, from_rate: u32, to_rate: u32) -> (r: usize)
    requires
        from_rate > 0,
        resampled_len_spec(input_len as nat, from_rate as nat, to_rate as nat) <= usize::MAX,
    ensures
        r == resampled_len_spec(input_len as nat, from_rate as nat, to_rate as nat),
{
    proof {
        lemma_product_fits(input_len as nat, to_rate as nat);
    }
    let p: u128 = (input_len as u128) * (to_rate as u128);
    (p / (from_rate as u128)) as usize
}

/// The blend that produces output sample `i`: `input[k]` and `input[k + 1]`
/// weighted by the fractional source position, or `input[k]` alone at the
/// tail, where `k = floor(i * from / to)`.
pub fn tap_at(input_len: usize, from_rate: u32, to_rate: u32, i: usize) -> (r: Tap)
    requires
        from_rate > 0,
        to_rate > 0,
        i < resampled_len_spec(input_len as nat, from_rate as nat, to_rate as nat),
    ensures
        r.lo == tap_lo(from_rate as nat, to_rate as nat, i as nat),
        r.lo < input_len,
        tap_blends(input_len as nat, from_rate as nat, to_rate as nat, i as nat) ==> r.hi == r.lo
            + 1 && r.frac == tap_frac(from_rate as nat, to_rate as nat, i as nat),
        !tap_blends(input_len as nat, from_rate as nat, to_rate as nat, i as nat) ==> r.hi == r.lo
            && r.frac == 0,
{
    proof {
        lemma_product_fits(i as nat, from_rate as nat);
        lemma_tap_in_range(input_len as nat, from_rate as nat, to_rate as nat, i as nat);
    }
    let p: u128 = (i as u128) * (from_rate as u128);
    let to = to_rate as u128;
    let k = (p / to) as usize;
    if k < input_len - 1 {
        Tap { lo: k, hi: k + 1, frac: (p % to) as u32 }
    } else {
        Tap { lo: k, hi: k, frac: 0 }
    }
}

/// A sample count times a rate fits in 128 bits.
proof fn lemma_product_fits(n: nat, rate: nat)
    requires
        n <= usize::MAX,
        rate <= u32::MAX,
    ensures
        n * rate <= u128::MAX,
{
    assert(n * rate <= 0xffff_ffff_ffff_ffffnat * 0xffff_ffffnat) by (nonlinear_arith)
        requires
            n <= 0xffff_ffff_ffff_ffffnat,
            rate <= 0xffff_ffffnat,
    ;
}

/// Every output index reads an input sample that exists.
proof fn lemma_tap_in_range(len: nat, from: nat, to: nat, i: nat)
    requires
        from > 0,
        to > 0,
        i < resampled_len_spec(len, from, to),
    ensures
        tap_lo(from, to, i) < len,
{
    let n = len * to / from;
    assert((i + 1) * from <= len * to) by (nonlinear_arith)
        requires
            i + 1 <= n,
            n == len * to / from,
            from > 0,
    ;
    assert(i * from / to < len) by (nonlinear_arith)
        requires
            (i + 1) * from <= len * to,
            from > 0,
            to > 0,
    ;
}

/// At equal rates the plan reads each input sample in place, unweighted: the
/// output is the input.
pub proof fn law_same_rate_is_identity(len: nat, rate: nat, i: nat)
    requires
        rate > 0,
        i < len,
    ensures
        resampled_len_spec(len, rate, rate) == len,
        tap_lo(rate, rate, i) == i,
        tap_frac(rate, rate, i) == 0,
{
    assert(len * rate / rate == len) by (nonlinear_arith)
        requires
            rate > 0,
    ;
    assert(i * rate / rate == i) by (nonlinear_arith)
        requires
            rate > 0,
    ;
    assert(i * rate % rate == 0) by (nonlinear_arith)
        requires
            rate > 0,
    ;
}

} // verus!
