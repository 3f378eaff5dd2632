//! The burst transmitter's pacing arithmetic.
//!
//! Each socket transmission is accounted by
//! `conn::spec_after_transmission`; this module counts how many
//! transmissions a write phase performs before the burst window is
//! exhausted and proves the closed form for an engine that keeps producing
//! full-size datagrams.

use vstd::prelude::*;
use crate::conn::spec_after_transmission;
use vstd::arithmetic::div_mod::lemma_fundamental_div_mod;
use vstd::arithmetic::div_mod::lemma_mod_bound;
use vstd::arithmetic::mul::lemma_mul_inequality;

verus! {

/// How many transmissions of `sent` bytes each, starting from a window
/// already holding `bytes` bytes, the burst bookkeeping performs until it
/// signals a pause.
pub open spec fn spec_sends_to_pause(bytes: int, sent: int, ceiling: int) -> int
    recommends
        1 <= sent,
        0 <= bytes < ceiling,
    decreases ceiling - bytes,
        when 1 <= sent && bytes < ceiling
{
    if spec_after_transmission(bytes, sent, ceiling).1 {
        1
    } else {
        1 + spec_sends_to_pause(spec_after_transmission(bytes, sent, ceiling).0, sent, ceiling)
    }
}

/// Whether the write phase may coalesce one more engine packet into the
/// current transmission: only while coalescing is enabled, the packet
/// just produced was full-size, and the burst ceiling leaves room. A
/// short packet always ends a coalescing run.
pub fn keep_coalescing(
    gso_enabled: bool,
    write: usize,
    max_datagram_size: usize,
    total_write: usize,
    ceiling: usize,
) -> (r: bool)
    ensures
        r == (gso_enabled && write >= max_datagram_size && total_write < ceiling),
{
    gso_enabled && write >= max_datagram_size && total_write < ceiling
}

/// The transmission count is the unique number of `sent`-byte steps that
/// first reaches the ceiling.
pub proof fn lemma_sends_to_pause_reaches_ceiling(bytes: int, sent: int, ceiling: int)
    requires
        1 <= sent,
        0 <= bytes < ceiling,
    ensures
        1 <= spec_sends_to_pause(bytes, sent, ceiling),
        bytes + spec_sends_to_pause(bytes, sent, ceiling) * sent >= ceiling,
        bytes + (spec_sends_to_pause(bytes, sent, ceiling) - 1) * sent < ceiling,
    decreases ceiling - bytes,
{
    let k = spec_sends_to_pause(bytes, sent, ceiling);
    if bytes + sent >= ceiling {
        assert(k == 1);
        assert(1 * sent == sent) by (nonlinear_arith);
        assert(0 * sent == 0) by (nonlinear_arith);
    } else {
        lemma_sends_to_pause_reaches_ceiling(bytes + sent, sent, ceiling);
        let k2 = spec_sends_to_pause(bytes + sent, sent, ceiling);
        assert(k == 1 + k2);
        assert(k * sent == k2 * sent + sent) by (nonlinear_arith)
            requires
                k == 1 + k2,
        ;
        assert((k - 1) * sent == (k2 - 1) * sent + sent) by (nonlinear_arith)
            requires
                k == 1 + k2,
        ;
    }
}

/// Law: with a burst ceiling of `ceiling` bytes and an engine that always
/// reports full-size datagrams of `sent` bytes, the write phase performs
/// exactly `ceiling / sent` transmissions, rounded up, before it pauses.
pub proof fn lemma_burst_transmission_count(sent: int, ceiling: int)
    requires
        1 <= sent,
        1 <= ceiling,
    ensures
        spec_sends_to_pause(0, sent, ceiling) == (ceiling + sent - 1) / sent,
{
    let k = spec_sends_to_pause(0, sent, ceiling);
    lemma_sends_to_pause_reaches_ceiling(0, sent, ceiling);
    let q = (ceiling + sent - 1) / sent;
    lemma_fundamental_div_mod(ceiling + sent - 1, sent);
    lemma_mod_bound(ceiling + sent - 1, sent);
    let r = (ceiling + sent - 1) % sent;
    assert(sent * q == ceiling + sent - 1 - r);
    assert(q * sent == sent * q) by (nonlinear_arith);
    assert(q * sent >= ceiling);
    assert((q - 1) * sent == q * sent - sent) by (nonlinear_arith);
    assert((q - 1) * sent < ceiling);
    if k < q {
        lemma_mul_inequality(k, q - 1, sent);
        assert(k * sent <= (q - 1) * sent);
        assert(false);
    }
    if q < k {
        lemma_mul_inequality(q, k - 1, sent);
        assert(q * sent <= (k - 1) * sent);
        assert(false);
    }
}

} // verus!
