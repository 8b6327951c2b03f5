//! Laws of the mixing engine, stated over the model and proved once for all
//! inputs.
use crate::model::apply_range;
use crate::model::derive_spec;
use crate::model::final_state;
use crate::model::finished;
use crate::model::hash_spec;
use crate::model::init_spec;
use crate::model::run;
use crate::model::run_fuel;
use crate::model::step;
use crate::model::steps_rehash;
use crate::model::transform_spec;
use crate::model::BASE_TRIES;
use crate::model::EXTRA_TRIES;
use crate::model::MixState;
use crate::table::branch_ops;
use vstd::prelude::*;

verus! {

/// Law: the digest is a function of the input bytes alone, so hashing the
/// same input twice yields identical bytes.
pub proof fn lemma_hash_deterministic(a: Seq<u8>, b: Seq<u8>)
    requires
        a == b,
    ensures
        hash_spec(a) == hash_spec(b),
{
}

/// One step advances the iteration counter by exactly one while it is
/// within the window.
proof fn lemma_step_tries(s: MixState)
    requires
        s.tries <= BASE_TRIES + EXTRA_TRIES,
    ensures
        step(s).tries == s.tries + 1,
{
}

/// Enough fuel drives any mid-window state to a finished one, and the
/// counter never passes one beyond the cap.
proof fn lemma_run_finishes(s: MixState, fuel: nat)
    requires
        s.tries <= BASE_TRIES + EXTRA_TRIES + 1,
        s.tries + fuel >= BASE_TRIES + EXTRA_TRIES + 2,
    ensures
        finished(run(s, fuel)),
        run(s, fuel).tries <= BASE_TRIES + EXTRA_TRIES + 1,
    decreases fuel,
{
    if finished(s) {
    } else {
        lemma_step_tries(s);
        lemma_run_finishes(step(s), (fuel - 1) as nat);
    }
}

/// Law: for every input the iteration counter at termination satisfies
/// `260 < tries <= 277`: termination requires clearing the base window, and
/// the cap cuts the run off one step past base + extra. (The run that never
/// meets the trailer-byte condition stops only at the cap, on iteration
/// 277.)
pub proof fn lemma_tries_window(input: Seq<u8>)
    ensures
        finished(final_state(input)),
        BASE_TRIES < final_state(input).tries <= BASE_TRIES + EXTRA_TRIES + 1,
{
    lemma_run_finishes(init_spec(input), run_fuel());
}

/// Once a run is finished, further fuel changes nothing.
proof fn lemma_run_extends(s: MixState, k: nat, f: nat)
    requires
        k <= f,
        finished(run(s, k)),
    ensures
        run(s, f) == run(s, k),
    decreases k,
{
    if k == 0 || finished(s) {
    } else {
        lemma_run_extends(step(s), (k - 1) as nat, (f - 1) as nat);
    }
}

/// Law: when the run reaches a finished state within the base + extra
/// window — that is, when the trailer-byte exit fires before the cap — the
/// counter at termination satisfies `260 < tries <= 276`. (A run that
/// reaches no such state stops at the cap with `tries == 277`.)
pub proof fn lemma_tries_window_on_early_exit(input: Seq<u8>, k: nat)
    requires
        finished(run(init_spec(input), k)),
        run(init_spec(input), k).tries <= BASE_TRIES + EXTRA_TRIES,
    ensures
        BASE_TRIES < final_state(input).tries <= BASE_TRIES + EXTRA_TRIES,
{
    if k <= run_fuel() {
        lemma_run_extends(init_spec(input), k, run_fuel());
    } else {
        lemma_run_finishes(init_spec(input), run_fuel());
        lemma_run_extends(init_spec(input), run_fuel(), k);
    }
}

/// Law: a branch application writes each byte of the range from that byte's
/// own prior value and the pivot alone, and touches nothing else — the
/// pivot itself included.
pub proof fn lemma_branch_writes_local(d: Seq<u8>, b: u8, p1: int, p2: int)
    requires
        0 <= p1 <= p2 < d.len(),
    ensures
        apply_range(d, b, p1, p2).len() == d.len(),
        forall|i: int|
            p1 <= i < p2 ==> apply_range(d, b, p1, p2)[i] == transform_spec(b, d[i], d[p2]),
        forall|i: int|
            0 <= i < d.len() && !(p1 <= i < p2) ==> apply_range(d, b, p1, p2)[i] == d[i],
{
}

/// Law: the rehashing branch writes the same bytes as its plain operator
/// pipeline; the per-step rehash touches only the accumulators.
pub proof fn lemma_rehash_writes_local(d: Seq<u8>, lh: u64, plh: u64, p1: int, p2: int)
    requires
        0 <= p1 <= p2 < d.len(),
    ensures
        steps_rehash(d, lh, plh, p1, p2).0 == apply_range(d, 253, p1, p2),
    decreases p2 - p1,
{
    if p1 == p2 {
        assert(steps_rehash(d, lh, plh, p1, p2).0 =~= apply_range(d, 253, p1, p2));
    } else {
        let d1 = d.update(p1, transform_spec(253, d[p1], d[p2]));
        let plh1 = plh.wrapping_add(lh);
        let lh1 = crate::prims::xxh3_of(d1.subrange(0, p2), 0);
        lemma_rehash_writes_local(d1, lh1, plh1, p1 + 1, p2);
        assert(apply_range(d1, 253, p1 + 1, p2) =~= apply_range(d, 253, p1, p2));
    }
}

/// Law: branches 254 and 255 share one table entry, so on the same
/// pre-state they write the same bytes.
pub proof fn lemma_rekey_branches_alias(d: Seq<u8>, p1: int, p2: int)
    ensures
        branch_ops(254) == branch_ops(255),
        forall|x: u8, p: u8| transform_spec(254, x, p) == transform_spec(255, x, p),
        apply_range(d, 254, p1, p2) == apply_range(d, 255, p1, p2),
{
    assert(apply_range(d, 254, p1, p2) =~= apply_range(d, 255, p1, p2));
}

/// Law: an empty range is a no-op for every branch body: the buffer and the
/// accumulators come out untouched. (In the full step the cascade and the
/// trailer still run.)
pub proof fn lemma_empty_range_noop(d: Seq<u8>, lh: u64, plh: u64, b: u8, p: int)
    ensures
        apply_range(d, b, p, p) == d,
        steps_rehash(d, lh, plh, p, p) == (d, lh, plh),
{
    assert(apply_range(d, b, p, p) =~= d);
}

/// Law: position derivation orders the two positions, and when their raw
/// gap exceeds 64 the narrowed gap is the raw gap's low five bits — at most
/// 31, so in particular at most 63.
pub proof fn lemma_derive_narrows(r: u64)
    ensures
        ({
            let bp = derive_spec(r);
            let q1 = (r >> 8) as u8;
            let q2 = (r >> 16) as u8;
            let lo: u8 = if q1 > q2 {
                q2
            } else {
                q1
            };
            let hi: u8 = if q1 > q2 {
                q1
            } else {
                q2
            };
            &&& bp.1 == lo
            &&& bp.1 <= bp.2
            &&& hi - lo > 64 ==> bp.2 - bp.1 == ((hi - lo) as u8) & 0x1f && bp.2 - bp.1 <= 31
            &&& hi - lo <= 64 ==> bp.2 == hi
        }),
{
    let q1 = (r >> 8) as u8;
    let q2 = (r >> 16) as u8;
    let lo: u8 = if q1 > q2 {
        q2
    } else {
        q1
    };
    let hi: u8 = if q1 > q2 {
        q1
    } else {
        q2
    };
    let gap = hi.wrapping_sub(lo);
    assert(gap & 0x1f <= 31) by (bit_vector);
}

} // verus!
