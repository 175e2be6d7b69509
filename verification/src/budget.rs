//! Task budget allocation: splitting an optional global task ceiling into
//! a uniform per-worker ceiling by ceiling division.

use vstd::prelude::*;

verus! {

/// Ceiling division: the least `q` with `q * workers >= total`.
pub open spec fn spec_ceil_div(total: nat, workers: nat) -> nat
    recommends
        workers >= 1,
{
    if total % workers == 0 {
        total / workers
    } else {
        total / workers + 1
    }
}

/// The per-worker task ceiling for an optional global ceiling `total`:
/// absent stays absent (unbounded workers), present becomes the uniform
/// ceiling division by the worker count.
pub open spec fn spec_per_worker_budget(total: Option<u32>, workers: nat) -> Option<u32>
    recommends
        workers >= 1,
{
    match total {
        Option::None => Option::None,
        Option::Some(t) => Option::Some(spec_ceil_div(t as nat, workers) as u32),
    }
}

/// Splits the optional global task ceiling uniformly over `num_workers`
/// workers. Every worker, including the last, receives the same ceiling,
/// so the theoretical sum may overshoot `total` (see
/// [`lemma_budget_covers_total`]); no ceiling in means no ceiling out.
pub fn per_worker_budget(total: Option<u32>, num_workers: usize) -> (budget: Option<u32>)
    requires
        num_workers >= 1,
    ensures
        budget == spec_per_worker_budget(total, num_workers as nat),
{
    match total {
        Option::None => Option::None,
        Option::Some(t) => {
            let t_wide = t as u64;
            let w_wide = num_workers as u64;
            let per: u64 = if t_wide % w_wide == 0 {
                t_wide / w_wide
            } else {
                t_wide / w_wide + 1
            };
            proof {
                lemma_ceil_div_le_total_or_one(t as nat, num_workers as nat);
            }
            Option::Some(per as u32)
        },
    }
}

/// Ceiling division never exceeds the dividend unless the dividend is
/// zero or one, where the quotient is the dividend itself or one.
proof fn lemma_ceil_div_le_total_or_one(total: nat, workers: nat)
    requires
        workers >= 1,
    ensures
        spec_ceil_div(total, workers) <= total || spec_ceil_div(total, workers) == 1,
{
    if total % workers == 0 {
        assert(total / workers <= total) by (nonlinear_arith)
            requires workers >= 1;
    } else {
        assert(total / workers + 1 <= total || total / workers + 1 == 1) by (nonlinear_arith)
            requires workers >= 1 && total % workers != 0;
    }
}

/// The uniform per-worker ceiling covers the whole budget: for a present
/// global ceiling of at least one task and at least one worker, the
/// per-worker ceiling times the worker count is at least the global
/// ceiling.
pub proof fn lemma_budget_covers_total(total: u32, workers: nat)
    requires
        total >= 1,
        workers >= 1,
    ensures
        spec_per_worker_budget(Some(total), workers) matches Some(per)
            && per * workers >= total,
{
    let t = total as int;
    let w = workers as int;
    let q = t / w;
    let r = t % w;
    let c = spec_ceil_div(total as nat, workers) as int;
    vstd::arithmetic::div_mod::lemma_fundamental_div_mod(t, w);
    assert(t == w * q + r);
    if r == 0 {
        assert(c == q);
        assert(c * w == w * q) by (nonlinear_arith)
            requires c == q;
    } else {
        assert(c == q + 1);
        assert(0 <= r < w) by {
            vstd::arithmetic::div_mod::lemma_remainder_upper(t, w);
            vstd::arithmetic::div_mod::lemma_remainder_lower(t, w);
            assert(r == t % w);
        }
        assert(c * w == w * q + w) by (nonlinear_arith)
            requires c == q + 1;
    }
    assert(c * w >= t);
    lemma_ceil_div_le_total_or_one(total as nat, workers);
    assert(c <= u32::MAX);
}

/// No global ceiling means no per-worker ceiling, for any worker count.
pub proof fn lemma_absent_budget_stays_absent(workers: nat)
    ensures
        spec_per_worker_budget(Option::None, workers) is None,
{
}

} // verus!
