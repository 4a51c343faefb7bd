//! The jump-flood schedule: how far each pass of the distance-field
//! computation looks for nearer seeds.
use vstd::prelude::*;
use vstd::arithmetic::power2::{pow2, lemma_pow2_unfold, lemma_pow2_pos};
use vstd::arithmetic::div_mod::lemma_div_denominator;

verus! {

/// The step size that one jump-flood pass reads from its uniform buffer.
#[derive(Clone, Copy, Debug)]
pub struct StepSizeBuffer {
    pub step_size: u32,
}

impl Default for StepSizeBuffer {
    fn default() -> (r: Self)
        ensures
            r.step_size == 0,
    {
        StepSizeBuffer { step_size: 0 }
    }
}

/// The step size of the pass after a pass with step size `d`: half of it,
/// rounded down, but never below one.
pub open spec fn halve_step(d: nat) -> nat {
    if d / 2 < 1 {
        1
    } else {
        d / 2
    }
}

/// The step size of pass number `k` (counting from zero) of a schedule that
/// starts at `initial`.
pub open spec fn step_size_at(initial: nat, k: nat) -> nat
    decreases k,
{
    if k == 0 {
        initial
    } else {
        halve_step(step_size_at(initial, (k - 1) as nat))
    }
}

/// The step size of the first pass over a `width` by `height` texture: twice
/// its larger side.
pub fn initial_jump_distance(width: u32, height: u32) -> (r: u32)
    requires
        width <= u32::MAX / 2,
        height <= u32::MAX / 2,
    ensures
        r == (if width <= height { 2 * height } else { 2 * width }),
{
    let w = width * 2;
    let h = height * 2;
    if w < h {
        h
    } else {
        w
    }
}

/// The step size of the pass after a pass with step size `d`.
pub fn next_jump_distance(d: u32) -> (r: u32)
    ensures
        r == halve_step(d as nat),
        r == (if d / 2 < 1 { 1 } else { d / 2 }),
        d >= 2 ==> 2 * r <= d < 2 * r + 2,
        d < 2 ==> r == 1,
{
    let half = d / 2;
    if half < 1 {
        1
    } else {
        half
    }
}

/// The step sizes of the `jump_steps + 1` passes of one jump-flood run whose
/// first pass has step size `initial`.
pub fn jump_flood_step_sizes(initial: u32, jump_steps: u32) -> (r: Vec<StepSizeBuffer>)
    ensures
        r.len() == jump_steps as nat + 1,
        r[0].step_size == initial,
        forall|k: int|
            1 <= k < r.len() ==> #[trigger] r[k].step_size == (if r[k - 1].step_size / 2 < 1 {
                1
            } else {
                r[k - 1].step_size / 2
            }),
        forall|k: int|
            0 <= k < r.len() ==> #[trigger] r[k].step_size == step_size_at(initial as nat, k as nat),
{
    let mut out: Vec<StepSizeBuffer> = Vec::new();
    let mut jump_dist: u32 = initial;
    let mut count: u64 = 0;
    while count <= jump_steps as u64
        invariant
            count <= jump_steps as nat + 1,
            out.len() == count,
            jump_dist == step_size_at(initial as nat, count as nat),
            forall|k: int|
                0 <= k < out.len() ==> #[trigger] out[k].step_size == step_size_at(
                    initial as nat,
                    k as nat,
                ),
        decreases jump_steps as nat + 1 - count,
    {
        out.push(StepSizeBuffer { step_size: jump_dist });
        jump_dist = next_jump_distance(jump_dist);
        count = count + 1;
    }
    out
}

/// Halving a step size: the result is `d / 2` rounded down, that is the
/// number `h` with `2 * h <= d < 2 * h + 2`, except that a step size below
/// two becomes one.
pub proof fn lemma_halve_step_halves(d: nat)
    ensures
        d >= 2 ==> 2 * halve_step(d) <= d < 2 * halve_step(d) + 2,
        d < 2 ==> halve_step(d) == 1,
        halve_step(d) >= 1,
{
}

/// The first pass uses the initial step size unchanged, and every later pass
/// uses half of the step size before it, rounded down, but at least one.
pub proof fn lemma_schedule_steps(initial: nat, k: nat)
    ensures
        step_size_at(initial, 0) == initial,
        step_size_at(initial, k) >= 2 ==> 2 * step_size_at(initial, k + 1) <= step_size_at(initial, k)
            < 2 * step_size_at(initial, k + 1) + 2,
        step_size_at(initial, k) < 2 ==> step_size_at(initial, k + 1) == 1,
{
    assert(step_size_at(initial, k + 1) == halve_step(step_size_at(initial, k)));
}

/// After the first pass, pass `k` has step size `initial / 2^k`, but at
/// least one.
pub proof fn lemma_step_size_closed_form(initial: nat, k: nat)
    requires
        k >= 1,
    ensures
        step_size_at(initial, k) == (if initial / pow2(k) < 1 { 1 } else { initial / pow2(k) }),
    decreases k,
{
    lemma_pow2_unfold(k);
    lemma_pow2_pos((k - 1) as nat);
    if k == 1 {
        assert(pow2(1) == 2) by {
            vstd::arithmetic::power2::lemma2_to64();
        }
        assert(step_size_at(initial, 0) == initial);
        assert(step_size_at(initial, 1) == halve_step(initial));
    } else {
        lemma_step_size_closed_form(initial, (k - 1) as nat);
        let p = pow2((k - 1) as nat);
        lemma_div_denominator(initial as int, p as int, 2);
        assert(p * 2 == pow2(k));
        assert(initial / pow2(k) == (initial / p) / 2);
        assert(step_size_at(initial, k) == halve_step(step_size_at(initial, (k - 1) as nat)));
    }
}

/// When `2^steps` reaches the first step size, the last of the `steps + 1`
/// passes has step size one: the schedule ends by comparing neighbouring
/// pixels.
pub proof fn lemma_last_step_is_one(initial: nat, steps: nat)
    requires
        steps >= 1,
        initial <= pow2(steps),
    ensures
        step_size_at(initial, steps) == 1,
{
    lemma_step_size_closed_form(initial, steps);
    lemma_pow2_pos(steps);
    if initial < pow2(steps) {
        assert(initial / pow2(steps) == 0) by {
            vstd::arithmetic::div_mod::lemma_basic_div(initial as int, pow2(steps) as int);
        }
    } else {
        assert(initial / pow2(steps) == 1) by {
            vstd::arithmetic::div_mod::lemma_div_basics(initial as int);
        }
    }
}

/// After the first pass every step size is at least one, and no pass looks
/// further than the one before it; from a first step size of at least one,
/// the whole schedule only shrinks.
pub proof fn lemma_step_sizes_shrink(initial: nat, k: nat)
    ensures
        k >= 1 ==> step_size_at(initial, k) >= 1,
        k >= 1 || initial >= 1 ==> step_size_at(initial, k + 1) <= step_size_at(initial, k),
{
    if k >= 1 {
        assert(step_size_at(initial, k) == halve_step(step_size_at(initial, (k - 1) as nat)));
    }
    assert(step_size_at(initial, k + 1) == halve_step(step_size_at(initial, k)));
}

} // verus!
