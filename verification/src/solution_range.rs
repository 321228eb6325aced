//! Solution range adjustment at era boundaries and the weight of a block.

use vstd::prelude::*;

verus! {

/// `x`, or `max` where `x` exceeds it.
pub open spec fn saturate(x: int, max: int) -> int {
    if x <= max {
        x
    } else {
        max
    }
}

/// `value` brought into `[lower, upper]`.
pub open spec fn clamp(value: int, lower: int, upper: int) -> int {
    if value < lower {
        lower
    } else if value > upper {
        upper
    } else {
        value
    }
}

/// The solution range of the next era.
///
/// The current solution range is scaled by the ratio of the actual number of slots per block in
/// the era (`era_slot_count / era_duration`) to the expected one
/// (`slot_probability.1 / slot_probability.0`), the products saturating at `u128::MAX`, the
/// quotient at `u64::MAX`, and the result is kept between a quarter of the current solution range
/// and four times it (saturating at `u64::MAX`).
pub open spec fn next_solution_range(
    start_slot: int,
    current_slot: int,
    slot_probability: (u64, u64),
    current_solution_range: int,
    era_duration: int,
) -> int {
    let era_slot_count = current_slot - start_slot;
    let product = saturate(
        saturate(current_solution_range * era_slot_count, u128::MAX as int) * slot_probability.0,
        u128::MAX as int,
    );
    let scaled = product / era_duration / (slot_probability.1 as int);
    clamp(
        saturate(scaled, u64::MAX as int),
        current_solution_range / 4,
        saturate(current_solution_range * 4, u64::MAX as int),
    )
}

/// The weight of a block produced with `solution_range`.
pub open spec fn block_weight(solution_range: int) -> int {
    u64::MAX - solution_range
}

/// `a * b`, or `u128::MAX` where the product does not fit.
fn saturating_mul_u128(a: u128, b: u128) -> (product: u128)
    ensures
        product == saturate(a * b, u128::MAX as int),
{
    match a.checked_mul(b) {
        Some(product) => product,
        None => u128::MAX,
    }
}

/// Calculate weight derived from provided solution range
pub fn calculate_block_weight(solution_range: u64) -> (weight: u128)
    ensures
        weight == block_weight(solution_range as int),
        weight + solution_range == u64::MAX,
{
    (u64::MAX - solution_range) as u128
}

/// A smaller solution range never gives a lighter block.
pub proof fn lemma_block_weight_antitone(smaller: u64, larger: u64)
    requires
        smaller <= larger,
    ensures
        block_weight(smaller as int) >= block_weight(larger as int),
        block_weight(larger as int) >= 0,
{
}

/// Derives next solution range based on the total era slots and slot probability
pub fn derive_next_solution_range(
    start_slot: u64,
    current_slot: u64,
    slot_probability: (u64, u64),
    current_solution_range: u64,
    era_duration: u32,
) -> (next: u64)
    requires
        start_slot <= current_slot,
        era_duration > 0,
        slot_probability.1 > 0,
    ensures
        next == next_solution_range(
            start_slot as int,
            current_slot as int,
            slot_probability,
            current_solution_range as int,
            era_duration as int,
        ),
        current_solution_range / 4 <= next,
        next <= saturate(current_solution_range * 4, u64::MAX as int),
{
    // calculate total slots within this era
    let era_slot_count = current_slot - start_slot;

    // The previous solution range is adjusted by the ratio of the actual and the expected number
    // of slots per block in the era, with integer arithmetic only.
    let product = saturating_mul_u128(
        saturating_mul_u128(current_solution_range as u128, era_slot_count as u128),
        slot_probability.0 as u128,
    );
    let scaled = product / (era_duration as u128) / (slot_probability.1 as u128);
    let candidate: u64 = if scaled <= u64::MAX as u128 {
        scaled as u64
    } else {
        u64::MAX
    };
    let lower = current_solution_range / 4;
    let upper = match current_solution_range.checked_mul(4) {
        Some(upper) => upper,
        None => u64::MAX,
    };
    if candidate < lower {
        lower
    } else if candidate > upper {
        upper
    } else {
        candidate
    }
}

/// When the era produced blocks at exactly the expected pace (`era_slot_count *
/// slot_probability.0 == era_duration * slot_probability.1`) and the products do not saturate,
/// the solution range stays the same.
pub proof fn lemma_steady_pace_keeps_solution_range(
    start_slot: u64,
    current_slot: u64,
    slot_probability: (u64, u64),
    current_solution_range: u64,
    era_duration: u32,
)
    requires
        start_slot <= current_slot,
        era_duration > 0,
        slot_probability.1 > 0,
        (current_slot - start_slot) * slot_probability.0 == era_duration * slot_probability.1,
        current_solution_range * (current_slot - start_slot) * slot_probability.0
            <= u128::MAX as int,
    ensures
        next_solution_range(
            start_slot as int,
            current_slot as int,
            slot_probability,
            current_solution_range as int,
            era_duration as int,
        ) == current_solution_range,
{
    let cur = current_solution_range as int;
    let esc = current_slot - start_slot;
    let p0 = slot_probability.0 as int;
    let p1 = slot_probability.1 as int;
    let era = era_duration as int;
    assert(cur * esc <= cur * esc * p0 || p0 == 0) by (nonlinear_arith)
        requires
            cur >= 0,
            esc >= 0,
            p0 >= 0,
    ;
    assert(cur * esc * p0 == (cur * p1) * era) by (nonlinear_arith)
        requires
            esc * p0 == era * p1,
    ;
    if p0 == 0 {
        assert(era * p1 > 0) by (nonlinear_arith)
            requires
                era > 0,
                p1 > 0,
        ;
        assert(false) by (nonlinear_arith)
            requires
                esc * p0 == era * p1,
                p0 == 0,
                era * p1 > 0,
        ;
    }
    assert(cur * esc <= u128::MAX as int);
    vstd::arithmetic::div_mod::lemma_div_multiples_vanish(cur * p1, era);
    assert(era * (cur * p1) == (cur * p1) * era) by (nonlinear_arith);
    assert((cur * p1) / p1 == cur) by {
        vstd::arithmetic::div_mod::lemma_div_multiples_vanish(cur, p1);
        assert(p1 * cur == cur * p1) by (nonlinear_arith);
    }
}

/// The longer an era took (the more slots it spanned for the same number of blocks), the larger
/// the next solution range, which makes solutions easier to find.
pub proof fn lemma_slower_era_widens_range(
    start_slot: u64,
    current_slot: u64,
    later_slot: u64,
    slot_probability: (u64, u64),
    current_solution_range: u64,
    era_duration: u32,
)
    requires
        start_slot <= current_slot <= later_slot,
        era_duration > 0,
        slot_probability.1 > 0,
    ensures
        next_solution_range(
            start_slot as int,
            current_slot as int,
            slot_probability,
            current_solution_range as int,
            era_duration as int,
        ) <= next_solution_range(
            start_slot as int,
            later_slot as int,
            slot_probability,
            current_solution_range as int,
            era_duration as int,
        ),
{
    let cur = current_solution_range as int;
    let p0 = slot_probability.0 as int;
    let p1 = slot_probability.1 as int;
    let era = era_duration as int;
    let e1 = current_slot - start_slot;
    let e2 = later_slot - start_slot;
    let max = u128::MAX as int;
    assert(cur * e1 <= cur * e2) by (nonlinear_arith)
        requires
            cur >= 0,
            0 <= e1 <= e2,
    ;
    let a1 = saturate(cur * e1, max);
    let a2 = saturate(cur * e2, max);
    assert(a1 * p0 <= a2 * p0) by (nonlinear_arith)
        requires
            0 <= a1 <= a2,
            p0 >= 0,
    ;
    let b1 = saturate(a1 * p0, max);
    let b2 = saturate(a2 * p0, max);
    assert(0 <= a1 * p0) by (nonlinear_arith)
        requires
            0 <= a1,
            p0 >= 0,
    ;
    vstd::arithmetic::div_mod::lemma_div_is_ordered(b1, b2, era);
    vstd::arithmetic::div_mod::lemma_div_pos_is_pos(b1, era);
    vstd::arithmetic::div_mod::lemma_div_is_ordered(b1 / era, b2 / era, p1);
}

/// A block's weight and its solution range always add up to `u64::MAX`: every unit taken off
/// the solution range adds one to the weight.
pub proof fn lemma_block_weight_complements_range(a: u64, b: u64)
    ensures
        block_weight(a as int) + a == u64::MAX,
        block_weight(a as int) - block_weight(b as int) == b - a,
{
}

/// Where the products do not saturate, the next solution range is the current one scaled by
/// `era_slot_count * slot_probability.0 / (era_duration * slot_probability.1)` (rounded down at
/// each division), brought into the window between a quarter of the current range and four
/// times it (at most `u64::MAX`). In particular, inside that window it is exactly the scaled
/// value.
pub proof fn lemma_next_solution_range_is_clamped_scaling(
    start_slot: u64,
    current_slot: u64,
    slot_probability: (u64, u64),
    current_solution_range: u64,
    era_duration: u32,
)
    requires
        start_slot <= current_slot,
        era_duration > 0,
        slot_probability.1 > 0,
        current_solution_range * (current_slot - start_slot) * slot_probability.0
            <= u128::MAX as int,
    ensures
        ({
            let scaled = current_solution_range * (current_slot - start_slot) * slot_probability.0
                / (era_duration as int) / (slot_probability.1 as int);
            let lower = current_solution_range / 4;
            let upper = if current_solution_range * 4 <= u64::MAX {
                current_solution_range * 4
            } else {
                u64::MAX as int
            };
            &&& scaled < lower ==> next_solution_range(
                start_slot as int,
                current_slot as int,
                slot_probability,
                current_solution_range as int,
                era_duration as int,
            ) == lower
            &&& scaled > upper ==> next_solution_range(
                start_slot as int,
                current_slot as int,
                slot_probability,
                current_solution_range as int,
                era_duration as int,
            ) == upper
            &&& lower <= scaled <= upper ==> next_solution_range(
                start_slot as int,
                current_slot as int,
                slot_probability,
                current_solution_range as int,
                era_duration as int,
            ) == scaled
        }),
{
    let cur = current_solution_range as int;
    let esc = current_slot - start_slot;
    let p0 = slot_probability.0 as int;
    assert(cur * esc <= cur * esc * p0 || p0 == 0) by (nonlinear_arith)
        requires
            cur >= 0,
            esc >= 0,
            p0 >= 0,
    ;
    if p0 == 0 {
        assert(cur * esc * p0 == 0) by (nonlinear_arith)
            requires
                p0 == 0,
        ;
        assert(saturate(cur * esc, u128::MAX as int) * p0 == 0) by (nonlinear_arith)
            requires
                p0 == 0,
        ;
    } else {
        assert(cur * esc <= u128::MAX as int);
    }
}

} // verus!
