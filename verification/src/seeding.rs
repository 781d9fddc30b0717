//! The first generation: one draw per cell from a seeded stream, and the rule
//! by which a draw decides whether the cell starts alive.
//!
//! A draw is a 32-bit word. Its upper 24 bits, read as a fraction of 2^24, are
//! compared with the density taken in single precision: the product of the
//! density and the single-precision value nearest to one hundredth, rounded
//! as single-precision multiplication rounds. The comparison is made in
//! integers, on both sides scaled by 2^30.

use crate::generator::{next_word, seeded_generator, seeded_word, upcoming_word};
use vstd::prelude::*;

verus! {

/// The state of a dead cell.
pub const DEAD: u32 = 0;

/// The state of a live cell.
pub const ALIVE: u32 = 1;

/// The significand of the single-precision value nearest to one hundredth:
/// that value is `HUNDREDTH_SIGNIFICAND / 2^30`.
pub const HUNDREDTH_SIGNIFICAND: u64 = 10_737_418;

/// The number of values of a single-precision significand, 2^24.
pub const SIGNIFICAND_VALUES: u64 = 0x100_0000;

/// A draw counts in steps of 2^-24 and a threshold in steps of 2^-30, so one
/// step of a draw is 64 steps of a threshold.
pub const THRESHOLD_STEPS_PER_DRAW_STEP: u64 = 64;

/// The threshold from which every draw is below it, 2^30: the number one in
/// steps of 2^-30.
pub const WHOLE: u64 = 0x4000_0000;

/// The distance between neighbouring values that a 24-bit significand can
/// express around `value`: the least power of two `unit` with
/// `value < 2^24 * unit`.
pub open spec fn significand_unit(value: nat) -> nat
    decreases value,
{
    if value < SIGNIFICAND_VALUES {
        1
    } else {
        2 * significand_unit(value / 2)
    }
}

/// The multiple of `unit` nearest to `value`; of two that are equally near,
/// the even multiple.
pub open spec fn round_half_even(value: nat, unit: nat) -> nat {
    let quotient = value / unit;
    let remainder = value % unit;
    if 2 * remainder < unit || (2 * remainder == unit && quotient % 2 == 0) {
        quotient * unit
    } else {
        (quotient + 1) * unit
    }
}

/// The density in steps of 2^-30: `density` hundredths, in single precision.
pub open spec fn density_threshold(density: u8) -> nat {
    let exact = density as nat * HUNDREDTH_SIGNIFICAND as nat;
    round_half_even(exact, significand_unit(exact))
}

/// The fraction that a draw stands for, in steps of 2^-24: its upper 24
/// bits.
pub open spec fn draw_fraction(word: u32) -> nat {
    (word / 256) as nat
}

/// Whether a cell with the draw `word` starts alive at `density` percent.
pub open spec fn draw_is_alive(word: u32, density: u8) -> bool {
    draw_fraction(word) * (THRESHOLD_STEPS_PER_DRAW_STEP as nat) < density_threshold(density)
}

/// The state of a cell with the draw `word` at `density` percent.
pub open spec fn cell_state(word: u32, density: u8) -> u32 {
    if draw_is_alive(word, density) {
        ALIVE
    } else {
        DEAD
    }
}

/// The first generation of `count` cells in row-major order: cell `i` takes
/// word `i` of the stream of `seed`.
pub open spec fn seeded_cells(seed: u64, count: nat, density: u8) -> Seq<u32> {
    Seq::new(count, |i: int| cell_state(seeded_word(seed, i as nat), density))
}

proof fn lemma_unit_doubles(unit: nat, inner: nat)
    ensures
        unit * (2 * inner) == (2 * unit) * inner,
{
    assert(unit * (2 * inner) == (2 * unit) * inner) by (nonlinear_arith);
}

proof fn lemma_halving_keeps_bound(unit: nat, reduced: nat, exact: nat)
    requires
        unit * reduced <= exact,
    ensures
        (2 * unit) * (reduced / 2) <= exact,
{
    assert((2 * unit) * (reduced / 2) <= unit * reduced) by (nonlinear_arith);
}

proof fn lemma_unit_is_small(unit: nat, reduced: nat, exact: nat)
    requires
        unit * reduced <= exact,
        reduced >= 0x100_0000,
        exact < 0x1_0000_0000,
    ensures
        unit < 256,
{
    assert(unit < 256) by (nonlinear_arith)
        requires
            unit * reduced <= exact,
            reduced >= 0x100_0000,
            exact < 0x1_0000_0000,
    ;
}

proof fn lemma_rounding_is_near(value: nat, unit: nat)
    requires
        unit > 0,
    ensures
        (value / unit) * unit <= value,
        (value / unit + 1) * unit <= value + unit,
{
    assert((value / unit) * unit <= value && (value / unit + 1) * unit <= value + unit)
        by (nonlinear_arith)
        requires
            unit > 0,
    ;
}

/// The density in steps of 2^-30: `density` hundredths, in single precision.
pub fn threshold_of_density(density: u8) -> (threshold: u64)
    ensures
        threshold == density_threshold(density),
{
    let exact: u64 = density as u64 * HUNDREDTH_SIGNIFICAND;
    let mut unit: u64 = 1;
    let mut reduced: u64 = exact;
    while reduced >= SIGNIFICAND_VALUES
        invariant
            exact < 0x1_0000_0000,
            1 <= unit < 512,
            unit * reduced <= exact,
            significand_unit(exact as nat) == unit * significand_unit(reduced as nat),
        decreases reduced,
    {
        proof {
            lemma_unit_is_small(unit as nat, reduced as nat, exact as nat);
            lemma_unit_doubles(unit as nat, significand_unit((reduced / 2) as nat));
            lemma_halving_keeps_bound(unit as nat, reduced as nat, exact as nat);
        }
        unit = unit * 2;
        reduced = reduced / 2;
    }
    let quotient = exact / unit;
    let remainder = exact % unit;
    proof {
        assert(significand_unit(reduced as nat) == 1);
        assert(significand_unit(exact as nat) == unit) by (nonlinear_arith)
            requires
                significand_unit(exact as nat) == unit * significand_unit(reduced as nat),
                significand_unit(reduced as nat) == 1,
        ;
        lemma_rounding_is_near(exact as nat, unit as nat);
    }
    if 2 * remainder < unit || (2 * remainder == unit && quotient % 2 == 0) {
        quotient * unit
    } else {
        (quotient + 1) * unit
    }
}

/// The state of a cell whose draw is `word`, against a threshold in steps of
/// 2^-30.
fn cell_below(word: u32, threshold: u64) -> (cell: u32)
    ensures
        cell == if draw_fraction(word) * (THRESHOLD_STEPS_PER_DRAW_STEP as nat) < threshold {
            ALIVE
        } else {
            DEAD
        },
{
    let fraction = (word >> 8) as u64;
    assert(word >> 8 == word / 256) by (bit_vector);
    if fraction * THRESHOLD_STEPS_PER_DRAW_STEP < threshold {
        ALIVE
    } else {
        DEAD
    }
}

/// The state of a cell whose draw is `word`, at `density` percent: alive when
/// the draw's fraction is below the density.
pub fn cell_from_draw(word: u32, density: u8) -> (cell: u32)
    ensures
        cell == cell_state(word, density),
        cell == ALIVE || cell == DEAD,
        density == 0 ==> cell == DEAD,
        density >= 100 ==> cell == ALIVE,
{
    proof {
        lemma_density_bounds(word, density);
    }
    cell_below(word, threshold_of_density(density))
}

/// The first generation of `count` cells at `density` percent, drawn from the
/// stream of `seed`: one draw per cell, in row-major order.
pub fn initial_cells(seed: u64, count: usize, density: u8) -> (cells: Vec<u32>)
    ensures
        cells@ == seeded_cells(seed, count as nat, density),
{
    let mut generator = seeded_generator(seed);
    let threshold = threshold_of_density(density);
    let mut cells: Vec<u32> = Vec::with_capacity(count);
    let mut index: usize = 0;
    while index < count
        invariant
            index <= count,
            threshold == density_threshold(density),
            cells@ == seeded_cells(seed, index as nat, density),
            forall|ahead: nat| #[trigger]
                upcoming_word(generator, ahead) == seeded_word(seed, index as nat + ahead),
        decreases count - index,
    {
        let word = next_word(&mut generator);
        let cell = cell_below(word, threshold);
        cells.push(cell);
        index = index + 1;
        assert(cells@ =~= seeded_cells(seed, index as nat, density));
    }
    cells
}

/// No draw is below a density of nothing, and every draw is below a density
/// of one hundred percent or more.
pub proof fn lemma_density_bounds(word: u32, density: u8)
    ensures
        density == 0 ==> cell_state(word, density) == DEAD,
        density >= 100 ==> cell_state(word, density) == ALIVE,
{
    reveal_with_fuel(significand_unit, 10);
    let exact = density as nat * HUNDREDTH_SIGNIFICAND as nat;
    if density == 0 {
        assert(exact == 0);
        assert(significand_unit(exact) == 1);
        assert(density_threshold(density) == 0);
    }
    if density >= 100 {
        if exact < 0x4000_0000 {
            assert(density == 100);
            assert(exact == 1_073_741_800);
            assert(significand_unit(exact) == 64);
        } else if exact < 0x8000_0000 {
            assert(significand_unit(exact) == 128);
        } else {
            assert(exact < 0x1_0000_0000);
            assert(significand_unit(exact) == 256);
        }
        assert(density_threshold(density) >= WHOLE);
        assert(draw_fraction(word) < SIGNIFICAND_VALUES);
    }
}

/// Rounding moves a density's threshold by less than the widest unit: it lies
/// within 128 steps of the exact product of the density and the significand
/// of one hundredth.
pub proof fn lemma_threshold_is_near_product(density: u8)
    ensures
        density as nat * HUNDREDTH_SIGNIFICAND as nat <= density_threshold(density) + 128,
        density_threshold(density) <= density as nat * HUNDREDTH_SIGNIFICAND as nat + 128,
{
    reveal_with_fuel(significand_unit, 10);
    let exact = density as nat * HUNDREDTH_SIGNIFICAND as nat;
    let unit = significand_unit(exact);
    assert(exact < 0x1_0000_0000);
    assert(unit == 1 || unit == 2 || unit == 4 || unit == 8 || unit == 16 || unit == 32 || unit
        == 64 || unit == 128 || unit == 256);
}

/// The threshold stands for the density as a share: it is within 256 steps
/// of 2^-30 of `density` hundredths, so that the share of the draws that
/// start a cell alive differs from the percentage by less than one part in
/// four million.
pub proof fn lemma_threshold_is_near_percentage(density: u8)
    ensures
        density as int * WHOLE as int - 25_600 <= 100 * density_threshold(density) as int,
        100 * density_threshold(density) as int <= density as int * WHOLE as int + 25_600,
{
    lemma_threshold_is_near_product(density);
}

/// A higher density has a higher threshold.
pub proof fn lemma_threshold_rises(lower: u8, higher: u8)
    requires
        lower < higher,
    ensures
        density_threshold(lower) < density_threshold(higher),
{
    lemma_threshold_is_near_product(lower);
    lemma_threshold_is_near_product(higher);
}

/// Raising the density never kills a cell: a draw that starts a cell alive
/// at one density does so at every higher density, and so a first
/// generation at a higher density, from the same seed, has every live cell
/// of the one at the lower density.
pub proof fn lemma_denser_keeps_alive(seed: u64, count: nat, lower: u8, higher: u8)
    requires
        lower <= higher,
    ensures
        forall|word: u32| draw_is_alive(word, lower) ==> draw_is_alive(word, higher),
        forall|i: int|
            0 <= i < count && #[trigger] seeded_cells(seed, count, lower)[i] == ALIVE
                ==> seeded_cells(seed, count, higher)[i] == ALIVE,
{
    if lower < higher {
        lemma_threshold_rises(lower, higher);
    }
}

/// A first generation at a density of nothing is all dead; one at a density
/// of one hundred percent or more is all alive.
pub proof fn lemma_extreme_densities(seed: u64, count: nat, density: u8)
    ensures
        density == 0 ==> seeded_cells(seed, count, density) == Seq::new(count, |i: int| DEAD),
        density >= 100 ==> seeded_cells(seed, count, density) == Seq::new(count, |i: int| ALIVE),
{
    assert forall|i: int| 0 <= i < count implies (density == 0 ==> #[trigger] seeded_cells(
        seed,
        count,
        density,
    )[i] == DEAD) && (density >= 100 ==> seeded_cells(seed, count, density)[i] == ALIVE) by {
        lemma_density_bounds(seeded_word(seed, i as nat), density);
    }
    if density == 0 {
        assert(seeded_cells(seed, count, density) =~= Seq::new(count, |i: int| DEAD));
    }
    if density >= 100 {
        assert(seeded_cells(seed, count, density) =~= Seq::new(count, |i: int| ALIVE));
    }
}

/// Every cell of a first generation is dead or alive, and there are as many
/// cells as were asked for.
pub proof fn lemma_cells_are_binary(seed: u64, count: nat, density: u8)
    ensures
        seeded_cells(seed, count, density).len() == count,
        forall|i: int|
            0 <= i < count ==> {
                let cell = #[trigger] seeded_cells(seed, count, density)[i];
                cell == DEAD || cell == ALIVE
            },
{
}

/// The first generation is a function of the seed, the number of cells and
/// the density: two generations made from the same three are the same, cell
/// for cell.
pub proof fn lemma_seeding_is_deterministic(
    first: Seq<u32>,
    second: Seq<u32>,
    seed: u64,
    count: nat,
    density: u8,
)
    requires
        first == seeded_cells(seed, count, density),
        second == seeded_cells(seed, count, density),
    ensures
        first == second,
        first.len() == count,
        forall|i: int| 0 <= i < count ==> first[i] == second[i],
{
}

/// A longer first generation from the same seed starts with the shorter one:
/// the cells are drawn one after another from the one stream.
pub proof fn lemma_seeding_extends(seed: u64, shorter: nat, longer: nat, density: u8)
    requires
        shorter <= longer,
    ensures
        seeded_cells(seed, longer, density).subrange(0, shorter as int) == seeded_cells(
            seed,
            shorter,
            density,
        ),
{
    assert(seeded_cells(seed, longer, density).subrange(0, shorter as int) =~= seeded_cells(
        seed,
        shorter,
        density,
    ));
}

} // verus!
