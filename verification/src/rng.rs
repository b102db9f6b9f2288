use crate::point::Point2;
use crate::ratio::{lemma_scaled_range, scaled, within, Ratio, NORMALIZER};
use vstd::prelude::*;

verus! {

/// What every draw adds to the counter.
pub const INCREMENT: i64 = 0xe120_fc15;

/// Multiplier of the first mixing round.
pub const FIRST_MULTIPLIER: i64 = 0x4a39_b70d;

/// Multiplier of the second mixing round.
pub const SECOND_MULTIPLIER: i64 = 0x12fa_d5c9;

/// The counter that follows `counter`: one increment further, wrapping around
/// the ends of the 64-bit range.
pub open spec fn advanced(counter: i64) -> i64 {
    vstd::wrapping::i64_specs::wrapping_add(counter, INCREMENT)
}

/// The counter after `draws` draws.
pub open spec fn counter_after(counter: i64, draws: nat) -> i64
    decreases draws,
{
    if draws == 0 {
        counter
    } else {
        advanced(counter_after(counter, (draws - 1) as nat))
    }
}

/// A 64-bit word with its high half xor-ed into its low half.
pub open spec fn folded(word: i64) -> i64 {
    (word >> 32u32) ^ word
}

/// One mixing round: multiply modulo 2^64, then fold.
pub open spec fn round(word: i64, multiplier: i64) -> i64 {
    folded(vstd::wrapping::i64_specs::wrapping_mul(word, multiplier))
}

/// The 32-bit value that a counter mixes to.
pub open spec fn mixed(counter: i64) -> u32 {
    round(round(counter, FIRST_MULTIPLIER), SECOND_MULTIPLIER) as u32
}

/// The value drawn next from a source whose counter is `counter`.
pub open spec fn draw(counter: i64) -> u32 {
    mixed(advanced(counter))
}

/// The value of the draw that follows `skipped` earlier draws.
pub open spec fn nth_draw(counter: i64, skipped: nat) -> u32 {
    draw(counter_after(counter, skipped))
}

/// A drawn value brought into `[min, max)`.
pub open spec fn between(value: u32, min: u32, max: u32) -> int {
    min + (value as int) % (max - min)
}

/// The low 16 bits of a coordinate, as a number in `[0, 65536)`.
pub open spec fn low_bits(value: i64) -> int {
    (value as int) % 0x1_0000
}

/// The counter that a source starts from at a cell: the low 16 bits of `x`
/// above the low 16 bits of `y`.
pub open spec fn seed_of(coordinate: Point2) -> i64 {
    (low_bits(coordinate.x) * 0x1_0000 + low_bits(coordinate.y)) as i64
}

/// The low 16 bits are what a mask with `0xFFFF` keeps.
pub proof fn lemma_low_bits_mask(value: i64)
    ensures
        low_bits(value) == value & 0xFFFF,
{
    assert((value as int) % 0x1_0000 == value & 0xFFFF) by (bit_vector);
}

/// Two cells whose coordinates agree in their low 16 bits start a source
/// from the same counter, whatever their higher bits are.
pub proof fn lemma_seed_alias(first: Point2, second: Point2)
    requires
        low_bits(first.x) == low_bits(second.x),
        low_bits(first.y) == low_bits(second.y),
    ensures
        seed_of(first) == seed_of(second),
{
}

/// A seed is a number of 32 bits: it holds the low 16 bits of `x` above those
/// of `y` and nothing else.
pub proof fn lemma_seed_range(coordinate: Point2)
    ensures
        0 <= seed_of(coordinate) < 0x1_0000_0000,
        seed_of(coordinate) / 0x1_0000 == low_bits(coordinate.x),
        seed_of(coordinate) % 0x1_0000 == low_bits(coordinate.y),
{
}

/// No draws leave the counter where it is, and one draw advances it once.
pub proof fn lemma_counter_after_one(counter: i64)
    ensures
        counter_after(counter, 0) == counter,
        counter_after(counter, 1) == advanced(counter),
{
    reveal_with_fuel(counter_after, 2);
}

/// Drawing `first` times and then `second` times is drawing `first + second`
/// times.
pub proof fn lemma_counter_after_sum(counter: i64, first: nat, second: nat)
    ensures
        counter_after(counter_after(counter, first), second) == counter_after(
            counter,
            first + second,
        ),
    decreases second,
{
    if second > 0 {
        lemma_counter_after_sum(counter, first, (second - 1) as nat);
    }
}

/// `value`, brought into the 64-bit range by a multiple of 2^64.
pub open spec fn wrapped(value: int) -> i64 {
    vstd::wrapping::i64_specs::signed_crop(value)
}

/// The one number of the 64-bit range that differs from `value` by a
/// multiple of 2^64 is what `value` wraps to.
pub proof fn lemma_wrapped_unique(value: int, within: i64, turns: int)
    ensures
        value == within + turns * 0x1_0000_0000_0000_0000 ==> wrapped(value) == within,
{
    let range = 0x1_0000_0000_0000_0000int;
    if value == within + turns * range {
        if within >= 0 {
            vstd::arithmetic::div_mod::lemma_mod_multiples_vanish(turns, within as int, range);
            vstd::arithmetic::div_mod::lemma_small_mod(within as nat, range as nat);
            assert(value == range * turns + within) by (nonlinear_arith)
                requires
                    value == within + turns * range,
            ;
        } else {
            vstd::arithmetic::div_mod::lemma_mod_multiples_vanish(
                turns - 1,
                within + range,
                range,
            );
            vstd::arithmetic::div_mod::lemma_small_mod((within + range) as nat, range as nat);
            assert(value == range * (turns - 1) + (within + range)) by (nonlinear_arith)
                requires
                    value == within + turns * range,
            ;
        }
    }
}

/// The counter after `draws` draws is the counter before plus that many
/// increments, modulo 2^64.
pub proof fn lemma_counter_after_wraps(counter: i64, draws: nat)
    ensures
        counter_after(counter, draws) == wrapped(counter + draws * INCREMENT),
    decreases draws,
{
    let range = 0x1_0000_0000_0000_0000int;
    if draws == 0 {
        lemma_wrapped_unique(counter as int, counter, 0);
    } else {
        let before = counter_after(counter, (draws - 1) as nat);
        lemma_counter_after_wraps(counter, (draws - 1) as nat);
        let sum = counter + (draws - 1) * INCREMENT;
        let turns = lemma_wrapped_turns(sum);
        assert(counter + draws * INCREMENT == sum + INCREMENT) by (nonlinear_arith)
            requires
                sum == counter + (draws - 1) * INCREMENT,
        ;
        if before + INCREMENT > i64::MAX {
            assert(sum + INCREMENT == advanced(before) + (turns + 1) * range) by (nonlinear_arith)
                requires
                    sum == before + turns * range,
                    advanced(before) == before + INCREMENT - range,
            ;
            lemma_wrapped_unique(sum + INCREMENT, advanced(before), turns + 1);
        } else {
            lemma_wrapped_unique(sum + INCREMENT, advanced(before), turns);
        }
    }
}

/// What a number wraps to differs from it by a multiple of 2^64.
pub proof fn lemma_wrapped_turns(value: int) -> (turns: int)
    ensures
        value == wrapped(value) + turns * 0x1_0000_0000_0000_0000,
{
    let range = 0x1_0000_0000_0000_0000int;
    vstd::arithmetic::div_mod::lemma_fundamental_div_mod(value, range);
    let quotient = value / range;
    if value % range > i64::MAX {
        assert(value == wrapped(value) + (quotient + 1) * range) by (nonlinear_arith)
            requires
                value == range * quotient + value % range,
                wrapped(value) == value % range - range,
        ;
        quotient + 1
    } else {
        assert(value == wrapped(value) + quotient * range) by (nonlinear_arith)
            requires
                value == range * quotient + value % range,
                wrapped(value) == value % range,
        ;
        quotient
    }
}

/// A counter-based pseudo-random source.
#[derive(Debug)]
pub struct LehmerRnd {
    pub counter: i64,
}

impl Default for LehmerRnd {
    fn default() -> (source: LehmerRnd)
        ensures
            source.counter == 0,
    {
        LehmerRnd { counter: 0 }
    }
}

impl LehmerRnd {
    /// Restarts the source at a cell. Only the low 16 bits of each coordinate
    /// count, and the counter that was there before does not.
    pub fn reseed(&mut self, coordinate: Point2)
        ensures
            final(self).counter == seed_of(coordinate),
    {
        let high: i64 = coordinate.x & 0xFFFF;
        let low: i64 = coordinate.y & 0xFFFF;
        let key: i64 = (high << 16u32) | low;
        proof {
            lemma_low_bits_mask(coordinate.x);
            lemma_low_bits_mask(coordinate.y);
            assert(0 <= high < 0x1_0000 && 0 <= low < 0x1_0000);
            assert(key == high * 0x1_0000 + low) by (bit_vector)
                requires
                    key == (high << 16u32) | low,
                    0 <= high < 0x1_0000,
                    0 <= low < 0x1_0000,
            ;
        }
        self.counter = key;
    }

    /// Advances the counter and returns the value that it mixes to.
    pub fn next(&mut self) -> (value: u32)
        ensures
            final(self).counter == advanced(old(self).counter),
            value == draw(old(self).counter),
    {
        self.counter = self.counter.wrapping_add(INCREMENT);
        let first: i64 = self.counter.wrapping_mul(FIRST_MULTIPLIER);
        let once: i64 = (first >> 32u32) ^ first;
        let second: i64 = once.wrapping_mul(SECOND_MULTIPLIER);
        let twice: i64 = (second >> 32u32) ^ second;
        #[verifier::truncate]
        (twice as u32)
    }

    /// Draws an integer in `[min, max)`.
    pub fn rnd_int(&mut self, min: u32, max: u32) -> (value: u32)
        requires
            max > min,
        ensures
            final(self).counter == advanced(old(self).counter),
            value == between(draw(old(self).counter), min, max),
            min <= value < max,
    {
        (self.next() % (max - min)) + min
    }

    /// Draws a quantity `min + (draw / NORMALIZER) * (max - min)`. It is never
    /// below `min`, and it is below `max` for the draws below the normalizer.
    /// The others, about half of all, give `max` or more: a draw has 32 bits
    /// and the normalizer 31, so the quantity may reach `max + (max - min)`.
    pub fn rnd_double(&mut self, min: u32, max: u32) -> (value: Ratio)
        ensures
            final(self).counter == advanced(old(self).counter),
            value@ == scaled(draw(old(self).counter), min, max),
            min < max ==> min * NORMALIZER <= value@ <= (2 * max - min) * NORMALIZER + (max
                - min),
            min < max ==> (within(value@, min, max) <==> draw(old(self).counter) < NORMALIZER),
    {
        proof {
            if min < max {
                lemma_scaled_range(draw(self.counter), min, max);
            }
        }
        Ratio::scale(self.next(), min, max)
    }
}

} // verus!
