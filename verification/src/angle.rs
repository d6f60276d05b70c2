//! From a register reading to a calibrated angle.
//!
//! Angles are integers in units of 1/512 degree. One raw count is 360/4096
//! degree, which is exactly 45 such units, so no reading loses precision.

use vstd::prelude::*;

verus! {

/// Bus address of the encoder.
pub const PERIPHERAL_ADDRESS: u16 = 0x36;

/// Register at which the two-byte angle block starts.
pub const ANGLE_REGISTER: u8 = 0x0E;

/// Length of the angle block in bytes.
pub const ANGLE_BLOCK_LEN: u8 = 2;

/// Raw counts in one mechanical turn.
pub const COUNTS_PER_TURN: u16 = 4096;

/// Angle units in one degree.
pub const UNITS_PER_DEGREE: i32 = 512;

/// Angle units in one raw count.
pub const UNITS_PER_COUNT: i32 = 45;

/// The sense of rotation that counts as positive.
#[derive(Clone, Copy, Debug, PartialEq, Eq, Structural)]
pub enum Direction {
    Forward,
    Reverse,
}

/// The big-endian 16-bit word at the head of a block.
pub open spec fn block_word(block: Seq<u8>) -> int
    recommends
        block.len() >= 2,
{
    block[0] * 256 + block[1]
}

/// The signed distance in counts from `offset` to `raw`, taken the short way
/// round the turn: the one value in `[-2048, 2048)` that is congruent to
/// `raw - offset` modulo 4096.
pub open spec fn relative_counts(raw: int, offset: int) -> int {
    (raw - offset + COUNTS_PER_TURN / 2) % (COUNTS_PER_TURN as int) - COUNTS_PER_TURN / 2
}

/// What a relative count reads as under a direction. `Reverse` reports
/// `4096 - relative`, which is the complement to a full turn and not the
/// negation.
pub open spec fn directed_counts(direction: Direction, relative: int) -> int {
    match direction {
        Direction::Forward => relative,
        Direction::Reverse => COUNTS_PER_TURN - relative,
    }
}

/// The calibrated angle, in units of 1/512 degree, of the reading `raw`
/// against the zero position `offset`.
pub open spec fn calibrated_angle(raw: int, offset: int, direction: Direction) -> int {
    UNITS_PER_COUNT * directed_counts(direction, relative_counts(raw, offset))
}

/// Decodes the register block of an angle read. Only the first two bytes
/// count; a shorter block holds no reading.
pub fn raw_angle(block: &[u8]) -> (raw: Option<u16>)
    ensures
        match raw {
            Some(word) => block@.len() >= 2 && word == block_word(block@),
            None => block@.len() < 2,
        },
{
    if block.len() < 2 {
        None
    } else {
        let high: u16 = block[0] as u16;
        let low: u16 = block[1] as u16;
        Some(high * 256 + low)
    }
}

/// The relative angle in counts. The upper four bits of either word drop out
/// in the reduction modulo 4096.
pub fn relative_angle(raw: u16, offset: u16) -> (relative: i16)
    ensures
        relative == relative_counts(raw as int, offset as int),
        -2048 <= relative < 2048,
{
    let biased: u32 = raw as u32 + 65536 + 2048 - offset as u32;
    let reduced: u32 = biased % 4096;
    reduced as i16 - 2048
}

/// Applies the direction convention to a relative angle in counts.
pub fn apply_direction(direction: Direction, relative: i16) -> (counts: i32)
    ensures
        counts == directed_counts(direction, relative as int),
{
    match direction {
        Direction::Forward => relative as i32,
        Direction::Reverse => COUNTS_PER_TURN as i32 - relative as i32,
    }
}

/// The calibrated angle of a reading, in units of 1/512 degree.
pub fn angle_of(raw: u16, offset: u16, direction: Direction) -> (angle: i32)
    ensures
        angle == calibrated_angle(raw as int, offset as int, direction),
        direction == Direction::Forward ==> -180 * 512 <= angle < 180 * 512,
        direction == Direction::Reverse ==> 180 * 512 < angle <= 540 * 512,
{
    let relative: i16 = relative_angle(raw, offset);
    UNITS_PER_COUNT * apply_direction(direction, relative)
}

/// Offset-shift equivariance: a reading against an offset is the reading
/// shifted back by the offset, reduced to one turn, against no offset. It holds
/// of all words, whatever their upper bits, and under both directions.
pub proof fn lemma_offset_shift(raw: int, offset: int, direction: Direction)
    ensures
        relative_counts(raw, offset) == relative_counts((raw - offset) % 4096, 0),
        calibrated_angle(raw, offset, direction) == calibrated_angle(
            (raw - offset) % 4096,
            0,
            direction,
        ),
{
}

/// The relative angle is the one representative of `raw - offset` modulo a
/// turn that lies in `[-2048, 2048)`: a step across the 4095/0 boundary reads
/// as a small step, never as a jump of a turn.
pub proof fn lemma_relative_is_short_way(raw: int, offset: int)
    ensures
        -2048 <= relative_counts(raw, offset) < 2048,
        (relative_counts(raw, offset) - (raw - offset)) % 4096 == 0,
{
}

/// The position that was zeroed reads as zero under `Forward`.
pub proof fn lemma_offset_reads_zero(raw: int)
    ensures
        calibrated_angle(raw, raw, Direction::Forward) == 0,
{
}

/// `Reverse` reports the complement of the `Forward` reading to a full turn,
/// `4096 - relative` in counts and 360 degrees minus the angle in angle units.
/// That is never the negation of the `Forward` reading.
pub proof fn lemma_reverse_complements_forward(raw: int, offset: int)
    ensures
        directed_counts(Direction::Reverse, relative_counts(raw, offset)) == 4096
            - directed_counts(Direction::Forward, relative_counts(raw, offset)),
        calibrated_angle(raw, offset, Direction::Reverse) == 360 * 512 - calibrated_angle(
            raw,
            offset,
            Direction::Forward,
        ),
        calibrated_angle(raw, offset, Direction::Reverse) != -calibrated_angle(
            raw,
            offset,
            Direction::Forward,
        ),
{
}

} // verus!
