//! Musical time in pulses per quarter note.
//!
//! Every duration is an exact number of ticks. A quarter note lasts [`PPQN`]
//! ticks, and a timeline holds at most [`QN_BEATS_MAX`] quarter notes, that is
//! sixteen measures of four beats.

use vstd::prelude::*;

verus! {

/// Ticks in a quarter note.
pub const PPQN: u16 = 192;

/// Ticks in a whole note.
pub const PPQN_WHOLE: u16 = PPQN * 4;

/// Ticks in a half note.
pub const PPQN_HALF: u16 = PPQN_WHOLE / 2;

/// Ticks in a quarter note.
pub const PPQN_QUARTER: u16 = PPQN_WHOLE / 4;

/// Ticks in an eighth note.
pub const PPQN_EIGHTH: u16 = PPQN_WHOLE / 8;

/// Ticks in a sixteenth note.
pub const PPQN_16TH: u16 = PPQN_WHOLE / 16;

/// Ticks in a thirty-second note.
pub const PPQN_32ND: u16 = PPQN_WHOLE / 32;

/// Ticks in a sixty-fourth note.
pub const PPQN_64TH: u16 = PPQN_WHOLE / 64;

/// Ticks in one note of a thirty-second triplet.
pub const PPQN_32ND_TRIPLET: u16 = (PPQN_32ND * 2) / 3;

/// Ticks in one note of a sixteenth triplet.
pub const PPQN_16TH_TRIPLET: u16 = (PPQN_16TH * 2) / 3;

/// Ticks in one note of an eighth triplet.
pub const PPQN_EIGHTH_TRIPLET: u16 = (PPQN_EIGHTH * 2) / 3;

/// Ticks in one note of a quarter triplet.
pub const PPQN_QUARTER_TRIPLET: u16 = (PPQN_QUARTER * 2) / 3;

/// Ticks in one note of a half triplet.
pub const PPQN_HALF_TRIPLET: u16 = (PPQN_HALF * 2) / 3;

/// Quarter notes on a full timeline.
pub const QN_BEATS_MAX: u16 = 64;

/// Eighth notes on a full timeline.
pub const EIGHTH_BEATS_MAX: u8 = 128;

/// Ticks on a full timeline: the first tick that no longer belongs to it.
pub const PPQN_MAX: u16 = QN_BEATS_MAX * PPQN_QUARTER;

/// Fewest bytes that an encoded note takes.
pub const MIN_ENCODING_SIZE: usize = 3;

/// Most bytes that an encoded note takes.
pub const MAX_ENCODING_SIZE: usize = 6;

/// A note duration: a named value, a number of quarter notes, or raw ticks.
#[derive(Clone, Copy, Debug, PartialEq, Eq, Structural)]
pub enum Length {
    TripletThirtySeconds,
    TripletSixteenth,
    TripletEighth,
    TripletQuarter,
    TripletHalf,
    SixtyFourth,
    ThirtySecond,
    Sixteenth,
    Eighth,
    Quarter,
    Half,
    Whole,
    QuarterCount(u8),
    PPQNCount(u16),
}

impl Length {
    /// The duration in ticks.
    pub open spec fn ticks(self) -> int {
        match self {
            Length::TripletThirtySeconds => 16,
            Length::TripletSixteenth => 32,
            Length::TripletEighth => 64,
            Length::TripletQuarter => 128,
            Length::TripletHalf => 256,
            Length::SixtyFourth => 12,
            Length::ThirtySecond => 24,
            Length::Sixteenth => 48,
            Length::Eighth => 96,
            Length::Quarter => 192,
            Length::Half => 384,
            Length::Whole => 768,
            Length::QuarterCount(n) => n * 192,
            Length::PPQNCount(n) => n as int,
        }
    }

    /// Converts the duration to ticks. The conversion is total: a count of
    /// quarter notes cannot leave the range of `u16`.
    pub fn to_ppqn(&self) -> (t: u16)
        ensures
            t == self.ticks(),
    {
        match self {
            Length::TripletThirtySeconds => PPQN_32ND_TRIPLET,
            Length::TripletSixteenth => PPQN_16TH_TRIPLET,
            Length::TripletEighth => PPQN_EIGHTH_TRIPLET,
            Length::TripletQuarter => PPQN_QUARTER_TRIPLET,
            Length::TripletHalf => PPQN_HALF_TRIPLET,
            Length::SixtyFourth => PPQN_64TH,
            Length::ThirtySecond => PPQN_32ND,
            Length::Sixteenth => PPQN_16TH,
            Length::Eighth => PPQN_EIGHTH,
            Length::Quarter => PPQN_QUARTER,
            Length::Half => 2 * PPQN_QUARTER,
            Length::Whole => 4 * PPQN_QUARTER,
            Length::QuarterCount(n) => (*n as u16) * PPQN_QUARTER,
            Length::PPQNCount(n) => *n,
        }
    }
}

} // verus!
