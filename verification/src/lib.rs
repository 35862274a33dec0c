//! Procedural music generation and audio synthesis on fixed-point arithmetic.
//!
//! The crate has two halves. The notation half stores notes on a timeline of
//! pulses per quarter note ([`ppqn`]), packs each note into three to six bytes
//! ([`kcint`], [`encoding`]), collects them in bar buffers ([`bars`]), lays
//! them out as the events of a MIDI file ([`midi`]) and evolves whole phrases
//! from random draws ([`phrdat`], [`euc`], [`random`]). The audio half turns
//! pitches ([`scale`]) into phase-accumulator oscillators ([`tones`]) and
//! mixes scheduled notes ([`track`], [`queue`]) into buffers of stereo
//! samples ([`sample`]).
//!
//! Every executable function carries a contract over the mathematical model
//! of its type, and the laws that relate several functions (the round trips
//! of the codec, the filling of a bar buffer, the hits of a Euclidean
//! pattern) are stated as public proof functions next to them. Two outside
//! crates are called, `heapless` for the note queue and `rand` for the random
//! draws, each through a handful of small functions whose contracts are
//! believed rather than proved.

pub mod ppqn;
pub mod kcint;
pub mod scale;
pub mod encoding;
pub mod bars;
pub mod midi;
pub mod euc;
pub mod random;
pub mod phrdat;
pub mod sample;
pub mod tones;
pub mod queue;
pub mod track;

pub use crate::sample::StereoSample;
pub use crate::track::Note;
pub use crate::track::Track;
