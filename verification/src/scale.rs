//! Pitches, notes and the interval tables of scales and chords.
//!
//! A note is one of twelve pitches in an octave. Its semitone index counts
//! from the C of octave zero, and its frequency is the frequency of its pitch
//! in octave zero, doubled once per octave. Frequencies are whole numbers of
//! millihertz.

use vstd::prelude::*;

verus! {

/// The number of pitches in an octave.
pub const PITCHES_PER_OCTAVE: usize = 12;

/// The highest semitone index that a note can have: the G of octave ten.
pub const SEMITONE_MAX: u8 = 127;

/// One of the twelve pitches of an octave.
#[derive(Clone, Copy, Debug, PartialEq, Eq, Structural)]
pub enum Pitch {
    C,
    CSharp,
    D,
    DSharp,
    E,
    F,
    FSharp,
    G,
    GSharp,
    A,
    ASharp,
    B,
}

/// A signed distance in semitones.
#[derive(Clone, Copy, Debug, PartialEq, Eq, Structural)]
pub struct Semitones(pub i8);

/// A pitch in an octave.
#[derive(Clone, Copy, Debug, PartialEq, Eq, Structural)]
pub struct Note {
    pub pitch: Pitch,
    pub octave: u8,
}

/// The pitch that stands `i` semitones above C, for `i` below twelve, and the
/// pitch of `i` modulo twelve beyond.
pub open spec fn pitch_at(i: int) -> Pitch {
    let k = i % 12;
    if k == 0 {
        Pitch::C
    } else if k == 1 {
        Pitch::CSharp
    } else if k == 2 {
        Pitch::D
    } else if k == 3 {
        Pitch::DSharp
    } else if k == 4 {
        Pitch::E
    } else if k == 5 {
        Pitch::F
    } else if k == 6 {
        Pitch::FSharp
    } else if k == 7 {
        Pitch::G
    } else if k == 8 {
        Pitch::GSharp
    } else if k == 9 {
        Pitch::A
    } else if k == 10 {
        Pitch::ASharp
    } else {
        Pitch::B
    }
}

/// `x` doubled `n` times, capped at the largest `u32`.
pub open spec fn doubled_capped(x: int, n: nat) -> int
    decreases n,
{
    if n == 0 {
        if x > u32::MAX {
            u32::MAX as int
        } else {
            x
        }
    } else {
        let half = doubled_capped(x, (n - 1) as nat);
        if 2 * half > u32::MAX {
            u32::MAX as int
        } else {
            2 * half
        }
    }
}

impl Pitch {
    /// The number of semitones from C up to this pitch.
    pub open spec fn index(self) -> int {
        match self {
            Pitch::C => 0,
            Pitch::CSharp => 1,
            Pitch::D => 2,
            Pitch::DSharp => 3,
            Pitch::E => 4,
            Pitch::F => 5,
            Pitch::FSharp => 6,
            Pitch::G => 7,
            Pitch::GSharp => 8,
            Pitch::A => 9,
            Pitch::ASharp => 10,
            Pitch::B => 11,
        }
    }

    /// The frequency of the pitch in octave zero, in millihertz.
    pub open spec fn root_millihertz(self) -> int {
        match self {
            Pitch::C => 16350,
            Pitch::CSharp => 17320,
            Pitch::D => 18350,
            Pitch::DSharp => 19450,
            Pitch::E => 20600,
            Pitch::F => 21830,
            Pitch::FSharp => 23120,
            Pitch::G => 24500,
            Pitch::GSharp => 25960,
            Pitch::A => 27500,
            Pitch::ASharp => 29140,
            Pitch::B => 30870,
        }
    }

    /// The frequency of the pitch in the given octave, in millihertz: the
    /// frequency in octave zero doubled once per octave, capped where it
    /// leaves the range of `u32`.
    pub open spec fn millihertz_in_octave(self, octave: u8) -> int {
        doubled_capped(self.root_millihertz(), octave as nat)
    }

    /// The number of semitones from C up to this pitch.
    pub fn semitones_from_c(self) -> (i: u8)
        ensures
            i == self.index(),
            i < 12,
    {
        match self {
            Pitch::C => 0,
            Pitch::CSharp => 1,
            Pitch::D => 2,
            Pitch::DSharp => 3,
            Pitch::E => 4,
            Pitch::F => 5,
            Pitch::FSharp => 6,
            Pitch::G => 7,
            Pitch::GSharp => 8,
            Pitch::A => 9,
            Pitch::ASharp => 10,
            Pitch::B => 11,
        }
    }

    /// The pitch that stands `i` semitones above C, octaves folded away.
    pub fn from_semitones(i: u8) -> (p: Pitch)
        ensures
            p == pitch_at(i as int),
            p.index() == i % 12,
    {
        let k: u8 = i % 12;
        if k == 0 {
            Pitch::C
        } else if k == 1 {
            Pitch::CSharp
        } else if k == 2 {
            Pitch::D
        } else if k == 3 {
            Pitch::DSharp
        } else if k == 4 {
            Pitch::E
        } else if k == 5 {
            Pitch::F
        } else if k == 6 {
            Pitch::FSharp
        } else if k == 7 {
            Pitch::G
        } else if k == 8 {
            Pitch::GSharp
        } else if k == 9 {
            Pitch::A
        } else if k == 10 {
            Pitch::ASharp
        } else {
            Pitch::B
        }
    }

    /// The frequency of the pitch in octave zero, in millihertz.
    pub fn root_frequency(self) -> (f: u32)
        ensures
            f == self.root_millihertz(),
    {
        match self {
            Pitch::C => 16350,
            Pitch::CSharp => 17320,
            Pitch::D => 18350,
            Pitch::DSharp => 19450,
            Pitch::E => 20600,
            Pitch::F => 21830,
            Pitch::FSharp => 23120,
            Pitch::G => 24500,
            Pitch::GSharp => 25960,
            Pitch::A => 27500,
            Pitch::ASharp => 29140,
            Pitch::B => 30870,
        }
    }

    /// The frequency of the pitch in the given octave, in millihertz.
    pub fn freq_with_octave(self, octave: u8) -> (f: u32)
        ensures
            f == self.millihertz_in_octave(octave),
    {
        let mut f: u32 = self.root_frequency();
        let mut done: u8 = 0;
        while done < octave
            invariant
                done <= octave,
                f == doubled_capped(self.root_millihertz(), done as nat),
            decreases octave - done,
        {
            f = if f > u32::MAX / 2 {
                u32::MAX
            } else {
                2 * f
            };
            done += 1;
        }
        f
    }
}

impl From<Pitch> for u8 {
    fn from(pitch: Pitch) -> (i: u8)
        ensures
            i < 12,
    {
        pitch.semitones_from_c()
    }
}

impl vstd::std_specs::convert::FromSpecImpl<Pitch> for u8 {
    open spec fn obeys_from_spec() -> bool {
        true
    }

    open spec fn from_spec(pitch: Pitch) -> u8 {
        pitch.index() as u8
    }
}

impl From<u8> for Pitch {
    fn from(i: u8) -> (p: Pitch) {
        Pitch::from_semitones(i)
    }
}

impl vstd::std_specs::convert::FromSpecImpl<u8> for Pitch {
    open spec fn obeys_from_spec() -> bool {
        true
    }

    open spec fn from_spec(i: u8) -> Pitch {
        pitch_at(i as int)
    }
}

impl Note {
    /// The number of semitones from the C of octave zero up to this note.
    pub open spec fn semitone_index(self) -> int {
        self.octave * 12 + self.pitch.index()
    }

    /// The frequency of the note in millihertz.
    pub open spec fn millihertz(self) -> int {
        self.pitch.millihertz_in_octave(self.octave)
    }

    /// The note with the given semitone index.
    pub fn from_semitone_index(index: u8) -> (n: Note)
        ensures
            n.semitone_index() == index,
            n.pitch == pitch_at(index as int),
            n.octave == index / 12,
    {
        Note { pitch: Pitch::from_semitones(index), octave: index / 12 }
    }

    /// The frequency of the note in millihertz.
    pub fn freq_millihertz(&self) -> (f: u32)
        ensures
            f == self.millihertz(),
    {
        self.pitch.freq_with_octave(self.octave)
    }

    /// The note that stands `by` semitones above this one, or below it for a
    /// negative distance; `None` where that leaves the range from the C of
    /// octave zero to the G of octave ten.
    pub fn transposed(&self, by: Semitones) -> (r: Option<Note>)
        ensures
            match r {
                Some(n) => n.semitone_index() == self.semitone_index() + by.0,
                None => !(0 <= self.semitone_index() + by.0 <= SEMITONE_MAX),
            },
    {
        let here: i32 = (self.octave as i32) * 12 + (self.pitch.semitones_from_c() as i32);
        let there: i32 = here + (by.0 as i32);
        if there < 0 || there > SEMITONE_MAX as i32 {
            None
        } else {
            Some(Note::from_semitone_index(there as u8))
        }
    }
}

/// The Ionian mode: the major scale.
pub const IONIAN_INTERVALS: [i8; 7] = [0, 2, 4, 5, 7, 9, 11];

/// The Dorian mode.
pub const DORIAN_INTERVALS: [i8; 7] = [0, 2, 3, 5, 7, 9, 10];

/// The Phrygian mode.
pub const PHRYGIAN_INTERVALS: [i8; 7] = [0, 1, 3, 5, 7, 8, 10];

/// The Lydian mode.
pub const LYDIAN_INTERVALS: [i8; 7] = [0, 2, 4, 6, 7, 9, 11];

/// The Mixolydian mode.
pub const MIXOLYDIAN_INTERVALS: [i8; 7] = [0, 2, 4, 5, 7, 9, 10];

/// The Aeolian mode: the natural minor scale.
pub const AEOLIAN_INTERVALS: [i8; 7] = [0, 2, 3, 5, 7, 8, 10];

/// The Locrian mode.
pub const LOCRIAN_INTERVALS: [i8; 7] = [0, 1, 3, 5, 6, 8, 10];

/// The natural major scale.
pub const NATURAL_MAJOR_INTERVALS: [i8; 7] = [0, 2, 4, 5, 7, 9, 11];

/// The natural minor scale.
pub const NATURAL_MINOR_INTERVALS: [i8; 7] = [0, 2, 3, 5, 7, 8, 10];

/// The harmonic minor scale.
pub const HARMONIC_MINOR_INTERVALS: [i8; 7] = [0, 2, 3, 5, 7, 8, 11];

/// The melodic minor scale on the way up.
pub const MELODIC_MINOR_ASCENDING_INTERVALS: [i8; 7] = [0, 2, 3, 5, 7, 9, 11];

/// The melodic minor scale on the way down, from the octave.
pub const MELODIC_MINOR_DESCENDING_INTERVALS: [i8; 7] = [12, 10, 8, 7, 5, 3, 2];

/// The major triad.
pub const MAJOR_TRIAD_INTERVALS: [i8; 3] = [0, 4, 7];

/// The minor triad.
pub const MINOR_TRIAD_INTERVALS: [i8; 3] = [0, 3, 7];

/// The diminished triad.
pub const DIMINISHED_TRIAD_INTERVALS: [i8; 3] = [0, 3, 6];

/// The augmented triad.
pub const AUGMENTED_TRIAD_INTERVALS: [i8; 3] = [0, 4, 8];

/// The dominant seventh chord.
pub const DOMINANT_7TH_TETRAD_INTERVALS: [i8; 4] = [0, 4, 7, 10];

/// The major seventh chord.
pub const MAJOR_7TH_TETRAD_INTERVALS: [i8; 4] = [0, 4, 7, 11];

/// The minor seventh chord.
pub const MINOR_7TH_TETRAD_INTERVALS: [i8; 4] = [0, 3, 7, 10];

/// The minor major seventh chord.
pub const MINOR_MAJOR_7TH_TETRAD_INTERVALS: [i8; 4] = [0, 3, 7, 11];

/// The augmented major seventh chord.
pub const AUGMENTED_MAJOR_7TH_TETRAD_INTERVALS: [i8; 4] = [0, 4, 8, 11];

/// The augmented seventh chord.
pub const AUGMENTED_7TH_TETRAD_INTERVALS: [i8; 4] = [0, 4, 8, 10];

/// The diminished seventh chord.
pub const DIMINISHED_7TH_TETRAD_INTERVALS: [i8; 4] = [0, 3, 6, 9];

/// The half-diminished seventh chord.
pub const DIMINISHED_HALF_7TH_TETRAD_INTERVALS: [i8; 4] = [0, 3, 6, 10];

/// The major pentatonic scale.
pub const MAJOR_PENTATONIC_INTERVALS: [i8; 5] = [0, 2, 4, 7, 9];

/// The minor pentatonic scale.
pub const MINOR_PENTATONIC_INTERVALS: [i8; 5] = [0, 3, 5, 7, 10];

/// The Egyptian, or suspended, pentatonic scale.
pub const EGYPTIAN_PENTATONIC_INTERVALS: [i8; 5] = [0, 2, 5, 7, 10];

/// The blues major pentatonic scale.
pub const BLUES_MAJOR_PENTATONIC_INTERVALS: [i8; 5] = [0, 2, 5, 7, 9];

/// The blues minor pentatonic scale.
pub const BLUES_MINOR_PENTATONIC_INTERVALS: [i8; 5] = [0, 3, 5, 8, 10];

/// The number of scales of the major family.
pub const MAJOR_SCALE_COUNT: usize = 11;

/// The number of scales of the minor family.
pub const MINOR_SCALE_COUNT: usize = 16;

/// The intervals of the major-family scale with the given number, counted from zero.
pub open spec fn major_scale_intervals(index: int) -> Seq<i8> {
    if index == 0 {
        IONIAN_INTERVALS@
    } else if index == 1 {
        LYDIAN_INTERVALS@
    } else if index == 2 {
        MIXOLYDIAN_INTERVALS@
    } else if index == 3 {
        MAJOR_TRIAD_INTERVALS@
    } else if index == 4 {
        DOMINANT_7TH_TETRAD_INTERVALS@
    } else if index == 5 {
        MAJOR_7TH_TETRAD_INTERVALS@
    } else if index == 6 {
        AUGMENTED_MAJOR_7TH_TETRAD_INTERVALS@
    } else if index == 7 {
        DIMINISHED_7TH_TETRAD_INTERVALS@
    } else if index == 8 {
        MAJOR_PENTATONIC_INTERVALS@
    } else if index == 9 {
        EGYPTIAN_PENTATONIC_INTERVALS@
    } else {
        BLUES_MAJOR_PENTATONIC_INTERVALS@
    }
}

/// The intervals of the major-family scale with the given number, counted from zero.
pub fn major_scale(index: usize) -> (intervals: &'static [i8])
    requires
        index < MAJOR_SCALE_COUNT,
    ensures
        intervals@ == major_scale_intervals(index as int),
{
    if index == 0 {
        &IONIAN_INTERVALS
    } else if index == 1 {
        &LYDIAN_INTERVALS
    } else if index == 2 {
        &MIXOLYDIAN_INTERVALS
    } else if index == 3 {
        &MAJOR_TRIAD_INTERVALS
    } else if index == 4 {
        &DOMINANT_7TH_TETRAD_INTERVALS
    } else if index == 5 {
        &MAJOR_7TH_TETRAD_INTERVALS
    } else if index == 6 {
        &AUGMENTED_MAJOR_7TH_TETRAD_INTERVALS
    } else if index == 7 {
        &DIMINISHED_7TH_TETRAD_INTERVALS
    } else if index == 8 {
        &MAJOR_PENTATONIC_INTERVALS
    } else if index == 9 {
        &EGYPTIAN_PENTATONIC_INTERVALS
    } else {
        &BLUES_MAJOR_PENTATONIC_INTERVALS
    }
}

/// The intervals of the minor-family scale with the given number, counted from zero.
pub open spec fn minor_scale_intervals(index: int) -> Seq<i8> {
    if index == 0 {
        DORIAN_INTERVALS@
    } else if index == 1 {
        PHRYGIAN_INTERVALS@
    } else if index == 2 {
        AEOLIAN_INTERVALS@
    } else if index == 3 {
        LOCRIAN_INTERVALS@
    } else if index == 4 {
        HARMONIC_MINOR_INTERVALS@
    } else if index == 5 {
        MELODIC_MINOR_ASCENDING_INTERVALS@
    } else if index == 6 {
        MELODIC_MINOR_DESCENDING_INTERVALS@
    } else if index == 7 {
        MINOR_TRIAD_INTERVALS@
    } else if index == 8 {
        DIMINISHED_TRIAD_INTERVALS@
    } else if index == 9 {
        AUGMENTED_TRIAD_INTERVALS@
    } else if index == 10 {
        MINOR_7TH_TETRAD_INTERVALS@
    } else if index == 11 {
        MINOR_MAJOR_7TH_TETRAD_INTERVALS@
    } else if index == 12 {
        AUGMENTED_7TH_TETRAD_INTERVALS@
    } else if index == 13 {
        DIMINISHED_HALF_7TH_TETRAD_INTERVALS@
    } else if index == 14 {
        BLUES_MINOR_PENTATONIC_INTERVALS@
    } else {
        MINOR_PENTATONIC_INTERVALS@
    }
}

/// The intervals of the minor-family scale with the given number, counted from zero.
pub fn minor_scale(index: usize) -> (intervals: &'static [i8])
    requires
        index < MINOR_SCALE_COUNT,
    ensures
        intervals@ == minor_scale_intervals(index as int),
{
    if index == 0 {
        &DORIAN_INTERVALS
    } else if index == 1 {
        &PHRYGIAN_INTERVALS
    } else if index == 2 {
        &AEOLIAN_INTERVALS
    } else if index == 3 {
        &LOCRIAN_INTERVALS
    } else if index == 4 {
        &HARMONIC_MINOR_INTERVALS
    } else if index == 5 {
        &MELODIC_MINOR_ASCENDING_INTERVALS
    } else if index == 6 {
        &MELODIC_MINOR_DESCENDING_INTERVALS
    } else if index == 7 {
        &MINOR_TRIAD_INTERVALS
    } else if index == 8 {
        &DIMINISHED_TRIAD_INTERVALS
    } else if index == 9 {
        &AUGMENTED_TRIAD_INTERVALS
    } else if index == 10 {
        &MINOR_7TH_TETRAD_INTERVALS
    } else if index == 11 {
        &MINOR_MAJOR_7TH_TETRAD_INTERVALS
    } else if index == 12 {
        &AUGMENTED_7TH_TETRAD_INTERVALS
    } else if index == 13 {
        &DIMINISHED_HALF_7TH_TETRAD_INTERVALS
    } else if index == 14 {
        &BLUES_MINOR_PENTATONIC_INTERVALS
    } else {
        &MINOR_PENTATONIC_INTERVALS
    }
}

/// The triad on the given degree of the major scale, degrees counted from
/// zero: the distance of its root from the key, and its intervals. The
/// first, fourth and fifth degree carry major triads, the others minor ones.
pub fn major_chord(degree: usize) -> (chord: (Semitones, &'static [i8]))
    requires
        degree < 6,
    ensures
        chord.0.0 == NATURAL_MAJOR_INTERVALS@[degree as int],
        chord.1@ == if degree == 0 || degree == 3 || degree == 4 {
            MAJOR_TRIAD_INTERVALS@
        } else {
            MINOR_TRIAD_INTERVALS@
        },
{
    let root: Semitones = Semitones(NATURAL_MAJOR_INTERVALS[degree]);
    if degree == 0 || degree == 3 || degree == 4 {
        (root, &MAJOR_TRIAD_INTERVALS)
    } else {
        (root, &MINOR_TRIAD_INTERVALS)
    }
}

/// The triad on the given degree of the minor scale, degrees counted from
/// zero: the distance of its root from the key, and its intervals. The
/// second degree carries a diminished triad, the fifth a major one, the
/// others minor ones.
pub fn minor_chord(degree: usize) -> (chord: (Semitones, &'static [i8]))
    requires
        degree < 6,
    ensures
        chord.0.0 == NATURAL_MINOR_INTERVALS@[degree as int],
        chord.1@ == if degree == 1 {
            DIMINISHED_TRIAD_INTERVALS@
        } else if degree == 4 {
            MAJOR_TRIAD_INTERVALS@
        } else {
            MINOR_TRIAD_INTERVALS@
        },
{
    let root: Semitones = Semitones(NATURAL_MINOR_INTERVALS[degree]);
    if degree == 1 {
        (root, &DIMINISHED_TRIAD_INTERVALS)
    } else if degree == 4 {
        (root, &MAJOR_TRIAD_INTERVALS)
    } else {
        (root, &MINOR_TRIAD_INTERVALS)
    }
}

} // verus!
