//! Stereo samples.

use vstd::prelude::*;
use vstd::wrapping::i16_specs;

verus! {

/// One sample on each of two channels, as signed 16-bit words.
#[derive(Clone, Copy, Debug, PartialEq, Eq, Structural)]
pub struct StereoSample {
    pub left: i16,
    pub right: i16,
}

/// A signed 16-bit word as an unsigned number: its two's complement.
pub open spec fn word_bits(word: i16) -> int {
    if word >= 0 {
        word as int
    } else {
        word + 0x1_0000
    }
}

impl StereoSample {
    /// The sample with `samp` added on both channels, wrapping round.
    pub open spec fn mixed(self, samp: i16) -> StereoSample {
        StereoSample {
            left: i16_specs::wrapping_add(self.left, samp),
            right: i16_specs::wrapping_add(self.right, samp),
        }
    }

    /// The sample as four bytes: the left word, then the right word, each
    /// with its low byte first.
    pub open spec fn le_bytes(self) -> Seq<u8> {
        seq![
            (word_bits(self.left) % 256) as u8,
            (word_bits(self.left) / 256) as u8,
            (word_bits(self.right) % 256) as u8,
            (word_bits(self.right) / 256) as u8,
        ]
    }

    /// Adds `samp` on both channels, wrapping round.
    pub fn mix(&mut self, samp: i16)
        ensures
            *final(self) == old(self).mixed(samp),
    {
        self.left = self.left.wrapping_add(samp);
        self.right = self.right.wrapping_add(samp);
    }

    /// The sample as four bytes: the left word, then the right word, each
    /// with its low byte first.
    pub fn to_le_bytes(&self) -> (bytes: [u8; 4])
        ensures
            bytes@ == self.le_bytes(),
    {
        let left: i16 = self.left;
        let right: i16 = self.right;
        let l: u16 = #[verifier::truncate] (left as u16);
        let r: u16 = #[verifier::truncate] (right as u16);
        assert(l == word_bits(left)) by (bit_vector)
            requires
                l == left as u16,
        ;
        assert(r == word_bits(right)) by (bit_vector)
            requires
                r == right as u16,
        ;
        let bytes: [u8; 4] = [(l % 256) as u8, (l / 256) as u8, (r % 256) as u8, (r / 256) as u8];
        assert(bytes@ == self.le_bytes());
        bytes
    }
}

} // verus!
