//! The variable-length integer of the note codec.
//!
//! A value takes one byte when the high bit of its first byte is clear and
//! two bytes when it is set. The long form keeps its first byte as it stands
//! on the wire, flag bit included, so that decoding and encoding reproduce
//! each other bit for bit.

use vstd::prelude::*;

verus! {

/// What can go wrong while encoding or decoding.
#[derive(Clone, Copy, Debug, PartialEq, Eq, Structural)]
pub enum EncError {
    /// A value lies outside the range that its field allows.
    ValueOutOfBounds,
    /// Too few bytes to read a value from, or too little room to write one.
    EndOfStream,
}

/// A one- or two-byte integer.
#[derive(Clone, Copy, Debug, PartialEq, Eq, Structural)]
pub enum KCInt {
    /// Two bytes. `lower` is the first byte on the wire and carries the flag
    /// bit; `upper` follows it.
    Long { upper: u8, lower: u8 },
    /// One byte with the flag bit clear.
    Short(u8),
}

impl KCInt {
    /// A value that has an encoding of its own: the flag bit of the first
    /// byte says which form it is.
    pub open spec fn wf(self) -> bool {
        match self {
            KCInt::Long { upper, lower } => lower >= 0x80,
            KCInt::Short(b) => b < 0x80,
        }
    }

    /// The bytes of the value, in wire order.
    pub open spec fn encoding(self) -> Seq<u8> {
        match self {
            KCInt::Long { upper, lower } => seq![lower, upper],
            KCInt::Short(b) => seq![b],
        }
    }

    /// The number that the value carries: seven bits in the short form,
    /// fourteen in the long form with `upper` as the high half.
    pub open spec fn payload(self) -> int {
        match self {
            KCInt::Long { upper, lower } => upper * 128 + lower % 128,
            KCInt::Short(b) => b as int,
        }
    }

    /// What the front of a byte sequence decodes to, with the number of bytes
    /// consumed; `None` where the sequence ends too early.
    pub open spec fn decode(s: Seq<u8>) -> Option<(KCInt, int)> {
        if s.len() == 0 {
            None
        } else if s[0] >= 0x80 {
            if s.len() >= 2 {
                Some((KCInt::Long { upper: s[1], lower: s[0] }, 2))
            } else {
                None
            }
        } else {
            Some((KCInt::Short(s[0]), 1))
        }
    }

    /// Reads one value from the front of `sli` and returns it with the bytes
    /// that follow it.
    pub fn take_from_slice(sli: &[u8]) -> (r: Option<(KCInt, &[u8])>)
        ensures
            match KCInt::decode(sli@) {
                Some((k, n)) => r matches Some((value, rest)) && value == k && rest@
                    == sli@.subrange(n, sli@.len() as int),
                None => r is None,
            },
    {
        if sli.len() < 1 {
            return None;
        }
        let lower: u8 = sli[0];
        assert((0x80u8 & lower) != 0 <==> lower >= 0x80) by (bit_vector);
        if (0x80 & lower) != 0 {
            if sli.len() < 2 {
                return None;
            }
            let upper: u8 = sli[1];
            let remain = vstd::slice::slice_subrange(sli, 2, sli.len());
            Some((KCInt::Long { upper, lower }, remain))
        } else {
            let remain = vstd::slice::slice_subrange(sli, 1, sli.len());
            Some((KCInt::Short(lower), remain))
        }
    }

    /// Writes the value to the front of `sli` and returns the room that is
    /// left behind it. A buffer that is too small is left as it was.
    pub fn write_to_slice<'a>(&self, sli: &'a mut [u8]) -> (r: Result<&'a mut [u8], EncError>)
        ensures
            old(sli)@.len() < self.encoding().len() ==> r == Err::<&mut [u8], EncError>(
                EncError::EndOfStream,
            ) && final(sli)@ == old(sli)@,
            old(sli)@.len() >= self.encoding().len() ==> r is Ok && r->Ok_0@ == old(sli)@.subrange(
                self.encoding().len() as int,
                old(sli)@.len() as int,
            ) && final(sli)@ == self.encoding() + final(r->Ok_0)@,
    {
        match self {
            KCInt::Long { upper, lower } => {
                if sli.len() < 2 {
                    return Err(EncError::EndOfStream);
                }
                let (dest, rem) = sli.split_at_mut(2);
                dest[0] = *lower;
                dest[1] = *upper;
                Ok(rem)
            },
            KCInt::Short(lower) => {
                if sli.len() < 1 {
                    return Err(EncError::EndOfStream);
                }
                let (dest, rem) = sli.split_at_mut(1);
                dest[0] = *lower;
                Ok(rem)
            },
        }
    }
}

/// Encoding a well-formed value and decoding the bytes gives the value back,
/// whatever follows it on the wire.
pub proof fn lemma_kcint_encode_decode(k: KCInt, rest: Seq<u8>)
    requires
        k.wf(),
    ensures
        KCInt::decode(k.encoding() + rest) == Some((k, k.encoding().len() as int)),
{
}

/// Whatever decodes is well formed, and encoding it gives back exactly the
/// bytes that were consumed.
pub proof fn lemma_kcint_decode_encode(s: Seq<u8>)
    requires
        KCInt::decode(s) is Some,
    ensures
        KCInt::decode(s)->Some_0.0.wf(),
        KCInt::decode(s)->Some_0.0.encoding() == s.subrange(0, KCInt::decode(s)->Some_0.1),
        0 < KCInt::decode(s)->Some_0.1 <= s.len(),
{
}

/// A flagged first byte with nothing behind it does not decode.
pub proof fn lemma_kcint_lone_flag_byte(b: u8)
    requires
        b & 0x80 != 0,
    ensures
        KCInt::decode(seq![b]) is None,
{
    assert((b & 0x80u8) != 0 <==> b >= 0x80) by (bit_vector);
}

} // verus!
