//! A forward-only reader over an in-memory instruction stream.
use byteorder::ByteOrder;
use vstd::prelude::*;

verus! {

/// The value of byte `b` read as a two's complement 8-bit integer.
pub open spec fn sign8(b: u8) -> int {
    if b < 128 { b as int } else { b as int - 256 }
}

/// The value of the little-endian pair `lo`, `hi` read as a two's complement
/// 16-bit integer.
pub open spec fn le_i16(lo: u8, hi: u8) -> int {
    let u = hi as int * 256 + lo as int;
    if u < 32768 { u } else { u - 65536 }
}

/// Relies on byteorder's `LittleEndian::read_i16`: the first byte is the low
/// half of the two's complement value, the second the high half.
#[verifier::external_body]
fn read_i16_le_pair(lo: u8, hi: u8) -> (r: i16)
    ensures
        r as int == le_i16(lo, hi),
{
    byteorder::LittleEndian::read_i16(&[lo, hi])
}

/// A reader that hands out the bytes of `bytes` in order, from `pos` on.
pub struct ByteCursor<'a> {
    pub bytes: &'a [u8],
    pub pos: usize,
}

impl<'a> ByteCursor<'a> {
    /// A cursor at the start of `bytes`.
    pub fn new(bytes: &'a [u8]) -> (r: ByteCursor<'a>)
        ensures
            r.bytes@ == bytes@,
            r.pos == 0,
            r.wf(),
    {
        ByteCursor { bytes, pos: 0 }
    }

    /// The position never passes the end of the stream.
    pub open spec fn wf(&self) -> bool {
        self.pos <= self.bytes@.len()
    }

    /// The next byte, or `None` at the end of the stream.
    pub fn read_u8(&mut self) -> (r: Option<u8>)
        requires
            old(self).wf(),
        ensures
            final(self).wf(),
            final(self).bytes == old(self).bytes,
            old(self).pos < old(self).bytes@.len() ==> r == Some(old(self).bytes@[old(self).pos as int])
                && final(self).pos == old(self).pos + 1,
            old(self).pos >= old(self).bytes@.len() ==> r is None && final(self).pos == old(self).pos,
    {
        if self.pos < self.bytes.len() {
            let b = self.bytes[self.pos];
            self.pos = self.pos + 1;
            Some(b)
        } else {
            None
        }
    }

    /// The next byte read as a signed 8-bit value, or `None` at the end of
    /// the stream.
    pub fn read_i8(&mut self) -> (r: Option<i8>)
        requires
            old(self).wf(),
        ensures
            final(self).wf(),
            final(self).bytes == old(self).bytes,
            old(self).pos < old(self).bytes@.len() ==> (r matches Some(v)
                && v as int == sign8(old(self).bytes@[old(self).pos as int])
                && final(self).pos == old(self).pos + 1),
            old(self).pos >= old(self).bytes@.len() ==> r is None && final(self).pos == old(self).pos,
    {
        match self.read_u8() {
            Some(b) => {
                if b < 128 {
                    Some(b as i8)
                } else {
                    Some((b as i16 - 256) as i8)
                }
            },
            None => None,
        }
    }

    /// The next two bytes read as a little-endian signed 16-bit value, or
    /// `None` when fewer than two are left; then nothing is consumed.
    pub fn read_i16_le(&mut self) -> (r: Option<i16>)
        requires
            old(self).wf(),
        ensures
            final(self).wf(),
            final(self).bytes == old(self).bytes,
            old(self).pos + 2 <= old(self).bytes@.len() ==> (r matches Some(v)
                && v as int == le_i16(
                    old(self).bytes@[old(self).pos as int],
                    old(self).bytes@[old(self).pos + 1],
                )
                && final(self).pos == old(self).pos + 2),
            old(self).pos + 2 > old(self).bytes@.len() ==> r is None && final(self).pos == old(self).pos,
    {
        if self.bytes.len() - self.pos >= 2 {
            let lo = self.bytes[self.pos];
            let hi = self.bytes[self.pos + 1];
            self.pos = self.pos + 2;
            Some(read_i16_le_pair(lo, hi))
        } else {
            None
        }
    }
}

} // verus!
