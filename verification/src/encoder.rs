//! Writing values to the wire.

use vstd::prelude::*;
use crate::cmd::math::{crc16_spec, crc_bytes, CRC16};

verus! {

/// A message body and the CRC that closes it. The CRC covers everything
/// the buffer holds by that point: what was there before, and the body.
pub open spec fn sealed(prefix: Seq<u8>, body: Seq<u8>) -> Seq<u8> {
    body + crc_bytes(crc16_spec(prefix + body))
}

/// A value that can be appended to an outgoing buffer.
pub trait TechAirEncoder {
    /// Whether the value may be sent at all.
    spec fn encodable(&self) -> bool;

    /// The bytes that are appended to a buffer that holds `prefix`.
    spec fn encoding(&self, prefix: Seq<u8>) -> Seq<u8>;

    fn write_bytes(&self, buf: &mut Vec<u8>)
        requires
            self.encodable(),
        ensures
            final(buf)@ == old(buf)@ + self.encoding(old(buf)@),
    ;
}

impl TechAirEncoder for Vec<u8> {
    open spec fn encodable(&self) -> bool {
        true
    }

    open spec fn encoding(&self, prefix: Seq<u8>) -> Seq<u8> {
        self@
    }

    fn write_bytes(&self, buf: &mut Vec<u8>) {
        let ghost before = buf@;
        let mut i: usize = 0;
        while i < self.len()
            invariant
                i <= self.len(),
                buf@ == before + self@.take(i as int),
            decreases self.len() - i,
        {
            buf.push(self[i]);
            proof {
                assert(self@.take(i + 1) == self@.take(i as int).push(self@[i as int]));
            }
            i = i + 1;
        }
        proof {
            assert(self@.take(self.len() as int) == self@);
        }
    }
}

/// Closes the message in `buf` with the CRC of all that `buf` holds, low
/// byte first.
pub fn append_crc(buf: &mut Vec<u8>)
    ensures
        final(buf)@ == old(buf)@ + crc_bytes(crc16_spec(old(buf)@)),
{
    let crc: u16 = CRC16::calculate(buf.as_slice()).as_u16();
    buf.push((crc % 256) as u8);
    buf.push((crc / 256) as u8);
    proof {
        assert(buf@ == old(buf)@ + crc_bytes(crc16_spec(old(buf)@)));
    }
}

/// The bytes of `v` after the first `from`.
pub fn tail(v: &Vec<u8>, from: usize) -> (t: Vec<u8>)
    requires
        from <= v.len(),
    ensures
        t@ == v@.skip(from as int),
{
    let mut t: Vec<u8> = Vec::new();
    let mut i: usize = from;
    while i < v.len()
        invariant
            from <= i <= v.len(),
            t@ == v@.subrange(from as int, i as int),
        decreases v.len() - i,
    {
        t.push(v[i]);
        proof {
            assert(v@.subrange(from as int, i + 1) == v@.subrange(from as int, i as int).push(v@[i as int]));
        }
        i = i + 1;
    }
    t
}

} // verus!
