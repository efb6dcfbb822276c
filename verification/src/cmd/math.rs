//! Numeric primitives: CRC-16/MODBUS and the firmware page count.

use vstd::prelude::*;

verus! {

/// One shift of the reflected CRC register: the low bit leaves, and where
/// it was set the polynomial 0xA001 is folded in.
pub open spec fn crc16_shift(crc: u16) -> u16 {
    if crc & 1 == 1 {
        (crc >> 1) ^ 0xA001
    } else {
        crc >> 1
    }
}

/// `n` shifts in a row.
pub open spec fn crc16_shifts(crc: u16, n: nat) -> u16
    decreases n,
{
    if n == 0 {
        crc
    } else {
        crc16_shift(crc16_shifts(crc, (n - 1) as nat))
    }
}

/// The register after one more message byte.
pub open spec fn crc16_update(crc: u16, byte: u8) -> u16 {
    crc16_shifts(crc ^ (byte as u16), 8)
}

/// CRC-16/MODBUS of a message: register 0xFFFF at the start, every byte
/// folded in from first to last, no final inversion.
pub open spec fn crc16_spec(bytes: Seq<u8>) -> u16
    decreases bytes.len(),
{
    if bytes.len() == 0 {
        0xFFFF
    } else {
        crc16_update(crc16_spec(bytes.drop_last()), bytes.last())
    }
}

/// A CRC-16/MODBUS value.
#[derive(Clone, Copy, Debug)]
pub struct CRC16(u16);

impl CRC16 {
    /// The sixteen bits held.
    pub closed spec fn value(self) -> u16 {
        self.0
    }

    pub fn new(v: u16) -> (crc: CRC16)
        ensures
            crc.value() == v,
    {
        CRC16(v)
    }

    /// The CRC of `s`.
    pub fn calculate(s: &[u8]) -> (crc: CRC16)
        ensures
            crc.value() == crc16_spec(s@),
    {
        let mut reg: u16 = 0xFFFF;
        let mut i: usize = 0;
        while i < s.len()
            invariant
                i <= s.len(),
                reg == crc16_spec(s@.take(i as int)),
            decreases s.len() - i,
        {
            let ghost start: u16 = reg ^ (s[i as int] as u16);
            reg = reg ^ (s[i] as u16);
            let mut k: u8 = 0;
            while k < 8
                invariant
                    k <= 8,
                    reg == crc16_shifts(start, k as nat),
                decreases 8 - k,
            {
                reg = if reg & 1 == 1 {
                    (reg >> 1) ^ 0xA001
                } else {
                    reg >> 1
                };
                k = k + 1;
            }
            proof {
                let next = s@.take(i + 1);
                assert(next.drop_last() == s@.take(i as int));
                assert(next.last() == s@[i as int]);
            }
            i = i + 1;
        }
        proof {
            assert(s@.take(s.len() as int) == s@);
        }
        CRC16(reg)
    }

    #[inline]
    pub fn as_u16(&self) -> (v: u16)
        ensures
            v == self.value(),
    {
        self.0
    }
}

impl From<CRC16> for u16 {
    #[inline]
    fn from(crc: CRC16) -> (v: u16) {
        crc.0
    }
}

impl vstd::std_specs::convert::FromSpecImpl<CRC16> for u16 {
    open spec fn obeys_from_spec() -> bool {
        true
    }

    open spec fn from_spec(crc: CRC16) -> u16 {
        crc.value()
    }
}

/// The CRC does not depend on anything but the message: equal messages
/// have equal CRCs.
pub proof fn lemma_crc16_deterministic(a: Seq<u8>, b: Seq<u8>)
    requires
        a =~= b,
    ensures
        crc16_spec(a) == crc16_spec(b),
{
}

/// The page count the bootloader is told for an image of `len` bytes:
/// one less than the number of pages where the pages are all full, the
/// number of full pages otherwise.
pub open spec fn num_pages_spec(len: nat) -> int {
    if len % 256 == 0 {
        len / 256 - 1
    } else {
        (len / 256) as int
    }
}

/// The page count of an image of `hex_file_sz` bytes. An empty image has
/// none, and the count has to fit the sixteen bits it is sent in.
pub fn calculate_num_pages(hex_file_sz: usize) -> (pages: u16)
    requires
        0 < hex_file_sz,
        num_pages_spec(hex_file_sz as nat) <= u16::MAX,
    ensures
        pages == num_pages_spec(hex_file_sz as nat),
{
    let page_count: usize = if hex_file_sz % 256 == 0 {
        (hex_file_sz / 256) - 1
    } else {
        hex_file_sz / 256
    };
    page_count as u16
}

/// An image of `n` full pages and nothing more counts `n - 1`.
pub proof fn lemma_num_pages_full(n: nat)
    requires
        n > 0,
    ensures
        num_pages_spec(n * 256) == n - 1,
{
    assert((n * 256) % 256 == 0) by (nonlinear_arith);
    assert((n * 256) / 256 == n) by (nonlinear_arith);
}

/// An image that ends in a partial page counts its full pages.
pub proof fn lemma_num_pages_partial(len: nat)
    requires
        len % 256 != 0,
    ensures
        num_pages_spec(len) == len / 256,
{
}

/// The sixteen-bit value of two bytes, the high one first.
pub open spec fn be16(hi: u8, lo: u8) -> u16 {
    (hi as int * 256 + lo as int) as u16
}

/// The high byte of a sixteen-bit value.
pub open spec fn hi_byte(x: u16) -> u8 {
    (x / 256) as u8
}

/// The low byte of a sixteen-bit value.
pub open spec fn lo_byte(x: u16) -> u8 {
    (x % 256) as u8
}

/// A CRC as it travels: low byte, high byte.
pub open spec fn crc_bytes(crc: u16) -> Seq<u8> {
    seq![lo_byte(crc), hi_byte(crc)]
}

/// `be16` in executable form.
pub fn word(hi: u8, lo: u8) -> (w: u16)
    ensures
        w == be16(hi, lo),
{
    (hi as u16) * 256 + (lo as u16)
}

/// Splitting a value into its bytes and joining them gives it back.
pub proof fn lemma_be16_of_bytes(x: u16)
    ensures
        be16(hi_byte(x), lo_byte(x)) == x,
{
}

/// Joining two bytes and splitting the value gives them back.
pub proof fn lemma_bytes_of_be16(hi: u8, lo: u8)
    ensures
        hi_byte(be16(hi, lo)) == hi,
        lo_byte(be16(hi, lo)) == lo,
{
}

} // verus!
