//! The firmware package: decryption, the header, the Intel-hex payload
//! and the ROM image it describes.

use vstd::prelude::*;
use vstd::slice::{slice_subrange, slice_to_vec};
use vstd::string::*;
use vstd::utf8::valid_utf8;
use crate::cmd::math::{crc16_spec, CRC16};
use crate::cmd::text::{string_from_utf8, utf8_text};
use crate::serial::{fail, ErrorKind, TechAirError};

verus! {

/// The error of the cipher crate. Nothing is read from it.
#[verifier::external_type_specification]
#[verifier::external_body]
pub struct ExSymmetricCipherError(::crypto::symmetriccipher::SymmetricCipherError);

/// AES-128 in CBC mode, run backwards over whole blocks: the plain
/// blocks of `data` under `key` and `iv`, padding and all.
pub uninterp spec fn aes128_cbc_plain(data: Seq<u8>, key: Seq<u8>, iv: Seq<u8>) -> Seq<u8>;

/// `aes::cbc_decryptor` of the cipher crate with a key of 128 bits and
/// no padding scheme, and one call of `decrypt` on all of `data` with an
/// output buffer of the same length. The crate succeeds exactly on whole
/// blocks of sixteen bytes, and gives out as many bytes as it took in.
/// Trusted, not proved.
#[verifier::external_body]
fn cbc_decrypt_blocks(data: &[u8], key: &[u8], iv: &[u8]) -> (r: Result<
    Vec<u8>,
    ::crypto::symmetriccipher::SymmetricCipherError,
>)
    requires
        key@.len() == 16,
        iv@.len() == 16,
    ensures
        r is Ok <==> data@.len() % 16 == 0,
        r matches Ok(plain) ==> plain@ == aes128_cbc_plain(data@, key@, iv@) && plain@.len()
            == data@.len(),
{
    let mut dec = ::crypto::aes::cbc_decryptor(
        ::crypto::aes::KeySize::KeySize128,
        key,
        iv,
        ::crypto::blockmodes::NoPadding,
    );
    let mut out = vec![0u8; data.len()];
    let mut input = ::crypto::buffer::RefReadBuffer::new(data);
    let mut output = ::crypto::buffer::RefWriteBuffer::new(&mut out);
    match dec.decrypt(&mut input, &mut output, true) {
        Ok(_) => Ok(out),
        Err(e) => Err(e),
    }
}

/// The key of the firmware package.
pub open spec fn fw_key_spec() -> Seq<u8> {
    seq![1u8, 2, 3, 4, 5, 6, 7, 8, 9, 16, 17, 18, 19, 20, 21, 22]
}

/// The key of the firmware package. The initial vector is the same
/// sixteen bytes.
pub fn fw_key() -> (key: [u8; 16])
    ensures
        key@ == fw_key_spec(),
{
    let key: [u8; 16] = [1, 2, 3, 4, 5, 6, 7, 8, 9, 16, 17, 18, 19, 20, 21, 22];
    proof {
        assert(key@ =~= fw_key_spec());
    }
    key
}

/// Whether the last `n` bytes of `plain` all hold `n`.
pub open spec fn padded_with(plain: Seq<u8>, n: u8) -> bool {
    &&& 1 <= n <= 16
    &&& n <= plain.len()
    &&& forall|i: int| plain.len() - n <= i < plain.len() ==> plain[i] == n
}

/// Plain blocks without their PKCS#7 padding: the last byte says how
/// many bytes of padding there are, one to sixteen, and each of them
/// holds that number. Nothing is taken from empty input.
pub open spec fn pkcs7_unpad(plain: Seq<u8>) -> Option<Seq<u8>> {
    if plain.len() == 0 {
        Some(plain)
    } else if padded_with(plain, plain.last()) {
        Some(plain.take(plain.len() - plain.last()))
    } else {
        None
    }
}

/// Decryption of a package: whole blocks only, and well-formed padding.
pub open spec fn decrypt_spec(data: Seq<u8>, key: Seq<u8>, iv: Seq<u8>) -> Result<Seq<u8>, TechAirError> {
    if data.len() % 16 != 0 {
        fail(ErrorKind::FwDecrypt)
    } else {
        match pkcs7_unpad(aes128_cbc_plain(data, key, iv)) {
            Some(p) => Ok(p),
            None => fail(ErrorKind::FwDecrypt),
        }
    }
}

/// Takes the PKCS#7 padding off decrypted blocks.
pub fn pkcs7_strip(plain: Vec<u8>) -> (r: Result<Vec<u8>, TechAirError>)
    ensures
        match r {
            Ok(p) => pkcs7_unpad(plain@) == Some(p@),
            Err(e) => pkcs7_unpad(plain@) is None && e.kind == ErrorKind::FwDecrypt,
        },
{
    let len: usize = plain.len();
    if len == 0 {
        return Ok(plain);
    }
    let n: u8 = plain[len - 1];
    if n < 1 || n > 16 || (n as usize) > len {
        return Err(TechAirError::new(ErrorKind::FwDecrypt));
    }
    let first: usize = len - (n as usize);
    let mut i: usize = first;
    while i < len
        invariant
            first <= i <= len,
            len == plain.len(),
            1 <= n <= 16,
            first == len - n,
            n == plain[len - 1],
            forall|j: int| first <= j < i ==> plain[j] == n,
        decreases len - i,
    {
        if plain[i] != n {
            proof {
                assert(plain@.last() == n);
                assert(plain@[i as int] != n);
                assert(!padded_with(plain@, n));
            }
            return Err(TechAirError::new(ErrorKind::FwDecrypt));
        }
        i = i + 1;
    }
    let mut out: Vec<u8> = plain;
    out.truncate(first);
    proof {
        assert(plain@.last() == n);
        assert(padded_with(plain@, n));
        assert(out@ =~= plain@.take(first as int));
    }
    Ok(out)
}

/// Decrypts a firmware package: AES-128 in CBC mode with PKCS#7 padding.
pub fn decrypt(data: &[u8], key: &[u8], iv: &[u8]) -> (r: Result<Vec<u8>, TechAirError>)
    requires
        key@.len() == 16,
        iv@.len() == 16,
    ensures
        match r {
            Ok(p) => decrypt_spec(data@, key@, iv@) == Ok::<Seq<u8>, TechAirError>(p@),
            Err(e) => decrypt_spec(data@, key@, iv@) == Err::<Seq<u8>, TechAirError>(e),
        },
{
    match cbc_decrypt_blocks(data, key, iv) {
        Ok(plain) => pkcs7_strip(plain),
        Err(_) => Err(TechAirError::new(ErrorKind::FwDecrypt)),
    }
}

/// The ROM window of the device, first and last address, by the version
/// of its bootloader.
pub open spec fn rom_window(bootloader_ver: u8) -> (u32, u32) {
    if bootloader_ver > 3 {
        (0x1d006000, 0x1d07ffff)
    } else {
        (0x1d006000, 0x1d03ffff)
    }
}

pub fn pic32_rom_addresses(bootloader_ver: u8) -> (w: (u32, u32))
    ensures
        w == rom_window(bootloader_ver),
{
    let last: u32 = if bootloader_ver > 3 {
        487063551
    } else {
        486801407
    };
    (0x1d006000, last)
}

/// The first index from `from` on at which `s` holds `b`, or the length
/// of `s` where there is none.
pub open spec fn first_at(s: Seq<u8>, from: int, b: u8) -> int
    decreases s.len() - from,
{
    if from < 0 || from >= s.len() {
        s.len() as int
    } else if s[from] == b {
        from
    } else {
        first_at(s, from + 1, b)
    }
}

/// `first_at` in executable form.
pub fn find_byte(s: &[u8], from: usize, b: u8) -> (at: usize)
    requires
        from <= s.len(),
    ensures
        at == first_at(s@, from as int, b),
        from <= at <= s.len(),
{
    let mut i: usize = from;
    while i < s.len() && s[i] != b
        invariant
            from <= i <= s.len(),
            first_at(s@, from as int, b) == first_at(s@, i as int, b),
        decreases s.len() - i,
    {
        i = i + 1;
    }
    i
}

/// Whether a byte is a decimal digit in ASCII.
pub open spec fn is_digit(b: u8) -> bool {
    48 <= b <= 57
}

pub open spec fn all_digits(s: Seq<u8>) -> bool {
    forall|i: int| 0 <= i < s.len() ==> is_digit(#[trigger] s[i])
}

/// The number that decimal digits spell.
pub open spec fn dec_value(s: Seq<u8>) -> nat
    decreases s.len(),
{
    if s.len() == 0 {
        0
    } else {
        dec_value(s.drop_last()) * 10 + (s.last() - 48) as nat
    }
}

/// The digits of a number in text: the text itself, or what follows one
/// plus sign at its head.
pub open spec fn unsigned_digits(s: Seq<u8>) -> Seq<u8> {
    if s.len() > 0 && s[0] == 43 {
        s.skip(1)
    } else {
        s
    }
}

/// The number that a text spells in decimal: one digit or more, after at
/// most one plus sign, with a value of at most 32 bits.
pub open spec fn parse_u32_spec(s: Seq<u8>) -> Option<u32> {
    let digits = unsigned_digits(s);
    if digits.len() == 0 || !all_digits(digits) || dec_value(digits) > u32::MAX {
        None
    } else {
        Some(dec_value(digits) as u32)
    }
}

/// The head of a row of digits spells no more than the row.
pub proof fn lemma_dec_value_monotone(s: Seq<u8>, k: int)
    requires
        all_digits(s),
        0 <= k <= s.len(),
    ensures
        dec_value(s.take(k)) <= dec_value(s),
    decreases s.len(),
{
    if k == s.len() {
        assert(s.take(k) =~= s);
    } else {
        let t = s.drop_last();
        assert(t.take(k) =~= s.take(k));
        assert(all_digits(t)) by {
            assert forall|i: int| 0 <= i < t.len() implies is_digit(#[trigger] t[i]) by {
                assert(t[i] == s[i]);
            }
        }
        lemma_dec_value_monotone(t, k);
        assert(is_digit(s[s.len() - 1]));
    }
}

/// Reads a number in decimal.
pub fn parse_u32(s: &[u8]) -> (r: Option<u32>)
    ensures
        r == parse_u32_spec(s@),
{
    let start: usize = if s.len() > 0 && s[0] == 43 {
        1
    } else {
        0
    };
    let ghost digits = unsigned_digits(s@);
    proof {
        assert(digits =~= s@.skip(start as int));
    }
    if start == s.len() {
        return None;
    }
    let mut acc: u64 = 0;
    let mut i: usize = start;
    while i < s.len()
        invariant
            start <= i <= s.len(),
            digits == s@.skip(start as int),
            digits == unsigned_digits(s@),
            acc == dec_value(digits.take(i - start)),
            acc <= u32::MAX,
            all_digits(digits.take(i - start)),
        decreases s.len() - i,
    {
        let b: u8 = s[i];
        if b < 48 || b > 57 {
            proof {
                assert(digits[i - start] == b);
                assert(!is_digit(digits[i - start]));
                assert(!all_digits(digits));
            }
            return None;
        }
        let ghost head = digits.take(i - start + 1);
        proof {
            assert(head.drop_last() =~= digits.take(i - start));
            assert(head.last() == b);
            assert(all_digits(head)) by {
                assert forall|j: int| 0 <= j < head.len() implies is_digit(#[trigger] head[j]) by {
                    if j < i - start {
                        assert(head[j] == digits.take(i - start)[j]);
                    }
                }
            }
        }
        acc = acc * 10 + ((b - 48) as u64);
        if acc > u32::MAX as u64 {
            proof {
                if all_digits(digits) {
                    lemma_dec_value_monotone(digits, i - start + 1);
                    assert(dec_value(digits) > u32::MAX);
                }
            }
            return None;
        }
        i = i + 1;
    }
    proof {
        assert(digits.take(s.len() - start) =~= digits);
    }
    Some(acc as u32)
}

/// How many decimal digits a text holds.
pub open spec fn count_digits(s: Seq<u8>) -> nat
    decreases s.len(),
{
    if s.len() == 0 {
        0
    } else {
        count_digits(s.drop_last()) + if is_digit(s.last()) {
            1nat
        } else {
            0nat
        }
    }
}

/// How many decimal points a text holds.
pub open spec fn count_points(s: Seq<u8>) -> nat
    decreases s.len(),
{
    if s.len() == 0 {
        0
    } else {
        count_points(s.drop_last()) + if s.last() == 46 {
            1nat
        } else {
            0nat
        }
    }
}

/// Whether a text is a number in decimal: digits and at most one point,
/// with one digit at least, and nothing else. There is no sign and no
/// exponent.
pub open spec fn is_decimal(s: Seq<u8>) -> bool {
    &&& count_digits(s) >= 1
    &&& count_points(s) <= 1
    &&& count_digits(s) + count_points(s) == s.len()
}

/// Whether a text is a number in decimal.
pub fn is_decimal_text(s: &[u8]) -> (r: bool)
    ensures
        r == is_decimal(s@),
{
    let mut digits: usize = 0;
    let mut points: usize = 0;
    let mut i: usize = 0;
    while i < s.len()
        invariant
            i <= s.len(),
            digits == count_digits(s@.take(i as int)),
            points == count_points(s@.take(i as int)),
            digits + points <= i,
        decreases s.len() - i,
    {
        proof {
            assert(s@.take(i + 1).drop_last() =~= s@.take(i as int));
            assert(s@.take(i + 1).last() == s@[i as int]);
        }
        if 48 <= s[i] && s[i] <= 57 {
            digits = digits + 1;
        } else if s[i] == 46 {
            points = points + 1;
        }
        i = i + 1;
    }
    proof {
        assert(s@.take(s.len() as int) =~= s@);
    }
    digits >= 1 && points <= 1 && digits + points == s.len()
}

/// The operating mode that the flags of a firmware image name. The mode
/// bits are tried in the order 1, 2, 32, 64, and the first that is set
/// decides.
pub open spec fn fw_flags_text(flags: u32) -> Option<Seq<char>> {
    if flags & 1 != 0 {
        Some("Street-Mode"@)
    } else if flags & 2 != 0 {
        Some("ABP 5Sensor-Mode"@)
    } else if flags & 32 != 0 {
        Some("Race-Mode"@)
    } else if flags & 64 != 0 {
        Some("Race vest Street-Mode"@)
    } else {
        None
    }
}

pub fn decode_fw_image_flags(flags: u32) -> (r: Option<String>)
    ensures
        crate::cmd::text::text_view(r) == fw_flags_text(flags),
{
    if flags & 1 != 0 {
        Some("Street-Mode".to_owned())
    } else if flags & 2 != 0 {
        Some("ABP 5Sensor-Mode".to_owned())
    } else if flags & 32 != 0 {
        Some("Race-Mode".to_owned())
    } else if flags & 64 != 0 {
        Some("Race vest Street-Mode".to_owned())
    } else {
        None
    }
}

/// The image names that a header may carry.
pub open spec fn image_known(name: Seq<char>) -> bool {
    name == "ACU Firmware"@ || name == "*ACU Firmware"@ || name == "+ACU Firmware"@
}

fn same_text(a: &str, b: &str) -> (r: bool)
    ensures
        r == (a@ == b@),
{
    let x: String = a.to_owned();
    let y: String = b.to_owned();
    x.eq(&y)
}

pub fn validate_fw_image_header(s: &str) -> (r: bool)
    ensures
        r == image_known(s@),
{
    same_text(s, "ACU Firmware") || same_text(s, "*ACU Firmware") || same_text(s, "+ACU Firmware")
}

/// The header of a firmware package: the image name, the version as the
/// decimal number it was written as, and the operating mode.
#[derive(Debug)]
pub struct Header {
    image: String,
    version: String,
    flags: String,
}

pub struct HeaderView {
    pub image: Seq<char>,
    pub version: Seq<char>,
    pub flags: Seq<char>,
}

impl View for Header {
    type V = HeaderView;

    closed spec fn view(&self) -> HeaderView {
        HeaderView { image: self.image@, version: self.version@, flags: self.flags@ }
    }
}

impl Header {
    pub fn image(&self) -> (s: &String)
        ensures
            s@ == self@.image,
    {
        &self.image
    }

    pub fn version(&self) -> (s: &String)
        ensures
            s@ == self@.version,
    {
        &self.version
    }

    pub fn flags(&self) -> (s: &String)
        ensures
            s@ == self@.flags,
    {
        &self.flags
    }
}

/// The first three fields of a header, as bytes.
pub struct HeaderFields {
    pub image: Seq<u8>,
    pub version: Seq<u8>,
    pub flags: Seq<u8>,
}

/// The fields of a header, which semicolons separate: there have to be
/// three, and what follows a third semicolon is passed over.
pub open spec fn header_fields(h: Seq<u8>) -> Option<HeaderFields> {
    let s0 = first_at(h, 0, 59);
    let s1 = first_at(h, s0 + 1, 59);
    let s2 = first_at(h, s1 + 1, 59);
    if s0 >= h.len() || s1 >= h.len() {
        None
    } else {
        Some(
            HeaderFields {
                image: h.subrange(0, s0),
                version: h.subrange(s0 + 1, s1),
                flags: h.subrange(s1 + 1, s2),
            },
        )
    }
}

/// The header that header bytes spell: text in UTF-8, of three fields,
/// with a known image name, a version in decimal and flags that name an
/// operating mode.
pub open spec fn fw_header_spec(h: Seq<u8>) -> Option<HeaderView> {
    if !valid_utf8(h) {
        None
    } else {
        match header_fields(h) {
            None => None,
            Some(f) => match (utf8_text(f.image), utf8_text(f.version), parse_u32_spec(f.flags)) {
                (Some(image), Some(version), Some(flags)) => if image_known(image) && is_decimal(
                    f.version,
                ) {
                    match fw_flags_text(flags) {
                        Some(mode) => Some(HeaderView { image: image, version: version, flags: mode }),
                        None => None,
                    }
                } else {
                    None
                },
                _ => None,
            },
        }
    }
}

/// Reads the header of a firmware package from the bytes between its
/// two number signs.
pub fn decode_fw_image_header(h: &[u8]) -> (r: Option<Header>)
    ensures
        match r {
            Some(header) => fw_header_spec(h@) == Some(header@),
            None => fw_header_spec(h@) is None,
        },
{
    if string_from_utf8(slice_to_vec(h)).is_none() {
        return None;
    }
    let s0: usize = find_byte(h, 0, 59);
    if s0 >= h.len() {
        return None;
    }
    let s1: usize = find_byte(h, s0 + 1, 59);
    if s1 >= h.len() {
        return None;
    }
    let s2: usize = find_byte(h, s1 + 1, 59);
    let flags: u32 = match parse_u32(slice_subrange(h, s1 + 1, s2)) {
        Some(f) => f,
        None => {
            return None;
        },
    };
    let mode: String = match decode_fw_image_flags(flags) {
        Some(m) => m,
        None => {
            return None;
        },
    };
    let image: String = match string_from_utf8(slice_to_vec(slice_subrange(h, 0, s0))) {
        Some(i) => i,
        None => {
            return None;
        },
    };
    if !validate_fw_image_header(image.as_str()) {
        return None;
    }
    if !is_decimal_text(slice_subrange(h, s0 + 1, s1)) {
        return None;
    }
    let version: String = match string_from_utf8(slice_to_vec(slice_subrange(h, s0 + 1, s1))) {
        Some(v) => v,
        None => {
            return None;
        },
    };
    Some(Header { image: image, version: version, flags: mode })
}

/// A firmware package: its header, and the Intel-hex text that follows.
#[derive(Debug)]
pub struct FwFile {
    header: Header,
    data: Vec<u8>,
}

pub struct FwFileView {
    pub header: HeaderView,
    pub data: Seq<u8>,
}

impl View for FwFile {
    type V = FwFileView;

    closed spec fn view(&self) -> FwFileView {
        FwFileView { header: self.header@, data: self.data@ }
    }
}

impl FwFile {
    /// A copy of the Intel-hex text.
    pub fn data(&self) -> (d: Vec<u8>)
        ensures
            d@ == self@.data,
    {
        slice_to_vec(self.data.as_slice())
    }

    pub fn header(&self) -> (h: &Header)
        ensures
            h@ == self@.header,
    {
        &self.header
    }
}

/// Where the header begins: after the number sign that opens the
/// package, or at the first byte where there is none.
pub open spec fn header_start(data: Seq<u8>) -> int {
    if data.len() > 0 && data[0] == 35 {
        1
    } else {
        0
    }
}

/// Where the header ends: at the next number sign, or at the end of the
/// package where there is none.
pub open spec fn header_end(data: Seq<u8>) -> int {
    first_at(data, header_start(data), 35)
}

/// A package in plain text: a header of two bytes or more, which reads
/// as one, and behind the number sign that closes it the Intel-hex text,
/// two bytes or more.
pub open spec fn fw_file_spec(data: Seq<u8>) -> Result<FwFileView, TechAirError> {
    let start = header_start(data);
    let end = header_end(data);
    if end - start < 2 {
        fail(ErrorKind::FwHeaderInvalid)
    } else {
        match fw_header_spec(data.subrange(start, end)) {
            None => fail(ErrorKind::FwHeaderInvalid),
            Some(header) => if data.len() - end <= 2 {
                fail(ErrorKind::FwHeaderInvalid)
            } else {
                Ok(FwFileView { header: header, data: data.skip(end + 1) })
            },
        }
    }
}

/// Reads a decrypted firmware package.
pub fn decode_fw_file(data: &[u8]) -> (r: Result<FwFile, TechAirError>)
    ensures
        crate::serial::agrees(r, fw_file_spec(data@)),
{
    let start: usize = if data.len() > 0 && data[0] == 35 {
        1
    } else {
        0
    };
    let end: usize = find_byte(data, start, 35);
    if end - start < 2 {
        return Err(TechAirError::new(ErrorKind::FwHeaderInvalid));
    }
    let header: Header = match decode_fw_image_header(slice_subrange(data, start, end)) {
        Some(h) => h,
        None => {
            return Err(TechAirError::new(ErrorKind::FwHeaderInvalid));
        },
    };
    if data.len() - end <= 2 {
        return Err(TechAirError::new(ErrorKind::FwHeaderInvalid));
    }
    let text: Vec<u8> = slice_to_vec(slice_subrange(data, end + 1, data.len()));
    Ok(FwFile { header: header, data: text })
}

/// Decrypts a firmware package with the key of the packages and reads
/// it.
pub fn idk(encrypted: &[u8]) -> (r: Result<FwFile, TechAirError>)
    ensures
        crate::serial::agrees(
            r,
            match decrypt_spec(encrypted@, fw_key_spec(), fw_key_spec()) {
                Ok(plain) => fw_file_spec(plain),
                Err(e) => Err(e),
            },
        ),
{
    let key: [u8; 16] = fw_key();
    match decrypt(encrypted, key.as_slice(), key.as_slice()) {
        Ok(plain) => decode_fw_file(plain.as_slice()),
        Err(e) => Err(e),
    }
}

/// The value of a hexadecimal digit in ASCII, in either case.
pub open spec fn hex_digit(b: u8) -> Option<u8> {
    if 48 <= b <= 57 {
        Some((b - 48) as u8)
    } else if 97 <= b <= 102 {
        Some((b - 87) as u8)
    } else if 65 <= b <= 70 {
        Some((b - 55) as u8)
    } else {
        None
    }
}

/// The bytes that a row of hexadecimal digits spells, two digits to the
/// byte: nothing for a row of odd length or with another character in it.
pub open spec fn hex_bytes(s: Seq<u8>) -> Option<Seq<u8>>
    decreases s.len(),
{
    if s.len() == 0 {
        Some(Seq::<u8>::empty())
    } else if s.len() == 1 {
        None
    } else {
        match (hex_bytes(s.take(s.len() - 2)), hex_digit(s[s.len() - 2]), hex_digit(s[s.len() - 1])) {
            (Some(head), Some(hi), Some(lo)) => Some(head.push((hi * 16 + lo) as u8)),
            _ => None,
        }
    }
}

/// The sum of bytes.
pub open spec fn byte_sum(s: Seq<u8>) -> nat
    decreases s.len(),
{
    if s.len() == 0 {
        0
    } else {
        byte_sum(s.drop_last()) + s.last() as nat
    }
}

/// A record is whole when it holds the five bytes around its data and
/// the data its first byte counts, and these sum to a multiple of 256.
pub open spec fn record_ok(rec: Seq<u8>) -> bool {
    &&& rec.len() >= 5
    &&& rec.len() >= rec[0] + 5
    &&& byte_sum(rec.take(rec[0] + 5)) % 256 == 0
}

/// A ROM image while it is filled: the address of its first byte, the
/// bytes, the two address extensions, whether a data record fell outside
/// of it, and whether a record was broken.
pub struct HexState {
    pub start: int,
    pub image: Seq<u8>,
    pub segment: int,
    pub linear: int,
    pub bad: bool,
    pub failed: bool,
}

/// A data byte of a record, or zero where the record has no such byte.
pub open spec fn data_byte(rec: Seq<u8>, k: int) -> int {
    if k < rec[0] {
        rec[4 + k] as int
    } else {
        0
    }
}

/// What a whole record does. Data (type 0) lands at its address plus
/// both extensions where the image holds all of it, and else marks the
/// image. Type 2 sets the segment extension from two data bytes and
/// clears the linear one, type 4 sets the linear extension and clears
/// the segment one, and every other type clears both.
pub open spec fn apply_record(st: HexState, rec: Seq<u8>) -> HexState {
    let count = rec[0] as int;
    if rec[3] == 0 {
        let off = record_offset(st, rec);
        if 0 <= off < st.image.len() && off + count <= st.image.len() {
            HexState {
                start: st.start,
                image: st.image.take(off) + rec.subrange(4, 4 + count) + st.image.skip(off + count),
                segment: st.segment,
                linear: st.linear,
                bad: st.bad,
                failed: st.failed,
            }
        } else {
            HexState {
                start: st.start,
                image: st.image,
                segment: st.segment,
                linear: st.linear,
                bad: true,
                failed: st.failed,
            }
        }
    } else if rec[3] == 2 {
        HexState {
            start: st.start,
            image: st.image,
            segment: data_byte(rec, 0) * 65536 + data_byte(rec, 1) * 256,
            linear: 0,
            bad: st.bad,
            failed: st.failed,
        }
    } else if rec[3] == 4 {
        HexState {
            start: st.start,
            image: st.image,
            segment: 0,
            linear: data_byte(rec, 0) * 16777216 + data_byte(rec, 1) * 65536,
            bad: st.bad,
            failed: st.failed,
        }
    } else {
        HexState {
            start: st.start,
            image: st.image,
            segment: 0,
            linear: 0,
            bad: st.bad,
            failed: st.failed,
        }
    }
}

/// The image with the mark of a broken record.
pub open spec fn broken(st: HexState) -> HexState {
    HexState {
        start: st.start,
        image: st.image,
        segment: st.segment,
        linear: st.linear,
        bad: st.bad,
        failed: true,
    }
}

/// What the text between two start codes does. Nothing happens once a
/// record was broken, and a text of ten characters or less is passed
/// over. A longer one has to spell a whole record.
pub open spec fn step(st: HexState, seg: Seq<u8>) -> HexState {
    if st.failed || seg.len() <= 10 {
        st
    } else {
        match hex_bytes(seg) {
            Some(rec) => if record_ok(rec) {
                apply_record(st, rec)
            } else {
                broken(st)
            },
            None => broken(st),
        }
    }
}

/// Reading Intel-hex text byte by byte: the image after all text that a
/// start code has closed, and the text since the last start code.
/// A colon is the start code; carriage returns and line feeds are
/// dropped.
pub open spec fn scan(s: Seq<u8>, init: HexState) -> (HexState, Seq<u8>)
    decreases s.len(),
{
    if s.len() == 0 {
        (init, Seq::<u8>::empty())
    } else {
        let (st, cur) = scan(s.drop_last(), init);
        let b = s.last();
        if b == 58 {
            (step(st, cur), Seq::<u8>::empty())
        } else if b == 13 || b == 10 {
            (st, cur)
        } else {
            (st, cur.push(b))
        }
    }
}

/// An image of the window, every byte 0xFF.
pub open spec fn blank_image(window: (u32, u32)) -> HexState {
    HexState {
        start: window.0 as int,
        image: Seq::new((window.1 - window.0 + 1) as nat, |i: int| 0xFFu8),
        segment: 0,
        linear: 0,
        bad: false,
        failed: false,
    }
}

/// The ROM image that Intel-hex text describes for a window. A broken
/// record ends the reading with `HexChecksum`; data outside the window
/// is reported at the end, with `HexAddressOutOfRange`.
pub open spec fn parse_ihex_spec(ihex: Seq<u8>, window: (u32, u32)) -> Result<Seq<u8>, TechAirError> {
    let (st, cur) = scan(ihex, blank_image(window));
    image_or_error(step(st, cur))
}

/// What the reading ends in: the image, unless a record was broken or
/// data fell outside.
pub open spec fn image_or_error(end: HexState) -> Result<Seq<u8>, TechAirError> {
    if end.failed {
        fail(ErrorKind::HexChecksum)
    } else if end.bad {
        fail(ErrorKind::HexAddressOutOfRange)
    } else {
        Ok(end.image)
    }
}

/// Where in the image the data of a record belongs: its address, plus
/// both extensions, less the address of the first byte of the image.
pub open spec fn record_offset(st: HexState, rec: Seq<u8>) -> int {
    rec[1] * 256 + rec[2] + st.segment + st.linear - st.start
}

/// Text without the carriage returns and line feeds in it.
pub open spec fn strip_line_ends(t: Seq<u8>) -> Seq<u8>
    decreases t.len(),
{
    if t.len() == 0 {
        t
    } else if t.last() == 13 || t.last() == 10 {
        strip_line_ends(t.drop_last())
    } else {
        strip_line_ends(t.drop_last()).push(t.last())
    }
}

/// Whether a text holds no start code.
pub open spec fn no_start_code(t: Seq<u8>) -> bool {
    forall|i: int| 0 <= i < t.len() ==> #[trigger] t[i] != 58
}

/// Intel-hex text of records: before each a start code.
pub open spec fn records_text(records: Seq<Seq<u8>>) -> Seq<u8>
    decreases records.len(),
{
    if records.len() == 0 {
        Seq::<u8>::empty()
    } else {
        records_text(records.drop_last()) + seq![58u8] + records.last()
    }
}

/// The image after records were taken in one by one, from first to last,
/// each without its line ends.
pub open spec fn apply_all(st: HexState, records: Seq<Seq<u8>>) -> HexState
    decreases records.len(),
{
    if records.len() == 0 {
        st
    } else {
        step(apply_all(st, records.drop_last()), strip_line_ends(records.last()))
    }
}

/// A data record inside the image changes the bytes it names and no
/// others: its data lies at its offset, byte for byte, and the image is
/// as long as before and elsewhere as before.
pub proof fn lemma_data_record_lands(st: HexState, rec: Seq<u8>)
    requires
        rec.len() >= rec[0] + 5,
        rec[3] == 0,
        0 <= record_offset(st, rec) < st.image.len(),
        record_offset(st, rec) + rec[0] <= st.image.len(),
    ensures
        apply_record(st, rec).image.len() == st.image.len(),
        forall|j: int|
            record_offset(st, rec) <= j < record_offset(st, rec) + rec[0] ==> #[trigger] apply_record(
                st,
                rec,
            ).image[j] == rec[4 + (j - record_offset(st, rec))],
        forall|j: int|
            0 <= j < st.image.len() && !(record_offset(st, rec) <= j < record_offset(st, rec) + rec[0])
                ==> #[trigger] apply_record(st, rec).image[j] == st.image[j],
        apply_record(st, rec).bad == st.bad,
        apply_record(st, rec).segment == st.segment,
        apply_record(st, rec).linear == st.linear,
{
}

/// A data record that does not lie inside the image marks it, and
/// leaves its bytes alone.
pub proof fn lemma_data_record_outside(st: HexState, rec: Seq<u8>)
    requires
        rec[3] == 0,
        !(0 <= record_offset(st, rec) < st.image.len() && record_offset(st, rec) + rec[0]
            <= st.image.len()),
    ensures
        apply_record(st, rec).bad,
        apply_record(st, rec).image == st.image,
{
}

/// An image of a window is as long as the window, and holds 0xFF
/// throughout.
pub proof fn lemma_blank_image(window: (u32, u32))
    requires
        window.0 <= window.1,
    ensures
        blank_image(window).image.len() == window.1 - window.0 + 1,
        forall|j: int| 0 <= j < blank_image(window).image.len() ==> #[trigger] blank_image(window).image[j] == 0xFF,
        !blank_image(window).bad,
        !blank_image(window).failed,
{
}

/// Text without a start code only adds to the text since the last start
/// code, less its line ends.
pub proof fn lemma_scan_of_line(a: Seq<u8>, t: Seq<u8>, init: HexState)
    requires
        no_start_code(t),
    ensures
        scan(a + t, init) == (scan(a, init).0, scan(a, init).1 + strip_line_ends(t)),
    decreases t.len(),
{
    if t.len() == 0 {
        assert(a + t =~= a);
        assert(scan(a, init).1 + strip_line_ends(t) =~= scan(a, init).1);
    } else {
        let u = t.drop_last();
        assert((a + t).drop_last() =~= a + u);
        assert((a + t).last() == t.last());
        assert(t[t.len() - 1] != 58);
        assert(no_start_code(u)) by {
            assert forall|i: int| 0 <= i < u.len() implies #[trigger] u[i] != 58 by {
                assert(u[i] == t[i]);
            }
        }
        lemma_scan_of_line(a, u, init);
        if !(t.last() == 13 || t.last() == 10) {
            assert(scan(a, init).1 + strip_line_ends(t) =~= (scan(a, init).1 + strip_line_ends(u)).push(
                t.last(),
            ));
        }
    }
}

/// Reading the text of records leaves the image that the records but
/// the last made, and the last record as the text since the last start
/// code.
pub proof fn lemma_scan_of_records(records: Seq<Seq<u8>>, init: HexState)
    requires
        records.len() > 0,
        forall|i: int| 0 <= i < records.len() ==> no_start_code(#[trigger] records[i]),
    ensures
        scan(records_text(records), init) == (
            apply_all(init, records.drop_last()),
            strip_line_ends(records.last()),
        ),
    decreases records.len(),
{
    let head = records.drop_last();
    let a = records_text(head) + seq![58u8];
    assert(a.drop_last() =~= records_text(head));
    assert(a.last() == 58);
    if head.len() > 0 {
        assert forall|i: int| 0 <= i < head.len() implies no_start_code(#[trigger] head[i]) by {
            assert(head[i] == records[i]);
        }
        lemma_scan_of_records(head, init);
    } else {
        assert(records_text(head) =~= Seq::<u8>::empty());
    }
    let before = scan(records_text(head), init);
    assert(a.drop_last() == records_text(head));
    assert(scan(a, init) == (step(before.0, before.1), Seq::<u8>::empty()));
    if head.len() > 0 {
        assert(apply_all(init, head) == step(
            apply_all(init, head.drop_last()),
            strip_line_ends(head.last()),
        ));
    } else {
        assert(before == (init, Seq::<u8>::empty()));
        assert(step(init, Seq::<u8>::empty()) == init);
    }
    assert(scan(a, init) == (apply_all(init, head), Seq::<u8>::empty()));
    assert(no_start_code(records.last()));
    lemma_scan_of_line(a, records.last(), init);
    assert(Seq::<u8>::empty() + strip_line_ends(records.last()) =~= strip_line_ends(records.last()));
}

/// The ROM image record by record. The image that the text of records
/// describes is the blank image of the window after the records were
/// taken in one by one, from first to last; a broken record gives
/// `HexChecksum`, and data outside the window `HexAddressOutOfRange`.
pub proof fn lemma_parse_of_records(records: Seq<Seq<u8>>, window: (u32, u32))
    requires
        forall|i: int| 0 <= i < records.len() ==> no_start_code(#[trigger] records[i]),
    ensures
        parse_ihex_spec(records_text(records), window) == image_or_error(
            apply_all(blank_image(window), records),
        ),
{
    if records.len() > 0 {
        lemma_scan_of_records(records, blank_image(window));
    }
}

/// A row of odd length spells no bytes.
pub proof fn lemma_hex_bytes_odd(s: Seq<u8>)
    requires
        s.len() % 2 == 1,
    ensures
        hex_bytes(s) is None,
    decreases s.len(),
{
    if s.len() > 1 {
        lemma_hex_bytes_odd(s.take(s.len() - 2));
    }
}

/// A row spells no bytes where an even head of it spells none.
pub proof fn lemma_hex_bytes_head(s: Seq<u8>, k: int)
    requires
        s.len() % 2 == 0,
        k % 2 == 0,
        0 <= k <= s.len(),
        hex_bytes(s.take(k)) is None,
    ensures
        hex_bytes(s) is None,
    decreases s.len(),
{
    if k == s.len() {
        assert(s.take(k) =~= s);
    } else {
        let t = s.take(s.len() - 2);
        assert(t.take(k) =~= s.take(k));
        lemma_hex_bytes_head(t, k);
    }
}

/// Once a record was broken the image stays marked, whatever follows.
pub proof fn lemma_failed_sticks(s: Seq<u8>, k: int, init: HexState)
    requires
        0 <= k <= s.len(),
        scan(s.take(k), init).0.failed,
    ensures
        scan(s, init).0.failed,
    decreases s.len(),
{
    if k == s.len() {
        assert(s.take(k) =~= s);
    } else {
        let t = s.drop_last();
        assert(t.take(k) =~= s.take(k));
        lemma_failed_sticks(t, k, init);
    }
}

/// Whether a byte is a hexadecimal digit in ASCII.
pub fn is_asciihex(b: u8) -> (r: bool)
    ensures
        r == hex_digit(b) is Some,
{
    (48 <= b && b <= 57) || (97 <= b && b <= 102) || (65 <= b && b <= 70)
}

/// The value of a hexadecimal digit.
pub fn decode_asciihex(b: u8) -> (d: u8)
    requires
        hex_digit(b) is Some,
    ensures
        Some(d) == hex_digit(b),
{
    if b <= 57 {
        b - 48
    } else if b >= 97 {
        b - 87
    } else {
        b - 55
    }
}

/// The bytes that a row of hexadecimal digits spells.
pub fn decode_hexline(data: &[u8]) -> (r: Option<Vec<u8>>)
    ensures
        crate::cmd::text::bytes_view(r) == hex_bytes(data@),
{
    if data.len() % 2 != 0 {
        proof {
            lemma_hex_bytes_odd(data@);
        }
        return None;
    }
    let mut rec: Vec<u8> = Vec::new();
    let mut i: usize = 0;
    while i < data.len()
        invariant
            i <= data.len(),
            i % 2 == 0,
            data.len() % 2 == 0,
            hex_bytes(data@.take(i as int)) == Some(rec@),
        decreases data.len() - i,
    {
        let ghost head = data@.take(i + 2);
        proof {
            assert(head.take(head.len() - 2) =~= data@.take(i as int));
        }
        if !is_asciihex(data[i]) || !is_asciihex(data[i + 1]) {
            proof {
                assert(hex_bytes(head) is None);
                lemma_hex_bytes_head(data@, i + 2);
            }
            return None;
        }
        let hi: u8 = decode_asciihex(data[i]);
        let lo: u8 = decode_asciihex(data[i + 1]);
        rec.push(hi * 16 + lo);
        i = i + 2;
    }
    proof {
        assert(data@.take(data.len() as int) =~= data@);
    }
    Some(rec)
}

/// A ROM image while it is filled from Intel-hex records.
pub struct RomImage {
    start: u32,
    bytes: Vec<u8>,
    segment: u32,
    linear: u32,
    bad: bool,
}

impl View for RomImage {
    type V = HexState;

    closed spec fn view(&self) -> HexState {
        HexState {
            start: self.start as int,
            image: self.bytes@,
            segment: self.segment as int,
            linear: self.linear as int,
            bad: self.bad,
            failed: false,
        }
    }
}

impl RomImage {
    /// An image of the window from `first` to `last`, every byte 0xFF.
    pub fn new(first: u32, last: u32) -> (rom: RomImage)
        requires
            first <= last,
            last - first < usize::MAX,
        ensures
            rom@ == blank_image((first, last)),
    {
        let n: usize = (last - first) as usize + 1;
        let mut bytes: Vec<u8> = Vec::new();
        let mut i: usize = 0;
        while i < n
            invariant
                i <= n,
                bytes.len() == i,
                forall|j: int| 0 <= j < i ==> bytes[j] == 0xFFu8,
            decreases n - i,
        {
            bytes.push(0xFF);
            i = i + 1;
        }
        proof {
            assert(bytes@ =~= blank_image((first, last)).image);
        }
        RomImage { start: first, bytes: bytes, segment: 0, linear: 0, bad: false }
    }

    /// Takes in the text between two start codes.
    pub fn record(&mut self, seg: &[u8]) -> (r: Result<(), TechAirError>)
        ensures
            match r {
                Ok(()) => final(self)@ == step(old(self)@, seg@),
                Err(e) => step(old(self)@, seg@).failed && e.kind == ErrorKind::HexChecksum
                    && *final(self) == *old(self),
            },
    {
        if seg.len() <= 10 {
            return Ok(());
        }
        let rec: Vec<u8> = match decode_hexline(seg) {
            Some(rec) => rec,
            None => {
                return Err(TechAirError::new(ErrorKind::HexChecksum));
            },
        };
        if rec.len() < 5 || rec.len() < rec[0] as usize + 5 {
            return Err(TechAirError::new(ErrorKind::HexChecksum));
        }
        let count: usize = rec[0] as usize;
        let mut sum: u32 = 0;
        let mut i: usize = 0;
        while i < count + 5
            invariant
                i <= count + 5 <= rec.len(),
                count <= 255,
                sum == byte_sum(rec@.take(i as int)),
                sum <= 255 * i,
            decreases count + 5 - i,
        {
            proof {
                assert(rec@.take(i + 1).drop_last() =~= rec@.take(i as int));
            }
            sum = sum + rec[i] as u32;
            i = i + 1;
        }
        if sum % 256 != 0 {
            return Err(TechAirError::new(ErrorKind::HexChecksum));
        }
        let d0: u32 = if count > 0 {
            rec[4] as u32
        } else {
            0
        };
        let d1: u32 = if count > 1 {
            rec[5] as u32
        } else {
            0
        };
        let rtype: u8 = rec[3];
        if rtype == 0 {
            let eff: u64 = (rec[1] as u64) * 256 + (rec[2] as u64) + (self.segment as u64) + (
            self.linear as u64);
            if eff >= self.start as u64 && eff - (self.start as u64) < self.bytes.len() as u64 && eff
                - (self.start as u64) + (count as u64) <= self.bytes.len() as u64 {
                let off: usize = (eff - (self.start as u64)) as usize;
                let ghost before = self.bytes@;
                let mut k: usize = 0;
                while k < count
                    invariant
                        k <= count,
                        count + 5 <= rec.len(),
                        off + count <= before.len(),
                        off + count <= usize::MAX,
                        self.bytes@.len() == before.len(),
                        self.bytes@ == before.take(off as int) + rec@.subrange(4, 4 + k) + before.skip(
                            off + k,
                        ),
                        self.start == old(self).start,
                        self.segment == old(self).segment,
                        self.linear == old(self).linear,
                        self.bad == old(self).bad,
                    decreases count - k,
                {
                    self.bytes.set(off + k, rec[4 + k]);
                    proof {
                        assert(self.bytes@ =~= before.take(off as int) + rec@.subrange(4, 4 + k + 1)
                            + before.skip(off + k + 1));
                    }
                    k = k + 1;
                }
            } else {
                self.bad = true;
            }
        } else if rtype == 2 {
            self.segment = d0 * 65536 + d1 * 256;
            self.linear = 0;
        } else if rtype == 4 {
            self.segment = 0;
            self.linear = d0 * 16777216 + d1 * 65536;
        } else {
            self.segment = 0;
            self.linear = 0;
        }
        Ok(())
    }

    /// The finished image, or `HexAddressOutOfRange` where a data record
    /// fell outside of it.
    pub fn finish(self) -> (r: Result<Vec<u8>, TechAirError>)
        ensures
            match r {
                Ok(image) => !self@.bad && image@ == self@.image,
                Err(e) => self@.bad && e.kind == ErrorKind::HexAddressOutOfRange,
            },
    {
        if self.bad {
            Err(TechAirError::new(ErrorKind::HexAddressOutOfRange))
        } else {
            Ok(self.bytes)
        }
    }
}

/// Reads Intel-hex text into the ROM image of the window `addr_space`,
/// first and last address.
pub fn parse_ihex(ihex: &[u8], addr_space: (u32, u32)) -> (r: Result<Vec<u8>, TechAirError>)
    requires
        addr_space.0 <= addr_space.1,
        addr_space.1 - addr_space.0 < usize::MAX,
    ensures
        match r {
            Ok(image) => parse_ihex_spec(ihex@, addr_space) == Ok::<Seq<u8>, TechAirError>(image@),
            Err(e) => parse_ihex_spec(ihex@, addr_space) == Err::<Seq<u8>, TechAirError>(e),
        },
{
    let mut rom: RomImage = RomImage::new(addr_space.0, addr_space.1);
    let ghost init = blank_image(addr_space);
    let mut cur: Vec<u8> = Vec::new();
    let mut i: usize = 0;
    while i < ihex.len()
        invariant
            i <= ihex.len(),
            init == blank_image(addr_space),
            scan(ihex@.take(i as int), init) == (rom@, cur@),
        decreases ihex.len() - i,
    {
        let b: u8 = ihex[i];
        proof {
            assert(ihex@.take(i + 1).drop_last() =~= ihex@.take(i as int));
            assert(ihex@.take(i + 1).last() == b);
        }
        if b == 58 {
            match rom.record(cur.as_slice()) {
                Ok(()) => {},
                Err(e) => {
                    proof {
                        assert(scan(ihex@.take(i + 1), init).0.failed);
                        lemma_failed_sticks(ihex@, i + 1, init);
                    }
                    return Err(e);
                },
            }
            cur = Vec::new();
        } else if b != 13 && b != 10 {
            cur.push(b);
        }
        i = i + 1;
    }
    proof {
        assert(ihex@.take(ihex.len() as int) =~= ihex@);
    }
    match rom.record(cur.as_slice()) {
        Ok(()) => {},
        Err(e) => {
            return Err(e);
        },
    }
    rom.finish()
}

/// The CRC that the device is asked to confirm: that of the ROM image
/// which the package describes for the window of the device.
pub open spec fn fw_crc_spec(ihex: Seq<u8>, bl_ver: u8) -> Result<u16, TechAirError> {
    match parse_ihex_spec(ihex, rom_window(bl_ver)) {
        Ok(image) => Ok(crc16_spec(image)),
        Err(e) => Err(e),
    }
}

/// The firmware CRC record by record. For a package whose text is that
/// of records, the CRC is that of the blank image of the device's window
/// after the records were taken in one by one.
pub proof fn lemma_fw_crc_of_records(records: Seq<Seq<u8>>, bl_ver: u8)
    requires
        forall|i: int| 0 <= i < records.len() ==> no_start_code(#[trigger] records[i]),
    ensures
        fw_crc_spec(records_text(records), bl_ver) == (match image_or_error(
            apply_all(blank_image(rom_window(bl_ver)), records),
        ) {
            Ok(image) => Ok::<u16, TechAirError>(crc16_spec(image)),
            Err(e) => Err::<u16, TechAirError>(e),
        }),
{
    lemma_parse_of_records(records, rom_window(bl_ver));
}

pub fn crc16_fw_data(fwf: &FwFile, bl_ver: u8) -> (r: Result<u16, TechAirError>)
    ensures
        r == fw_crc_spec(fwf@.data, bl_ver),
{
    let addr_space = pic32_rom_addresses(bl_ver);
    match parse_ihex(fwf.data.as_slice(), addr_space) {
        Ok(image) => Ok(CRC16::calculate(image.as_slice()).as_u16()),
        Err(e) => Err(e),
    }
}

} // verus!
