//! Category 0x20: the bootloader that takes a firmware image.

use vstd::prelude::*;
use vstd::slice::slice_to_vec;
use crate::cmd::math::{be16, hi_byte, lo_byte, word};
use crate::cmd::text::bytes_view;
use crate::encoder::{append_crc, sealed, tail, TechAirEncoder};
use crate::serial::{agrees, fail, ErrorKind, TechAirError};

verus! {

#[derive(Clone, Debug, PartialEq)]
pub enum SWUpdateCmd {
    StartBootLoader,
    GetBootLoaderVersion(Option<u8>),
    GetBootLoaderState(Option<SWUpdateBootLoaderStates>),
    WriteFWData(FWData),
    QuitBootLoader,
    CRCCheck(u16),
}

#[derive(Clone, Copy, Debug, PartialEq, Eq, Structural)]
pub enum SWUpdateBootLoaderStates {
    WaitFW,
    CheckReadFW,
    EraseFlash,
    FlashFW,
    CalcFlashedCRC,
    WaitVerifyFlashedCRC,
    VerifyFlashedCRCMemory,
}

/// The state that a state byte names. The device sends 0 to 6.
pub open spec fn bootloader_state_spec(b: u8) -> SWUpdateBootLoaderStates {
    if b == 0 {
        SWUpdateBootLoaderStates::WaitFW
    } else if b == 1 {
        SWUpdateBootLoaderStates::CheckReadFW
    } else if b == 2 {
        SWUpdateBootLoaderStates::EraseFlash
    } else if b == 3 {
        SWUpdateBootLoaderStates::FlashFW
    } else if b == 4 {
        SWUpdateBootLoaderStates::CalcFlashedCRC
    } else if b == 5 {
        SWUpdateBootLoaderStates::WaitVerifyFlashedCRC
    } else {
        SWUpdateBootLoaderStates::VerifyFlashedCRCMemory
    }
}

impl SWUpdateBootLoaderStates {
    /// The state that a state byte names.
    pub fn from(b: u8) -> (s: SWUpdateBootLoaderStates)
        requires
            b <= 6,
        ensures
            s == bootloader_state_spec(b),
    {
        match b {
            0x0 => SWUpdateBootLoaderStates::WaitFW,
            0x1 => SWUpdateBootLoaderStates::CheckReadFW,
            0x2 => SWUpdateBootLoaderStates::EraseFlash,
            0x3 => SWUpdateBootLoaderStates::FlashFW,
            0x4 => SWUpdateBootLoaderStates::CalcFlashedCRC,
            0x5 => SWUpdateBootLoaderStates::WaitVerifyFlashedCRC,
            _ => SWUpdateBootLoaderStates::VerifyFlashedCRCMemory,
        }
    }
}

/// One transfer unit of a firmware image: the pages that remain, and up
/// to a page of data. The reply to a transfer carries the page count
/// alone.
#[derive(Clone, Debug, PartialEq)]
pub struct FWData {
    pub page_count: u16,
    chunk_len: usize,
    data: Option<Vec<u8>>,
}

pub struct FWDataView {
    pub page_count: u16,
    pub chunk_len: nat,
    pub data: Option<Seq<u8>>,
}

impl FWDataView {
    /// Data, where there is any, is between one byte and a page long,
    /// and `chunk_len` is its length; without data `chunk_len` is zero.
    pub open spec fn wf(self) -> bool {
        match self.data {
            Some(d) => 0 < self.chunk_len <= 256 && d.len() == self.chunk_len,
            None => self.chunk_len == 0,
        }
    }
}

impl View for FWData {
    type V = FWDataView;

    closed spec fn view(&self) -> FWDataView {
        FWDataView {
            page_count: self.page_count,
            chunk_len: self.chunk_len as nat,
            data: bytes_view(self.data),
        }
    }
}

impl FWData {
    /// A transfer unit that holds `data`, or nothing where `data` is
    /// empty or longer than a page.
    pub fn new(data: &[u8], page_count: &u16) -> (r: Option<FWData>)
        ensures
            r is Some <==> 0 < data.len() <= 256,
            r matches Some(fw) ==> fw@ == (FWDataView {
                page_count: *page_count,
                chunk_len: data@.len(),
                data: Some(data@),
            }) && fw@.wf(),
    {
        let chunk_len: usize = data.len();
        if chunk_len > 256 || chunk_len == 0 {
            return None;
        }
        Some(FWData { page_count: *page_count, chunk_len: chunk_len, data: Some(slice_to_vec(data)) })
    }

    /// The transfer unit of a reply: a page count, and no data.
    pub fn reply(page_count: u16) -> (fw: FWData)
        ensures
            fw@ == (FWDataView { page_count: page_count, chunk_len: 0, data: None }),
            fw@.wf(),
    {
        FWData { page_count: page_count, chunk_len: 0, data: None }
    }

    pub fn chunk_len(&self) -> (n: usize)
        ensures
            n == self@.chunk_len,
    {
        self.chunk_len
    }

    pub fn data(&self) -> (d: &Option<Vec<u8>>)
        ensures
            bytes_view(*d) == self@.data,
    {
        &self.data
    }

    pub fn page_count(&self) -> (n: u16)
        ensures
            n == self@.page_count,
    {
        self.page_count
    }
}

/// A firmware-update command as a mathematical value.
pub enum SWUpdateCmdView {
    StartBootLoader,
    GetBootLoaderVersion(Option<u8>),
    GetBootLoaderState(Option<SWUpdateBootLoaderStates>),
    WriteFWData(FWDataView),
    QuitBootLoader,
    CRCCheck(u16),
}

impl View for SWUpdateCmd {
    type V = SWUpdateCmdView;

    open spec fn view(&self) -> SWUpdateCmdView {
        match *self {
            SWUpdateCmd::StartBootLoader => SWUpdateCmdView::StartBootLoader,
            SWUpdateCmd::GetBootLoaderVersion(v) => SWUpdateCmdView::GetBootLoaderVersion(v),
            SWUpdateCmd::GetBootLoaderState(s) => SWUpdateCmdView::GetBootLoaderState(s),
            SWUpdateCmd::WriteFWData(fw) => SWUpdateCmdView::WriteFWData(fw@),
            SWUpdateCmd::QuitBootLoader => SWUpdateCmdView::QuitBootLoader,
            SWUpdateCmd::CRCCheck(c) => SWUpdateCmdView::CRCCheck(c),
        }
    }
}

/// The subcommand byte of each leaf.
pub open spec fn swupdate_tag(c: SWUpdateCmdView) -> u8 {
    match c {
        SWUpdateCmdView::StartBootLoader => 0x00,
        SWUpdateCmdView::GetBootLoaderVersion(_) => 0x01,
        SWUpdateCmdView::GetBootLoaderState(_) => 0x02,
        SWUpdateCmdView::WriteFWData(_) => 0x03,
        SWUpdateCmdView::QuitBootLoader => 0x04,
        SWUpdateCmdView::CRCCheck(_) => 0x05,
    }
}

/// The data of a transfer unit, or no bytes where it holds none.
pub open spec fn fw_bytes(fw: FWDataView) -> Seq<u8> {
    match fw.data {
        Some(d) => d,
        None => Seq::<u8>::empty(),
    }
}

/// What a request carries after its subcommand byte. A transfer carries
/// the page count and the chunk length, two bytes each with the high byte
/// first, and the data. A CRC check carries the image CRC, high byte
/// first.
pub open spec fn swupdate_request_payload(c: SWUpdateCmdView) -> Seq<u8> {
    match c {
        SWUpdateCmdView::WriteFWData(fw) => seq![
            hi_byte(fw.page_count),
            lo_byte(fw.page_count),
            ((fw.chunk_len / 256) % 256) as u8,
            (fw.chunk_len % 256) as u8,
        ] + fw_bytes(fw),
        SWUpdateCmdView::CRCCheck(crc) => seq![hi_byte(crc), lo_byte(crc)],
        _ => Seq::<u8>::empty(),
    }
}

/// A request without its CRC: the subcommand byte and the payload.
pub open spec fn swupdate_request(c: SWUpdateCmdView) -> Seq<u8> {
    seq![swupdate_tag(c)] + swupdate_request_payload(c)
}

/// The least number of payload bytes a reply to each subcommand holds.
pub open spec fn swupdate_min_payload(sub: u8) -> nat {
    if sub == 0x03 {
        2
    } else if sub == 0x01 || sub == 0x02 || sub == 0x05 {
        1
    } else {
        0
    }
}

/// What a payload of sufficient length has to hold besides: a state byte
/// names a state, and a transfer reply does not report the page count
/// 0xFFFF, by which the device says that the transfer failed.
pub open spec fn swupdate_payload_ok(sub: u8, data: Seq<u8>) -> bool {
    if sub == 0x02 {
        data[0] <= 6
    } else if sub == 0x03 {
        be16(data[0], data[1]) != 0xFFFF
    } else {
        true
    }
}

/// The leaf that a reply with a known subcommand byte and an acceptable
/// payload stands for. The status of a CRC check is one byte; zero
/// reports success.
pub open spec fn swupdate_reply(sub: u8, data: Seq<u8>) -> SWUpdateCmdView {
    if sub == 0x00 {
        SWUpdateCmdView::StartBootLoader
    } else if sub == 0x01 {
        SWUpdateCmdView::GetBootLoaderVersion(Some(data[0]))
    } else if sub == 0x02 {
        SWUpdateCmdView::GetBootLoaderState(Some(bootloader_state_spec(data[0])))
    } else if sub == 0x03 {
        SWUpdateCmdView::WriteFWData(
            FWDataView { page_count: be16(data[0], data[1]), chunk_len: 0, data: None },
        )
    } else if sub == 0x04 {
        SWUpdateCmdView::QuitBootLoader
    } else {
        SWUpdateCmdView::CRCCheck(data[0] as u16)
    }
}

/// Decoding of the part of a frame that follows the category byte and
/// precedes the CRC: the subcommand byte, and its payload.
pub open spec fn swupdate_decode(v: Seq<u8>) -> Result<SWUpdateCmdView, TechAirError> {
    if v.len() == 0 {
        fail(ErrorKind::InvalidFrame)
    } else if v[0] > 0x05 {
        fail(ErrorKind::UnknownSubcommand)
    } else if v.len() - 1 < swupdate_min_payload(v[0]) {
        fail(ErrorKind::InvalidPayload)
    } else if !swupdate_payload_ok(v[0], v.skip(1)) {
        fail(ErrorKind::InvalidPayload)
    } else {
        Ok(swupdate_reply(v[0], v.skip(1)))
    }
}

impl SWUpdateCmd {
    /// Decodes a subcommand byte and its payload.
    pub fn try_from(v: Vec<u8>) -> (r: Result<SWUpdateCmd, TechAirError>)
        ensures
            agrees(r, swupdate_decode(v@)),
    {
        if v.len() == 0 {
            return Err(TechAirError::new(ErrorKind::InvalidFrame));
        }
        let sub: u8 = v[0];
        if sub > 0x05 {
            return Err(TechAirError::new(ErrorKind::UnknownSubcommand));
        }
        let data: Vec<u8> = tail(&v, 1);
        let bad = Err(TechAirError::new(ErrorKind::InvalidPayload));
        let cmd = match sub {
            0x00 => SWUpdateCmd::StartBootLoader,
            0x01 => {
                if data.len() < 1 {
                    return bad;
                }
                SWUpdateCmd::GetBootLoaderVersion(Some(data[0]))
            },
            0x02 => {
                if data.len() < 1 || data[0] > 6 {
                    return bad;
                }
                SWUpdateCmd::GetBootLoaderState(Some(SWUpdateBootLoaderStates::from(data[0])))
            },
            0x03 => {
                if data.len() < 2 {
                    return bad;
                }
                let page_count: u16 = word(data[0], data[1]);
                if page_count == 0xFFFF {
                    return bad;
                }
                SWUpdateCmd::WriteFWData(FWData::reply(page_count))
            },
            0x04 => SWUpdateCmd::QuitBootLoader,
            _ => {
                if data.len() < 1 {
                    return bad;
                }
                SWUpdateCmd::CRCCheck(data[0] as u16)
            },
        };
        Ok(cmd)
    }
}

impl TechAirEncoder for SWUpdateCmd {
    open spec fn encodable(&self) -> bool {
        true
    }

    open spec fn encoding(&self, prefix: Seq<u8>) -> Seq<u8> {
        sealed(prefix, swupdate_request(self@))
    }

    fn write_bytes(&self, buf: &mut Vec<u8>) {
        match self {
            SWUpdateCmd::StartBootLoader => {
                buf.push(0x00);
            },
            SWUpdateCmd::GetBootLoaderVersion(_) => {
                buf.push(0x01);
            },
            SWUpdateCmd::GetBootLoaderState(_) => {
                buf.push(0x02);
            },
            SWUpdateCmd::WriteFWData(fw_data) => {
                buf.push(0x03);
                buf.push((fw_data.page_count / 256) as u8);
                buf.push((fw_data.page_count % 256) as u8);
                buf.push(((fw_data.chunk_len / 256) % 256) as u8);
                buf.push((fw_data.chunk_len % 256) as u8);
                let ghost head = buf@;
                if let Some(data) = &fw_data.data {
                    let mut i: usize = 0;
                    while i < data.len()
                        invariant
                            i <= data.len(),
                            buf@ == head + data@.take(i as int),
                        decreases data.len() - i,
                    {
                        buf.push(data[i]);
                        proof {
                            assert(data@.take(i + 1) == data@.take(i as int).push(data@[i as int]));
                        }
                        i = i + 1;
                    }
                    proof {
                        assert(data@.take(data.len() as int) == data@);
                    }
                }
            },
            SWUpdateCmd::QuitBootLoader => {
                buf.push(0x04);
            },
            SWUpdateCmd::CRCCheck(crc) => {
                buf.push(0x05);
                buf.push((*crc / 256) as u8);
                buf.push((*crc % 256) as u8);
            },
        }
        proof {
            assert(buf@ =~= old(buf)@ + swupdate_request(self@));
        }
        append_crc(buf);
        proof {
            assert(buf@ =~= old(buf)@ + self.encoding(old(buf)@));
        }
    }
}

} // verus!
