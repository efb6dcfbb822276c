//! Category 0x00: identity, versions, operating modus, service date.

use vstd::prelude::*;
use vstd::string::*;
use crate::cmd::math::{be16, word};
use crate::cmd::text::{dec_text_2, push_dec_2, string_from_utf8, text_view, utf8_text};
use crate::encoder::{append_crc, sealed, tail, TechAirEncoder};
use crate::serial::{agrees, fail, ErrorKind, TechAirError};

verus! {

/// Versions are carried in hundredths: the word 305 stands for 3.05.
#[derive(Clone, Debug, PartialEq)]
pub enum GeneralCmd {
    GetCtrlMode(Option<u8>),
    SetCtrlMode,
    GetSoftwareVersion(Option<u16>),
    GetOperatingModus(Option<OpModus>),
    GetSerialNr(Option<String>),
    SetSerialNr,
    GetHardwareVersion(Option<u16>),
    SetHardwareVersion,
    GetCustomerInfo(Option<String>),
    SetCustomerInfo,
    GetServiceDate(Option<String>),
    SetServiceDate,
}

#[derive(Clone, Copy, Debug, PartialEq, Eq, Structural)]
pub enum OpMode {
    Street,
    Race3S,
    Race,
    RaceVestStreet,
}

#[derive(Clone, Copy, Debug, PartialEq, Eq, Structural)]
pub enum OpAddons {
    OpenLoop,
    SDCard,
    GPS,
}

/// The operating modus: the mode, and the add-ons that are present.
#[derive(Clone, Debug, PartialEq)]
pub struct OpModus {
    op_mode: Option<OpMode>,
    op_addons: Option<Vec<OpAddons>>,
}

pub struct OpModusView {
    pub op_mode: Option<OpMode>,
    pub op_addons: Option<Seq<OpAddons>>,
}

impl View for OpModus {
    type V = OpModusView;

    closed spec fn view(&self) -> OpModusView {
        OpModusView {
            op_mode: self.op_mode,
            op_addons: match self.op_addons {
                Some(a) => Some(a@),
                None => None,
            },
        }
    }
}

impl OpModus {
    pub fn op_mode(&self) -> (m: Option<OpMode>)
        ensures
            m == self@.op_mode,
    {
        self.op_mode
    }

    /// The add-ons, in the order they were decoded.
    pub fn op_addons(&self) -> (a: Option<Vec<OpAddons>>)
        ensures
            match a {
                Some(v) => self@.op_addons == Some(v@),
                None => self@.op_addons is None,
            },
    {
        match &self.op_addons {
            Some(v) => {
                let mut out: Vec<OpAddons> = Vec::new();
                let mut i: usize = 0;
                while i < v.len()
                    invariant
                        i <= v.len(),
                        out@ == v@.take(i as int),
                    decreases v.len() - i,
                {
                    out.push(v[i]);
                    proof {
                        assert(v@.take(i + 1) == v@.take(i as int).push(v@[i as int]));
                    }
                    i = i + 1;
                }
                proof {
                    assert(v@.take(v.len() as int) == v@);
                }
                Some(out)
            },
            None => None,
        }
    }
}

/// A general command as a mathematical value.
pub enum GeneralCmdView {
    GetCtrlMode(Option<u8>),
    SetCtrlMode,
    GetSoftwareVersion(Option<u16>),
    GetOperatingModus(Option<OpModusView>),
    GetSerialNr(Option<Seq<char>>),
    SetSerialNr,
    GetHardwareVersion(Option<u16>),
    SetHardwareVersion,
    GetCustomerInfo(Option<Seq<char>>),
    SetCustomerInfo,
    GetServiceDate(Option<Seq<char>>),
    SetServiceDate,
}

impl View for GeneralCmd {
    type V = GeneralCmdView;

    open spec fn view(&self) -> GeneralCmdView {
        match *self {
            GeneralCmd::GetCtrlMode(m) => GeneralCmdView::GetCtrlMode(m),
            GeneralCmd::SetCtrlMode => GeneralCmdView::SetCtrlMode,
            GeneralCmd::GetSoftwareVersion(v) => GeneralCmdView::GetSoftwareVersion(v),
            GeneralCmd::GetOperatingModus(m) => GeneralCmdView::GetOperatingModus(
                match m {
                    Some(modus) => Some(modus@),
                    None => None,
                },
            ),
            GeneralCmd::GetSerialNr(t) => GeneralCmdView::GetSerialNr(text_view(t)),
            GeneralCmd::SetSerialNr => GeneralCmdView::SetSerialNr,
            GeneralCmd::GetHardwareVersion(v) => GeneralCmdView::GetHardwareVersion(v),
            GeneralCmd::SetHardwareVersion => GeneralCmdView::SetHardwareVersion,
            GeneralCmd::GetCustomerInfo(t) => GeneralCmdView::GetCustomerInfo(text_view(t)),
            GeneralCmd::SetCustomerInfo => GeneralCmdView::SetCustomerInfo,
            GeneralCmd::GetServiceDate(t) => GeneralCmdView::GetServiceDate(text_view(t)),
            GeneralCmd::SetServiceDate => GeneralCmdView::SetServiceDate,
        }
    }
}

/// The subcommand byte of each leaf.
pub open spec fn general_tag(c: GeneralCmdView) -> u8 {
    match c {
        GeneralCmdView::GetCtrlMode(_) => 0x00,
        GeneralCmdView::SetCtrlMode => 0x01,
        GeneralCmdView::GetSoftwareVersion(_) => 0x02,
        GeneralCmdView::GetOperatingModus(_) => 0x03,
        GeneralCmdView::GetSerialNr(_) => 0x04,
        GeneralCmdView::SetSerialNr => 0x05,
        GeneralCmdView::GetHardwareVersion(_) => 0x06,
        GeneralCmdView::SetHardwareVersion => 0x07,
        GeneralCmdView::GetCustomerInfo(_) => 0x08,
        GeneralCmdView::SetCustomerInfo => 0x09,
        GeneralCmdView::GetServiceDate(_) => 0x0a,
        GeneralCmdView::SetServiceDate => 0x0b,
    }
}

/// What a request carries after its subcommand byte: nothing, for every
/// general leaf.
pub open spec fn general_request_payload(c: GeneralCmdView) -> Seq<u8> {
    Seq::<u8>::empty()
}

/// A request without its CRC: the subcommand byte and the payload.
pub open spec fn general_request(c: GeneralCmdView) -> Seq<u8> {
    seq![general_tag(c)] + general_request_payload(c)
}

/// The mode that a mode byte names.
pub open spec fn op_mode_spec(flags: u8) -> Option<OpMode> {
    if flags == 0xaa {
        Some(OpMode::Street)
    } else if flags == 0xbb {
        Some(OpMode::Race3S)
    } else if flags == 0xdd {
        Some(OpMode::Race)
    } else if flags == 0xcc {
        Some(OpMode::RaceVestStreet)
    } else {
        None
    }
}

/// The add-ons read from an add-on byte, in the order SD card, GPS, open
/// loop. Each test compares a masked bit with the number one.
pub open spec fn op_addons_list(flags: u8) -> Seq<OpAddons> {
    (if flags & 4 == 1 {
        seq![OpAddons::SDCard]
    } else {
        Seq::<OpAddons>::empty()
    }) + (if flags & 8 == 1 {
        seq![OpAddons::GPS]
    } else {
        Seq::<OpAddons>::empty()
    }) + (if flags & 16 == 1 {
        seq![OpAddons::OpenLoop]
    } else {
        Seq::<OpAddons>::empty()
    })
}

/// The add-ons of an add-on byte, or nothing where the list is empty.
pub open spec fn op_addons_spec(flags: u8) -> Option<Seq<OpAddons>> {
    if op_addons_list(flags).len() > 0 {
        Some(op_addons_list(flags))
    } else {
        None
    }
}

/// No add-on byte yields an add-on: a bit masked with 4, 8 or 16 is never
/// the number one.
pub proof fn lemma_op_addons_never_reported(flags: u8)
    ensures
        op_addons_spec(flags) is None,
{
    assert(flags & 4 != 1) by (bit_vector);
    assert(flags & 8 != 1) by (bit_vector);
    assert(flags & 16 != 1) by (bit_vector);
}

/// A service date as `DD/MM/20YY`.
pub open spec fn service_date_text(day: u8, month: u8, year: u8) -> Seq<char> {
    dec_text_2(day as nat) + seq!['/'] + dec_text_2(month as nat) + seq!['/', '2', '0']
        + dec_text_2(year as nat)
}

/// The least number of payload bytes a reply to each subcommand holds.
pub open spec fn general_min_payload(sub: u8) -> nat {
    if sub == 0x0a {
        3
    } else if sub == 0x02 || sub == 0x03 || sub == 0x06 {
        2
    } else if sub == 0x00 || sub == 0x08 {
        1
    } else {
        0
    }
}

/// The leaf that a reply with a known subcommand byte and a payload of
/// sufficient length stands for. Customer information follows one length
/// byte, which is passed over.
pub open spec fn general_reply(sub: u8, data: Seq<u8>) -> GeneralCmdView {
    if sub == 0x00 {
        GeneralCmdView::GetCtrlMode(Some(data[0]))
    } else if sub == 0x01 {
        GeneralCmdView::SetCtrlMode
    } else if sub == 0x02 {
        GeneralCmdView::GetSoftwareVersion(Some(be16(data[0], data[1])))
    } else if sub == 0x03 {
        GeneralCmdView::GetOperatingModus(
            Some(OpModusView { op_mode: op_mode_spec(data[0]), op_addons: op_addons_spec(data[1]) }),
        )
    } else if sub == 0x04 {
        GeneralCmdView::GetSerialNr(utf8_text(data))
    } else if sub == 0x05 {
        GeneralCmdView::SetSerialNr
    } else if sub == 0x06 {
        GeneralCmdView::GetHardwareVersion(Some(be16(data[0], data[1])))
    } else if sub == 0x07 {
        GeneralCmdView::SetHardwareVersion
    } else if sub == 0x08 {
        GeneralCmdView::GetCustomerInfo(utf8_text(data.skip(1)))
    } else if sub == 0x09 {
        GeneralCmdView::SetCustomerInfo
    } else if sub == 0x0a {
        GeneralCmdView::GetServiceDate(Some(service_date_text(data[0], data[1], data[2])))
    } else {
        GeneralCmdView::SetServiceDate
    }
}

/// Decoding of the part of a frame that follows the category byte and
/// precedes the CRC: the subcommand byte, and its payload.
pub open spec fn general_decode(v: Seq<u8>) -> Result<GeneralCmdView, TechAirError> {
    if v.len() == 0 {
        fail(ErrorKind::InvalidFrame)
    } else if v[0] > 0x0b {
        fail(ErrorKind::UnknownSubcommand)
    } else if v.len() - 1 < general_min_payload(v[0]) {
        fail(ErrorKind::InvalidPayload)
    } else {
        Ok(general_reply(v[0], v.skip(1)))
    }
}

pub fn decode_op_mode(flags: u8) -> (m: Option<OpMode>)
    ensures
        m == op_mode_spec(flags),
{
    match flags {
        0xaa => Some(OpMode::Street),
        0xbb => Some(OpMode::Race3S),
        0xdd => Some(OpMode::Race),
        0xcc => Some(OpMode::RaceVestStreet),
        _ => None,
    }
}

pub fn decode_op_addons(flags: u8) -> (a: Option<Vec<OpAddons>>)
    ensures
        match a {
            Some(v) => op_addons_spec(flags) == Some(v@),
            None => op_addons_spec(flags) is None,
        },
{
    let mut decode: Vec<OpAddons> = Vec::new();
    if flags & 4 == 1 {
        decode.push(OpAddons::SDCard);
    }
    if flags & 8 == 1 {
        decode.push(OpAddons::GPS);
    }
    if flags & 16 == 1 {
        decode.push(OpAddons::OpenLoop);
    }
    proof {
        assert(decode@ =~= op_addons_list(flags));
    }
    if decode.len() > 0 {
        Some(decode)
    } else {
        None
    }
}

/// A service date as text.
pub fn service_date(day: u8, month: u8, year: u8) -> (s: String)
    ensures
        s@ == service_date_text(day, month, year),
{
    proof {
        reveal_strlit("/");
        reveal_strlit("/20");
    }
    let mut s: String = String::new();
    push_dec_2(&mut s, day as u16);
    s.append("/");
    push_dec_2(&mut s, month as u16);
    s.append("/20");
    push_dec_2(&mut s, year as u16);
    proof {
        assert(s@ =~= service_date_text(day, month, year));
    }
    s
}

impl GeneralCmd {
    /// Decodes a subcommand byte and its payload.
    pub fn try_from(v: Vec<u8>) -> (r: Result<GeneralCmd, TechAirError>)
        ensures
            agrees(r, general_decode(v@)),
    {
        if v.len() == 0 {
            return Err(TechAirError::new(ErrorKind::InvalidFrame));
        }
        let sub: u8 = v[0];
        if sub > 0x0b {
            return Err(TechAirError::new(ErrorKind::UnknownSubcommand));
        }
        let data: Vec<u8> = tail(&v, 1);
        let short = Err(TechAirError::new(ErrorKind::InvalidPayload));
        let cmd = match sub {
            0x00 => {
                if data.len() < 1 {
                    return short;
                }
                GeneralCmd::GetCtrlMode(Some(data[0]))
            },
            0x01 => GeneralCmd::SetCtrlMode,
            0x02 => {
                if data.len() < 2 {
                    return short;
                }
                GeneralCmd::GetSoftwareVersion(Some(word(data[0], data[1])))
            },
            0x03 => {
                if data.len() < 2 {
                    return short;
                }
                let mode = decode_op_mode(data[0]);
                let addons = decode_op_addons(data[1]);
                GeneralCmd::GetOperatingModus(Some(OpModus { op_mode: mode, op_addons: addons }))
            },
            0x04 => GeneralCmd::GetSerialNr(string_from_utf8(data)),
            0x05 => GeneralCmd::SetSerialNr,
            0x06 => {
                if data.len() < 2 {
                    return short;
                }
                GeneralCmd::GetHardwareVersion(Some(word(data[0], data[1])))
            },
            0x07 => GeneralCmd::SetHardwareVersion,
            0x08 => {
                if data.len() < 1 {
                    return short;
                }
                GeneralCmd::GetCustomerInfo(string_from_utf8(tail(&data, 1)))
            },
            0x09 => GeneralCmd::SetCustomerInfo,
            0x0a => {
                if data.len() < 3 {
                    return short;
                }
                GeneralCmd::GetServiceDate(Some(service_date(data[0], data[1], data[2])))
            },
            _ => GeneralCmd::SetServiceDate,
        };
        Ok(cmd)
    }
}

impl TechAirEncoder for GeneralCmd {
    open spec fn encodable(&self) -> bool {
        true
    }

    open spec fn encoding(&self, prefix: Seq<u8>) -> Seq<u8> {
        sealed(prefix, general_request(self@))
    }

    fn write_bytes(&self, buf: &mut Vec<u8>) {
        match self {
            GeneralCmd::GetCtrlMode(_) => {
                buf.push(0x00);
            },
            GeneralCmd::SetCtrlMode => {
                buf.push(0x01);
            },
            GeneralCmd::GetSoftwareVersion(_) => {
                buf.push(0x02);
            },
            GeneralCmd::GetOperatingModus(_) => {
                buf.push(0x03);
            },
            GeneralCmd::GetSerialNr(_) => {
                buf.push(0x04);
            },
            GeneralCmd::SetSerialNr => {
                buf.push(0x05);
            },
            GeneralCmd::GetHardwareVersion(_) => {
                buf.push(0x06);
            },
            GeneralCmd::SetHardwareVersion => {
                buf.push(0x07);
            },
            GeneralCmd::GetCustomerInfo(_) => {
                buf.push(0x08);
            },
            GeneralCmd::SetCustomerInfo => {
                buf.push(0x09);
            },
            GeneralCmd::GetServiceDate(_) => {
                buf.push(0x0a);
            },
            GeneralCmd::SetServiceDate => {
                buf.push(0x0b);
            },
        }
        proof {
            assert(buf@ =~= old(buf)@ + general_request(self@));
        }
        append_crc(buf);
        proof {
            assert(buf@ =~= old(buf)@ + self.encoding(old(buf)@));
        }
    }
}

} // verus!
