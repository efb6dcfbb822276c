//! Category 0x03: voltages, charging state, zip switch, display.

use vstd::prelude::*;
use vstd::string::*;
use crate::cmd::math::{be16, word};
use crate::cmd::text::text_view;
use crate::encoder::{append_crc, sealed, tail, TechAirEncoder};
use crate::serial::{agrees, fail, ErrorKind, TechAirError};

verus! {

/// Voltages are carried in thousandths of a volt.
#[derive(Clone, Debug, PartialEq)]
pub enum MeasureCmd {
    GetLogicVoltage(u16),
    GetPeripheralVoltage(u16),
    GetRightHandVoltage(u16),
    GetLeftHandVoltage(u16),
    GetRightFootVoltage(u16),
    GetLeftFootVoltage(u16),
    GetSquibVoltage(u16),
    GetBatteryVoltage(u16),
    GetChargingState(Option<String>),
    GetZIPSwitchState(bool),
    SetEXTDisplay(u8),
}

/// A measure command as a mathematical value.
pub enum MeasureCmdView {
    GetLogicVoltage(u16),
    GetPeripheralVoltage(u16),
    GetRightHandVoltage(u16),
    GetLeftHandVoltage(u16),
    GetRightFootVoltage(u16),
    GetLeftFootVoltage(u16),
    GetSquibVoltage(u16),
    GetBatteryVoltage(u16),
    GetChargingState(Option<Seq<char>>),
    GetZIPSwitchState(bool),
    SetEXTDisplay(u8),
}

impl View for MeasureCmd {
    type V = MeasureCmdView;

    open spec fn view(&self) -> MeasureCmdView {
        match *self {
            MeasureCmd::GetLogicVoltage(v) => MeasureCmdView::GetLogicVoltage(v),
            MeasureCmd::GetPeripheralVoltage(v) => MeasureCmdView::GetPeripheralVoltage(v),
            MeasureCmd::GetRightHandVoltage(v) => MeasureCmdView::GetRightHandVoltage(v),
            MeasureCmd::GetLeftHandVoltage(v) => MeasureCmdView::GetLeftHandVoltage(v),
            MeasureCmd::GetRightFootVoltage(v) => MeasureCmdView::GetRightFootVoltage(v),
            MeasureCmd::GetLeftFootVoltage(v) => MeasureCmdView::GetLeftFootVoltage(v),
            MeasureCmd::GetSquibVoltage(v) => MeasureCmdView::GetSquibVoltage(v),
            MeasureCmd::GetBatteryVoltage(v) => MeasureCmdView::GetBatteryVoltage(v),
            MeasureCmd::GetChargingState(t) => MeasureCmdView::GetChargingState(text_view(t)),
            MeasureCmd::GetZIPSwitchState(b) => MeasureCmdView::GetZIPSwitchState(b),
            MeasureCmd::SetEXTDisplay(f) => MeasureCmdView::SetEXTDisplay(f),
        }
    }
}

/// The subcommand byte of each leaf.
pub open spec fn measure_tag(c: MeasureCmdView) -> u8 {
    match c {
        MeasureCmdView::GetLogicVoltage(_) => 0x00,
        MeasureCmdView::GetPeripheralVoltage(_) => 0x01,
        MeasureCmdView::GetRightHandVoltage(_) => 0x02,
        MeasureCmdView::GetLeftHandVoltage(_) => 0x03,
        MeasureCmdView::GetRightFootVoltage(_) => 0x04,
        MeasureCmdView::GetLeftFootVoltage(_) => 0x05,
        MeasureCmdView::GetSquibVoltage(_) => 0x06,
        MeasureCmdView::GetBatteryVoltage(_) => 0x07,
        MeasureCmdView::GetChargingState(_) => 0x08,
        MeasureCmdView::GetZIPSwitchState(_) => 0x09,
        MeasureCmdView::SetEXTDisplay(_) => 0x0a,
    }
}

/// What a request carries after its subcommand byte: the display byte for
/// the display leaf, nothing for the others.
pub open spec fn measure_request_payload(c: MeasureCmdView) -> Seq<u8> {
    match c {
        MeasureCmdView::SetEXTDisplay(flag) => seq![flag],
        _ => Seq::<u8>::empty(),
    }
}

/// A request without its CRC: the subcommand byte and the payload.
pub open spec fn measure_request(c: MeasureCmdView) -> Seq<u8> {
    seq![measure_tag(c)] + measure_request_payload(c)
}

/// The first half of a charging state: the supply.
pub open spec fn charging_prefix(v: u8) -> Seq<char> {
    if v & 1 > 0 {
        "Over or undervoltage present, "@
    } else if v & 2 > 0 {
        "USB Power OK, "@
    } else {
        ""@
    }
}

/// The second half of a charging state: the phase of charging.
pub open spec fn charging_suffix(v: u8) -> Seq<char> {
    if v >> 2 == 0 {
        "Charge suspend"@
    } else if v >> 2 == 1 {
        "Fast charge"@
    } else if v >> 2 == 2 {
        "Charge done"@
    } else if v >> 2 == 3 {
        "Pre charge"@
    } else {
        "Error in charge information"@
    }
}

/// A charging state byte as text.
pub open spec fn charging_state_text(v: u8) -> Seq<char> {
    charging_prefix(v) + charging_suffix(v)
}

/// The least number of payload bytes a reply to each subcommand holds.
pub open spec fn measure_min_payload(sub: u8) -> nat {
    if sub <= 0x07 {
        2
    } else if sub == 0x08 || sub == 0x09 {
        1
    } else {
        0
    }
}

/// The leaf that a reply with a known subcommand byte and a payload of
/// sufficient length stands for. A display frame holds the display byte
/// where it carries one, and zero where it is a bare acknowledgement.
pub open spec fn measure_reply(sub: u8, data: Seq<u8>) -> MeasureCmdView {
    if sub == 0x00 {
        MeasureCmdView::GetLogicVoltage(be16(data[0], data[1]))
    } else if sub == 0x01 {
        MeasureCmdView::GetPeripheralVoltage(be16(data[0], data[1]))
    } else if sub == 0x02 {
        MeasureCmdView::GetRightHandVoltage(be16(data[0], data[1]))
    } else if sub == 0x03 {
        MeasureCmdView::GetLeftHandVoltage(be16(data[0], data[1]))
    } else if sub == 0x04 {
        MeasureCmdView::GetRightFootVoltage(be16(data[0], data[1]))
    } else if sub == 0x05 {
        MeasureCmdView::GetLeftFootVoltage(be16(data[0], data[1]))
    } else if sub == 0x06 {
        MeasureCmdView::GetSquibVoltage(be16(data[0], data[1]))
    } else if sub == 0x07 {
        MeasureCmdView::GetBatteryVoltage(be16(data[0], data[1]))
    } else if sub == 0x08 {
        MeasureCmdView::GetChargingState(Some(charging_state_text(data[0])))
    } else if sub == 0x09 {
        MeasureCmdView::GetZIPSwitchState(data[0] > 0)
    } else if data.len() > 0 {
        MeasureCmdView::SetEXTDisplay(data[0])
    } else {
        MeasureCmdView::SetEXTDisplay(0)
    }
}

/// Decoding of the part of a frame that follows the category byte and
/// precedes the CRC: the subcommand byte, and its payload.
pub open spec fn measure_decode(v: Seq<u8>) -> Result<MeasureCmdView, TechAirError> {
    if v.len() == 0 {
        fail(ErrorKind::InvalidFrame)
    } else if v[0] > 0x0a {
        fail(ErrorKind::UnknownSubcommand)
    } else if v.len() - 1 < measure_min_payload(v[0]) {
        fail(ErrorKind::InvalidPayload)
    } else {
        Ok(measure_reply(v[0], v.skip(1)))
    }
}

/// The sixteen-bit value at the head of `data`, high byte first.
pub fn as_u16(data: Vec<u8>) -> (w: u16)
    requires
        data.len() >= 2,
    ensures
        w == be16(data[0], data[1]),
{
    word(data[0], data[1])
}

/// A charging state byte as text: the state of the supply, and the phase
/// of charging.
pub fn decode_charging_state(v: u8) -> (s: String)
    ensures
        s@ == charging_state_text(v),
{
    let s0: &str = if 1 & v > 0 {
        "Over or undervoltage present, "
    } else if 2 & v > 0 {
        "USB Power OK, "
    } else {
        ""
    };
    let s1: &str = match v >> 2 {
        0 => "Charge suspend",
        1 => "Fast charge",
        2 => "Charge done",
        3 => "Pre charge",
        _ => "Error in charge information",
    };
    proof {
        assert(1 & v == v & 1) by (bit_vector);
        assert(2 & v == v & 2) by (bit_vector);
        assert(s0@ == charging_prefix(v));
        assert(s1@ == charging_suffix(v));
    }
    s0.to_owned().concat(s1)
}

impl MeasureCmd {
    /// Decodes a subcommand byte and its payload.
    pub fn try_from(v: Vec<u8>) -> (r: Result<MeasureCmd, TechAirError>)
        ensures
            agrees(r, measure_decode(v@)),
    {
        if v.len() == 0 {
            return Err(TechAirError::new(ErrorKind::InvalidFrame));
        }
        let sub: u8 = v[0];
        if sub > 0x0a {
            return Err(TechAirError::new(ErrorKind::UnknownSubcommand));
        }
        let data: Vec<u8> = tail(&v, 1);
        let short = Err(TechAirError::new(ErrorKind::InvalidPayload));
        if sub <= 0x07 {
            if data.len() < 2 {
                return short;
            }
            let volts: u16 = as_u16(data);
            let cmd = match sub {
                0x00 => MeasureCmd::GetLogicVoltage(volts),
                0x01 => MeasureCmd::GetPeripheralVoltage(volts),
                0x02 => MeasureCmd::GetRightHandVoltage(volts),
                0x03 => MeasureCmd::GetLeftHandVoltage(volts),
                0x04 => MeasureCmd::GetRightFootVoltage(volts),
                0x05 => MeasureCmd::GetLeftFootVoltage(volts),
                0x06 => MeasureCmd::GetSquibVoltage(volts),
                _ => MeasureCmd::GetBatteryVoltage(volts),
            };
            Ok(cmd)
        } else if sub == 0x08 {
            if data.len() < 1 {
                return short;
            }
            Ok(MeasureCmd::GetChargingState(Some(decode_charging_state(data[0]))))
        } else if sub == 0x09 {
            if data.len() < 1 {
                return short;
            }
            Ok(MeasureCmd::GetZIPSwitchState(data[0] > 0))
        } else if data.len() > 0 {
            Ok(MeasureCmd::SetEXTDisplay(data[0]))
        } else {
            Ok(MeasureCmd::SetEXTDisplay(0))
        }
    }
}

impl TechAirEncoder for MeasureCmd {
    open spec fn encodable(&self) -> bool {
        true
    }

    open spec fn encoding(&self, prefix: Seq<u8>) -> Seq<u8> {
        sealed(prefix, measure_request(self@))
    }

    fn write_bytes(&self, buf: &mut Vec<u8>) {
        match self {
            MeasureCmd::GetLogicVoltage(_) => {
                buf.push(0x00);
            },
            MeasureCmd::GetPeripheralVoltage(_) => {
                buf.push(0x01);
            },
            MeasureCmd::GetRightHandVoltage(_) => {
                buf.push(0x02);
            },
            MeasureCmd::GetLeftHandVoltage(_) => {
                buf.push(0x03);
            },
            MeasureCmd::GetRightFootVoltage(_) => {
                buf.push(0x04);
            },
            MeasureCmd::GetLeftFootVoltage(_) => {
                buf.push(0x05);
            },
            MeasureCmd::GetSquibVoltage(_) => {
                buf.push(0x06);
            },
            MeasureCmd::GetBatteryVoltage(_) => {
                buf.push(0x07);
            },
            MeasureCmd::GetChargingState(_) => {
                buf.push(0x08);
            },
            MeasureCmd::GetZIPSwitchState(_) => {
                buf.push(0x09);
            },
            MeasureCmd::SetEXTDisplay(flag) => {
                buf.push(0x0a);
                buf.push(*flag);
            },
        }
        proof {
            assert(buf@ =~= old(buf)@ + measure_request(self@));
        }
        append_crc(buf);
        proof {
            assert(buf@ =~= old(buf)@ + self.encoding(old(buf)@));
        }
    }
}

} // verus!
