//! Category 0x06: ignition control, squib calibration, inflation type.
//! The leaf that fires the airbag is never sent and never accepted.

use vstd::prelude::*;
use vstd::pervasive::unreached;
use crate::cmd::math::{be16, word};
use crate::encoder::{append_crc, sealed, tail, TechAirEncoder};
use crate::serial::{agrees, fail, ErrorKind, TechAirError};

verus! {

/// Squib resistances are carried in thousandths of an ohm, and left out
/// where the device reports more than a hundred ohms.
#[derive(Clone, Copy, Debug, PartialEq, Eq)]
pub enum AirbagCmd {
    GetIgnitionCtrlMode,
    GetIgnitionCtrlStatus,
    InitIgnitionCtrl,
    DiagIgnitionCtrl,
    ArmIgnitionCtrl,
    FireAIRBAG,
    ResetIgnitionCtrl,
    DiagGetSquibRes,
    GetCalibSquibRes((Option<u16>, Option<u16>)),
    SetCalibSquibRes,
    GetInflationType(u8),
    SetInflationType(u8),
}

impl View for AirbagCmd {
    type V = AirbagCmd;

    open spec fn view(&self) -> AirbagCmd {
        *self
    }
}

/// The subcommand byte of each leaf.
pub open spec fn airbag_tag(c: AirbagCmd) -> u8 {
    match c {
        AirbagCmd::GetIgnitionCtrlMode => 0x00,
        AirbagCmd::GetIgnitionCtrlStatus => 0x01,
        AirbagCmd::InitIgnitionCtrl => 0x02,
        AirbagCmd::DiagIgnitionCtrl => 0x03,
        AirbagCmd::ArmIgnitionCtrl => 0x04,
        AirbagCmd::FireAIRBAG => 0x05,
        AirbagCmd::ResetIgnitionCtrl => 0x06,
        AirbagCmd::DiagGetSquibRes => 0x07,
        AirbagCmd::GetCalibSquibRes(_) => 0x08,
        AirbagCmd::SetCalibSquibRes => 0x09,
        AirbagCmd::GetInflationType(_) => 0x0a,
        AirbagCmd::SetInflationType(_) => 0x0b,
    }
}

/// What a request carries after its subcommand byte: the inflation type
/// to set, and nothing for the other leaves.
pub open spec fn airbag_request_payload(c: AirbagCmd) -> Seq<u8> {
    match c {
        AirbagCmd::SetInflationType(it) => seq![it],
        _ => Seq::<u8>::empty(),
    }
}

/// A request without its CRC: the subcommand byte and the payload.
pub open spec fn airbag_request(c: AirbagCmd) -> Seq<u8> {
    seq![airbag_tag(c)] + airbag_request_payload(c)
}

/// A resistance in thousandths of an ohm, kept where it is at most a
/// hundred ohms.
pub open spec fn squib_res_spec(milliohms: u16) -> Option<u16> {
    if milliohms <= 100_000 {
        Some(milliohms)
    } else {
        None
    }
}

/// The least number of payload bytes a reply to each subcommand holds.
pub open spec fn airbag_min_payload(sub: u8) -> nat {
    if sub == 0x08 {
        4
    } else if sub == 0x0a {
        1
    } else {
        0
    }
}

/// The leaf that a reply with a known, permitted subcommand byte and a
/// payload of sufficient length stands for. A frame that sets the
/// inflation type holds the type where it carries one, and zero where it
/// is a bare acknowledgement.
pub open spec fn airbag_reply(sub: u8, data: Seq<u8>) -> AirbagCmd {
    if sub == 0x00 {
        AirbagCmd::GetIgnitionCtrlMode
    } else if sub == 0x01 {
        AirbagCmd::GetIgnitionCtrlStatus
    } else if sub == 0x02 {
        AirbagCmd::InitIgnitionCtrl
    } else if sub == 0x03 {
        AirbagCmd::DiagIgnitionCtrl
    } else if sub == 0x04 {
        AirbagCmd::ArmIgnitionCtrl
    } else if sub == 0x06 {
        AirbagCmd::ResetIgnitionCtrl
    } else if sub == 0x07 {
        AirbagCmd::DiagGetSquibRes
    } else if sub == 0x08 {
        AirbagCmd::GetCalibSquibRes(
            (squib_res_spec(be16(data[0], data[1])), squib_res_spec(be16(data[2], data[3]))),
        )
    } else if sub == 0x09 {
        AirbagCmd::SetCalibSquibRes
    } else if sub == 0x0a {
        AirbagCmd::GetInflationType(data[0])
    } else if data.len() > 0 {
        AirbagCmd::SetInflationType(data[0])
    } else {
        AirbagCmd::SetInflationType(0)
    }
}

/// Decoding of the part of a frame that follows the category byte and
/// precedes the CRC: the subcommand byte, and its payload.
pub open spec fn airbag_decode(v: Seq<u8>) -> Result<AirbagCmd, TechAirError> {
    if v.len() == 0 {
        fail(ErrorKind::InvalidFrame)
    } else if v[0] == 0x05 {
        fail(ErrorKind::ForbiddenCommand)
    } else if v[0] > 0x0b {
        fail(ErrorKind::UnknownSubcommand)
    } else if v.len() - 1 < airbag_min_payload(v[0]) {
        fail(ErrorKind::InvalidPayload)
    } else {
        Ok(airbag_reply(v[0], v.skip(1)))
    }
}

/// The sixteen-bit value at the head of `data`, high byte first.
pub fn as_u16(data: &[u8]) -> (w: u16)
    requires
        data.len() >= 2,
    ensures
        w == be16(data[0], data[1]),
{
    word(data[0], data[1])
}

/// The calibrated resistance at the head of `data`, in thousandths of an
/// ohm, where it is within range.
pub fn decode_calibres(data: &[u8]) -> (r: Option<u16>)
    requires
        data.len() >= 2,
    ensures
        r == squib_res_spec(be16(data[0], data[1])),
{
    let r0: u16 = as_u16(data);
    if (r0 as u32) <= 100_000 {
        Some(r0)
    } else {
        None
    }
}

impl AirbagCmd {
    /// Decodes a subcommand byte and its payload.
    pub fn try_from(v: Vec<u8>) -> (r: Result<AirbagCmd, TechAirError>)
        ensures
            agrees(r, airbag_decode(v@)),
    {
        if v.len() == 0 {
            return Err(TechAirError::new(ErrorKind::InvalidFrame));
        }
        let sub: u8 = v[0];
        if sub == 0x05 {
            return Err(TechAirError::new(ErrorKind::ForbiddenCommand));
        }
        if sub > 0x0b {
            return Err(TechAirError::new(ErrorKind::UnknownSubcommand));
        }
        let data: Vec<u8> = tail(&v, 1);
        let short = Err(TechAirError::new(ErrorKind::InvalidPayload));
        let cmd = match sub {
            0x00 => AirbagCmd::GetIgnitionCtrlMode,
            0x01 => AirbagCmd::GetIgnitionCtrlStatus,
            0x02 => AirbagCmd::InitIgnitionCtrl,
            0x03 => AirbagCmd::DiagIgnitionCtrl,
            0x04 => AirbagCmd::ArmIgnitionCtrl,
            0x06 => AirbagCmd::ResetIgnitionCtrl,
            0x07 => AirbagCmd::DiagGetSquibRes,
            0x08 => {
                if data.len() < 4 {
                    return short;
                }
                let rest: Vec<u8> = tail(&data, 2);
                let res1 = decode_calibres(data.as_slice());
                let res2 = decode_calibres(rest.as_slice());
                AirbagCmd::GetCalibSquibRes((res1, res2))
            },
            0x09 => AirbagCmd::SetCalibSquibRes,
            0x0a => {
                if data.len() < 1 {
                    return short;
                }
                AirbagCmd::GetInflationType(data[0])
            },
            _ => {
                if data.len() > 0 {
                    AirbagCmd::SetInflationType(data[0])
                } else {
                    AirbagCmd::SetInflationType(0)
                }
            },
        };
        Ok(cmd)
    }
}

impl AirbagCmd {
    /// Appends the request for a leaf as `write_bytes` does, and refuses
    /// the leaf that fires the airbag: for it nothing is appended.
    pub fn try_write_bytes(&self, buf: &mut Vec<u8>) -> (r: Result<(), TechAirError>)
        ensures
            match r {
                Ok(()) => !(*self is FireAIRBAG) && final(buf)@ == old(buf)@ + self.encoding(old(buf)@),
                Err(e) => *self is FireAIRBAG && e.kind == ErrorKind::ForbiddenCommand && final(buf)@
                    == old(buf)@,
            },
    {
        match self {
            AirbagCmd::FireAIRBAG => Err(TechAirError::new(ErrorKind::ForbiddenCommand)),
            _ => {
                self.write_bytes(buf);
                Ok(())
            },
        }
    }
}

impl TechAirEncoder for AirbagCmd {
    /// Every leaf may be sent but the one that fires the airbag.
    open spec fn encodable(&self) -> bool {
        !(*self is FireAIRBAG)
    }

    open spec fn encoding(&self, prefix: Seq<u8>) -> Seq<u8> {
        sealed(prefix, airbag_request(self@))
    }

    fn write_bytes(&self, buf: &mut Vec<u8>) {
        match self {
            AirbagCmd::GetIgnitionCtrlMode => {
                buf.push(0x00);
            },
            AirbagCmd::GetIgnitionCtrlStatus => {
                buf.push(0x01);
            },
            AirbagCmd::InitIgnitionCtrl => {
                buf.push(0x02);
            },
            AirbagCmd::DiagIgnitionCtrl => {
                buf.push(0x03);
            },
            AirbagCmd::ArmIgnitionCtrl => {
                buf.push(0x04);
            },
            AirbagCmd::FireAIRBAG => {
                unreached::<()>();
            },
            AirbagCmd::ResetIgnitionCtrl => {
                buf.push(0x06);
            },
            AirbagCmd::DiagGetSquibRes => {
                buf.push(0x07);
            },
            AirbagCmd::GetCalibSquibRes(_) => {
                buf.push(0x08);
            },
            AirbagCmd::SetCalibSquibRes => {
                buf.push(0x09);
            },
            AirbagCmd::GetInflationType(_) => {
                buf.push(0x0a);
            },
            AirbagCmd::SetInflationType(it) => {
                buf.push(0x0b);
                buf.push(*it);
            },
        }
        proof {
            assert(buf@ =~= old(buf)@ + airbag_request(self@));
        }
        append_crc(buf);
        proof {
            assert(buf@ =~= old(buf)@ + self.encoding(old(buf)@));
        }
    }
}

/// Nothing decodes to the leaf that fires the airbag.
pub proof fn lemma_airbag_decode_never_fires(v: Seq<u8>)
    ensures
        airbag_decode(v) != Ok::<AirbagCmd, TechAirError>(AirbagCmd::FireAIRBAG),
{
}

/// Every sixteen-bit resistance is within range: none is left out.
pub proof fn lemma_squib_res_always_kept(milliohms: u16)
    ensures
        squib_res_spec(milliohms) == Some(milliohms),
{
}

/// The leaf that fires the airbag may not be sent, and every other leaf
/// may.
pub proof fn lemma_only_firing_is_refused(c: AirbagCmd)
    ensures
        c.encodable() <==> c != AirbagCmd::FireAIRBAG,
{
}

} // verus!

