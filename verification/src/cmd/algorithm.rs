//! Category 0x05: the deployment algorithm and its thresholds.

use vstd::prelude::*;
use crate::cmd::text::bytes_view;
use crate::encoder::{append_crc, sealed, tail, TechAirEncoder};
use crate::serial::{agrees, fail, ErrorKind, TechAirError};

verus! {

#[derive(Clone, Debug, PartialEq)]
pub enum AlgorithmCmd {
    InitAlgorithm,
    DoSingleSampleCalc,
    GetSingleSampleCalcState,
    GetSingleSampleCalcResult,
    GetAlogrithmThresholds(Option<Vec<u8>>),
    SetAlogrithmThresholds,
    SetAlogrithmDefaultThresholds(Option<u8>),
}

/// An algorithm command as a mathematical value.
pub enum AlgorithmCmdView {
    InitAlgorithm,
    DoSingleSampleCalc,
    GetSingleSampleCalcState,
    GetSingleSampleCalcResult,
    GetAlogrithmThresholds(Option<Seq<u8>>),
    SetAlogrithmThresholds,
    SetAlogrithmDefaultThresholds(Option<u8>),
}

impl View for AlgorithmCmd {
    type V = AlgorithmCmdView;

    open spec fn view(&self) -> AlgorithmCmdView {
        match *self {
            AlgorithmCmd::InitAlgorithm => AlgorithmCmdView::InitAlgorithm,
            AlgorithmCmd::DoSingleSampleCalc => AlgorithmCmdView::DoSingleSampleCalc,
            AlgorithmCmd::GetSingleSampleCalcState => AlgorithmCmdView::GetSingleSampleCalcState,
            AlgorithmCmd::GetSingleSampleCalcResult => AlgorithmCmdView::GetSingleSampleCalcResult,
            AlgorithmCmd::GetAlogrithmThresholds(b) => AlgorithmCmdView::GetAlogrithmThresholds(
                bytes_view(b),
            ),
            AlgorithmCmd::SetAlogrithmThresholds => AlgorithmCmdView::SetAlogrithmThresholds,
            AlgorithmCmd::SetAlogrithmDefaultThresholds(d) => AlgorithmCmdView::SetAlogrithmDefaultThresholds(d),
        }
    }
}

/// The subcommand byte of each leaf.
pub open spec fn algorithm_tag(c: AlgorithmCmdView) -> u8 {
    match c {
        AlgorithmCmdView::InitAlgorithm => 0x00,
        AlgorithmCmdView::DoSingleSampleCalc => 0x01,
        AlgorithmCmdView::GetSingleSampleCalcState => 0x02,
        AlgorithmCmdView::GetSingleSampleCalcResult => 0x03,
        AlgorithmCmdView::GetAlogrithmThresholds(_) => 0x04,
        AlgorithmCmdView::SetAlogrithmThresholds => 0x05,
        AlgorithmCmdView::SetAlogrithmDefaultThresholds(_) => 0x06,
    }
}

/// What a request carries after its subcommand byte: nothing.
pub open spec fn algorithm_request_payload(c: AlgorithmCmdView) -> Seq<u8> {
    Seq::<u8>::empty()
}

/// A request without its CRC: the subcommand byte and the payload.
pub open spec fn algorithm_request(c: AlgorithmCmdView) -> Seq<u8> {
    seq![algorithm_tag(c)] + algorithm_request_payload(c)
}

/// The least number of payload bytes a reply to each subcommand holds.
pub open spec fn algorithm_min_payload(sub: u8) -> nat {
    if sub == 0x04 || sub == 0x06 {
        1
    } else {
        0
    }
}

/// The leaf that a reply with a known subcommand byte and a payload of
/// sufficient length stands for.
pub open spec fn algorithm_reply(sub: u8, data: Seq<u8>) -> AlgorithmCmdView {
    if sub == 0x00 {
        AlgorithmCmdView::InitAlgorithm
    } else if sub == 0x01 {
        AlgorithmCmdView::DoSingleSampleCalc
    } else if sub == 0x02 {
        AlgorithmCmdView::GetSingleSampleCalcState
    } else if sub == 0x03 {
        AlgorithmCmdView::GetSingleSampleCalcResult
    } else if sub == 0x04 {
        AlgorithmCmdView::GetAlogrithmThresholds(Some(data))
    } else if sub == 0x05 {
        AlgorithmCmdView::SetAlogrithmThresholds
    } else {
        AlgorithmCmdView::SetAlogrithmDefaultThresholds(Some(data[0]))
    }
}

/// Decoding of the part of a frame that follows the category byte and
/// precedes the CRC: the subcommand byte, and its payload.
pub open spec fn algorithm_decode(v: Seq<u8>) -> Result<AlgorithmCmdView, TechAirError> {
    if v.len() == 0 {
        fail(ErrorKind::InvalidFrame)
    } else if v[0] > 0x06 {
        fail(ErrorKind::UnknownSubcommand)
    } else if v.len() - 1 < algorithm_min_payload(v[0]) {
        fail(ErrorKind::InvalidPayload)
    } else {
        Ok(algorithm_reply(v[0], v.skip(1)))
    }
}

impl AlgorithmCmd {
    /// Decodes a subcommand byte and its payload.
    pub fn try_from(v: Vec<u8>) -> (r: Result<AlgorithmCmd, TechAirError>)
        ensures
            agrees(r, algorithm_decode(v@)),
    {
        if v.len() == 0 {
            return Err(TechAirError::new(ErrorKind::InvalidFrame));
        }
        let sub: u8 = v[0];
        if sub > 0x06 {
            return Err(TechAirError::new(ErrorKind::UnknownSubcommand));
        }
        let data: Vec<u8> = tail(&v, 1);
        let short = Err(TechAirError::new(ErrorKind::InvalidPayload));
        let cmd = match sub {
            0x00 => AlgorithmCmd::InitAlgorithm,
            0x01 => AlgorithmCmd::DoSingleSampleCalc,
            0x02 => AlgorithmCmd::GetSingleSampleCalcState,
            0x03 => AlgorithmCmd::GetSingleSampleCalcResult,
            0x04 => {
                if data.len() < 1 {
                    return short;
                }
                AlgorithmCmd::GetAlogrithmThresholds(Some(data))
            },
            0x05 => AlgorithmCmd::SetAlogrithmThresholds,
            _ => {
                if data.len() < 1 {
                    return short;
                }
                AlgorithmCmd::SetAlogrithmDefaultThresholds(Some(data[0]))
            },
        };
        Ok(cmd)
    }
}

impl TechAirEncoder for AlgorithmCmd {
    open spec fn encodable(&self) -> bool {
        true
    }

    open spec fn encoding(&self, prefix: Seq<u8>) -> Seq<u8> {
        sealed(prefix, algorithm_request(self@))
    }

    fn write_bytes(&self, buf: &mut Vec<u8>) {
        match self {
            AlgorithmCmd::InitAlgorithm => {
                buf.push(0x00);
            },
            AlgorithmCmd::DoSingleSampleCalc => {
                buf.push(0x01);
            },
            AlgorithmCmd::GetSingleSampleCalcState => {
                buf.push(0x02);
            },
            AlgorithmCmd::GetSingleSampleCalcResult => {
                buf.push(0x03);
            },
            AlgorithmCmd::GetAlogrithmThresholds(_) => {
                buf.push(0x04);
            },
            AlgorithmCmd::SetAlogrithmThresholds => {
                buf.push(0x05);
            },
            AlgorithmCmd::SetAlogrithmDefaultThresholds(_) => {
                buf.push(0x06);
            },
        }
        proof {
            assert(buf@ =~= old(buf)@ + algorithm_request(self@));
        }
        append_crc(buf);
        proof {
            assert(buf@ =~= old(buf)@ + self.encoding(old(buf)@));
        }
    }
}

} // verus!
