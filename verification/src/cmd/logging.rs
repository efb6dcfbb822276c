//! Category 0x01: operating hours, error and crash logs, battery count.

use vstd::prelude::*;
use vstd::string::*;
use crate::cmd::math::{be16, word};
use crate::cmd::text::{bytes_view, dec_text_2, push_dec_2, text_view};
use crate::encoder::{append_crc, sealed, tail, TechAirEncoder};
use crate::serial::{agrees, fail, ErrorKind, TechAirError};

verus! {

#[allow(dead_code)]
#[derive(Clone, Debug, PartialEq)]
pub enum LoggingCmd {
    GetOPHours(Option<String>),
    ClearOPHours,
    GetNumOfErrors(Option<u8>),
    GetErrorEntry(Option<Vec<u8>>),
    ClearErrorHistory,
    GetNumOfPreCrashLogs(Option<u16>),
    GetPreCrashLogs(Option<Vec<u8>>),
    ClearPreCrashLog,
    GetNumOfPostCrashLogs(Option<u16>),
    GetPostCrashBulk(Option<u8>),
    ClearPostCrashLog,
    GetPreCrashBulk,
    GetErrorHistory(Option<Vec<u8>>),
    GetPostCrashLogs(Option<Vec<u8>>),
    GetBatCount(Option<u16>),
    GetPreCrashENCBulk,
    GetPostCrashENCBulk,
}

/// A logging command as a mathematical value: text is a sequence of
/// characters, a log a sequence of bytes.
pub enum LoggingCmdView {
    GetOPHours(Option<Seq<char>>),
    ClearOPHours,
    GetNumOfErrors(Option<u8>),
    GetErrorEntry(Option<Seq<u8>>),
    ClearErrorHistory,
    GetNumOfPreCrashLogs(Option<u16>),
    GetPreCrashLogs(Option<Seq<u8>>),
    ClearPreCrashLog,
    GetNumOfPostCrashLogs(Option<u16>),
    GetPostCrashBulk(Option<u8>),
    ClearPostCrashLog,
    GetPreCrashBulk,
    GetErrorHistory(Option<Seq<u8>>),
    GetPostCrashLogs(Option<Seq<u8>>),
    GetBatCount(Option<u16>),
    GetPreCrashENCBulk,
    GetPostCrashENCBulk,
}

impl View for LoggingCmd {
    type V = LoggingCmdView;

    open spec fn view(&self) -> LoggingCmdView {
        match *self {
            LoggingCmd::GetOPHours(t) => LoggingCmdView::GetOPHours(text_view(t)),
            LoggingCmd::ClearOPHours => LoggingCmdView::ClearOPHours,
            LoggingCmd::GetNumOfErrors(n) => LoggingCmdView::GetNumOfErrors(n),
            LoggingCmd::GetErrorEntry(b) => LoggingCmdView::GetErrorEntry(bytes_view(b)),
            LoggingCmd::ClearErrorHistory => LoggingCmdView::ClearErrorHistory,
            LoggingCmd::GetNumOfPreCrashLogs(n) => LoggingCmdView::GetNumOfPreCrashLogs(n),
            LoggingCmd::GetPreCrashLogs(b) => LoggingCmdView::GetPreCrashLogs(bytes_view(b)),
            LoggingCmd::ClearPreCrashLog => LoggingCmdView::ClearPreCrashLog,
            LoggingCmd::GetNumOfPostCrashLogs(n) => LoggingCmdView::GetNumOfPostCrashLogs(n),
            LoggingCmd::GetPostCrashBulk(n) => LoggingCmdView::GetPostCrashBulk(n),
            LoggingCmd::ClearPostCrashLog => LoggingCmdView::ClearPostCrashLog,
            LoggingCmd::GetPreCrashBulk => LoggingCmdView::GetPreCrashBulk,
            LoggingCmd::GetErrorHistory(b) => LoggingCmdView::GetErrorHistory(bytes_view(b)),
            LoggingCmd::GetPostCrashLogs(b) => LoggingCmdView::GetPostCrashLogs(bytes_view(b)),
            LoggingCmd::GetBatCount(n) => LoggingCmdView::GetBatCount(n),
            LoggingCmd::GetPreCrashENCBulk => LoggingCmdView::GetPreCrashENCBulk,
            LoggingCmd::GetPostCrashENCBulk => LoggingCmdView::GetPostCrashENCBulk,
        }
    }
}

/// The subcommand byte of each leaf.
pub open spec fn logging_tag(c: LoggingCmdView) -> u8 {
    match c {
        LoggingCmdView::GetOPHours(_) => 0x00,
        LoggingCmdView::ClearOPHours => 0x01,
        LoggingCmdView::GetNumOfErrors(_) => 0x02,
        LoggingCmdView::GetErrorEntry(_) => 0x03,
        LoggingCmdView::ClearErrorHistory => 0x04,
        LoggingCmdView::GetNumOfPreCrashLogs(_) => 0x05,
        LoggingCmdView::GetPreCrashLogs(_) => 0x06,
        LoggingCmdView::ClearPreCrashLog => 0x07,
        LoggingCmdView::GetNumOfPostCrashLogs(_) => 0x08,
        LoggingCmdView::GetPostCrashBulk(_) => 0x09,
        LoggingCmdView::ClearPostCrashLog => 0x0a,
        LoggingCmdView::GetPreCrashBulk => 0x0b,
        LoggingCmdView::GetErrorHistory(_) => 0x0c,
        LoggingCmdView::GetPostCrashLogs(_) => 0x0d,
        LoggingCmdView::GetBatCount(_) => 0x0e,
        LoggingCmdView::GetPreCrashENCBulk => 0x0f,
        LoggingCmdView::GetPostCrashENCBulk => 0x10,
    }
}

/// What a request carries after its subcommand byte: nothing, for every
/// logging leaf.
pub open spec fn logging_request_payload(c: LoggingCmdView) -> Seq<u8> {
    Seq::<u8>::empty()
}

/// A request without its CRC: the subcommand byte and the payload.
pub open spec fn logging_request(c: LoggingCmdView) -> Seq<u8> {
    seq![logging_tag(c)] + logging_request_payload(c)
}

/// Operating hours as `HH:MM:SS`: the hours from two bytes, high byte
/// first, and one byte each for minutes and seconds.
pub open spec fn op_hours_text(b0: u8, b1: u8, b2: u8, b3: u8) -> Seq<char> {
    dec_text_2(be16(b0, b1) as nat) + seq![':'] + dec_text_2(b2 as nat) + seq![':'] + dec_text_2(
        b3 as nat,
    )
}

/// The least number of payload bytes a reply to each subcommand holds.
pub open spec fn logging_min_payload(sub: u8) -> nat {
    if sub == 0x00 {
        4
    } else if sub == 0x05 || sub == 0x08 || sub == 0x0e {
        2
    } else if sub == 0x02 || sub == 0x03 || sub == 0x06 || sub == 0x0c || sub == 0x0d {
        1
    } else {
        0
    }
}

/// The leaf that a reply with a known subcommand byte and a payload of
/// sufficient length stands for.
pub open spec fn logging_reply(sub: u8, data: Seq<u8>) -> LoggingCmdView {
    if sub == 0x00 {
        LoggingCmdView::GetOPHours(Some(op_hours_text(data[0], data[1], data[2], data[3])))
    } else if sub == 0x01 {
        LoggingCmdView::ClearOPHours
    } else if sub == 0x02 {
        LoggingCmdView::GetNumOfErrors(Some(data[0]))
    } else if sub == 0x03 {
        LoggingCmdView::GetErrorEntry(Some(data))
    } else if sub == 0x04 {
        LoggingCmdView::ClearErrorHistory
    } else if sub == 0x05 {
        LoggingCmdView::GetNumOfPreCrashLogs(Some(be16(data[0], data[1])))
    } else if sub == 0x06 {
        LoggingCmdView::GetPreCrashLogs(Some(data))
    } else if sub == 0x07 {
        LoggingCmdView::ClearPreCrashLog
    } else if sub == 0x08 {
        LoggingCmdView::GetNumOfPostCrashLogs(Some(be16(data[0], data[1])))
    } else if sub == 0x09 {
        LoggingCmdView::GetPostCrashBulk(None)
    } else if sub == 0x0a {
        LoggingCmdView::ClearPostCrashLog
    } else if sub == 0x0b {
        LoggingCmdView::GetPreCrashBulk
    } else if sub == 0x0c {
        LoggingCmdView::GetErrorHistory(Some(data))
    } else if sub == 0x0d {
        LoggingCmdView::GetPostCrashLogs(Some(data))
    } else if sub == 0x0e {
        LoggingCmdView::GetBatCount(Some(be16(data[0], data[1])))
    } else if sub == 0x0f {
        LoggingCmdView::GetPreCrashENCBulk
    } else {
        LoggingCmdView::GetPostCrashENCBulk
    }
}

/// Decoding of the part of a frame that follows the category byte and
/// precedes the CRC: the subcommand byte, and its payload.
pub open spec fn logging_decode(v: Seq<u8>) -> Result<LoggingCmdView, TechAirError> {
    if v.len() == 0 {
        fail(ErrorKind::InvalidFrame)
    } else if v[0] > 0x10 {
        fail(ErrorKind::UnknownSubcommand)
    } else if v.len() - 1 < logging_min_payload(v[0]) {
        fail(ErrorKind::InvalidPayload)
    } else {
        Ok(logging_reply(v[0], v.skip(1)))
    }
}

/// Operating hours as text.
pub fn op_hours(b0: u8, b1: u8, b2: u8, b3: u8) -> (s: String)
    ensures
        s@ == op_hours_text(b0, b1, b2, b3),
{
    proof {
        reveal_strlit(":");
    }
    let mut s: String = String::new();
    push_dec_2(&mut s, word(b0, b1));
    s.append(":");
    push_dec_2(&mut s, b2 as u16);
    s.append(":");
    push_dec_2(&mut s, b3 as u16);
    proof {
        assert(s@ =~= op_hours_text(b0, b1, b2, b3));
    }
    s
}

impl LoggingCmd {
    /// Decodes a subcommand byte and its payload.
    pub fn try_from(v: Vec<u8>) -> (r: Result<LoggingCmd, TechAirError>)
        ensures
            agrees(r, logging_decode(v@)),
    {
        if v.len() == 0 {
            return Err(TechAirError::new(ErrorKind::InvalidFrame));
        }
        let sub: u8 = v[0];
        if sub > 0x10 {
            return Err(TechAirError::new(ErrorKind::UnknownSubcommand));
        }
        let data: Vec<u8> = tail(&v, 1);
        let short = Err(TechAirError::new(ErrorKind::InvalidPayload));
        let cmd = match sub {
            0x00 => {
                if data.len() < 4 {
                    return short;
                }
                LoggingCmd::GetOPHours(Some(op_hours(data[0], data[1], data[2], data[3])))
            },
            0x01 => LoggingCmd::ClearOPHours,
            0x02 => {
                if data.len() < 1 {
                    return short;
                }
                LoggingCmd::GetNumOfErrors(Some(data[0]))
            },
            0x03 => {
                if data.len() < 1 {
                    return short;
                }
                LoggingCmd::GetErrorEntry(Some(data))
            },
            0x04 => LoggingCmd::ClearErrorHistory,
            0x05 => {
                if data.len() < 2 {
                    return short;
                }
                LoggingCmd::GetNumOfPreCrashLogs(Some(word(data[0], data[1])))
            },
            0x06 => {
                if data.len() < 1 {
                    return short;
                }
                LoggingCmd::GetPreCrashLogs(Some(data))
            },
            0x07 => LoggingCmd::ClearPreCrashLog,
            0x08 => {
                if data.len() < 2 {
                    return short;
                }
                LoggingCmd::GetNumOfPostCrashLogs(Some(word(data[0], data[1])))
            },
            0x09 => LoggingCmd::GetPostCrashBulk(None),
            0x0a => LoggingCmd::ClearPostCrashLog,
            0x0b => LoggingCmd::GetPreCrashBulk,
            0x0c => {
                if data.len() < 1 {
                    return short;
                }
                LoggingCmd::GetErrorHistory(Some(data))
            },
            0x0d => {
                if data.len() < 1 {
                    return short;
                }
                LoggingCmd::GetPostCrashLogs(Some(data))
            },
            0x0e => {
                if data.len() < 2 {
                    return short;
                }
                LoggingCmd::GetBatCount(Some(word(data[0], data[1])))
            },
            0x0f => LoggingCmd::GetPreCrashENCBulk,
            _ => LoggingCmd::GetPostCrashENCBulk,
        };
        Ok(cmd)
    }
}

impl TechAirEncoder for LoggingCmd {
    open spec fn encodable(&self) -> bool {
        true
    }

    open spec fn encoding(&self, prefix: Seq<u8>) -> Seq<u8> {
        sealed(prefix, logging_request(self@))
    }

    fn write_bytes(&self, buf: &mut Vec<u8>) {
        match self {
            LoggingCmd::GetOPHours(_) => {
                buf.push(0x00);
            },
            LoggingCmd::ClearOPHours => {
                buf.push(0x01);
            },
            LoggingCmd::GetNumOfErrors(_) => {
                buf.push(0x02);
            },
            LoggingCmd::GetErrorEntry(_) => {
                buf.push(0x03);
            },
            LoggingCmd::ClearErrorHistory => {
                buf.push(0x04);
            },
            LoggingCmd::GetNumOfPreCrashLogs(_) => {
                buf.push(0x05);
            },
            LoggingCmd::GetPreCrashLogs(_) => {
                buf.push(0x06);
            },
            LoggingCmd::ClearPreCrashLog => {
                buf.push(0x07);
            },
            LoggingCmd::GetNumOfPostCrashLogs(_) => {
                buf.push(0x08);
            },
            LoggingCmd::GetPostCrashBulk(_) => {
                buf.push(0x09);
            },
            LoggingCmd::ClearPostCrashLog => {
                buf.push(0x0a);
            },
            LoggingCmd::GetPreCrashBulk => {
                buf.push(0x0b);
            },
            LoggingCmd::GetErrorHistory(_) => {
                buf.push(0x0c);
            },
            LoggingCmd::GetPostCrashLogs(_) => {
                buf.push(0x0d);
            },
            LoggingCmd::GetBatCount(_) => {
                buf.push(0x0e);
            },
            LoggingCmd::GetPreCrashENCBulk => {
                buf.push(0x0f);
            },
            LoggingCmd::GetPostCrashENCBulk => {
                buf.push(0x10);
            },
        }
        proof {
            assert(buf@ =~= old(buf)@ + logging_request(self@));
        }
        append_crc(buf);
        proof {
            assert(buf@ =~= old(buf)@ + self.encoding(old(buf)@));
        }
    }
}

} // verus!
