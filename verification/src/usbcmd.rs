//! A command of any category, and the frame that carries it:
//! category byte, subcommand byte, payload, CRC low byte, CRC high byte.

use vstd::prelude::*;
use crate::cmd::airbag::{airbag_decode, airbag_min_payload, airbag_request_payload, airbag_tag, AirbagCmd};
use crate::cmd::algorithm::{algorithm_decode, algorithm_min_payload, algorithm_request_payload, algorithm_tag, AlgorithmCmd, AlgorithmCmdView};
use crate::cmd::general::{general_decode, general_min_payload, general_request_payload, general_tag, GeneralCmd, GeneralCmdView};
use crate::cmd::logging::{logging_decode, logging_min_payload, logging_request_payload, logging_tag, LoggingCmd, LoggingCmdView};
use crate::cmd::math::{be16, crc16_spec, crc_bytes, hi_byte, lemma_be16_of_bytes, lemma_bytes_of_be16, lo_byte, word, CRC16};
use crate::cmd::measure::{measure_decode, measure_min_payload, measure_request_payload, measure_tag, MeasureCmd, MeasureCmdView};
use crate::cmd::power::{power_decode, power_request_payload, power_tag, PowerCmd};
use crate::cmd::sensor::{sensor_decode, sensor_min_payload, sensor_request_payload, sensor_tag, SensorCmd};
use crate::cmd::swupdate::{swupdate_decode, swupdate_min_payload, swupdate_payload_ok, swupdate_request_payload, swupdate_tag, SWUpdateCmd, SWUpdateCmdView};
use crate::encoder::TechAirEncoder;
use crate::serial::{agrees, fail, ErrorKind, TechAirError};

verus! {

#[allow(dead_code)]
#[derive(Clone, Debug, PartialEq)]
pub enum UsbCmd {
    General(GeneralCmd),
    Logging(LoggingCmd),
    Power(PowerCmd),
    Measure(MeasureCmd),
    Sensor(SensorCmd),
    Algorithm(AlgorithmCmd),
    Airbag(AirbagCmd),
    SWUpdate(SWUpdateCmd),
}

/// A command as a mathematical value.
pub enum UsbCmdView {
    General(GeneralCmdView),
    Logging(LoggingCmdView),
    Power(PowerCmd),
    Measure(MeasureCmdView),
    Sensor(SensorCmd),
    Algorithm(AlgorithmCmdView),
    Airbag(AirbagCmd),
    SWUpdate(SWUpdateCmdView),
}

impl View for UsbCmd {
    type V = UsbCmdView;

    open spec fn view(&self) -> UsbCmdView {
        match *self {
            UsbCmd::General(c) => UsbCmdView::General(c@),
            UsbCmd::Logging(c) => UsbCmdView::Logging(c@),
            UsbCmd::Power(c) => UsbCmdView::Power(c@),
            UsbCmd::Measure(c) => UsbCmdView::Measure(c@),
            UsbCmd::Sensor(c) => UsbCmdView::Sensor(c@),
            UsbCmd::Algorithm(c) => UsbCmdView::Algorithm(c@),
            UsbCmd::Airbag(c) => UsbCmdView::Airbag(c@),
            UsbCmd::SWUpdate(c) => UsbCmdView::SWUpdate(c@),
        }
    }
}

/// The category byte of a command.
pub open spec fn category(c: UsbCmdView) -> u8 {
    match c {
        UsbCmdView::General(_) => 0x00,
        UsbCmdView::Logging(_) => 0x01,
        UsbCmdView::Power(_) => 0x02,
        UsbCmdView::Measure(_) => 0x03,
        UsbCmdView::Sensor(_) => 0x04,
        UsbCmdView::Algorithm(_) => 0x05,
        UsbCmdView::Airbag(_) => 0x06,
        UsbCmdView::SWUpdate(_) => 0x20,
    }
}

/// The subcommand byte of a command.
pub open spec fn subcommand(c: UsbCmdView) -> u8 {
    match c {
        UsbCmdView::General(l) => general_tag(l),
        UsbCmdView::Logging(l) => logging_tag(l),
        UsbCmdView::Power(l) => power_tag(l),
        UsbCmdView::Measure(l) => measure_tag(l),
        UsbCmdView::Sensor(l) => sensor_tag(l),
        UsbCmdView::Algorithm(l) => algorithm_tag(l),
        UsbCmdView::Airbag(l) => airbag_tag(l),
        UsbCmdView::SWUpdate(l) => swupdate_tag(l),
    }
}

/// What the request for a command carries between the subcommand byte
/// and the CRC.
pub open spec fn request_payload(c: UsbCmdView) -> Seq<u8> {
    match c {
        UsbCmdView::General(l) => general_request_payload(l),
        UsbCmdView::Logging(l) => logging_request_payload(l),
        UsbCmdView::Power(l) => power_request_payload(l),
        UsbCmdView::Measure(l) => measure_request_payload(l),
        UsbCmdView::Sensor(l) => sensor_request_payload(l),
        UsbCmdView::Algorithm(l) => algorithm_request_payload(l),
        UsbCmdView::Airbag(l) => airbag_request_payload(l),
        UsbCmdView::SWUpdate(l) => swupdate_request_payload(l),
    }
}

/// Two commands are the same leaf when they agree in category and
/// subcommand, whatever their payload slots hold.
pub open spec fn same_leaf(a: UsbCmdView, b: UsbCmdView) -> bool {
    category(a) == category(b) && subcommand(a) == subcommand(b)
}

/// The one command that is never sent: firing the airbag.
pub open spec fn forbidden(c: UsbCmdView) -> bool {
    c == UsbCmdView::Airbag(AirbagCmd::FireAIRBAG)
}

/// The frame of a request: category, subcommand, payload, and the CRC of
/// these, low byte first.
pub open spec fn encode_frame_spec(c: UsbCmdView) -> Seq<u8> {
    let body = seq![category(c), subcommand(c)] + request_payload(c);
    body + crc_bytes(crc16_spec(body))
}

/// Whether the last two bytes of `v`, read low byte first, are the CRC of
/// the bytes before them.
pub open spec fn crc_ok(v: Seq<u8>) -> bool {
    v.len() >= 2 && be16(v[v.len() - 1], v[v.len() - 2]) == crc16_spec(v.take(v.len() - 2))
}

/// Dispatch on the category byte, on what lies between it and the CRC.
pub open spec fn decode_body(cat: u8, rest: Seq<u8>) -> Result<UsbCmdView, TechAirError> {
    if cat == 0x00 {
        match general_decode(rest) {
            Ok(l) => Ok(UsbCmdView::General(l)),
            Err(e) => Err(e),
        }
    } else if cat == 0x01 {
        match logging_decode(rest) {
            Ok(l) => Ok(UsbCmdView::Logging(l)),
            Err(e) => Err(e),
        }
    } else if cat == 0x02 {
        match power_decode(rest) {
            Ok(l) => Ok(UsbCmdView::Power(l)),
            Err(e) => Err(e),
        }
    } else if cat == 0x03 {
        match measure_decode(rest) {
            Ok(l) => Ok(UsbCmdView::Measure(l)),
            Err(e) => Err(e),
        }
    } else if cat == 0x04 {
        match sensor_decode(rest) {
            Ok(l) => Ok(UsbCmdView::Sensor(l)),
            Err(e) => Err(e),
        }
    } else if cat == 0x05 {
        match algorithm_decode(rest) {
            Ok(l) => Ok(UsbCmdView::Algorithm(l)),
            Err(e) => Err(e),
        }
    } else if cat == 0x06 {
        match airbag_decode(rest) {
            Ok(l) => Ok(UsbCmdView::Airbag(l)),
            Err(e) => Err(e),
        }
    } else if cat == 0x20 {
        match swupdate_decode(rest) {
            Ok(l) => Ok(UsbCmdView::SWUpdate(l)),
            Err(e) => Err(e),
        }
    } else {
        fail(ErrorKind::UnknownCategory)
    }
}

/// The command that a frame carries. The CRC is checked first; what
/// remains without it is dispatched on the category byte and handed to
/// the category from the subcommand byte on.
pub open spec fn decode_frame_spec(v: Seq<u8>) -> Result<UsbCmdView, TechAirError> {
    if v.len() < 2 {
        fail(ErrorKind::InvalidFrame)
    } else if !crc_ok(v) {
        fail(ErrorKind::CrcMismatch)
    } else if v.len() == 2 {
        fail(ErrorKind::InvalidFrame)
    } else {
        decode_body(v[0], v.subrange(1, v.len() - 2))
    }
}

impl UsbCmd {
    pub fn general(self) -> (r: Option<GeneralCmd>)
        ensures
            match r {
                Some(c) => self@ == UsbCmdView::General(c@),
                None => !(self is General),
            },
    {
        match self {
            UsbCmd::General(cmd) => Some(cmd),
            _ => None,
        }
    }

    pub fn logging(self) -> (r: Option<LoggingCmd>)
        ensures
            match r {
                Some(c) => self@ == UsbCmdView::Logging(c@),
                None => !(self is Logging),
            },
    {
        match self {
            UsbCmd::Logging(cmd) => Some(cmd),
            _ => None,
        }
    }

    pub fn power(self) -> (r: Option<PowerCmd>)
        ensures
            match r {
                Some(c) => self@ == UsbCmdView::Power(c@),
                None => !(self is Power),
            },
    {
        match self {
            UsbCmd::Power(cmd) => Some(cmd),
            _ => None,
        }
    }

    pub fn measure(self) -> (r: Option<MeasureCmd>)
        ensures
            match r {
                Some(c) => self@ == UsbCmdView::Measure(c@),
                None => !(self is Measure),
            },
    {
        match self {
            UsbCmd::Measure(cmd) => Some(cmd),
            _ => None,
        }
    }

    pub fn sensor(self) -> (r: Option<SensorCmd>)
        ensures
            match r {
                Some(c) => self@ == UsbCmdView::Sensor(c@),
                None => !(self is Sensor),
            },
    {
        match self {
            UsbCmd::Sensor(cmd) => Some(cmd),
            _ => None,
        }
    }

    pub fn algorithm(self) -> (r: Option<AlgorithmCmd>)
        ensures
            match r {
                Some(c) => self@ == UsbCmdView::Algorithm(c@),
                None => !(self is Algorithm),
            },
    {
        match self {
            UsbCmd::Algorithm(cmd) => Some(cmd),
            _ => None,
        }
    }

    pub fn airbag(self) -> (r: Option<AirbagCmd>)
        ensures
            match r {
                Some(c) => self@ == UsbCmdView::Airbag(c@),
                None => !(self is Airbag),
            },
    {
        match self {
            UsbCmd::Airbag(cmd) => Some(cmd),
            _ => None,
        }
    }

    pub fn swupdate(self) -> (r: Option<SWUpdateCmd>)
        ensures
            match r {
                Some(c) => self@ == UsbCmdView::SWUpdate(c@),
                None => !(self is SWUpdate),
            },
    {
        match self {
            UsbCmd::SWUpdate(cmd) => Some(cmd),
            _ => None,
        }
    }

    /// Whether this is the command that is never sent.
    pub fn is_forbidden(&self) -> (b: bool)
        ensures
            b == forbidden(self@),
    {
        match self {
            UsbCmd::Airbag(AirbagCmd::FireAIRBAG) => true,
            _ => false,
        }
    }

    /// Decodes a whole frame.
    pub fn try_from(v: Vec<u8>) -> (r: Result<UsbCmd, TechAirError>)
        ensures
            agrees(r, decode_frame_spec(v@)),
    {
        match validate_crc16(v.as_slice()) {
            Err(e) => {
                return Err(e);
            },
            Ok(()) => {},
        }
        if v.len() == 2 {
            return Err(TechAirError::new(ErrorKind::InvalidFrame));
        }
        let mut subdata: Vec<u8> = Vec::new();
        let mut i: usize = 1;
        while i < v.len() - 2
            invariant
                v.len() > 2,
                1 <= i <= v.len() - 2,
                subdata@ == v@.subrange(1, i as int),
            decreases v.len() - i,
        {
            subdata.push(v[i]);
            proof {
                assert(v@.subrange(1, i + 1) == v@.subrange(1, i as int).push(v@[i as int]));
            }
            i = i + 1;
        }
        match v[0] {
            0x00 => match GeneralCmd::try_from(subdata) {
                Ok(c) => Ok(UsbCmd::General(c)),
                Err(e) => Err(e),
            },
            0x01 => match LoggingCmd::try_from(subdata) {
                Ok(c) => Ok(UsbCmd::Logging(c)),
                Err(e) => Err(e),
            },
            0x02 => match PowerCmd::try_from(subdata) {
                Ok(c) => Ok(UsbCmd::Power(c)),
                Err(e) => Err(e),
            },
            0x03 => match MeasureCmd::try_from(subdata) {
                Ok(c) => Ok(UsbCmd::Measure(c)),
                Err(e) => Err(e),
            },
            0x04 => match SensorCmd::try_from(subdata) {
                Ok(c) => Ok(UsbCmd::Sensor(c)),
                Err(e) => Err(e),
            },
            0x05 => match AlgorithmCmd::try_from(subdata) {
                Ok(c) => Ok(UsbCmd::Algorithm(c)),
                Err(e) => Err(e),
            },
            0x06 => match AirbagCmd::try_from(subdata) {
                Ok(c) => Ok(UsbCmd::Airbag(c)),
                Err(e) => Err(e),
            },
            0x20 => match SWUpdateCmd::try_from(subdata) {
                Ok(c) => Ok(UsbCmd::SWUpdate(c)),
                Err(e) => Err(e),
            },
            _ => Err(TechAirError::new(ErrorKind::UnknownCategory)),
        }
    }
}

impl TechAirEncoder for UsbCmd {
    /// Every command may be sent but the one that fires the airbag.
    open spec fn encodable(&self) -> bool {
        !forbidden(self@)
    }

    /// The category byte, and what the leaf appends after it.
    open spec fn encoding(&self, prefix: Seq<u8>) -> Seq<u8> {
        let body = seq![category(self@), subcommand(self@)] + request_payload(self@);
        body + crc_bytes(crc16_spec(prefix + body))
    }

    fn write_bytes(&self, buf: &mut Vec<u8>) {
        match self {
            UsbCmd::General(cmd) => {
                write_leaf(0x00, cmd, buf);
                proof {
                    lemma_frame_of_leaf(old(buf)@, 0x00u8, general_tag(cmd@), general_request_payload(cmd@));
                }
            },
            UsbCmd::Logging(cmd) => {
                write_leaf(0x01, cmd, buf);
                proof {
                    lemma_frame_of_leaf(old(buf)@, 0x01u8, logging_tag(cmd@), logging_request_payload(cmd@));
                }
            },
            UsbCmd::Power(cmd) => {
                write_leaf(0x02, cmd, buf);
                proof {
                    lemma_frame_of_leaf(old(buf)@, 0x02u8, power_tag(cmd@), power_request_payload(cmd@));
                }
            },
            UsbCmd::Measure(cmd) => {
                write_leaf(0x03, cmd, buf);
                proof {
                    lemma_frame_of_leaf(old(buf)@, 0x03u8, measure_tag(cmd@), measure_request_payload(cmd@));
                }
            },
            UsbCmd::Sensor(cmd) => {
                write_leaf(0x04, cmd, buf);
                proof {
                    lemma_frame_of_leaf(old(buf)@, 0x04u8, sensor_tag(cmd@), sensor_request_payload(cmd@));
                }
            },
            UsbCmd::Algorithm(cmd) => {
                write_leaf(0x05, cmd, buf);
                proof {
                    lemma_frame_of_leaf(old(buf)@, 0x05u8, algorithm_tag(cmd@), algorithm_request_payload(cmd@));
                }
            },
            UsbCmd::Airbag(cmd) => {
                write_leaf(0x06, cmd, buf);
                proof {
                    lemma_frame_of_leaf(old(buf)@, 0x06u8, airbag_tag(cmd@), airbag_request_payload(cmd@));
                }
            },
            UsbCmd::SWUpdate(cmd) => {
                write_leaf(0x20, cmd, buf);
                proof {
                    lemma_frame_of_leaf(old(buf)@, 0x20u8, swupdate_tag(cmd@), swupdate_request_payload(cmd@));
                }
            },
        }
    }
}

/// Appends a category byte and, after it, what the leaf of that category
/// appends.
fn write_leaf<T: TechAirEncoder>(cat: u8, leaf: &T, buf: &mut Vec<u8>)
    requires
        leaf.encodable(),
    ensures
        final(buf)@ == (old(buf)@ + seq![cat]) + leaf.encoding(old(buf)@ + seq![cat]),
{
    buf.push(cat);
    proof {
        assert(old(buf)@.push(cat) =~= old(buf)@ + seq![cat]);
    }
    leaf.write_bytes(buf);
}

/// A buffer that got the category byte and, from the leaf, the subcommand
/// byte, the payload and the CRC of all before it, holds the frame body
/// and the CRC of what precedes it and the body.
pub proof fn lemma_frame_of_leaf(prefix: Seq<u8>, cat: u8, tag: u8, payload: Seq<u8>)
    ensures
        (prefix + seq![cat]) + crate::encoder::sealed(prefix + seq![cat], seq![tag] + payload) == prefix
            + ((seq![cat, tag] + payload) + crc_bytes(crc16_spec(prefix + (seq![cat, tag] + payload)))),
{
    let body = seq![cat, tag] + payload;
    assert((prefix + seq![cat]) + (seq![tag] + payload) =~= prefix + body);
    assert((prefix + seq![cat]) + crate::encoder::sealed(prefix + seq![cat], seq![tag] + payload) =~= prefix
        + (body + crc_bytes(crc16_spec(prefix + body))));
}

/// Checks the CRC that closes a frame: the last two bytes, low byte
/// first, against the CRC of all bytes before them.
pub fn validate_crc16(v: &[u8]) -> (r: Result<(), TechAirError>)
    ensures
        r == (if v@.len() < 2 {
            fail::<()>(ErrorKind::InvalidFrame)
        } else if !crc_ok(v@) {
            fail::<()>(ErrorKind::CrcMismatch)
        } else {
            Ok(())
        }),
{
    if v.len() < 2 {
        return Err(TechAirError::new(ErrorKind::InvalidFrame));
    }
    let data: &[u8] = vstd::slice::slice_subrange(v, 0, v.len() - 2);
    let crc_cal: CRC16 = CRC16::calculate(data);
    let crc: u16 = word(v[v.len() - 1], v[v.len() - 2]);
    proof {
        assert(v@.subrange(0, v@.len() - 2) == v@.take(v@.len() - 2));
    }
    if crc != crc_cal.as_u16() {
        return Err(TechAirError::new(ErrorKind::CrcMismatch));
    }
    Ok(())
}

/// The frame of a request, or `ForbiddenCommand` for the command that is
/// never sent.
pub fn encode_frame(cmd: &UsbCmd) -> (r: Result<Vec<u8>, TechAirError>)
    ensures
        match r {
            Ok(frame) => !forbidden(cmd@) && frame@ == encode_frame_spec(cmd@),
            Err(e) => forbidden(cmd@) && e.kind == ErrorKind::ForbiddenCommand,
        },
{
    if cmd.is_forbidden() {
        return Err(TechAirError::new(ErrorKind::ForbiddenCommand));
    }
    let mut buf: Vec<u8> = Vec::new();
    cmd.write_bytes(&mut buf);
    proof {
        let body = seq![category(cmd@), subcommand(cmd@)] + request_payload(cmd@);
        assert(Seq::<u8>::empty() + body =~= body);
        assert(buf@ =~= encode_frame_spec(cmd@));
    }
    Ok(buf)
}

/// The command that a frame carries, or why it carries none.
pub fn decode_frame(bytes: &[u8]) -> (r: Result<UsbCmd, TechAirError>)
    ensures
        agrees(r, decode_frame_spec(bytes@)),
{
    UsbCmd::try_from(vstd::slice::slice_to_vec(bytes))
}

/// The least number of payload bytes that a reply to a command holds.
pub open spec fn reply_min_payload(c: UsbCmdView) -> nat {
    match c {
        UsbCmdView::General(l) => general_min_payload(general_tag(l)),
        UsbCmdView::Logging(l) => logging_min_payload(logging_tag(l)),
        UsbCmdView::Power(_) => 0,
        UsbCmdView::Measure(l) => measure_min_payload(measure_tag(l)),
        UsbCmdView::Sensor(l) => sensor_min_payload(sensor_tag(l)),
        UsbCmdView::Algorithm(l) => algorithm_min_payload(algorithm_tag(l)),
        UsbCmdView::Airbag(l) => airbag_min_payload(airbag_tag(l)),
        UsbCmdView::SWUpdate(l) => swupdate_min_payload(swupdate_tag(l)),
    }
}

/// Whether the request for a command could pass for a reply to it: it
/// carries as many payload bytes as a reply holds at least, and a
/// transfer does not carry the page count by which the device reports a
/// failure.
pub open spec fn answers_own_request(c: UsbCmdView) -> bool {
    &&& request_payload(c).len() >= reply_min_payload(c)
    &&& (c matches UsbCmdView::SWUpdate(l) ==> swupdate_payload_ok(
        swupdate_tag(l),
        swupdate_request_payload(l),
    ))
}

/// What a frame carries between its subcommand byte and its CRC.
pub open spec fn frame_payload(f: Seq<u8>) -> Seq<u8> {
    f.subrange(2, f.len() - 2)
}

/// A body closed with its own CRC passes the CRC check, and gives the
/// body back when the CRC is taken off.
pub proof fn lemma_sealed_body(body: Seq<u8>)
    ensures
        crc_ok(body + crc_bytes(crc16_spec(body))),
        (body + crc_bytes(crc16_spec(body))).take(body.len() as int) == body,
{
    let crc = crc16_spec(body);
    let f = body + crc_bytes(crc);
    assert(f.take(f.len() - 2) =~= body);
    assert(f[f.len() - 2] == lo_byte(crc));
    assert(f[f.len() - 1] == hi_byte(crc));
    lemma_be16_of_bytes(crc);
}

/// Decoding what the category decoder is handed gives a leaf of that
/// category, with the subcommand byte that was handed in.
pub proof fn lemma_decode_body_names_leaf(cat: u8, rest: Seq<u8>)
    requires
        decode_body(cat, rest) is Ok,
    ensures
        rest.len() > 0,
        category(decode_body(cat, rest)->Ok_0) == cat,
        subcommand(decode_body(cat, rest)->Ok_0) == rest[0],
        !forbidden(decode_body(cat, rest)->Ok_0),
{
}

/// A decoded command is the leaf that the first two bytes of the frame
/// name, and never the forbidden one.
pub proof fn lemma_decode_names_leaf(f: Seq<u8>)
    requires
        decode_frame_spec(f) is Ok,
    ensures
        f.len() >= 4,
        category(decode_frame_spec(f)->Ok_0) == f[0],
        subcommand(decode_frame_spec(f)->Ok_0) == f[1],
        !forbidden(decode_frame_spec(f)->Ok_0),
{
    lemma_decode_body_names_leaf(f[0], f.subrange(1, f.len() - 2));
}

/// The category decoder, handed the subcommand byte and the request
/// payload of a command, gives the same leaf where the request could pass
/// for a reply, and `InvalidPayload` where it could not.
pub proof fn lemma_decode_body_of_request(c: UsbCmdView)
    requires
        !forbidden(c),
    ensures
        answers_own_request(c) ==> decode_body(category(c), seq![subcommand(c)] + request_payload(c))
            is Ok && same_leaf(
            decode_body(category(c), seq![subcommand(c)] + request_payload(c))->Ok_0,
            c,
        ),
        !answers_own_request(c) ==> decode_body(
            category(c),
            seq![subcommand(c)] + request_payload(c),
        ) == fail::<UsbCmdView>(ErrorKind::InvalidPayload),
{
    let rest = seq![subcommand(c)] + request_payload(c);
    assert(rest[0] == subcommand(c));
    assert(rest.skip(1) =~= request_payload(c));
    assert(rest.len() - 1 == request_payload(c).len());
    if decode_body(category(c), rest) is Ok {
        lemma_decode_body_names_leaf(category(c), rest);
    }
}

/// Decoding the frame of a command is decoding its subcommand byte and
/// request payload in its category: the frame and the CRC add nothing
/// and lose nothing.
pub proof fn lemma_decode_of_encoded(c: UsbCmdView)
    ensures
        decode_frame_spec(encode_frame_spec(c)) == decode_body(
            category(c),
            seq![subcommand(c)] + request_payload(c),
        ),
{
    let body = seq![category(c), subcommand(c)] + request_payload(c);
    let f = encode_frame_spec(c);
    lemma_sealed_body(body);
    assert(f[0] == category(c));
    assert(f.subrange(1, f.len() - 2) =~= seq![subcommand(c)] + request_payload(c));
}

/// The two leaves whose reply says something else than their request: a
/// transfer is answered with the page count that remains, and a CRC
/// check with a status.
pub open spec fn reply_differs(c: UsbCmdView) -> bool {
    c is SWUpdate && (c->SWUpdate_0 is WriteFWData || c->SWUpdate_0 is CRCCheck)
}

/// Round trip of a request, by leaf. Encoding a command and decoding the
/// frame gives the same leaf back for every command whose request could
/// pass for a reply to it.
pub proof fn lemma_request_round_trip_leaf(c: UsbCmdView)
    requires
        !forbidden(c),
        answers_own_request(c),
    ensures
        decode_frame_spec(encode_frame_spec(c)) is Ok,
        same_leaf(decode_frame_spec(encode_frame_spec(c))->Ok_0, c),
{
    lemma_decode_of_encoded(c);
    lemma_decode_body_of_request(c);
}

/// Round trip of a request. Encoding a command and decoding the frame
/// gives back the same leaf with all that the request carried: the
/// decoded command differs from the encoded one at most in slots that
/// only a reply fills, and encodes to the same frame. This holds for
/// every command whose request could pass for a reply to it, but for the
/// two leaves whose reply says something else than their request.
pub proof fn lemma_request_round_trip(c: UsbCmdView)
    requires
        !forbidden(c),
        answers_own_request(c),
        !reply_differs(c),
    ensures
        decode_frame_spec(encode_frame_spec(c)) is Ok,
        same_leaf(decode_frame_spec(encode_frame_spec(c))->Ok_0, c),
        request_payload(decode_frame_spec(encode_frame_spec(c))->Ok_0) == request_payload(c),
        encode_frame_spec(decode_frame_spec(encode_frame_spec(c))->Ok_0) == encode_frame_spec(c),
{
    lemma_decode_of_encoded(c);
    lemma_decode_body_of_request(c);
    let rest = seq![subcommand(c)] + request_payload(c);
    assert(rest[0] == subcommand(c));
    assert(rest.skip(1) =~= request_payload(c));
    let d = decode_body(category(c), rest)->Ok_0;
    assert(request_payload(d) =~= request_payload(c)) by {
        if request_payload(c).len() > 0 {
            assert(rest.skip(1)[0] == request_payload(c)[0]);
        }
    }
}

/// The frames that set the display, the sensor enables and the inflation
/// type decode to the very command that was encoded.
pub proof fn lemma_set_leaves_decode_exactly(byte: u8)
    ensures
        decode_frame_spec(encode_frame_spec(UsbCmdView::Measure(MeasureCmdView::SetEXTDisplay(byte))))
            == Ok::<UsbCmdView, TechAirError>(UsbCmdView::Measure(MeasureCmdView::SetEXTDisplay(byte))),
        decode_frame_spec(
            encode_frame_spec(UsbCmdView::Sensor(SensorCmd::EnableSensorReading(Some(byte)))),
        ) == Ok::<UsbCmdView, TechAirError>(
            UsbCmdView::Sensor(SensorCmd::EnableSensorReading(Some(byte))),
        ),
        decode_frame_spec(encode_frame_spec(UsbCmdView::Sensor(SensorCmd::EnableSensorReading(None))))
            == Ok::<UsbCmdView, TechAirError>(UsbCmdView::Sensor(SensorCmd::EnableSensorReading(None))),
        decode_frame_spec(encode_frame_spec(UsbCmdView::Airbag(AirbagCmd::SetInflationType(byte))))
            == Ok::<UsbCmdView, TechAirError>(UsbCmdView::Airbag(AirbagCmd::SetInflationType(byte))),
{
    let display = UsbCmdView::Measure(MeasureCmdView::SetEXTDisplay(byte));
    let enable = UsbCmdView::Sensor(SensorCmd::EnableSensorReading(Some(byte)));
    let bare = UsbCmdView::Sensor(SensorCmd::EnableSensorReading(None));
    let inflation = UsbCmdView::Airbag(AirbagCmd::SetInflationType(byte));
    lemma_decode_of_encoded(display);
    lemma_decode_of_encoded(enable);
    lemma_decode_of_encoded(bare);
    lemma_decode_of_encoded(inflation);
    assert((seq![subcommand(display)] + request_payload(display)).skip(1) =~= seq![byte]);
    assert((seq![subcommand(enable)] + request_payload(enable)).skip(1) =~= seq![byte]);
    assert((seq![subcommand(bare)] + request_payload(bare)).skip(1) =~= Seq::<u8>::empty());
    assert((seq![subcommand(inflation)] + request_payload(inflation)).skip(1) =~= seq![byte]);
}

/// The frame of a command whose request could not pass for a reply to it
/// is refused with `InvalidPayload`.
pub proof fn lemma_request_refused(c: UsbCmdView)
    requires
        !forbidden(c),
        !answers_own_request(c),
    ensures
        decode_frame_spec(encode_frame_spec(c)) == fail::<UsbCmdView>(ErrorKind::InvalidPayload),
{
    lemma_decode_of_encoded(c);
    lemma_decode_body_of_request(c);
}

/// Round trip of a reply. Decoding a frame and encoding the command gives
/// the frame back, for every frame that decodes and carries the payload
/// that the request for the decoded command carries.
pub proof fn lemma_reply_round_trip(f: Seq<u8>)
    requires
        decode_frame_spec(f) is Ok,
        frame_payload(f) == request_payload(decode_frame_spec(f)->Ok_0),
    ensures
        encode_frame_spec(decode_frame_spec(f)->Ok_0) == f,
{
    let c = decode_frame_spec(f)->Ok_0;
    lemma_decode_names_leaf(f);
    let body = seq![category(c), subcommand(c)] + request_payload(c);
    assert(body =~= f.take(f.len() - 2));
    lemma_bytes_of_be16(f[f.len() - 1], f[f.len() - 2]);
    assert(encode_frame_spec(c) =~= f);
}

/// Whether the first two bytes of a frame name one of the three leaves
/// whose request carries a byte to set: the display, the sensor enables,
/// the inflation type.
pub open spec fn names_set_leaf(f: Seq<u8>) -> bool {
    f.len() >= 2 && ((f[0] == 0x03 && f[1] == 0x0a) || (f[0] == 0x04 && f[1] == 0x00) || (f[0]
        == 0x06 && f[1] == 0x0b))
}

/// Round trip of a reply, by the frame alone. A frame that decodes gives
/// itself back where it carries no payload and does not name a leaf that
/// sets a byte (the sensor enables aside, which may go without), and
/// where it names a leaf that sets a byte and carries that one byte.
pub proof fn lemma_reply_round_trip_of_frame(f: Seq<u8>)
    requires
        decode_frame_spec(f) is Ok,
        (frame_payload(f).len() == 0 && (!names_set_leaf(f) || f[0] == 0x04)) || (frame_payload(
            f,
        ).len() == 1 && names_set_leaf(f)),
    ensures
        encode_frame_spec(decode_frame_spec(f)->Ok_0) == f,
{
    lemma_decode_names_leaf(f);
    let c = decode_frame_spec(f)->Ok_0;
    let rest = f.subrange(1, f.len() - 2);
    assert(rest.skip(1) =~= frame_payload(f));
    if frame_payload(f).len() == 1 {
        assert(rest.skip(1)[0] == frame_payload(f)[0]);
    }
    assert(request_payload(c) =~= frame_payload(f));
    lemma_reply_round_trip(f);
}

} // verus!

