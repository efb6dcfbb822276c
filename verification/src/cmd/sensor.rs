//! Category 0x04: sensor enables, acceleration, rotation, revisions.

use vstd::prelude::*;
use crate::cmd::math::{be16, word};
use crate::encoder::{append_crc, sealed, tail, TechAirEncoder};
use crate::serial::{agrees, fail, ErrorKind, TechAirError};

verus! {

/// Accelerations and rotations are carried as the three raw words of the
/// axes x, y, z. Revisions are carried as two words in hundredths: the
/// software's, and the hardware's.
#[derive(Clone, Copy, Debug, PartialEq, Eq)]
pub enum SensorCmd {
    EnableSensorReading(Option<u8>),
    GetSensorReadingEnables(u8),
    GetRightHandAccel(Option<(u16, u16, u16)>),
    GetLeftHandAccel(Option<(u16, u16, u16)>),
    GetRightFootAccel(Option<(u16, u16, u16)>),
    GetLeftFootAccel(Option<(u16, u16, u16)>),
    GetBodyAccel(Option<(u16, u16, u16)>),
    GetGyroscope(Option<(u16, u16, u16)>),
    GetSWVRH((u16, u16)),
    GetSWVLH((u16, u16)),
    GetSWVRF((u16, u16)),
    GetSWVLF((u16, u16)),
}

impl View for SensorCmd {
    type V = SensorCmd;

    open spec fn view(&self) -> SensorCmd {
        *self
    }
}

/// The subcommand byte of each leaf.
pub open spec fn sensor_tag(c: SensorCmd) -> u8 {
    match c {
        SensorCmd::EnableSensorReading(_) => 0x00,
        SensorCmd::GetSensorReadingEnables(_) => 0x01,
        SensorCmd::GetRightHandAccel(_) => 0x02,
        SensorCmd::GetLeftHandAccel(_) => 0x03,
        SensorCmd::GetRightFootAccel(_) => 0x04,
        SensorCmd::GetLeftFootAccel(_) => 0x05,
        SensorCmd::GetBodyAccel(_) => 0x06,
        SensorCmd::GetGyroscope(_) => 0x07,
        SensorCmd::GetSWVRH(_) => 0x08,
        SensorCmd::GetSWVLH(_) => 0x09,
        SensorCmd::GetSWVRF(_) => 0x0a,
        SensorCmd::GetSWVLF(_) => 0x0b,
    }
}

/// What a request carries after its subcommand byte: the enable mask
/// where one is given, nothing otherwise.
pub open spec fn sensor_request_payload(c: SensorCmd) -> Seq<u8> {
    match c {
        SensorCmd::EnableSensorReading(Some(mask)) => seq![mask],
        _ => Seq::<u8>::empty(),
    }
}

/// A request without its CRC: the subcommand byte and the payload.
pub open spec fn sensor_request(c: SensorCmd) -> Seq<u8> {
    seq![sensor_tag(c)] + sensor_request_payload(c)
}

/// Three words from six bytes, each high byte first.
pub open spec fn xyz_spec(data: Seq<u8>) -> (u16, u16, u16) {
    (be16(data[0], data[1]), be16(data[2], data[3]), be16(data[4], data[5]))
}

/// Two words from four bytes, each high byte first.
pub open spec fn rev_spec(data: Seq<u8>) -> (u16, u16) {
    (be16(data[0], data[1]), be16(data[2], data[3]))
}

/// The least number of payload bytes a reply to each subcommand holds.
pub open spec fn sensor_min_payload(sub: u8) -> nat {
    if sub == 0x00 {
        0
    } else if sub == 0x01 {
        1
    } else if sub <= 0x07 {
        6
    } else {
        4
    }
}

/// The leaf that a reply with a known subcommand byte and a payload of
/// sufficient length stands for. An enable frame holds the mask where it
/// carries one, and none where it is a bare acknowledgement.
pub open spec fn sensor_reply(sub: u8, data: Seq<u8>) -> SensorCmd {
    if sub == 0x00 {
        if data.len() > 0 {
            SensorCmd::EnableSensorReading(Some(data[0]))
        } else {
            SensorCmd::EnableSensorReading(None)
        }
    } else if sub == 0x01 {
        SensorCmd::GetSensorReadingEnables(data[0])
    } else if sub == 0x02 {
        SensorCmd::GetRightHandAccel(Some(xyz_spec(data)))
    } else if sub == 0x03 {
        SensorCmd::GetLeftHandAccel(Some(xyz_spec(data)))
    } else if sub == 0x04 {
        SensorCmd::GetRightFootAccel(Some(xyz_spec(data)))
    } else if sub == 0x05 {
        SensorCmd::GetLeftFootAccel(Some(xyz_spec(data)))
    } else if sub == 0x06 {
        SensorCmd::GetBodyAccel(Some(xyz_spec(data)))
    } else if sub == 0x07 {
        SensorCmd::GetGyroscope(Some(xyz_spec(data)))
    } else if sub == 0x08 {
        SensorCmd::GetSWVRH(rev_spec(data))
    } else if sub == 0x09 {
        SensorCmd::GetSWVLH(rev_spec(data))
    } else if sub == 0x0a {
        SensorCmd::GetSWVRF(rev_spec(data))
    } else {
        SensorCmd::GetSWVLF(rev_spec(data))
    }
}

/// Decoding of the part of a frame that follows the category byte and
/// precedes the CRC: the subcommand byte, and its payload.
pub open spec fn sensor_decode(v: Seq<u8>) -> Result<SensorCmd, TechAirError> {
    if v.len() == 0 {
        fail(ErrorKind::InvalidFrame)
    } else if v[0] > 0x0b {
        fail(ErrorKind::UnknownSubcommand)
    } else if v.len() - 1 < sensor_min_payload(v[0]) {
        fail(ErrorKind::InvalidPayload)
    } else {
        Ok(sensor_reply(v[0], v.skip(1)))
    }
}

/// The software and hardware revision words of a sensor.
pub fn decode_rev(data: Vec<u8>) -> (r: (u16, u16))
    requires
        data.len() >= 4,
    ensures
        r == rev_spec(data@),
{
    let s: u16 = word(data[0], data[1]);
    let h: u16 = word(data[2], data[3]);
    (s, h)
}

/// The raw words of the three axes.
pub fn decode_xyz(data: Vec<u8>) -> (r: (u16, u16, u16))
    requires
        data.len() >= 6,
    ensures
        r == xyz_spec(data@),
{
    let x: u16 = word(data[0], data[1]);
    let y: u16 = word(data[2], data[3]);
    let z: u16 = word(data[4], data[5]);
    (x, y, z)
}

impl SensorCmd {
    /// Decodes a subcommand byte and its payload.
    pub fn try_from(v: Vec<u8>) -> (r: Result<SensorCmd, TechAirError>)
        ensures
            agrees(r, sensor_decode(v@)),
    {
        if v.len() == 0 {
            return Err(TechAirError::new(ErrorKind::InvalidFrame));
        }
        let sub: u8 = v[0];
        if sub > 0x0b {
            return Err(TechAirError::new(ErrorKind::UnknownSubcommand));
        }
        let data: Vec<u8> = tail(&v, 1);
        let short = Err(TechAirError::new(ErrorKind::InvalidPayload));
        if sub == 0x00 {
            if data.len() > 0 {
                Ok(SensorCmd::EnableSensorReading(Some(data[0])))
            } else {
                Ok(SensorCmd::EnableSensorReading(None))
            }
        } else if sub == 0x01 {
            if data.len() < 1 {
                return short;
            }
            Ok(SensorCmd::GetSensorReadingEnables(data[0]))
        } else if sub <= 0x07 {
            if data.len() < 6 {
                return short;
            }
            let s = Some(decode_xyz(data));
            let cmd = match sub {
                0x02 => SensorCmd::GetRightHandAccel(s),
                0x03 => SensorCmd::GetLeftHandAccel(s),
                0x04 => SensorCmd::GetRightFootAccel(s),
                0x05 => SensorCmd::GetLeftFootAccel(s),
                0x06 => SensorCmd::GetBodyAccel(s),
                _ => SensorCmd::GetGyroscope(s),
            };
            Ok(cmd)
        } else {
            if data.len() < 4 {
                return short;
            }
            let rev = decode_rev(data);
            let cmd = match sub {
                0x08 => SensorCmd::GetSWVRH(rev),
                0x09 => SensorCmd::GetSWVLH(rev),
                0x0a => SensorCmd::GetSWVRF(rev),
                _ => SensorCmd::GetSWVLF(rev),
            };
            Ok(cmd)
        }
    }
}

impl TechAirEncoder for SensorCmd {
    open spec fn encodable(&self) -> bool {
        true
    }

    open spec fn encoding(&self, prefix: Seq<u8>) -> Seq<u8> {
        sealed(prefix, sensor_request(self@))
    }

    fn write_bytes(&self, buf: &mut Vec<u8>) {
        match self {
            SensorCmd::EnableSensorReading(mask) => {
                buf.push(0x00);
                if let Some(m) = mask {
                    buf.push(*m);
                }
            },
            SensorCmd::GetSensorReadingEnables(_) => {
                buf.push(0x01);
            },
            SensorCmd::GetRightHandAccel(_) => {
                buf.push(0x02);
            },
            SensorCmd::GetLeftHandAccel(_) => {
                buf.push(0x03);
            },
            SensorCmd::GetRightFootAccel(_) => {
                buf.push(0x04);
            },
            SensorCmd::GetLeftFootAccel(_) => {
                buf.push(0x05);
            },
            SensorCmd::GetBodyAccel(_) => {
                buf.push(0x06);
            },
            SensorCmd::GetGyroscope(_) => {
                buf.push(0x07);
            },
            SensorCmd::GetSWVRH(_) => {
                buf.push(0x08);
            },
            SensorCmd::GetSWVLH(_) => {
                buf.push(0x09);
            },
            SensorCmd::GetSWVRF(_) => {
                buf.push(0x0a);
            },
            SensorCmd::GetSWVLF(_) => {
                buf.push(0x0b);
            },
        }
        proof {
            assert(buf@ =~= old(buf)@ + sensor_request(self@));
        }
        append_crc(buf);
        proof {
            assert(buf@ =~= old(buf)@ + self.encoding(old(buf)@));
        }
    }
}

} // verus!
