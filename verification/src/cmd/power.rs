//! Category 0x02: the supply.

use vstd::prelude::*;
use crate::encoder::{append_crc, sealed, TechAirEncoder};
use crate::serial::{agrees, fail, ErrorKind, TechAirError};

verus! {

#[derive(Clone, Copy, Debug, PartialEq, Eq, Structural)]
pub enum PowerCmd {
    GetSupplyState,
    ENDISSupply,
}

impl View for PowerCmd {
    type V = PowerCmd;

    open spec fn view(&self) -> PowerCmd {
        *self
    }
}

/// The subcommand byte of each leaf.
pub open spec fn power_tag(c: PowerCmd) -> u8 {
    match c {
        PowerCmd::GetSupplyState => 0x00,
        PowerCmd::ENDISSupply => 0x01,
    }
}

/// What a request carries after its subcommand byte: nothing.
pub open spec fn power_request_payload(c: PowerCmd) -> Seq<u8> {
    Seq::<u8>::empty()
}

/// A request without its CRC: the subcommand byte and the payload.
pub open spec fn power_request(c: PowerCmd) -> Seq<u8> {
    seq![power_tag(c)] + power_request_payload(c)
}

/// Decoding of the part of a frame that follows the category byte and
/// precedes the CRC. A payload, if there is one, is passed over.
pub open spec fn power_decode(v: Seq<u8>) -> Result<PowerCmd, TechAirError> {
    if v.len() == 0 {
        fail(ErrorKind::InvalidFrame)
    } else if v[0] == 0x00 {
        Ok(PowerCmd::GetSupplyState)
    } else if v[0] == 0x01 {
        Ok(PowerCmd::ENDISSupply)
    } else {
        fail(ErrorKind::UnknownSubcommand)
    }
}

impl PowerCmd {
    /// Decodes a subcommand byte and its payload.
    pub fn try_from(v: Vec<u8>) -> (r: Result<PowerCmd, TechAirError>)
        ensures
            agrees(r, power_decode(v@)),
    {
        if v.len() == 0 {
            return Err(TechAirError::new(ErrorKind::InvalidFrame));
        }
        match v[0] {
            0x00 => Ok(PowerCmd::GetSupplyState),
            0x01 => Ok(PowerCmd::ENDISSupply),
            _ => Err(TechAirError::new(ErrorKind::UnknownSubcommand)),
        }
    }
}

impl TechAirEncoder for PowerCmd {
    open spec fn encodable(&self) -> bool {
        true
    }

    open spec fn encoding(&self, prefix: Seq<u8>) -> Seq<u8> {
        sealed(prefix, power_request(self@))
    }

    fn write_bytes(&self, buf: &mut Vec<u8>) {
        match self {
            PowerCmd::GetSupplyState => {
                buf.push(0x00);
            },
            PowerCmd::ENDISSupply => {
                buf.push(0x01);
            },
        }
        proof {
            assert(buf@ =~= old(buf)@ + power_request(self@));
        }
        append_crc(buf);
        proof {
            assert(buf@ =~= old(buf)@ + self.encoding(old(buf)@));
        }
    }
}

} // verus!
