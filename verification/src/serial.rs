//! The error type shared by every layer, and the parts of a transport
//! session that are decided without touching the port.

use vstd::prelude::*;
use vstd::string::*;
use crate::usbcmd::{decode_frame_spec, encode_frame, encode_frame_spec, forbidden, UsbCmd};

verus! {

/// What went wrong, by layer: transport, codec, firmware package,
/// bootloader driver.
#[derive(Clone, Copy, Debug, PartialEq, Eq, Structural)]
pub enum ErrorKind {
    DeviceNotFound,
    PortOpen,
    PortIo,
    ReadTimeoutEmpty,
    InvalidFrame,
    CrcMismatch,
    UnknownCategory,
    UnknownSubcommand,
    InvalidPayload,
    ForbiddenCommand,
    FwFileOpen,
    FwDecrypt,
    FwHeaderInvalid,
    HexChecksum,
    HexAddressOutOfRange,
    BootloaderPageMismatch,
    BootloaderCrcFail,
    BootloaderStateTimeout,
}

/// An error of the library. Two errors are equal when their kinds are.
#[derive(Clone, Copy, Debug, PartialEq, Eq, Structural)]
pub struct TechAirError {
    pub kind: ErrorKind,
}

/// The failure of the given kind, as a `Result` of any payload type.
pub open spec fn fail<T>(kind: ErrorKind) -> Result<T, TechAirError> {
    Err(TechAirError { kind })
}

/// An executable result agrees with a model result when both fail with
/// the same error, or both succeed and the model holds the value's view.
pub open spec fn agrees<T: View>(r: Result<T, TechAirError>, model: Result<T::V, TechAirError>) -> bool {
    match r {
        Ok(c) => model == Ok::<T::V, TechAirError>(c@),
        Err(e) => model == Err::<T::V, TechAirError>(e),
    }
}

/// The human-readable reason that goes with each kind.
pub open spec fn error_text(kind: ErrorKind) -> Seq<char> {
    match kind {
        ErrorKind::DeviceNotFound => "no techair found!"@,
        ErrorKind::PortOpen => "could not open serial uart"@,
        ErrorKind::PortIo => "serial port i/o failed"@,
        ErrorKind::ReadTimeoutEmpty => "no bytes returned"@,
        ErrorKind::InvalidFrame => "frame too short"@,
        ErrorKind::CrcMismatch => "CRC16 mismatch"@,
        ErrorKind::UnknownCategory => "invalid usb cmd"@,
        ErrorKind::UnknownSubcommand => "invalid sub cmd"@,
        ErrorKind::InvalidPayload => "invalid payload data"@,
        ErrorKind::ForbiddenCommand => "forbidden command"@,
        ErrorKind::FwFileOpen => "could not open firmware file"@,
        ErrorKind::FwDecrypt => "could not decrypt"@,
        ErrorKind::FwHeaderInvalid => "no valid header found!"@,
        ErrorKind::HexChecksum => "invalid crc in hex file"@,
        ErrorKind::HexAddressOutOfRange => "bad data segment"@,
        ErrorKind::BootloaderPageMismatch => "page count mismatch"@,
        ErrorKind::BootloaderCrcFail => "firmware crc check failed"@,
        ErrorKind::BootloaderStateTimeout => "bootloader did not reach the verify state"@,
    }
}

impl TechAirError {
    pub fn new(kind: ErrorKind) -> (e: TechAirError)
        ensures
            e.kind == kind,
    {
        TechAirError { kind }
    }

    /// The reason as text.
    pub fn description(&self) -> (s: String)
        ensures
            s@ == error_text(self.kind),
    {
        let text: &str = match self.kind {
            ErrorKind::DeviceNotFound => "no techair found!",
            ErrorKind::PortOpen => "could not open serial uart",
            ErrorKind::PortIo => "serial port i/o failed",
            ErrorKind::ReadTimeoutEmpty => "no bytes returned",
            ErrorKind::InvalidFrame => "frame too short",
            ErrorKind::CrcMismatch => "CRC16 mismatch",
            ErrorKind::UnknownCategory => "invalid usb cmd",
            ErrorKind::UnknownSubcommand => "invalid sub cmd",
            ErrorKind::InvalidPayload => "invalid payload data",
            ErrorKind::ForbiddenCommand => "forbidden command",
            ErrorKind::FwFileOpen => "could not open firmware file",
            ErrorKind::FwDecrypt => "could not decrypt",
            ErrorKind::FwHeaderInvalid => "no valid header found!",
            ErrorKind::HexChecksum => "invalid crc in hex file",
            ErrorKind::HexAddressOutOfRange => "bad data segment",
            ErrorKind::BootloaderPageMismatch => "page count mismatch",
            ErrorKind::BootloaderCrcFail => "firmware crc check failed",
            ErrorKind::BootloaderStateTimeout => "bootloader did not reach the verify state",
        };
        text.to_owned()
    }
}

/// The line settings of the device: 115200 bits per second, eight data
/// bits, no parity, one stop bit, no flow control.
pub const BAUD_RATE: u32 = 115200;

pub const DATA_BITS: u8 = 8;

pub const STOP_BITS: u8 = 1;

/// The read timeout in milliseconds. A reply ends where the port stays
/// silent that long.
pub const READ_TIMEOUT_MS: u64 = 100;

/// What a USB serial port says of itself.
#[derive(Clone, Debug, PartialEq)]
pub struct UsbPortInfo {
    pub manufacturer: Option<String>,
    pub product: Option<String>,
}

/// A serial port of the host: its name, and its USB descriptor where it
/// is a USB port.
#[derive(Clone, Debug, PartialEq)]
pub struct PortInfo {
    pub port_name: String,
    pub usb: Option<UsbPortInfo>,
}

/// Whether a port is the device: a USB port whose manufacturer is
/// "ALPINESTARS" and whose product is "Airbag_Control_Unit".
pub open spec fn is_techair(sp: PortInfo) -> bool {
    match sp.usb {
        Some(u) => (match u.manufacturer {
            Some(m) => m@ == "ALPINESTARS"@,
            None => false,
        }) && (match u.product {
            Some(p) => p@ == "Airbag_Control_Unit"@,
            None => false,
        }),
        None => false,
    }
}

/// The index of the first port from `from` on that is the device, or the
/// number of ports where none is.
pub open spec fn first_techair(ports: Seq<PortInfo>, from: int) -> int
    decreases ports.len() - from,
{
    if from < 0 || from >= ports.len() {
        ports.len() as int
    } else if is_techair(ports[from]) {
        from
    } else {
        first_techair(ports, from + 1)
    }
}

/// Nothing before the first device is the device, and the first device
/// is one.
pub proof fn lemma_first_techair(ports: Seq<PortInfo>, from: int)
    requires
        0 <= from <= ports.len(),
    ensures
        from <= first_techair(ports, from) <= ports.len(),
        first_techair(ports, from) < ports.len() ==> is_techair(ports[first_techair(ports, from)]),
        forall|j: int| from <= j < first_techair(ports, from) ==> !is_techair(#[trigger] ports[j]),
    decreases ports.len() - from,
{
    if from < ports.len() && !is_techair(ports[from]) {
        lemma_first_techair(ports, from + 1);
    }
}

fn text_is(o: &Option<String>, want: &str) -> (r: bool)
    ensures
        r == match *o {
            Some(s) => s@ == want@,
            None => false,
        },
{
    match o {
        Some(s) => {
            let w: String = want.to_owned();
            s.eq(&w)
        },
        None => false,
    }
}

/// Whether a port is the device.
pub fn filter_sp(sp: &PortInfo) -> (r: bool)
    ensures
        r == is_techair(*sp),
{
    match &sp.usb {
        Some(u) => text_is(&u.manufacturer, "ALPINESTARS") && text_is(
            &u.product,
            "Airbag_Control_Unit",
        ),
        None => false,
    }
}

/// The name of the first port that is the device, or `DeviceNotFound`.
pub fn find_techair(ports: &Vec<PortInfo>) -> (r: Result<String, TechAirError>)
    ensures
        match r {
            Ok(name) => first_techair(ports@, 0) < ports.len() && name@ == ports[first_techair(
                ports@,
                0,
            )].port_name@,
            Err(e) => first_techair(ports@, 0) == ports.len() && e.kind == ErrorKind::DeviceNotFound,
        },
{
    let mut i: usize = 0;
    while i < ports.len()
        invariant
            i <= ports.len(),
            first_techair(ports@, 0) == first_techair(ports@, i as int),
        decreases ports.len() - i,
    {
        if filter_sp(&ports[i]) {
            return Ok(ports[i].port_name.clone());
        }
        i = i + 1;
    }
    Err(TechAirError::new(ErrorKind::DeviceNotFound))
}

/// What was read as a command: the bytes that arrived before the port
/// fell silent are one frame. `ReadTimeoutEmpty` where none arrived.
pub open spec fn read_frame_spec(buf: Seq<u8>) -> Result<crate::usbcmd::UsbCmdView, TechAirError> {
    if buf.len() > 0 {
        decode_frame_spec(buf)
    } else {
        fail(ErrorKind::ReadTimeoutEmpty)
    }
}

/// Decodes what a read gave.
pub fn read_frame(buf: Vec<u8>) -> (r: Result<UsbCmd, TechAirError>)
    ensures
        agrees(r, read_frame_spec(buf@)),
{
    if buf.len() > 0 {
        UsbCmd::try_from(buf)
    } else {
        Err(TechAirError::new(ErrorKind::ReadTimeoutEmpty))
    }
}

/// The frame to write for a command. It goes out in one write, after
/// the input buffer of the port was cleared.
pub fn write_frame(cmd: UsbCmd) -> (r: Result<Vec<u8>, TechAirError>)
    ensures
        match r {
            Ok(frame) => !forbidden(cmd@) && frame@ == encode_frame_spec(cmd@),
            Err(e) => forbidden(cmd@) && e.kind == ErrorKind::ForbiddenCommand,
        },
{
    encode_frame(&cmd)
}

} // verus!
