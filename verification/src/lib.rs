//! Host-side protocol library for an airbag control unit reached over a
//! USB serial link: the CRC-framed command codec, the firmware package
//! reader and the bootloader transfer driver.

pub mod bootloader;
pub mod cli;
pub mod cmd;
pub mod crypto;
pub mod encoder;
pub mod serial;
pub mod usbcmd;

pub use crate::cmd::prelude::{
    calculate_num_pages, AirbagCmd, AlgorithmCmd, FWData, GeneralCmd, LoggingCmd, MeasureCmd,
    OpAddons, OpMode, OpModus, PowerCmd, SWUpdateBootLoaderStates, SWUpdateCmd, SensorCmd, CRC16,
};
pub use crate::usbcmd::UsbCmd;
