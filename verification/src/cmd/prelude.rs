//! The names most callers need, gathered in one place.

pub use crate::cmd::airbag::AirbagCmd;
pub use crate::cmd::algorithm::AlgorithmCmd;
pub use crate::cmd::general::{GeneralCmd, OpAddons, OpMode, OpModus};
pub use crate::cmd::logging::LoggingCmd;
pub use crate::cmd::math::{calculate_num_pages, CRC16};
pub use crate::cmd::measure::MeasureCmd;
pub use crate::cmd::power::PowerCmd;
pub use crate::cmd::sensor::SensorCmd;
pub use crate::cmd::swupdate::{FWData, SWUpdateBootLoaderStates, SWUpdateCmd};
