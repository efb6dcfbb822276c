//! One function pair for each exchange with the device: the request to
//! write, and what a reply to it holds. A function without a pair gives
//! the request of an exchange whose reply holds nothing.

use vstd::prelude::*;
use vstd::string::*;
use crate::cmd::airbag::AirbagCmd;
use crate::cmd::algorithm::{AlgorithmCmd, AlgorithmCmdView};
use crate::cmd::general::{GeneralCmd, GeneralCmdView, OpModus};
use crate::cmd::logging::{LoggingCmd, LoggingCmdView};
use crate::cmd::measure::{MeasureCmd, MeasureCmdView};
use crate::cmd::sensor::SensorCmd;
use crate::cmd::text::{bytes_view, text_view};
use crate::usbcmd::{UsbCmd, UsbCmdView};

pub use crate::bootloader::{quit_bootloader, start_bootloader, SWUpdateBootloader};

verus! {

/// The request for the software version.
pub fn get_sw_version_request() -> (cmd: UsbCmd)
    ensures
        cmd@ == UsbCmdView::General(GeneralCmdView::GetSoftwareVersion(None)),
{
    UsbCmd::General(GeneralCmd::GetSoftwareVersion(None))
}

/// The software version in hundredths, from a reply that holds one.
pub fn get_sw_version(packet: UsbCmd) -> (r: Option<u16>)
    ensures
        r == (match packet@ {
            UsbCmdView::General(GeneralCmdView::GetSoftwareVersion(slot)) => slot,
            _ => None,
        }),
{
    match packet {
        UsbCmd::General(GeneralCmd::GetSoftwareVersion(slot)) => slot,
        _ => None,
    }
}

/// The request for the operating modus.
pub fn get_operating_modus_request() -> (cmd: UsbCmd)
    ensures
        cmd@ == UsbCmdView::General(GeneralCmdView::GetOperatingModus(None)),
{
    UsbCmd::General(GeneralCmd::GetOperatingModus(None))
}

/// The operating modus, from a reply that holds one.
pub fn get_operating_modus(packet: UsbCmd) -> (r: Option<OpModus>)
    ensures
        match r {
            Some(m) => packet@ == UsbCmdView::General(GeneralCmdView::GetOperatingModus(Some(m@))),
            None => !(packet@ matches UsbCmdView::General(GeneralCmdView::GetOperatingModus(Some(_)))),
        },
{
    match packet {
        UsbCmd::General(GeneralCmd::GetOperatingModus(slot)) => slot,
        _ => None,
    }
}

/// The request for the serial number.
pub fn get_serial_nr_request() -> (cmd: UsbCmd)
    ensures
        cmd@ == UsbCmdView::General(GeneralCmdView::GetSerialNr(None)),
{
    UsbCmd::General(GeneralCmd::GetSerialNr(None))
}

/// The serial number, from a reply that holds one.
pub fn get_serial_nr(packet: UsbCmd) -> (r: Option<String>)
    ensures
        text_view(r) == (match packet@ {
            UsbCmdView::General(GeneralCmdView::GetSerialNr(slot)) => slot,
            _ => None,
        }),
{
    match packet {
        UsbCmd::General(GeneralCmd::GetSerialNr(slot)) => slot,
        _ => None,
    }
}

/// The request for the customer information.
pub fn get_customer_info_request() -> (cmd: UsbCmd)
    ensures
        cmd@ == UsbCmdView::General(GeneralCmdView::GetCustomerInfo(None)),
{
    UsbCmd::General(GeneralCmd::GetCustomerInfo(None))
}

/// The customer information, from a reply that holds it.
pub fn get_customer_info(packet: UsbCmd) -> (r: Option<String>)
    ensures
        text_view(r) == (match packet@ {
            UsbCmdView::General(GeneralCmdView::GetCustomerInfo(slot)) => slot,
            _ => None,
        }),
{
    match packet {
        UsbCmd::General(GeneralCmd::GetCustomerInfo(slot)) => slot,
        _ => None,
    }
}

/// The request for the service date.
pub fn get_service_date_request() -> (cmd: UsbCmd)
    ensures
        cmd@ == UsbCmdView::General(GeneralCmdView::GetServiceDate(None)),
{
    UsbCmd::General(GeneralCmd::GetServiceDate(None))
}

/// The service date, from a reply that holds one.
pub fn get_service_date(packet: UsbCmd) -> (r: Option<String>)
    ensures
        text_view(r) == (match packet@ {
            UsbCmdView::General(GeneralCmdView::GetServiceDate(slot)) => slot,
            _ => None,
        }),
{
    match packet {
        UsbCmd::General(GeneralCmd::GetServiceDate(slot)) => slot,
        _ => None,
    }
}

/// The request for the operating hours.
pub fn get_op_hours_request() -> (cmd: UsbCmd)
    ensures
        cmd@ == UsbCmdView::Logging(LoggingCmdView::GetOPHours(None)),
{
    UsbCmd::Logging(LoggingCmd::GetOPHours(None))
}

/// The operating hours, from a reply that holds them.
pub fn get_op_hours(packet: UsbCmd) -> (r: Option<String>)
    ensures
        text_view(r) == (match packet@ {
            UsbCmdView::Logging(LoggingCmdView::GetOPHours(slot)) => slot,
            _ => None,
        }),
{
    match packet {
        UsbCmd::Logging(LoggingCmd::GetOPHours(slot)) => slot,
        _ => None,
    }
}

/// The request that clears the operating hours.
pub fn clear_op_hours() -> (cmd: UsbCmd)
    ensures
        cmd@ == UsbCmdView::Logging(LoggingCmdView::ClearOPHours),
{
    UsbCmd::Logging(LoggingCmd::ClearOPHours)
}

/// The request for the number of errors.
pub fn get_no_of_errors_request() -> (cmd: UsbCmd)
    ensures
        cmd@ == UsbCmdView::Logging(LoggingCmdView::GetNumOfErrors(None)),
{
    UsbCmd::Logging(LoggingCmd::GetNumOfErrors(None))
}

/// The number of errors, from a reply that holds it.
pub fn get_no_of_errors(packet: UsbCmd) -> (r: Option<u8>)
    ensures
        r == (match packet@ {
            UsbCmdView::Logging(LoggingCmdView::GetNumOfErrors(slot)) => slot,
            _ => None,
        }),
{
    match packet {
        UsbCmd::Logging(LoggingCmd::GetNumOfErrors(slot)) => slot,
        _ => None,
    }
}

/// The request that clears the error history.
pub fn clear_error_history() -> (cmd: UsbCmd)
    ensures
        cmd@ == UsbCmdView::Logging(LoggingCmdView::ClearErrorHistory),
{
    UsbCmd::Logging(LoggingCmd::ClearErrorHistory)
}

/// The request for the number of pre-crash logs.
pub fn get_no_of_precrash_logs_request() -> (cmd: UsbCmd)
    ensures
        cmd@ == UsbCmdView::Logging(LoggingCmdView::GetNumOfPreCrashLogs(None)),
{
    UsbCmd::Logging(LoggingCmd::GetNumOfPreCrashLogs(None))
}

/// The number of pre-crash logs, from a reply that holds it.
pub fn get_no_of_precrash_logs(packet: UsbCmd) -> (r: Option<u16>)
    ensures
        r == (match packet@ {
            UsbCmdView::Logging(LoggingCmdView::GetNumOfPreCrashLogs(slot)) => slot,
            _ => None,
        }),
{
    match packet {
        UsbCmd::Logging(LoggingCmd::GetNumOfPreCrashLogs(slot)) => slot,
        _ => None,
    }
}

/// The request for the pre-crash logs.
pub fn get_precrash_logs_request() -> (cmd: UsbCmd)
    ensures
        cmd@ == UsbCmdView::Logging(LoggingCmdView::GetPreCrashLogs(None)),
{
    UsbCmd::Logging(LoggingCmd::GetPreCrashLogs(None))
}

/// The pre-crash logs, from a reply that holds them.
pub fn get_precrash_logs(packet: UsbCmd) -> (r: Option<Vec<u8>>)
    ensures
        bytes_view(r) == (match packet@ {
            UsbCmdView::Logging(LoggingCmdView::GetPreCrashLogs(slot)) => slot,
            _ => None,
        }),
{
    match packet {
        UsbCmd::Logging(LoggingCmd::GetPreCrashLogs(slot)) => slot,
        _ => None,
    }
}

/// The request that clears the pre-crash log.
pub fn clear_precrash_log() -> (cmd: UsbCmd)
    ensures
        cmd@ == UsbCmdView::Logging(LoggingCmdView::ClearPreCrashLog),
{
    UsbCmd::Logging(LoggingCmd::ClearPreCrashLog)
}

/// The request for the number of post-crash logs.
pub fn get_no_of_postcrash_logs_request() -> (cmd: UsbCmd)
    ensures
        cmd@ == UsbCmdView::Logging(LoggingCmdView::GetNumOfPostCrashLogs(None)),
{
    UsbCmd::Logging(LoggingCmd::GetNumOfPostCrashLogs(None))
}

/// The number of post-crash logs, from a reply that holds it.
pub fn get_no_of_postcrash_logs(packet: UsbCmd) -> (r: Option<u16>)
    ensures
        r == (match packet@ {
            UsbCmdView::Logging(LoggingCmdView::GetNumOfPostCrashLogs(slot)) => slot,
            _ => None,
        }),
{
    match packet {
        UsbCmd::Logging(LoggingCmd::GetNumOfPostCrashLogs(slot)) => slot,
        _ => None,
    }
}

/// The request that clears the post-crash log.
pub fn clear_postcrash_log() -> (cmd: UsbCmd)
    ensures
        cmd@ == UsbCmdView::Logging(LoggingCmdView::ClearPostCrashLog),
{
    UsbCmd::Logging(LoggingCmd::ClearPostCrashLog)
}

/// The request for the error history.
pub fn get_error_history_request() -> (cmd: UsbCmd)
    ensures
        cmd@ == UsbCmdView::Logging(LoggingCmdView::GetErrorHistory(None)),
{
    UsbCmd::Logging(LoggingCmd::GetErrorHistory(None))
}

/// The error history, from a reply that holds it.
pub fn get_error_history(packet: UsbCmd) -> (r: Option<Vec<u8>>)
    ensures
        bytes_view(r) == (match packet@ {
            UsbCmdView::Logging(LoggingCmdView::GetErrorHistory(slot)) => slot,
            _ => None,
        }),
{
    match packet {
        UsbCmd::Logging(LoggingCmd::GetErrorHistory(slot)) => slot,
        _ => None,
    }
}

/// The request for the post-crash logs.
pub fn get_postcrash_logs_request() -> (cmd: UsbCmd)
    ensures
        cmd@ == UsbCmdView::Logging(LoggingCmdView::GetPostCrashLogs(None)),
{
    UsbCmd::Logging(LoggingCmd::GetPostCrashLogs(None))
}

/// The post-crash logs, from a reply that holds them.
pub fn get_postcrash_logs(packet: UsbCmd) -> (r: Option<Vec<u8>>)
    ensures
        bytes_view(r) == (match packet@ {
            UsbCmdView::Logging(LoggingCmdView::GetPostCrashLogs(slot)) => slot,
            _ => None,
        }),
{
    match packet {
        UsbCmd::Logging(LoggingCmd::GetPostCrashLogs(slot)) => slot,
        _ => None,
    }
}

/// The request for the battery count.
pub fn get_bat_count_request() -> (cmd: UsbCmd)
    ensures
        cmd@ == UsbCmdView::Logging(LoggingCmdView::GetBatCount(None)),
{
    UsbCmd::Logging(LoggingCmd::GetBatCount(None))
}

/// The battery count, from a reply that holds it.
pub fn get_bat_count(packet: UsbCmd) -> (r: Option<u16>)
    ensures
        r == (match packet@ {
            UsbCmdView::Logging(LoggingCmdView::GetBatCount(slot)) => slot,
            _ => None,
        }),
{
    match packet {
        UsbCmd::Logging(LoggingCmd::GetBatCount(slot)) => slot,
        _ => None,
    }
}

/// The request for the charging state.
pub fn get_charging_state_request() -> (cmd: UsbCmd)
    ensures
        cmd@ == UsbCmdView::Measure(MeasureCmdView::GetChargingState(None)),
{
    UsbCmd::Measure(MeasureCmd::GetChargingState(None))
}

/// The charging state, from a reply that holds it.
pub fn get_charging_state(packet: UsbCmd) -> (r: Option<String>)
    ensures
        text_view(r) == (match packet@ {
            UsbCmdView::Measure(MeasureCmdView::GetChargingState(slot)) => slot,
            _ => None,
        }),
{
    match packet {
        UsbCmd::Measure(MeasureCmd::GetChargingState(slot)) => slot,
        _ => None,
    }
}

/// The request for the state of the zip switch.
pub fn get_zip_state_request() -> (cmd: UsbCmd)
    ensures
        cmd@ == UsbCmdView::Measure(MeasureCmdView::GetZIPSwitchState(false)),
{
    UsbCmd::Measure(MeasureCmd::GetZIPSwitchState(false))
}

/// Whether the zip is closed, from a reply that says so.
pub fn get_zip_state(packet: UsbCmd) -> (r: Option<bool>)
    ensures
        r == (match packet@ {
            UsbCmdView::Measure(MeasureCmdView::GetZIPSwitchState(closed)) => Some(closed),
            _ => None,
        }),
{
    match packet {
        UsbCmd::Measure(MeasureCmd::GetZIPSwitchState(closed)) => Some(closed),
        _ => None,
    }
}

/// The request that sets the display.
pub fn set_led_state(state: u8) -> (cmd: UsbCmd)
    ensures
        cmd@ == UsbCmdView::Measure(MeasureCmdView::SetEXTDisplay(state)),
{
    UsbCmd::Measure(MeasureCmd::SetEXTDisplay(state))
}

pub enum MeasureVoltageType {
    Logic,
    Peripheral,
    RightHand,
    LeftHand,
    RightFoot,
    LeftFoot,
    Squib,
    Battery,
}

/// The request for one voltage, with an empty slot.
pub open spec fn measure_voltage_leaf(mvt: MeasureVoltageType, volts: u16) -> MeasureCmdView {
    match mvt {
        MeasureVoltageType::Logic => MeasureCmdView::GetLogicVoltage(volts),
        MeasureVoltageType::Peripheral => MeasureCmdView::GetPeripheralVoltage(volts),
        MeasureVoltageType::RightHand => MeasureCmdView::GetRightHandVoltage(volts),
        MeasureVoltageType::LeftHand => MeasureCmdView::GetLeftHandVoltage(volts),
        MeasureVoltageType::RightFoot => MeasureCmdView::GetRightFootVoltage(volts),
        MeasureVoltageType::LeftFoot => MeasureCmdView::GetLeftFootVoltage(volts),
        MeasureVoltageType::Squib => MeasureCmdView::GetSquibVoltage(volts),
        MeasureVoltageType::Battery => MeasureCmdView::GetBatteryVoltage(volts),
    }
}

/// The request for one voltage.
pub fn get_measure_voltage_request(mvt: MeasureVoltageType) -> (cmd: UsbCmd)
    ensures
        cmd@ == UsbCmdView::Measure(measure_voltage_leaf(mvt, 0)),
{
    let leaf = match mvt {
        MeasureVoltageType::Logic => MeasureCmd::GetLogicVoltage(0),
        MeasureVoltageType::Peripheral => MeasureCmd::GetPeripheralVoltage(0),
        MeasureVoltageType::RightHand => MeasureCmd::GetRightHandVoltage(0),
        MeasureVoltageType::LeftHand => MeasureCmd::GetLeftHandVoltage(0),
        MeasureVoltageType::RightFoot => MeasureCmd::GetRightFootVoltage(0),
        MeasureVoltageType::LeftFoot => MeasureCmd::GetLeftFootVoltage(0),
        MeasureVoltageType::Squib => MeasureCmd::GetSquibVoltage(0),
        MeasureVoltageType::Battery => MeasureCmd::GetBatteryVoltage(0),
    };
    UsbCmd::Measure(leaf)
}

/// The voltage asked for in thousandths of a volt, from a reply that
/// holds that voltage and no other.
pub fn get_measure_voltage(mvt: MeasureVoltageType, packet: UsbCmd) -> (r: Option<u16>)
    ensures
        match r {
            Some(volts) => packet@ == UsbCmdView::Measure(measure_voltage_leaf(mvt, volts)),
            None => forall|volts: u16|
                packet@ != UsbCmdView::Measure(#[trigger] measure_voltage_leaf(mvt, volts)),
        },
{
    match (mvt, packet) {
        (MeasureVoltageType::Logic, UsbCmd::Measure(MeasureCmd::GetLogicVoltage(data))) => Some(data),
        (MeasureVoltageType::Peripheral, UsbCmd::Measure(MeasureCmd::GetPeripheralVoltage(data))) => Some(
            data,
        ),
        (MeasureVoltageType::RightHand, UsbCmd::Measure(MeasureCmd::GetRightHandVoltage(data))) => Some(
            data,
        ),
        (MeasureVoltageType::LeftHand, UsbCmd::Measure(MeasureCmd::GetLeftHandVoltage(data))) => Some(
            data,
        ),
        (MeasureVoltageType::RightFoot, UsbCmd::Measure(MeasureCmd::GetRightFootVoltage(data))) => Some(
            data,
        ),
        (MeasureVoltageType::LeftFoot, UsbCmd::Measure(MeasureCmd::GetLeftFootVoltage(data))) => Some(
            data,
        ),
        (MeasureVoltageType::Squib, UsbCmd::Measure(MeasureCmd::GetSquibVoltage(data))) => Some(data),
        (MeasureVoltageType::Battery, UsbCmd::Measure(MeasureCmd::GetBatteryVoltage(data))) => Some(data),
        _ => None,
    }
}

pub enum SensorRevisionType {
    RightHand,
    LeftHand,
    RightFoot,
    LeftFoot,
}

/// The revision leaf of one sensor.
pub open spec fn sensor_revision_leaf(srt: SensorRevisionType, rev: (u16, u16)) -> SensorCmd {
    match srt {
        SensorRevisionType::RightHand => SensorCmd::GetSWVRH(rev),
        SensorRevisionType::LeftHand => SensorCmd::GetSWVLH(rev),
        SensorRevisionType::RightFoot => SensorCmd::GetSWVRF(rev),
        SensorRevisionType::LeftFoot => SensorCmd::GetSWVLF(rev),
    }
}

/// The request that enables the sensor readings. It goes out before a
/// revision is asked for.
pub fn enable_sensor_readings_request() -> (cmd: UsbCmd)
    ensures
        cmd@ == UsbCmdView::Sensor(SensorCmd::EnableSensorReading(Some(0x35))),
{
    UsbCmd::Sensor(SensorCmd::EnableSensorReading(Some(0x35)))
}

/// The request for the revisions of one sensor.
pub fn get_sensor_revision_request(srt: SensorRevisionType) -> (cmd: UsbCmd)
    ensures
        cmd@ == UsbCmdView::Sensor(sensor_revision_leaf(srt, (0, 0))),
{
    let leaf = match srt {
        SensorRevisionType::RightHand => SensorCmd::GetSWVRH((0, 0)),
        SensorRevisionType::LeftHand => SensorCmd::GetSWVLH((0, 0)),
        SensorRevisionType::RightFoot => SensorCmd::GetSWVRF((0, 0)),
        SensorRevisionType::LeftFoot => SensorCmd::GetSWVLF((0, 0)),
    };
    UsbCmd::Sensor(leaf)
}

/// The software and hardware revision of the sensor asked for, in
/// hundredths, from a reply that holds them.
pub fn get_sensor_revision(srt: SensorRevisionType, packet: UsbCmd) -> (r: Option<(u16, u16)>)
    ensures
        match r {
            Some(rev) => packet@ == UsbCmdView::Sensor(sensor_revision_leaf(srt, rev)),
            None => forall|rev: (u16, u16)|
                packet@ != UsbCmdView::Sensor(#[trigger] sensor_revision_leaf(srt, rev)),
        },
{
    match (srt, packet) {
        (SensorRevisionType::RightHand, UsbCmd::Sensor(SensorCmd::GetSWVRH(data))) => Some(data),
        (SensorRevisionType::LeftHand, UsbCmd::Sensor(SensorCmd::GetSWVLH(data))) => Some(data),
        (SensorRevisionType::RightFoot, UsbCmd::Sensor(SensorCmd::GetSWVRF(data))) => Some(data),
        (SensorRevisionType::LeftFoot, UsbCmd::Sensor(SensorCmd::GetSWVLF(data))) => Some(data),
        _ => None,
    }
}

/// The request that starts the algorithm anew.
pub fn init_algorithm() -> (cmd: UsbCmd)
    ensures
        cmd@ == UsbCmdView::Algorithm(AlgorithmCmdView::InitAlgorithm),
{
    UsbCmd::Algorithm(AlgorithmCmd::InitAlgorithm)
}

/// The request for the thresholds of the algorithm.
pub fn get_algorithm_thresholds_request() -> (cmd: UsbCmd)
    ensures
        cmd@ == UsbCmdView::Algorithm(AlgorithmCmdView::GetAlogrithmThresholds(None)),
{
    UsbCmd::Algorithm(AlgorithmCmd::GetAlogrithmThresholds(None))
}

/// The thresholds, from a reply that holds them.
pub fn get_algorithm_thresholds(packet: UsbCmd) -> (r: Option<Vec<u8>>)
    ensures
        bytes_view(r) == (match packet@ {
            UsbCmdView::Algorithm(AlgorithmCmdView::GetAlogrithmThresholds(slot)) => slot,
            _ => None,
        }),
{
    match packet {
        UsbCmd::Algorithm(AlgorithmCmd::GetAlogrithmThresholds(slot)) => slot,
        _ => None,
    }
}

/// The request that sets the thresholds to their defaults.
pub fn set_algorithm_default_thresholds() -> (cmd: UsbCmd)
    ensures
        cmd@ == UsbCmdView::Algorithm(AlgorithmCmdView::SetAlogrithmDefaultThresholds(None)),
{
    UsbCmd::Algorithm(AlgorithmCmd::SetAlogrithmDefaultThresholds(None))
}

/// The request for the calibrated squib resistances.
pub fn get_calib_squib_res_request() -> (cmd: UsbCmd)
    ensures
        cmd@ == UsbCmdView::Airbag(AirbagCmd::GetCalibSquibRes((None, None))),
{
    UsbCmd::Airbag(AirbagCmd::GetCalibSquibRes((None, None)))
}

/// The two calibrated squib resistances in thousandths of an ohm, from
/// a reply that holds them.
pub fn get_calib_squib_res(packet: UsbCmd) -> (r: (Option<u16>, Option<u16>))
    ensures
        r == (match packet@ {
            UsbCmdView::Airbag(AirbagCmd::GetCalibSquibRes(squibres)) => squibres,
            _ => (None, None),
        }),
{
    match packet {
        UsbCmd::Airbag(AirbagCmd::GetCalibSquibRes(squibres)) => squibres,
        _ => (None, None),
    }
}

/// The request for the inflation type.
pub fn get_inflation_type_request() -> (cmd: UsbCmd)
    ensures
        cmd@ == UsbCmdView::Airbag(AirbagCmd::GetInflationType(0x00)),
{
    UsbCmd::Airbag(AirbagCmd::GetInflationType(0x00))
}

/// The name of an inflation type.
pub open spec fn inflation_type_text(tag: u8) -> Option<Seq<char>> {
    if tag == 0x44 {
        Some("single"@)
    } else if tag == 0xb4 {
        Some("double-race"@)
    } else if tag == 0xbb {
        Some("double"@)
    } else if tag == 0xff {
        Some("clear"@)
    } else {
        None
    }
}

/// The inflation type by name, from a reply that holds a known one.
pub fn get_inflation_type(packet: UsbCmd) -> (r: Option<String>)
    ensures
        text_view(r) == (match packet@ {
            UsbCmdView::Airbag(AirbagCmd::GetInflationType(tag)) => inflation_type_text(tag),
            _ => None,
        }),
{
    match packet {
        UsbCmd::Airbag(AirbagCmd::GetInflationType(inftyp)) => match inftyp {
            0x44 => Some("single".to_owned()),
            0xb4 => Some("double-race".to_owned()),
            0xbb => Some("double".to_owned()),
            0xff => Some("clear".to_owned()),
            _ => None,
        },
        _ => None,
    }
}

/// The request that sets the inflation type.
pub fn set_inflation_type(it: u8) -> (cmd: UsbCmd)
    ensures
        cmd@ == UsbCmdView::Airbag(AirbagCmd::SetInflationType(it)),
{
    UsbCmd::Airbag(AirbagCmd::SetInflationType(it))
}

/// What follows a firmware upgrade, in this order: the post-crash log is
/// cleared, the thresholds of the algorithm are set to their defaults,
/// and the algorithm is started anew.
pub fn post_upgrade_requests() -> (cmds: Vec<UsbCmd>)
    ensures
        cmds@.len() == 3,
        cmds@[0]@ == UsbCmdView::Logging(LoggingCmdView::ClearPostCrashLog),
        cmds@[1]@ == UsbCmdView::Algorithm(AlgorithmCmdView::SetAlogrithmDefaultThresholds(None)),
        cmds@[2]@ == UsbCmdView::Algorithm(AlgorithmCmdView::InitAlgorithm),
{
    let mut cmds: Vec<UsbCmd> = Vec::new();
    cmds.push(clear_postcrash_log());
    cmds.push(set_algorithm_default_thresholds());
    cmds.push(init_algorithm());
    cmds
}

} // verus!
