use techair::cli;
use techair::cli::{MeasureVoltageType, SensorRevisionType};
use techair::serial::{
    filter_sp, find_techair, ErrorKind, PortInfo, UsbPortInfo, BAUD_RATE, DATA_BITS, READ_TIMEOUT_MS,
    STOP_BITS,
};
use techair::usbcmd::encode_frame;
use techair::{
    AirbagCmd, AlgorithmCmd, GeneralCmd, LoggingCmd, MeasureCmd, PowerCmd, SensorCmd, UsbCmd,
};

fn usb(name: &str, manufacturer: Option<&str>, product: Option<&str>) -> PortInfo {
    PortInfo {
        port_name: name.to_string(),
        usb: Some(UsbPortInfo {
            manufacturer: manufacturer.map(|s| s.to_string()),
            product: product.map(|s| s.to_string()),
        }),
    }
}

#[test]
fn discovery_picks_the_device_among_decoys() {
    let ports = vec![
        PortInfo { port_name: "/dev/ttyS0".to_string(), usb: None },
        usb("/dev/ttyUSB0", Some("FTDI"), Some("Airbag_Control_Unit")),
        usb("/dev/ttyUSB1", Some("ALPINESTARS"), Some("Other")),
        usb("/dev/ttyUSB2", None, None),
        usb("/dev/ttyUSB3", Some("alpinestars"), Some("Airbag_Control_Unit")),
        usb("/dev/ttyACM0", Some("ALPINESTARS"), Some("Airbag_Control_Unit")),
        usb("/dev/ttyACM1", Some("ALPINESTARS"), Some("Airbag_Control_Unit")),
    ];
    assert_eq!(find_techair(&ports).unwrap(), "/dev/ttyACM0");
    let flags: Vec<bool> = ports.iter().map(filter_sp).collect();
    assert_eq!(flags, vec![false, false, false, false, false, true, true]);
}

#[test]
fn discovery_without_the_device() {
    assert_eq!(find_techair(&vec![]).unwrap_err().kind, ErrorKind::DeviceNotFound);
    let ports = vec![
        usb("a", Some("ALPINESTARS"), None),
        usb("b", None, Some("Airbag_Control_Unit")),
        usb("c", Some("ALPINESTARS "), Some("Airbag_Control_Unit")),
    ];
    assert_eq!(find_techair(&ports).unwrap_err().kind, ErrorKind::DeviceNotFound);
}

#[test]
fn line_settings() {
    assert_eq!((BAUD_RATE, DATA_BITS, STOP_BITS, READ_TIMEOUT_MS), (115200, 8, 1, 100));
}

#[test]
fn requests_of_the_exchanges() {
    let cases: Vec<(UsbCmd, Vec<u8>)> = vec![
        (cli::get_sw_version_request(), vec![0x00, 0x02, 0x80, 0x71]),
        (cli::get_operating_modus_request(), vec![0x00, 0x03, 0x41, 0xb1]),
        (cli::get_serial_nr_request(), vec![0x00, 0x04, 0x00, 0x73]),
        (cli::get_customer_info_request(), vec![0x00, 0x08, 0x00, 0x76]),
        (cli::get_service_date_request(), vec![0x00, 0x0a, 0x81, 0xb7]),
        (cli::get_op_hours_request(), vec![0x01, 0x00, 0x00, 0x20]),
        (cli::clear_op_hours(), vec![0x01, 0x01, 0xc1, 0xe0]),
        (cli::get_no_of_errors_request(), vec![0x01, 0x02, 0x81, 0xe1]),
        (cli::clear_error_history(), vec![0x01, 0x04, 0x01, 0xe3]),
        (cli::get_no_of_precrash_logs_request(), vec![0x01, 0x05, 0xc0, 0x23]),
        (cli::get_precrash_logs_request(), vec![0x01, 0x06, 0x80, 0x22]),
        (cli::clear_precrash_log(), vec![0x01, 0x07, 0x41, 0xe2]),
        (cli::get_no_of_postcrash_logs_request(), vec![0x01, 0x08, 0x01, 0xe6]),
        (cli::clear_postcrash_log(), vec![0x01, 0x0a, 0x80, 0x27]),
        (cli::get_error_history_request(), vec![0x01, 0x0c, 0x00, 0x25]),
        (cli::get_postcrash_logs_request(), vec![0x01, 0x0d, 0xc1, 0xe5]),
        (cli::get_bat_count_request(), vec![0x01, 0x0e, 0x81, 0xe4]),
        (cli::get_charging_state_request(), vec![0x03, 0x08, 0x00, 0x86]),
        (cli::get_zip_state_request(), vec![0x03, 0x09, 0xc1, 0x46]),
        (cli::set_led_state(0xFF), vec![0x03, 0x0a, 0xff, 0xc7, 0x20]),
        (cli::get_measure_voltage_request(MeasureVoltageType::Logic), vec![0x03, 0x00, 0x01, 0x40]),
        (cli::get_measure_voltage_request(MeasureVoltageType::Peripheral), vec![0x03, 0x01, 0xc0, 0x80]),
        (cli::get_measure_voltage_request(MeasureVoltageType::RightHand), vec![0x03, 0x02, 0x80, 0x81]),
        (cli::get_measure_voltage_request(MeasureVoltageType::LeftHand), vec![0x03, 0x03, 0x41, 0x41]),
        (cli::get_measure_voltage_request(MeasureVoltageType::RightFoot), vec![0x03, 0x04, 0x00, 0x83]),
        (cli::enable_sensor_readings_request(), vec![0x04, 0x00, 0x35, 0xf0, 0x16]),
        (cli::get_sensor_revision_request(SensorRevisionType::RightHand), vec![0x04, 0x08, 0x02, 0xb6]),
        (cli::get_sensor_revision_request(SensorRevisionType::LeftHand), vec![0x04, 0x09, 0xc3, 0x76]),
        (cli::get_sensor_revision_request(SensorRevisionType::RightFoot), vec![0x04, 0x0a, 0x83, 0x77]),
        (cli::get_sensor_revision_request(SensorRevisionType::LeftFoot), vec![0x04, 0x0b, 0x42, 0xb7]),
        (cli::init_algorithm(), vec![0x05, 0x00, 0x02, 0xe0]),
        (cli::get_algorithm_thresholds_request(), vec![0x05, 0x04, 0x03, 0x23]),
        (cli::set_algorithm_default_thresholds(), vec![0x05, 0x06, 0x82, 0xe2]),
        (cli::get_calib_squib_res_request(), vec![0x06, 0x08, 0x03, 0xd6]),
        (cli::get_inflation_type_request(), vec![0x06, 0x0a, 0x82, 0x17]),
        (cli::set_inflation_type(0xFF), vec![0x06, 0x0b, 0xff, 0xd6, 0xb1]),
        (cli::start_bootloader(), vec![0x20, 0x00, 0x18, 0x70]),
        (cli::quit_bootloader(), vec![0x20, 0x04, 0x19, 0xb3]),
    ];
    for (cmd, bytes) in cases {
        assert_eq!(encode_frame(&cmd).unwrap(), bytes, "{:?}", cmd);
    }
    let more = [
        (MeasureVoltageType::LeftFoot, 5u8),
        (MeasureVoltageType::Squib, 6),
        (MeasureVoltageType::Battery, 7),
    ];
    for (mvt, sub) in more {
        assert_eq!(encode_frame(&cli::get_measure_voltage_request(mvt)).unwrap()[..2], [0x03, sub]);
    }
}

#[test]
fn replies_of_the_exchanges() {
    let other = || UsbCmd::Power(PowerCmd::GetSupplyState);
    let text = |s: &str| Some(s.to_string());
    assert_eq!(cli::get_sw_version(UsbCmd::General(GeneralCmd::GetSoftwareVersion(Some(305)))), Some(305));
    assert_eq!(cli::get_sw_version(UsbCmd::General(GeneralCmd::GetHardwareVersion(Some(305)))), None);
    assert_eq!(cli::get_sw_version(other()), None);
    assert!(cli::get_operating_modus(UsbCmd::General(GeneralCmd::GetOperatingModus(None))).is_none());
    assert!(cli::get_operating_modus(other()).is_none());
    assert_eq!(cli::get_serial_nr(UsbCmd::General(GeneralCmd::GetSerialNr(text("S1")))), text("S1"));
    assert_eq!(cli::get_serial_nr(UsbCmd::General(GeneralCmd::GetCustomerInfo(text("S1")))), None);
    assert_eq!(cli::get_customer_info(UsbCmd::General(GeneralCmd::GetCustomerInfo(text("Bob")))), text("Bob"));
    assert_eq!(cli::get_customer_info(other()), None);
    assert_eq!(
        cli::get_service_date(UsbCmd::General(GeneralCmd::GetServiceDate(text("01/02/2003")))),
        text("01/02/2003")
    );
    assert_eq!(cli::get_service_date(UsbCmd::General(GeneralCmd::GetServiceDate(None))), None);
    assert_eq!(cli::get_op_hours(UsbCmd::Logging(LoggingCmd::GetOPHours(text("01:02:03")))), text("01:02:03"));
    assert_eq!(cli::get_op_hours(other()), None);
    assert_eq!(cli::get_no_of_errors(UsbCmd::Logging(LoggingCmd::GetNumOfErrors(Some(3)))), Some(3));
    assert_eq!(cli::get_no_of_errors(other()), None);
    assert_eq!(
        cli::get_no_of_precrash_logs(UsbCmd::Logging(LoggingCmd::GetNumOfPreCrashLogs(Some(300)))),
        Some(300)
    );
    assert_eq!(
        cli::get_no_of_precrash_logs(UsbCmd::Logging(LoggingCmd::GetNumOfPostCrashLogs(Some(300)))),
        None
    );
    assert_eq!(
        cli::get_no_of_postcrash_logs(UsbCmd::Logging(LoggingCmd::GetNumOfPostCrashLogs(Some(7)))),
        Some(7)
    );
    assert_eq!(cli::get_no_of_postcrash_logs(other()), None);
    assert_eq!(
        cli::get_precrash_logs(UsbCmd::Logging(LoggingCmd::GetPreCrashLogs(Some(vec![1, 2])))),
        Some(vec![1, 2])
    );
    assert_eq!(cli::get_precrash_logs(UsbCmd::Logging(LoggingCmd::GetPostCrashLogs(Some(vec![1])))), None);
    assert_eq!(
        cli::get_postcrash_logs(UsbCmd::Logging(LoggingCmd::GetPostCrashLogs(Some(vec![3])))),
        Some(vec![3])
    );
    assert_eq!(cli::get_postcrash_logs(other()), None);
    assert_eq!(
        cli::get_error_history(UsbCmd::Logging(LoggingCmd::GetErrorHistory(Some(vec![4])))),
        Some(vec![4])
    );
    assert_eq!(cli::get_error_history(other()), None);
    assert_eq!(cli::get_bat_count(UsbCmd::Logging(LoggingCmd::GetBatCount(Some(9)))), Some(9));
    assert_eq!(cli::get_bat_count(other()), None);
    assert_eq!(
        cli::get_charging_state(UsbCmd::Measure(MeasureCmd::GetChargingState(text("Fast charge")))),
        text("Fast charge")
    );
    assert_eq!(cli::get_charging_state(other()), None);
    assert_eq!(cli::get_zip_state(UsbCmd::Measure(MeasureCmd::GetZIPSwitchState(true))), Some(true));
    assert_eq!(cli::get_zip_state(UsbCmd::Measure(MeasureCmd::GetZIPSwitchState(false))), Some(false));
    assert_eq!(cli::get_zip_state(other()), None);
    assert_eq!(
        cli::get_algorithm_thresholds(UsbCmd::Algorithm(AlgorithmCmd::GetAlogrithmThresholds(Some(vec![5])))),
        Some(vec![5])
    );
    assert_eq!(cli::get_algorithm_thresholds(other()), None);
    assert_eq!(
        cli::get_calib_squib_res(UsbCmd::Airbag(AirbagCmd::GetCalibSquibRes((Some(1), None)))),
        (Some(1), None)
    );
}

#[test]
fn voltage_and_revision_replies_go_by_what_was_asked() {
    let all = [
        (MeasureVoltageType::Logic, MeasureCmd::GetLogicVoltage(1)),
        (MeasureVoltageType::Peripheral, MeasureCmd::GetPeripheralVoltage(2)),
        (MeasureVoltageType::RightHand, MeasureCmd::GetRightHandVoltage(3)),
        (MeasureVoltageType::LeftHand, MeasureCmd::GetLeftHandVoltage(4)),
        (MeasureVoltageType::RightFoot, MeasureCmd::GetRightFootVoltage(5)),
        (MeasureVoltageType::LeftFoot, MeasureCmd::GetLeftFootVoltage(6)),
        (MeasureVoltageType::Squib, MeasureCmd::GetSquibVoltage(7)),
        (MeasureVoltageType::Battery, MeasureCmd::GetBatteryVoltage(8)),
    ];
    for (i, (mvt, leaf)) in all.into_iter().enumerate() {
        assert_eq!(cli::get_measure_voltage(mvt, UsbCmd::Measure(leaf)), Some(i as u16 + 1));
    }
    assert_eq!(
        cli::get_measure_voltage(MeasureVoltageType::Logic, UsbCmd::Measure(MeasureCmd::GetSquibVoltage(7))),
        None
    );
    assert_eq!(
        cli::get_measure_voltage(MeasureVoltageType::Squib, UsbCmd::Power(PowerCmd::GetSupplyState)),
        None
    );
    let revs = [
        (SensorRevisionType::RightHand, SensorCmd::GetSWVRH((1, 2))),
        (SensorRevisionType::LeftHand, SensorCmd::GetSWVLH((1, 2))),
        (SensorRevisionType::RightFoot, SensorCmd::GetSWVRF((1, 2))),
        (SensorRevisionType::LeftFoot, SensorCmd::GetSWVLF((1, 2))),
    ];
    for (srt, leaf) in revs {
        assert_eq!(cli::get_sensor_revision(srt, UsbCmd::Sensor(leaf)), Some((1, 2)));
    }
    assert_eq!(
        cli::get_sensor_revision(SensorRevisionType::LeftHand, UsbCmd::Sensor(SensorCmd::GetSWVRH((1, 2)))),
        None
    );
}

#[test]
fn requests_after_an_upgrade() {
    assert_eq!(
        cli::post_upgrade_requests(),
        vec![
            UsbCmd::Logging(LoggingCmd::ClearPostCrashLog),
            UsbCmd::Algorithm(AlgorithmCmd::SetAlogrithmDefaultThresholds(None)),
            UsbCmd::Algorithm(AlgorithmCmd::InitAlgorithm),
        ]
    );
}
