use techair::cli;
use techair::cmd::general::{decode_op_addons, decode_op_mode, service_date};
use techair::cmd::logging::op_hours;
use techair::cmd::measure::decode_charging_state;
use techair::encoder::TechAirEncoder;
use techair::serial::{read_frame, write_frame, ErrorKind, TechAirError};
use techair::usbcmd::{decode_frame, encode_frame, validate_crc16};
use techair::{
    AirbagCmd, AlgorithmCmd, FWData, GeneralCmd, LoggingCmd, MeasureCmd, OpMode, PowerCmd,
    SWUpdateBootLoaderStates, SWUpdateCmd, SensorCmd, UsbCmd, CRC16,
};

fn sealed(body: &[u8]) -> Vec<u8> {
    let crc = CRC16::calculate(body).as_u16();
    let mut f = body.to_vec();
    f.push((crc & 0xff) as u8);
    f.push((crc >> 8) as u8);
    f
}

fn kind_of<T: std::fmt::Debug>(r: Result<T, TechAirError>) -> ErrorKind {
    r.unwrap_err().kind
}

#[test]
fn golden_request_frames() {
    let cases: Vec<(UsbCmd, Vec<u8>)> = vec![
        (UsbCmd::General(GeneralCmd::GetSoftwareVersion(None)), vec![0x00, 0x02, 0x80, 0x71]),
        (UsbCmd::General(GeneralCmd::GetServiceDate(None)), vec![0x00, 0x0A, 0x81, 0xB7]),
        (UsbCmd::Logging(LoggingCmd::GetOPHours(None)), vec![0x01, 0x00, 0x00, 0x20]),
        (UsbCmd::Logging(LoggingCmd::GetBatCount(None)), vec![0x01, 0x0E, 0x81, 0xE4]),
        (UsbCmd::Measure(MeasureCmd::SetEXTDisplay(0xFF)), vec![0x03, 0x0A, 0xFF, 0xC7, 0x20]),
        (
            UsbCmd::Sensor(SensorCmd::EnableSensorReading(Some(0x35))),
            vec![0x04, 0x00, 0x35, 0xF0, 0x16],
        ),
        (UsbCmd::Airbag(AirbagCmd::SetInflationType(0xFF)), vec![0x06, 0x0B, 0xFF, 0xD6, 0xB1]),
        (UsbCmd::SWUpdate(SWUpdateCmd::StartBootLoader), vec![0x20, 0x00, 0x18, 0x70]),
        (UsbCmd::SWUpdate(SWUpdateCmd::CRCCheck(0xAABB)), vec![0x20, 0x05, 0xAA, 0xBB, 0x25, 0x36]),
        (
            UsbCmd::SWUpdate(SWUpdateCmd::WriteFWData(FWData::new(&[0, 1, 2], &0xCC).unwrap())),
            vec![0x20, 0x03, 0x00, 0xCC, 0x00, 0x03, 0x00, 0x01, 0x02, 0x42, 0xFD],
        ),
    ];
    for (cmd, bytes) in cases {
        assert_eq!(encode_frame(&cmd).unwrap(), bytes);
        assert_eq!(write_frame(cmd).unwrap(), bytes);
    }
}

#[test]
fn every_frame_ends_in_the_crc_of_what_precedes_it() {
    let cmds = vec![
        UsbCmd::Power(PowerCmd::GetSupplyState),
        UsbCmd::Power(PowerCmd::ENDISSupply),
        UsbCmd::Algorithm(AlgorithmCmd::DoSingleSampleCalc),
        UsbCmd::Airbag(AirbagCmd::ArmIgnitionCtrl),
        UsbCmd::Sensor(SensorCmd::EnableSensorReading(None)),
    ];
    for cmd in cmds {
        let f = encode_frame(&cmd).unwrap();
        assert_eq!(sealed(&f[..f.len() - 2]), f);
        assert!(validate_crc16(&f).is_ok());
    }
}

#[test]
fn leaf_encoder_seals_the_whole_buffer() {
    let mut buf: Vec<u8> = vec![0x01];
    LoggingCmd::ClearOPHours.write_bytes(&mut buf);
    assert_eq!(buf, [0x01, 0x01, 0xc1, 0xe0]);
    let mut raw: Vec<u8> = vec![9];
    vec![1u8, 2, 3].write_bytes(&mut raw);
    assert_eq!(raw, [9, 1, 2, 3]);
}

#[test]
fn crc_mismatch_is_rejected() {
    assert_eq!(kind_of(decode_frame(&[0x00, 0x02, 0x80, 0x72])), ErrorKind::CrcMismatch);
    assert_eq!(kind_of(validate_crc16(&[0x00, 0x02, 0x80, 0x72])), ErrorKind::CrcMismatch);
    assert_eq!(
        kind_of(UsbCmd::try_from(vec![0x00, 0x02, 0x80, 0x72])),
        ErrorKind::CrcMismatch
    );
}

#[test]
fn inflation_type_round_trip() {
    let f = sealed(&[0x06, 0x0A, 0xBB]);
    let cmd = decode_frame(&f).unwrap();
    assert_eq!(cmd, UsbCmd::Airbag(AirbagCmd::GetInflationType(0xBB)));
    assert_eq!(cli::get_inflation_type(cmd), Some("double".to_string()));
}

#[test]
fn inflation_type_names() {
    let name = |t: u8| cli::get_inflation_type(UsbCmd::Airbag(AirbagCmd::GetInflationType(t)));
    assert_eq!(name(0x44), Some("single".to_string()));
    assert_eq!(name(0xB4), Some("double-race".to_string()));
    assert_eq!(name(0xBB), Some("double".to_string()));
    assert_eq!(name(0xFF), Some("clear".to_string()));
    assert_eq!(name(0x00), None);
    assert_eq!(cli::get_inflation_type(UsbCmd::Power(PowerCmd::GetSupplyState)), None);
}

#[test]
fn fire_airbag_is_refused_on_encode() {
    let cmd = UsbCmd::Airbag(AirbagCmd::FireAIRBAG);
    assert!(cmd.is_forbidden());
    assert_eq!(kind_of(encode_frame(&cmd)), ErrorKind::ForbiddenCommand);
    assert_eq!(kind_of(write_frame(cmd)), ErrorKind::ForbiddenCommand);
}

#[test]
fn fire_airbag_is_refused_on_decode() {
    assert_eq!(kind_of(decode_frame(&sealed(&[0x06, 0x05]))), ErrorKind::ForbiddenCommand);
    assert_eq!(kind_of(AirbagCmd::try_from(vec![0x05])), ErrorKind::ForbiddenCommand);
    assert_eq!(kind_of(AirbagCmd::try_from(vec![0x05, 1, 2])), ErrorKind::ForbiddenCommand);
}

#[test]
fn fire_airbag_leaves_the_buffer_as_it_is() {
    let mut buf: Vec<u8> = vec![0x06];
    assert_eq!(kind_of(AirbagCmd::FireAIRBAG.try_write_bytes(&mut buf)), ErrorKind::ForbiddenCommand);
    assert_eq!(buf, [0x06]);
    assert!(AirbagCmd::SetInflationType(0xFF).try_write_bytes(&mut buf).is_ok());
    assert_eq!(buf, [0x06, 0x0b, 0xff, 0xd6, 0xb1]);
}

#[test]
fn frames_that_are_too_short() {
    assert_eq!(kind_of(decode_frame(&[])), ErrorKind::InvalidFrame);
    assert_eq!(kind_of(decode_frame(&[0x00])), ErrorKind::InvalidFrame);
    assert_eq!(kind_of(decode_frame(&[0xFF, 0xFF])), ErrorKind::InvalidFrame);
    assert_eq!(kind_of(decode_frame(&[0x12, 0x34])), ErrorKind::CrcMismatch);
    assert_eq!(kind_of(decode_frame(&sealed(&[0x00]))), ErrorKind::InvalidFrame);
    assert_eq!(kind_of(validate_crc16(&[0x00])), ErrorKind::InvalidFrame);
    assert_eq!(kind_of(GeneralCmd::try_from(vec![])), ErrorKind::InvalidFrame);
}

#[test]
fn unknown_tags_are_rejected() {
    assert_eq!(kind_of(decode_frame(&sealed(&[0x07, 0x00]))), ErrorKind::UnknownCategory);
    assert_eq!(kind_of(decode_frame(&sealed(&[0x10, 0x00]))), ErrorKind::UnknownCategory);
    assert_eq!(kind_of(decode_frame(&sealed(&[0x21]))), ErrorKind::UnknownCategory);
    assert_eq!(kind_of(decode_frame(&sealed(&[0x00, 0x0C]))), ErrorKind::UnknownSubcommand);
    assert_eq!(kind_of(decode_frame(&sealed(&[0x01, 0x11]))), ErrorKind::UnknownSubcommand);
    assert_eq!(kind_of(decode_frame(&sealed(&[0x02, 0x02]))), ErrorKind::UnknownSubcommand);
    assert_eq!(kind_of(decode_frame(&sealed(&[0x03, 0x0B]))), ErrorKind::UnknownSubcommand);
    assert_eq!(kind_of(decode_frame(&sealed(&[0x04, 0x0C]))), ErrorKind::UnknownSubcommand);
    assert_eq!(kind_of(decode_frame(&sealed(&[0x05, 0x07]))), ErrorKind::UnknownSubcommand);
    assert_eq!(kind_of(decode_frame(&sealed(&[0x06, 0x0C]))), ErrorKind::UnknownSubcommand);
    assert_eq!(kind_of(decode_frame(&sealed(&[0x20, 0x06]))), ErrorKind::UnknownSubcommand);
}

#[test]
fn short_payloads_are_rejected() {
    let short: Vec<Vec<u8>> = vec![
        vec![0x00, 0x00],
        vec![0x00, 0x02, 1],
        vec![0x00, 0x03, 1],
        vec![0x00, 0x06],
        vec![0x00, 0x08],
        vec![0x00, 0x0A, 1, 2],
        vec![0x01, 0x00, 1, 2, 3],
        vec![0x01, 0x02],
        vec![0x01, 0x05, 1],
        vec![0x03, 0x00, 1],
        vec![0x03, 0x08],
        vec![0x03, 0x09],
        vec![0x04, 0x01],
        vec![0x04, 0x02, 1, 2, 3, 4, 5],
        vec![0x04, 0x08, 1, 2, 3],
        vec![0x05, 0x04],
        vec![0x05, 0x06],
        vec![0x06, 0x08, 1, 2, 3],
        vec![0x06, 0x0A],
        vec![0x20, 0x01],
        vec![0x20, 0x02],
        vec![0x20, 0x03, 1],
        vec![0x20, 0x05],
    ];
    for body in short {
        assert_eq!(kind_of(decode_frame(&sealed(&body))), ErrorKind::InvalidPayload, "{:?}", body);
    }
}

#[test]
fn general_replies() {
    let d = |body: &[u8]| decode_frame(&sealed(body)).unwrap();
    assert_eq!(d(&[0, 0, 7]), UsbCmd::General(GeneralCmd::GetCtrlMode(Some(7))));
    assert_eq!(d(&[0, 1]), UsbCmd::General(GeneralCmd::SetCtrlMode));
    assert_eq!(d(&[0, 2, 0x01, 0x31]), UsbCmd::General(GeneralCmd::GetSoftwareVersion(Some(305))));
    assert_eq!(d(&[0, 6, 0xAA, 0xBB]), UsbCmd::General(GeneralCmd::GetHardwareVersion(Some(0xAABB))));
    assert_eq!(
        d(&[0, 4, b'A', b'B', b'1']),
        UsbCmd::General(GeneralCmd::GetSerialNr(Some("AB1".to_string())))
    );
    assert_eq!(d(&[0, 4]), UsbCmd::General(GeneralCmd::GetSerialNr(Some(String::new()))));
    assert_eq!(d(&[0, 4, 0xC3, 0xA9]), UsbCmd::General(GeneralCmd::GetSerialNr(Some("é".to_string()))));
    assert_eq!(d(&[0, 4, 0xFF, 0x41]), UsbCmd::General(GeneralCmd::GetSerialNr(None)));
    assert_eq!(
        d(&[0, 8, 3, b'B', b'o', b'b']),
        UsbCmd::General(GeneralCmd::GetCustomerInfo(Some("Bob".to_string())))
    );
    assert_eq!(d(&[0, 8, 9]), UsbCmd::General(GeneralCmd::GetCustomerInfo(Some(String::new()))));
    assert_eq!(d(&[0, 8, 1, 0x80]), UsbCmd::General(GeneralCmd::GetCustomerInfo(None)));
    assert_eq!(
        d(&[0, 0x0A, 5, 11, 20]),
        UsbCmd::General(GeneralCmd::GetServiceDate(Some("05/11/2020".to_string())))
    );
    assert_eq!(d(&[0, 0x0B, 1, 2]), UsbCmd::General(GeneralCmd::SetServiceDate));
}

#[test]
fn operating_modus_reply() {
    let cmd = decode_frame(&sealed(&[0, 3, 0xBB, 0x1C])).unwrap();
    let modus = cli::get_operating_modus(cmd).unwrap();
    assert_eq!(modus.op_mode(), Some(OpMode::Race3S));
    assert_eq!(modus.op_addons(), None);
    assert_eq!(decode_op_mode(0xAA), Some(OpMode::Street));
    assert_eq!(decode_op_mode(0xDD), Some(OpMode::Race));
    assert_eq!(decode_op_mode(0xCC), Some(OpMode::RaceVestStreet));
    assert_eq!(decode_op_mode(0x00), None);
}

#[test]
fn no_addon_byte_reports_an_addon() {
    for flags in 0..=255u8 {
        assert_eq!(decode_op_addons(flags), None);
    }
}

#[test]
fn decimal_text_is_two_digits_wide_at_least() {
    assert_eq!(service_date(0, 0, 0), "00/00/2000");
    assert_eq!(service_date(9, 10, 99), "09/10/2099");
    assert_eq!(service_date(31, 12, 255), "31/12/20255");
    assert_eq!(service_date(100, 200, 7), "100/200/2007");
    assert_eq!(op_hours(0, 0, 0, 0), "00:00:00");
    assert_eq!(op_hours(0, 9, 5, 59), "09:05:59");
    assert_eq!(op_hours(1, 2, 3, 4), "258:03:04");
    assert_eq!(op_hours(0xFF, 0xFF, 255, 100), "65535:255:100");
}

#[test]
fn logging_replies() {
    let d = |body: &[u8]| decode_frame(&sealed(body)).unwrap();
    assert_eq!(
        d(&[1, 0, 0, 12, 34, 56]),
        UsbCmd::Logging(LoggingCmd::GetOPHours(Some("12:34:56".to_string())))
    );
    assert_eq!(d(&[1, 2, 9]), UsbCmd::Logging(LoggingCmd::GetNumOfErrors(Some(9))));
    assert_eq!(d(&[1, 3, 1, 2]), UsbCmd::Logging(LoggingCmd::GetErrorEntry(Some(vec![1, 2]))));
    assert_eq!(d(&[1, 5, 1, 2]), UsbCmd::Logging(LoggingCmd::GetNumOfPreCrashLogs(Some(258))));
    assert_eq!(d(&[1, 6, 7]), UsbCmd::Logging(LoggingCmd::GetPreCrashLogs(Some(vec![7]))));
    assert_eq!(d(&[1, 8, 0xFF, 0xFE]), UsbCmd::Logging(LoggingCmd::GetNumOfPostCrashLogs(Some(0xFFFE))));
    assert_eq!(d(&[1, 9, 5]), UsbCmd::Logging(LoggingCmd::GetPostCrashBulk(None)));
    assert_eq!(d(&[1, 0x0B]), UsbCmd::Logging(LoggingCmd::GetPreCrashBulk));
    assert_eq!(d(&[1, 0x0C, 3, 4, 5]), UsbCmd::Logging(LoggingCmd::GetErrorHistory(Some(vec![3, 4, 5]))));
    assert_eq!(d(&[1, 0x0D, 6]), UsbCmd::Logging(LoggingCmd::GetPostCrashLogs(Some(vec![6]))));
    assert_eq!(d(&[1, 0x0E, 0, 42]), UsbCmd::Logging(LoggingCmd::GetBatCount(Some(42))));
    assert_eq!(d(&[1, 0x0F]), UsbCmd::Logging(LoggingCmd::GetPreCrashENCBulk));
    assert_eq!(d(&[1, 0x10]), UsbCmd::Logging(LoggingCmd::GetPostCrashENCBulk));
}

#[test]
fn measure_replies() {
    let d = |body: &[u8]| decode_frame(&sealed(body)).unwrap();
    assert_eq!(d(&[3, 0, 0xAA, 0xBB]), UsbCmd::Measure(MeasureCmd::GetLogicVoltage(43707)));
    assert_eq!(d(&[3, 1, 0, 1]), UsbCmd::Measure(MeasureCmd::GetPeripheralVoltage(1)));
    assert_eq!(d(&[3, 2, 1, 0]), UsbCmd::Measure(MeasureCmd::GetRightHandVoltage(256)));
    assert_eq!(d(&[3, 3, 0, 0]), UsbCmd::Measure(MeasureCmd::GetLeftHandVoltage(0)));
    assert_eq!(d(&[3, 4, 0x0C, 0xE4]), UsbCmd::Measure(MeasureCmd::GetRightFootVoltage(3300)));
    assert_eq!(d(&[3, 5, 0x0C, 0xE4, 9]), UsbCmd::Measure(MeasureCmd::GetLeftFootVoltage(3300)));
    assert_eq!(d(&[3, 6, 0xFF, 0xFF]), UsbCmd::Measure(MeasureCmd::GetSquibVoltage(65535)));
    assert_eq!(d(&[3, 7, 0x10, 0x68]), UsbCmd::Measure(MeasureCmd::GetBatteryVoltage(4200)));
    assert_eq!(
        d(&[3, 8, 2]),
        UsbCmd::Measure(MeasureCmd::GetChargingState(Some("USB Power OK, Charge suspend".to_string())))
    );
    assert_eq!(d(&[3, 9, 0]), UsbCmd::Measure(MeasureCmd::GetZIPSwitchState(false)));
    assert_eq!(d(&[3, 9, 1]), UsbCmd::Measure(MeasureCmd::GetZIPSwitchState(true)));
    assert_eq!(d(&[3, 9, 200]), UsbCmd::Measure(MeasureCmd::GetZIPSwitchState(true)));
    assert_eq!(d(&[3, 0x0A]), UsbCmd::Measure(MeasureCmd::SetEXTDisplay(0)));
    assert_eq!(d(&[3, 0x0A, 0xFF]), UsbCmd::Measure(MeasureCmd::SetEXTDisplay(0xFF)));
    assert_eq!(d(&[3, 0x0A, 0x03, 0x09]), UsbCmd::Measure(MeasureCmd::SetEXTDisplay(0x03)));
}

#[test]
fn charging_state_texts() {
    assert_eq!(decode_charging_state(0x02), "USB Power OK, Charge suspend");
    assert_eq!(decode_charging_state(0x00), "Charge suspend");
    assert_eq!(decode_charging_state(0x01), "Over or undervoltage present, Charge suspend");
    assert_eq!(decode_charging_state(0x03), "Over or undervoltage present, Charge suspend");
    assert_eq!(decode_charging_state(0x06), "USB Power OK, Fast charge");
    assert_eq!(decode_charging_state(0x0A), "USB Power OK, Charge done");
    assert_eq!(decode_charging_state(0x0C), "Pre charge");
    assert_eq!(decode_charging_state(0x10), "Error in charge information");
    assert_eq!(decode_charging_state(0xFF), "Over or undervoltage present, Error in charge information");
}

#[test]
fn sensor_replies() {
    let d = |body: &[u8]| decode_frame(&sealed(body)).unwrap();
    assert_eq!(d(&[4, 0, 0x35]), UsbCmd::Sensor(SensorCmd::EnableSensorReading(Some(0x35))));
    assert_eq!(d(&[4, 0]), UsbCmd::Sensor(SensorCmd::EnableSensorReading(None)));
    assert_eq!(d(&[4, 1, 0x35]), UsbCmd::Sensor(SensorCmd::GetSensorReadingEnables(0x35)));
    let xyz = Some((0xAABB, 0x0001, 0xFF00));
    let p = [0xAA, 0xBB, 0x00, 0x01, 0xFF, 0x00];
    let with = |sub: u8| {
        let mut b = vec![4, sub];
        b.extend_from_slice(&p);
        d(&b)
    };
    assert_eq!(with(2), UsbCmd::Sensor(SensorCmd::GetRightHandAccel(xyz)));
    assert_eq!(with(3), UsbCmd::Sensor(SensorCmd::GetLeftHandAccel(xyz)));
    assert_eq!(with(4), UsbCmd::Sensor(SensorCmd::GetRightFootAccel(xyz)));
    assert_eq!(with(5), UsbCmd::Sensor(SensorCmd::GetLeftFootAccel(xyz)));
    assert_eq!(with(6), UsbCmd::Sensor(SensorCmd::GetBodyAccel(xyz)));
    assert_eq!(with(7), UsbCmd::Sensor(SensorCmd::GetGyroscope(xyz)));
    assert_eq!(with(8), UsbCmd::Sensor(SensorCmd::GetSWVRH((0xAABB, 1))));
    assert_eq!(with(9), UsbCmd::Sensor(SensorCmd::GetSWVLH((0xAABB, 1))));
    assert_eq!(with(10), UsbCmd::Sensor(SensorCmd::GetSWVRF((0xAABB, 1))));
    assert_eq!(with(11), UsbCmd::Sensor(SensorCmd::GetSWVLF((0xAABB, 1))));
}

#[test]
fn algorithm_and_airbag_replies() {
    let d = |body: &[u8]| decode_frame(&sealed(body)).unwrap();
    assert_eq!(d(&[5, 0]), UsbCmd::Algorithm(AlgorithmCmd::InitAlgorithm));
    assert_eq!(d(&[5, 3]), UsbCmd::Algorithm(AlgorithmCmd::GetSingleSampleCalcResult));
    assert_eq!(
        d(&[5, 4, 1, 2, 3]),
        UsbCmd::Algorithm(AlgorithmCmd::GetAlogrithmThresholds(Some(vec![1, 2, 3])))
    );
    assert_eq!(d(&[5, 6, 1]), UsbCmd::Algorithm(AlgorithmCmd::SetAlogrithmDefaultThresholds(Some(1))));
    assert_eq!(d(&[6, 0]), UsbCmd::Airbag(AirbagCmd::GetIgnitionCtrlMode));
    assert_eq!(d(&[6, 4]), UsbCmd::Airbag(AirbagCmd::ArmIgnitionCtrl));
    assert_eq!(d(&[6, 6]), UsbCmd::Airbag(AirbagCmd::ResetIgnitionCtrl));
    assert_eq!(
        d(&[6, 8, 0x07, 0xD0, 0xFF, 0xFF]),
        UsbCmd::Airbag(AirbagCmd::GetCalibSquibRes((Some(2000), Some(65535))))
    );
    assert_eq!(d(&[6, 0x0B, 0x44]), UsbCmd::Airbag(AirbagCmd::SetInflationType(0x44)));
    assert_eq!(d(&[6, 0x0B]), UsbCmd::Airbag(AirbagCmd::SetInflationType(0)));
    assert_eq!(
        UsbCmd::try_from(vec![0x06, 0x0b, 0xff, 0xd6, 0xb1]).unwrap(),
        UsbCmd::Airbag(AirbagCmd::SetInflationType(0xFF))
    );
    assert_eq!(
        cli::get_calib_squib_res(d(&[6, 8, 0, 1, 0, 2])),
        (Some(1), Some(2))
    );
    assert_eq!(cli::get_calib_squib_res(d(&[6, 0])), (None, None));
}

#[test]
fn swupdate_replies() {
    let d = |body: &[u8]| decode_frame(&sealed(body)).unwrap();
    assert_eq!(d(&[0x20, 0]), UsbCmd::SWUpdate(SWUpdateCmd::StartBootLoader));
    assert_eq!(d(&[0x20, 1, 4]), UsbCmd::SWUpdate(SWUpdateCmd::GetBootLoaderVersion(Some(4))));
    let states = [
        SWUpdateBootLoaderStates::WaitFW,
        SWUpdateBootLoaderStates::CheckReadFW,
        SWUpdateBootLoaderStates::EraseFlash,
        SWUpdateBootLoaderStates::FlashFW,
        SWUpdateBootLoaderStates::CalcFlashedCRC,
        SWUpdateBootLoaderStates::WaitVerifyFlashedCRC,
        SWUpdateBootLoaderStates::VerifyFlashedCRCMemory,
    ];
    for (b, s) in states.iter().enumerate() {
        assert_eq!(
            d(&[0x20, 2, b as u8]),
            UsbCmd::SWUpdate(SWUpdateCmd::GetBootLoaderState(Some(*s)))
        );
        assert_eq!(SWUpdateBootLoaderStates::from(b as u8), *s);
    }
    assert_eq!(kind_of(decode_frame(&sealed(&[0x20, 2, 7]))), ErrorKind::InvalidPayload);
    assert_eq!(kind_of(decode_frame(&sealed(&[0x20, 2, 0xFF]))), ErrorKind::InvalidPayload);
    match d(&[0x20, 3, 0x01, 0x02]) {
        UsbCmd::SWUpdate(SWUpdateCmd::WriteFWData(fw)) => {
            assert_eq!(fw.page_count, 0x0102);
            assert_eq!(fw.page_count(), 0x0102);
            assert_eq!(fw.chunk_len(), 0);
            assert_eq!(fw.data(), &None);
        }
        other => panic!("{:?}", other),
    }
    assert_eq!(kind_of(decode_frame(&sealed(&[0x20, 3, 0xFF, 0xFF]))), ErrorKind::InvalidPayload);
    assert_eq!(d(&[0x20, 4]), UsbCmd::SWUpdate(SWUpdateCmd::QuitBootLoader));
    assert_eq!(d(&[0x20, 5, 0]), UsbCmd::SWUpdate(SWUpdateCmd::CRCCheck(0)));
    assert_eq!(d(&[0x20, 5, 3, 9]), UsbCmd::SWUpdate(SWUpdateCmd::CRCCheck(3)));
}

#[test]
fn fw_data_takes_one_byte_to_one_page() {
    assert!(FWData::new(&[], &1).is_none());
    assert!(FWData::new(&[0u8; 257], &1).is_none());
    let one = FWData::new(&[7], &3).unwrap();
    assert_eq!((one.page_count, one.chunk_len(), one.data().clone()), (3, 1, Some(vec![7])));
    let page = FWData::new(&[1u8; 256], &0).unwrap();
    assert_eq!(page.chunk_len(), 256);
    let f = encode_frame(&UsbCmd::SWUpdate(SWUpdateCmd::WriteFWData(page))).unwrap();
    assert_eq!(&f[..6], &[0x20, 0x03, 0x00, 0x00, 0x01, 0x00]);
    assert_eq!(f.len(), 2 + 4 + 256 + 2);
}

fn same_leaf(a: &UsbCmd, b: &UsbCmd) -> bool {
    let fa = encode_frame(a).unwrap();
    let fb = encode_frame(b).unwrap();
    fa[0] == fb[0] && fa[1] == fb[1]
}

#[test]
fn request_round_trip_gives_the_same_leaf() {
    let cmds = vec![
        UsbCmd::General(GeneralCmd::SetCtrlMode),
        UsbCmd::General(GeneralCmd::GetSerialNr(None)),
        UsbCmd::Logging(LoggingCmd::ClearOPHours),
        UsbCmd::Logging(LoggingCmd::GetPostCrashBulk(Some(3))),
        UsbCmd::Power(PowerCmd::ENDISSupply),
        UsbCmd::Measure(MeasureCmd::SetEXTDisplay(0xFF)),
        UsbCmd::Sensor(SensorCmd::EnableSensorReading(Some(0x35))),
        UsbCmd::Algorithm(AlgorithmCmd::SetAlogrithmThresholds),
        UsbCmd::Airbag(AirbagCmd::SetInflationType(0x44)),
        UsbCmd::Airbag(AirbagCmd::DiagGetSquibRes),
        UsbCmd::SWUpdate(SWUpdateCmd::QuitBootLoader),
        UsbCmd::SWUpdate(SWUpdateCmd::CRCCheck(0xAABB)),
        UsbCmd::SWUpdate(SWUpdateCmd::WriteFWData(FWData::new(&[1, 2, 3], &2).unwrap())),
    ];
    for cmd in cmds {
        let back = decode_frame(&encode_frame(&cmd).unwrap()).unwrap();
        assert!(same_leaf(&back, &cmd), "{:?} -> {:?}", cmd, back);
    }
    assert_eq!(
        decode_frame(&encode_frame(&UsbCmd::Logging(LoggingCmd::ClearOPHours)).unwrap()).unwrap(),
        UsbCmd::Logging(LoggingCmd::ClearOPHours)
    );
}

#[test]
fn request_round_trip_keeps_what_the_request_carried() {
    for byte in 0..=255u8 {
        let cmds = vec![
            UsbCmd::Measure(MeasureCmd::SetEXTDisplay(byte)),
            UsbCmd::Sensor(SensorCmd::EnableSensorReading(Some(byte))),
            UsbCmd::Airbag(AirbagCmd::SetInflationType(byte)),
        ];
        for cmd in cmds {
            let frame = encode_frame(&cmd).unwrap();
            let back = decode_frame(&frame).unwrap();
            assert_eq!(back, cmd);
            assert_eq!(encode_frame(&back).unwrap(), frame);
        }
    }
    let bare = UsbCmd::Sensor(SensorCmd::EnableSensorReading(None));
    assert_eq!(decode_frame(&encode_frame(&bare).unwrap()).unwrap(), bare);
    let serial = UsbCmd::General(GeneralCmd::GetSerialNr(None));
    let frame = encode_frame(&serial).unwrap();
    let back = decode_frame(&frame).unwrap();
    assert_eq!(back, UsbCmd::General(GeneralCmd::GetSerialNr(Some(String::new()))));
    assert_eq!(encode_frame(&back).unwrap(), frame);
}

#[test]
fn request_that_cannot_pass_for_a_reply_is_refused() {
    let cmds = vec![
        UsbCmd::General(GeneralCmd::GetSoftwareVersion(None)),
        UsbCmd::General(GeneralCmd::GetOperatingModus(None)),
        UsbCmd::Logging(LoggingCmd::GetOPHours(None)),
        UsbCmd::Measure(MeasureCmd::GetLogicVoltage(0)),
        UsbCmd::Sensor(SensorCmd::GetGyroscope(None)),
        UsbCmd::Airbag(AirbagCmd::GetInflationType(0)),
        UsbCmd::SWUpdate(SWUpdateCmd::GetBootLoaderState(None)),
        UsbCmd::SWUpdate(SWUpdateCmd::WriteFWData(FWData::new(&[1], &0xFFFF).unwrap())),
    ];
    for cmd in cmds {
        assert_eq!(
            kind_of(decode_frame(&encode_frame(&cmd).unwrap())),
            ErrorKind::InvalidPayload,
            "{:?}",
            cmd
        );
    }
}

#[test]
fn reply_round_trip_gives_the_frame_back() {
    let frames = vec![
        sealed(&[0x00, 0x04]),
        sealed(&[0x01, 0x01]),
        sealed(&[0x02, 0x00]),
        sealed(&[0x03, 0x0A, 0x00]),
        sealed(&[0x04, 0x00]),
        sealed(&[0x05, 0x05]),
        sealed(&[0x06, 0x0B, 0x00]),
        sealed(&[0x06, 0x0B, 0xFF]),
        sealed(&[0x03, 0x0A, 0x7F]),
        sealed(&[0x04, 0x00, 0x35]),
        sealed(&[0x20, 0x04]),
        sealed(&[0x20, 0x05, 0x00, 0x00]),
    ];
    for f in frames {
        let cmd = decode_frame(&f).unwrap();
        assert_eq!(encode_frame(&cmd).unwrap(), f);
    }
    let f = sealed(&[0x00, 0x02, 0x01, 0x0E]);
    let again = encode_frame(&decode_frame(&f).unwrap()).unwrap();
    assert_eq!(&again[..2], &f[..2]);
    assert_ne!(again, f);
}

#[test]
fn read_gives_empty_error_without_bytes() {
    assert_eq!(kind_of(read_frame(vec![])), ErrorKind::ReadTimeoutEmpty);
    assert_eq!(
        read_frame(vec![0x20, 0x00, 0x18, 0x70]).unwrap(),
        UsbCmd::SWUpdate(SWUpdateCmd::StartBootLoader)
    );
    assert_eq!(kind_of(read_frame(vec![0x20, 0x00, 0x18, 0x71])), ErrorKind::CrcMismatch);
}

#[test]
fn category_accessors() {
    let g = UsbCmd::General(GeneralCmd::SetCtrlMode);
    assert_eq!(g.clone().general(), Some(GeneralCmd::SetCtrlMode));
    assert_eq!(g.clone().logging(), None);
    assert_eq!(g.clone().power(), None);
    assert_eq!(g.clone().measure(), None);
    assert_eq!(g.clone().sensor(), None);
    assert_eq!(g.clone().algorithm(), None);
    assert_eq!(g.clone().airbag(), None);
    assert_eq!(g.swupdate(), None);
    assert_eq!(UsbCmd::Logging(LoggingCmd::ClearOPHours).logging(), Some(LoggingCmd::ClearOPHours));
    assert_eq!(UsbCmd::Power(PowerCmd::ENDISSupply).power(), Some(PowerCmd::ENDISSupply));
    assert_eq!(
        UsbCmd::Measure(MeasureCmd::GetZIPSwitchState(true)).measure(),
        Some(MeasureCmd::GetZIPSwitchState(true))
    );
    assert_eq!(
        UsbCmd::Sensor(SensorCmd::GetSensorReadingEnables(1)).sensor(),
        Some(SensorCmd::GetSensorReadingEnables(1))
    );
    assert_eq!(
        UsbCmd::Algorithm(AlgorithmCmd::InitAlgorithm).algorithm(),
        Some(AlgorithmCmd::InitAlgorithm)
    );
    assert_eq!(UsbCmd::Airbag(AirbagCmd::SetCalibSquibRes).airbag(), Some(AirbagCmd::SetCalibSquibRes));
    assert_eq!(
        UsbCmd::SWUpdate(SWUpdateCmd::QuitBootLoader).swupdate(),
        Some(SWUpdateCmd::QuitBootLoader)
    );
}

#[test]
fn error_reasons() {
    assert_eq!(TechAirError::new(ErrorKind::DeviceNotFound).description(), "no techair found!");
    assert_eq!(TechAirError::new(ErrorKind::ReadTimeoutEmpty).description(), "no bytes returned");
    assert_eq!(TechAirError::new(ErrorKind::CrcMismatch).description(), "CRC16 mismatch");
    assert_eq!(TechAirError::new(ErrorKind::HexChecksum).kind, ErrorKind::HexChecksum);
}
