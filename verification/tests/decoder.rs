use laad::decoder::Decoder;
use laad::protocol::{
    Acknowledgement, AcknowledgementType, AddressClaimed, BankCapacity, BankEnable, BankName,
    BankStatus, BatteryType, BrandId, ChargeStage, DeviceId, IndicatorState, InstallerLock,
    OperatingMode, OperatingModeStatus, RemainingTime, StateOfCharge, StateOfHealth, TbsPg,
    Temperature, Version,
};
use laad::types::Frame;

/// Builds a frame with the standard 6-byte header, the given payload, a
/// correct checksum, and the closing delimiter.
fn make_frame(pgn0: u8, pgn1: u8, payload: &[u8]) -> Vec<u8> {
    let mut frame = vec![0xAA, 0x00, 0xFF, pgn0, pgn1, 0x08];
    frame.extend_from_slice(payload);
    let sum = frame[1..].iter().fold(0u8, |acc, &b| acc.wrapping_add(b));
    frame.push(sum.wrapping_neg());
    frame.push(0x99);
    frame
}

fn decode(bytes: Vec<u8>) -> TbsPg {
    Decoder::new().decode_frame(Frame(bytes))
}

#[test]
fn decode_heartbeat_fixture() {
    let bytes = vec![0xAA, 0x00, 0xFF, 0xFF, 0xFF, 0x00, 0x03, 0x99];
    assert_eq!(decode(bytes), TbsPg::Heartbeat);
}

#[test]
fn decode_bb1st_fixture() {
    let bytes = vec![
        0xAA, 0x00, 0xFF, 0x1A, 0xF0, 0x08, 0xC0, 0xB0, 0x10, 0x27, 0x10, 0x27, 0xFD, 0xFF,
        0x15, 0x99,
    ];
    let expected = TbsPg::Bb1st(BankStatus {
        state_of_charge: StateOfCharge::ChargePercentage(10000),
        state_of_health: StateOfHealth::HealthPercentage(10000),
        time_remaining: RemainingTime::Charging,
    });
    assert_eq!(decode(bytes), expected);
}

#[test]
fn decode_bb1dc_fixture() {
    let bytes = vec![
        0xAA, 0x00, 0xFF, 0x18, 0xF0, 0x08, 0x00, 0xB0, 0x32, 0x05, 0xFD, 0x11, 0x7A, 0xFE,
        0x84, 0x99,
    ];
    let decoded = decode(bytes);
    match decoded {
        TbsPg::Bb1dc(q) => {
            assert_eq!(q.voltage, Some(0x0532));
            assert_eq!(q.current, Some(0x7A11FD));
            assert_eq!(q.temperature, Temperature::NoSensorDetected);
        }
        other => panic!("expected Bb1dc, got {:?}", other),
    }
}

#[test]
fn decode_version_info_fixture() {
    let bytes = vec![
        0xAA, 0x00, 0xFF, 0x02, 0xF0, 0x08, 0x67, 0x00, 0x64, 0x00, 0x64, 0x00, 0xFF, 0xFF,
        0xDA, 0x99,
    ];
    let decoded = decode(bytes);
    match decoded {
        TbsPg::VersionInfo(v) => {
            assert_eq!(v.firmware_version, Version { major: 1, minor: 0, maintenance: 3 });
            assert_eq!(v.hardware_version, Version { major: 1, minor: 0, maintenance: 0 });
            assert_eq!(v.bootloader_version, Version { major: 1, minor: 0, maintenance: 0 });
            assert_eq!(v.auxiliary_version, Version { major: 1, minor: 0, maintenance: 0 });
        }
        other => panic!("expected VersionInfo, got {:?}", other),
    }
}

#[test]
fn decode_address_claimed_fixture() {
    let bytes = vec![
        0xAA, 0x00, 0xFF, 0x00, 0xEE, 0x08, 0xD2, 0x66, 0x2F, 0xF4, 0xFF, 0x32, 0x24, 0x0A,
        0x51, 0x99,
    ];
    let expected = TbsPg::AddressClaimed(AddressClaimed {
        device_id: DeviceId::ExpertModular,
        brand_id: BrandId::TbsElectronics,
        serial_number: 0xF42F66D2u32.wrapping_neg(),
    });
    assert_eq!(decode(bytes), expected);
}

#[test]
fn decode_redecoding_yields_same_message() {
    let bytes = vec![
        0xAA, 0x00, 0xFF, 0x1A, 0xF0, 0x08, 0xC0, 0xB0, 0x10, 0x27, 0x10, 0x27, 0xFD, 0xFF,
        0x15, 0x99,
    ];
    let first = decode(bytes.clone());
    let second = decode(bytes);
    assert_eq!(first, second);
}

#[test]
fn decode_short_frame_is_unknown() {
    assert_eq!(decode(vec![0xAA, 0x99]), TbsPg::Unknown);
}

#[test]
fn decode_checksum_mismatch_is_unknown() {
    let mut bytes = vec![
        0xAA, 0x00, 0xFF, 0x1A, 0xF0, 0x08, 0xC0, 0xB0, 0x10, 0x27, 0x10, 0x27, 0xFD, 0xFF,
        0x15, 0x99,
    ];
    bytes[6] = 0xC1;
    assert_eq!(decode(bytes), TbsPg::Unknown);
}

#[test]
fn decode_unknown_pgn_is_unknown() {
    let bytes = make_frame(0x77, 0x77, &[0, 0, 0, 0, 0, 0, 0, 0]);
    assert_eq!(decode(bytes), TbsPg::Unknown);
}

#[test]
fn decode_wrong_length_is_unknown() {
    // A bank status PGN tag carried in a frame of the wrong length.
    let mut frame = vec![0xAA, 0x00, 0xFF, 0x1A, 0xF0, 0x08, 0xC0, 0xB0, 0x10, 0x27];
    let sum = frame[1..].iter().fold(0u8, |acc, &b| acc.wrapping_add(b));
    frame.push(sum.wrapping_neg());
    frame.push(0x99);
    assert_eq!(frame.len(), 12);
    assert_eq!(decode(frame), TbsPg::Unknown);
}

#[test]
fn decode_bank_status_for_each_bank() {
    let payload = [0xC0, 0xB0, 0xFF, 0xFF, 0xFD, 0xFF, 0x2C, 0x01];
    let expected = BankStatus {
        state_of_charge: StateOfCharge::Unavailable,
        state_of_health: StateOfHealth::Initializing,
        time_remaining: RemainingTime::Minutes(300),
    };
    assert_eq!(decode(make_frame(0x1A, 0xF0, &payload)), TbsPg::Bb1st(expected));
    assert_eq!(decode(make_frame(0x24, 0xF0, &payload)), TbsPg::Bb2st(expected));
    assert_eq!(decode(make_frame(0x2E, 0xF0, &payload)), TbsPg::Bb3st(expected));
}

#[test]
fn decode_basic_quantities_for_each_bank() {
    let payload = [0x00, 0x00, 0xFF, 0xFF, 0xFF, 0xFF, 0xFF, 0x50];
    for (pgn0, want_bank) in [(0x18u8, 1), (0x22, 2), (0x2C, 3)] {
        let decoded = decode(make_frame(pgn0, 0xF0, &payload));
        let q = match (want_bank, decoded) {
            (1, TbsPg::Bb1dc(q)) => q,
            (2, TbsPg::Bb2dc(q)) => q,
            (3, TbsPg::Bb3dc(q)) => q,
            (_, other) => panic!("wrong variant: {:?}", other),
        };
        // Voltage and current are at their all-ones sentinels.
        assert_eq!(q.voltage, None);
        assert_eq!(q.current, None);
        assert_eq!(q.temperature, Temperature::DegreesCelsius(0x50));
    }
}

#[test]
fn decode_temperature_sentinels() {
    let unavailable = [0x00, 0x00, 0x00, 0x00, 0x00, 0x00, 0x00, 0xFF];
    match decode(make_frame(0x18, 0xF0, &unavailable)) {
        TbsPg::Bb1dc(q) => assert_eq!(q.temperature, Temperature::Unavailable),
        other => panic!("wrong variant: {:?}", other),
    }
    let no_sensor = [0x00, 0x00, 0x00, 0x00, 0x00, 0x00, 0x00, 0xFE];
    match decode(make_frame(0x18, 0xF0, &no_sensor)) {
        TbsPg::Bb1dc(q) => assert_eq!(q.temperature, Temperature::NoSensorDetected),
        other => panic!("wrong variant: {:?}", other),
    }
}

#[test]
fn decode_power_and_charge_for_each_bank() {
    // The power and charge values are 24-bit big-endian, padded with a low
    // zero byte, so an all-ones wire value reads as 0xFFFFFF00 and never
    // matches the 0x00FFFFFF sentinel; that quirk of the wire format is
    // kept as the device-facing behavior.
    let payload = [0x00, 0x00, 0x01, 0x02, 0x03, 0xFF, 0xFF, 0xFF];
    for (pgn0, want_bank) in [(0x19u8, 1), (0x23, 2), (0x2D, 3)] {
        let decoded = decode(make_frame(pgn0, 0xF0, &payload));
        let p = match (want_bank, decoded) {
            (1, TbsPg::Bb1pc(p)) => p,
            (2, TbsPg::Bb2pc(p)) => p,
            (3, TbsPg::Bb3pc(p)) => p,
            (_, other) => panic!("wrong variant: {:?}", other),
        };
        assert_eq!(p.power, Some(0x01020300));
        assert_eq!(p.consumed_amp_hours, Some(0xFFFFFF00));
    }
}

#[test]
fn decode_charge_state_for_each_bank() {
    let payload = [0x00, 0x00, 0x02, 0x1B, 0x00, 0x00, 0x00, 0x00];
    for (pgn0, want_bank) in [(0x1Eu8, 1), (0x28, 2), (0x32, 3)] {
        let decoded = decode(make_frame(pgn0, 0xF0, &payload));
        let c = match (want_bank, decoded) {
            (1, TbsPg::Bb1cs(c)) => c,
            (2, TbsPg::Bb2cs(c)) => c,
            (3, TbsPg::Bb3cs(c)) => c,
            (_, other) => panic!("wrong variant: {:?}", other),
        };
        assert_eq!(c.stage, ChargeStage::Bulk);
        assert_eq!(c.indicator_0_49, IndicatorState::NotAvailable);
        assert_eq!(c.indicator_50_79, IndicatorState::Blinking);
        assert_eq!(c.indicator_80_99, IndicatorState::On);
        assert_eq!(c.indicator_100, IndicatorState::Off);
    }
}

#[test]
fn decode_basic_setup_for_each_bank() {
    let payload = [0x01, 0x00, 0xB8, 0x0B, 0xC8, 0x00, 0x00, 0x09];
    for (pgn0, want_bank) in [(0x20u8, 1), (0x2A, 2), (0x34, 3)] {
        let decoded = decode(make_frame(pgn0, 0xF0, &payload));
        let b = match (want_bank, decoded) {
            (1, TbsPg::Bb1bs(b)) => b,
            (2, TbsPg::Bb2bs(b)) => b,
            (3, TbsPg::Bb3bs(b)) => b,
            (_, other) => panic!("wrong variant: {:?}", other),
        };
        assert_eq!(b.bank_enable, BankEnable::Enabled);
        assert_eq!(b.battery_type, BatteryType::Gel);
        assert_eq!(b.bank_capacity, BankCapacity::CapacityAh(200));
        assert_eq!(b.bank_name, BankName::StarterBattery);
    }
}

#[test]
fn decode_basic_setup_sentinels() {
    let payload = [0x02, 0x00, 0x00, 0x00, 0xFF, 0xFF, 0x00, 0xFF];
    match decode(make_frame(0x20, 0xF0, &payload)) {
        TbsPg::Bb1bs(b) => {
            assert_eq!(b.bank_enable, BankEnable::ParameterUnavailable);
            assert_eq!(b.battery_type, BatteryType::ParameterNotAvailable);
            assert_eq!(b.bank_capacity, BankCapacity::ParameterNotAvailable);
            assert_eq!(b.bank_name, BankName::ParameterNotAvailable);
        }
        other => panic!("wrong variant: {:?}", other),
    }
}

#[test]
fn decode_acknowledgement_fixture() {
    let payload = [0x02, 0x00, 0x00, 0x00, 0x00, 0x00, 0xD2, 0x04];
    let expected = TbsPg::Acknowledgement(Acknowledgement {
        ack_type: AcknowledgementType::AccessDenied,
        pgn: 0x04D2,
    });
    assert_eq!(decode(make_frame(0x00, 0xE8, &payload)), expected);
}

#[test]
fn decode_device_name_fixture() {
    let mut name = Vec::from(&b"EXPERT MODULAR"[..]);
    name.resize(32, 0u8);
    let mut frame = vec![0xAA, 0x00, 0xFF, 0x00, 0xF0, 0x22];
    frame.extend_from_slice(&name);
    let sum = frame[1..].iter().fold(0u8, |acc, &b| acc.wrapping_add(b));
    frame.push(sum.wrapping_neg());
    frame.push(0x99);
    assert_eq!(frame.len(), 40);
    match decode(frame) {
        TbsPg::DeviceName(d) => assert_eq!(d.name, name),
        other => panic!("wrong variant: {:?}", other),
    }
}

#[test]
fn decode_operating_mode_fixture() {
    let payload = [0x0A, 0x00, 0x00, 0x40, 0x00, 0x00, 0x00, 0x00];
    let expected = TbsPg::OperatingModeStatus(OperatingModeStatus {
        mode: OperatingMode::DeviceOn,
        installer_lock: InstallerLock::InstallerLockOn,
    });
    assert_eq!(decode(make_frame(0x0E, 0xF0, &payload)), expected);
}

#[test]
fn calculate_checksum_of_heartbeat() {
    let decoder = Decoder::new();
    let frame = Frame(vec![0xAA, 0x00, 0xFF, 0xFF, 0xFF, 0x00, 0x03, 0x99]);
    assert_eq!(decoder.calculate_checksum(&frame), Some(0x03));
}

#[test]
fn calculate_checksum_of_short_frame() {
    let decoder = Decoder::new();
    let frame = Frame(vec![0xAA, 0x99]);
    assert_eq!(decoder.calculate_checksum(&frame), None);
}

#[test]
fn bank_name_from_u8_edges() {
    assert_eq!(BankName::from_u8(0), BankName::BatteryBank1);
    assert_eq!(BankName::from_u8(24), BankName::OtherBattery);
    assert_eq!(BankName::from_u8(25), BankName::ParameterNotAvailable);
    assert_eq!(BankName::from_u8(255), BankName::ParameterNotAvailable);
}

#[test]
fn charge_stage_from_u8_edges() {
    assert_eq!(ChargeStage::from_u8(1), ChargeStage::SoftStart);
    assert_eq!(ChargeStage::from_u8(15), ChargeStage::Error);
    assert_eq!(ChargeStage::from_u8(255), ChargeStage::Unavailable);
    assert_eq!(ChargeStage::from_u8(5), ChargeStage::Unknown);
    assert_eq!(ChargeStage::from_u8(0), ChargeStage::Unknown);
}

#[test]
fn operating_mode_from_u8_edges() {
    assert_eq!(OperatingMode::from_u8(127), OperatingMode::DeviceInError);
    assert_eq!(OperatingMode::from_u8(11), OperatingMode::DeviceOnNightMode);
    assert_eq!(OperatingMode::from_u8(255), OperatingMode::ParameterNotAvailable);
    assert_eq!(OperatingMode::from_u8(4), OperatingMode::ParameterNotAvailable);
}

#[test]
fn indicator_state_from_u8_edges() {
    assert_eq!(IndicatorState::from_u8(0), IndicatorState::Off);
    assert_eq!(IndicatorState::from_u8(1), IndicatorState::On);
    assert_eq!(IndicatorState::from_u8(2), IndicatorState::Blinking);
    assert_eq!(IndicatorState::from_u8(3), IndicatorState::NotAvailable);
}

#[test]
fn acknowledgement_type_from_u8_edges() {
    assert_eq!(
        AcknowledgementType::from_u8(0),
        AcknowledgementType::PositiveAcknowledgement
    );
    assert_eq!(
        AcknowledgementType::from_u8(3),
        AcknowledgementType::CannotRespond
    );
    assert_eq!(AcknowledgementType::from_u8(4), AcknowledgementType::Reserved);
}
