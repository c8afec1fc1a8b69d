use vstd::prelude::*;

use crate::protocol::{
    Acknowledgement, AcknowledgementType, AddressClaimed, BankCapacity, BankEnable, BankName,
    BankStatus, BasicQuantities, BasicSetup, BatteryType, BrandId, ChargeStage, ChargeState,
    DeviceId, DeviceName, IndicatorState, InstallerLock, OperatingMode, OperatingModeStatus,
    PgModel, PowerAndCharge, RemainingTime, StateOfCharge, StateOfHealth, TbsPg, Temperature,
    Version, VersionInfo,
};
use crate::types::Frame;

verus! {

/// The 8-bit wrapping sum of a byte sequence, folded left to right.
pub open spec fn wrap_sum(s: Seq<u8>) -> int
    decreases s.len(),
{
    if s.len() == 0 {
        0
    } else {
        (wrap_sum(s.drop_last()) + s.last()) % 256
    }
}

/// The checksum of a frame's summed byte range: the 8-bit two's-complement
/// negation of the 8-bit wrapping sum.
pub open spec fn checksum_of(s: Seq<u8>) -> int {
    (256 - wrap_sum(s)) % 256
}

/// A 16-bit little-endian word built from two consecutive frame bytes.
pub open spec fn word_le(lo: u8, hi: u8) -> int {
    lo + 256 * hi
}

/// A 24-bit little-endian value built from three consecutive frame bytes.
pub open spec fn u24_le(b0: u8, b1: u8, b2: u8) -> int {
    b0 + 256 * b1 + 65536 * b2
}

/// A 24-bit big-endian value shifted into the top three bytes of a 32-bit
/// word, as the power and charge fields are laid out on the wire.
pub open spec fn u24_be_high(b0: u8, b1: u8, b2: u8) -> int {
    16777216 * b0 + 65536 * b1 + 256 * b2
}

/// A 32-bit little-endian value built from four consecutive frame bytes.
pub open spec fn u32_le(b0: u8, b1: u8, b2: u8, b3: u8) -> int {
    b0 + 256 * b1 + 65536 * b2 + 16777216 * b3
}

/// 32-bit two's-complement negation.
pub open spec fn neg32(x: int) -> int {
    (0x100000000 - x) % 0x100000000
}

/// Mapping of the bank-name byte.
pub open spec fn spec_bank_name(byte: u8) -> BankName {
    if byte == 0 {
        BankName::BatteryBank1
    } else if byte == 1 {
        BankName::BatteryBank2
    } else if byte == 2 {
        BankName::BatteryBank3
    } else if byte == 3 {
        BankName::MainBatteryBank
    } else if byte == 4 {
        BankName::AuxiliaryBatteryBank
    } else if byte == 5 {
        BankName::AuxiliaryBatteryBank1
    } else if byte == 6 {
        BankName::AuxiliaryBatteryBank2
    } else if byte == 7 {
        BankName::PrimaryBatteryBank
    } else if byte == 8 {
        BankName::SecondaryBatteryBank
    } else if byte == 9 {
        BankName::StarterBattery
    } else if byte == 10 {
        BankName::ServiceBatteryBank
    } else if byte == 11 {
        BankName::AccessoryBatteryBank
    } else if byte == 12 {
        BankName::HouseBatteryBank
    } else if byte == 13 {
        BankName::PortBattery
    } else if byte == 14 {
        BankName::StarboardBatteryBank
    } else if byte == 15 {
        BankName::PowerBatteryBank
    } else if byte == 16 {
        BankName::GeneratorStarterBattery
    } else if byte == 17 {
        BankName::BowThrusterBattery
    } else if byte == 18 {
        BankName::RadioBattery
    } else if byte == 19 {
        BankName::VehicleBattery
    } else if byte == 20 {
        BankName::TrailerBattery
    } else if byte == 21 {
        BankName::DrivetrainBattery
    } else if byte == 22 {
        BankName::BrakeBattery
    } else if byte == 23 {
        BankName::SolarBattery
    } else if byte == 24 {
        BankName::OtherBattery
    } else {
        BankName::ParameterNotAvailable
    }
}

/// Mapping of the charge-stage byte.
pub open spec fn spec_charge_stage(byte: u8) -> ChargeStage {
    if byte == 1 {
        ChargeStage::SoftStart
    } else if byte == 2 {
        ChargeStage::Bulk
    } else if byte == 3 {
        ChargeStage::ExtendedBulk
    } else if byte == 4 {
        ChargeStage::Absorption
    } else if byte == 6 {
        ChargeStage::Analyze
    } else if byte == 8 {
        ChargeStage::Float
    } else if byte == 9 {
        ChargeStage::Pulse
    } else if byte == 11 {
        ChargeStage::Equalize
    } else if byte == 13 {
        ChargeStage::Stop
    } else if byte == 15 {
        ChargeStage::Error
    } else if byte == 255 {
        ChargeStage::Unavailable
    } else {
        ChargeStage::Unknown
    }
}

/// Mapping of the operating-mode byte.
pub open spec fn spec_operating_mode(byte: u8) -> OperatingMode {
    if byte == 0 {
        OperatingMode::DeviceOff
    } else if byte == 1 {
        OperatingMode::DeviceBooting
    } else if byte == 2 {
        OperatingMode::DeviceWaitingForSlaves
    } else if byte == 3 {
        OperatingMode::DeviceWaitingForMaster
    } else if byte == 10 {
        OperatingMode::DeviceOn
    } else if byte == 11 {
        OperatingMode::DeviceOnNightMode
    } else if byte == 127 {
        OperatingMode::DeviceInError
    } else {
        OperatingMode::ParameterNotAvailable
    }
}

/// Mapping of a two-bit indicator field.
pub open spec fn spec_indicator_state(byte: u8) -> IndicatorState {
    if byte == 0 {
        IndicatorState::Off
    } else if byte == 1 {
        IndicatorState::On
    } else if byte == 2 {
        IndicatorState::Blinking
    } else {
        IndicatorState::NotAvailable
    }
}

/// Mapping of the acknowledgement-type byte.
pub open spec fn spec_acknowledgement_type(byte: u8) -> AcknowledgementType {
    if byte == 0 {
        AcknowledgementType::PositiveAcknowledgement
    } else if byte == 1 {
        AcknowledgementType::NegativeAcknowledgement
    } else if byte == 2 {
        AcknowledgementType::AccessDenied
    } else if byte == 3 {
        AcknowledgementType::CannotRespond
    } else {
        AcknowledgementType::Reserved
    }
}

/// Mapping of a 16-bit state-of-charge word with its two sentinel values.
pub open spec fn spec_state_of_charge(word: int) -> StateOfCharge {
    if word == 65535 {
        StateOfCharge::Unavailable
    } else if word == 65533 {
        StateOfCharge::Initializing
    } else {
        StateOfCharge::ChargePercentage(word as u16)
    }
}

/// Mapping of a 16-bit state-of-health word with its two sentinel values.
pub open spec fn spec_state_of_health(word: int) -> StateOfHealth {
    if word == 65535 {
        StateOfHealth::Unavailable
    } else if word == 65533 {
        StateOfHealth::Initializing
    } else {
        StateOfHealth::HealthPercentage(word as u16)
    }
}

/// Mapping of a 16-bit remaining-time word with its two sentinel values.
pub open spec fn spec_remaining_time(word: int) -> RemainingTime {
    if word == 65535 {
        RemainingTime::Unavailable
    } else if word == 65533 {
        RemainingTime::Charging
    } else {
        RemainingTime::Minutes(word as u16)
    }
}

/// Mapping of the temperature byte with its two sentinel values.
pub open spec fn spec_temperature(byte: u8) -> Temperature {
    if byte == 0xFE {
        Temperature::NoSensorDetected
    } else if byte == 0xFF {
        Temperature::Unavailable
    } else {
        Temperature::DegreesCelsius(byte)
    }
}

/// Field layout of a bank status frame: three 16-bit little-endian words
/// at offsets 8, 10 and 12.
pub open spec fn spec_bank_status(s: Seq<u8>) -> BankStatus {
    BankStatus {
        state_of_charge: spec_state_of_charge(word_le(s[8], s[9])),
        state_of_health: spec_state_of_health(word_le(s[10], s[11])),
        time_remaining: spec_remaining_time(word_le(s[12], s[13])),
    }
}

/// Field layout of a charge state frame: the stage byte at offset 8 and
/// four two-bit indicator fields packed into the byte at offset 9.
pub open spec fn spec_charge_state(s: Seq<u8>) -> ChargeState {
    ChargeState {
        stage: spec_charge_stage(s[8]),
        indicator_0_49: spec_indicator_state(s[9] & 0b11),
        indicator_50_79: spec_indicator_state((s[9] >> 2) & 0b11),
        indicator_80_99: spec_indicator_state((s[9] >> 4) & 0b11),
        indicator_100: spec_indicator_state((s[9] >> 6) & 0b11),
    }
}

/// Field layout of a power-and-charge frame: two 24-bit big-endian values
/// at offsets 8 and 11, each with an all-ones sentinel.
pub open spec fn spec_power_and_charge(s: Seq<u8>) -> PowerAndCharge {
    let power = u24_be_high(s[8], s[9], s[10]);
    let charge = u24_be_high(s[11], s[12], s[13]);
    PowerAndCharge {
        power: if power != 0x00FFFFFF {
            Some(power as u32)
        } else {
            None
        },
        consumed_amp_hours: if charge != 0x00FFFFFF {
            Some(charge as u32)
        } else {
            None
        },
    }
}

/// A version word split into major, minor and maintenance decimal digits.
pub open spec fn spec_version(word: int) -> Version {
    Version { major: (word / 100) as u32, minor: ((word / 10) % 10) as u8, maintenance: (word
        % 10) as u8 }
}

/// Field layout of a version info frame. The hardware and the bootloader
/// version are read from the same word at offset 8, as the device reports
/// them.
pub open spec fn spec_version_info(s: Seq<u8>) -> VersionInfo {
    VersionInfo {
        firmware_version: spec_version(word_le(s[6], s[7])),
        hardware_version: spec_version(word_le(s[8], s[9])),
        bootloader_version: spec_version(word_le(s[8], s[9])),
        auxiliary_version: spec_version(word_le(s[10], s[11])),
    }
}

/// Field layout of a basic quantities frame: the voltage word at offset 8
/// with an all-ones sentinel, the 24-bit little-endian current at offset
/// 10 with an all-ones sentinel, and the temperature byte at offset 13.
pub open spec fn spec_basic_quantities(s: Seq<u8>) -> BasicQuantities {
    BasicQuantities {
        voltage: if word_le(s[8], s[9]) == 0xFFFF {
            None
        } else {
            Some(word_le(s[8], s[9]) as u16)
        },
        current: if s[10] == 0xFF && s[11] == 0xFF && s[12] == 0xFF {
            None
        } else {
            Some(u24_le(s[10], s[11], s[12]) as u32)
        },
        temperature: spec_temperature(s[13]),
    }
}

/// Mapping of the two low bank-enable bits.
pub open spec fn spec_bank_enable(bits: u8) -> BankEnable {
    if bits == 0 {
        BankEnable::Disabled
    } else if bits == 1 {
        BankEnable::Enabled
    } else {
        BankEnable::ParameterUnavailable
    }
}

/// Mapping of the battery-type word with its four literal codes.
pub open spec fn spec_battery_type(word: int) -> BatteryType {
    if word == 2000 {
        BatteryType::Flooded
    } else if word == 3000 {
        BatteryType::Gel
    } else if word == 3200 {
        BatteryType::AGM
    } else if word == 5000 {
        BatteryType::LiFePo4
    } else {
        BatteryType::ParameterNotAvailable
    }
}

/// Field layout of a basic setup frame: the enable bits are the two low
/// bits of the flags word at offset 6, the battery type word sits at
/// offset 8, the capacity word at offset 10 with an all-ones sentinel, and
/// the bank name byte at offset 13.
pub open spec fn spec_basic_setup(s: Seq<u8>) -> BasicSetup {
    BasicSetup {
        bank_enable: spec_bank_enable(s[6] & 0b11),
        bank_name: spec_bank_name(s[13]),
        bank_capacity: if word_le(s[10], s[11]) == 0xFFFF {
            BankCapacity::ParameterNotAvailable
        } else {
            BankCapacity::CapacityAh(word_le(s[10], s[11]) as u16)
        },
        battery_type: spec_battery_type(word_le(s[8], s[9])),
    }
}

/// Field layout of an address claimed frame: the device id word at offset
/// 12, the brand byte at offset 11, and the 32-bit serial at offset 6,
/// negated as the device reports it.
pub open spec fn spec_address_claimed(s: Seq<u8>) -> AddressClaimed {
    AddressClaimed {
        device_id: if word_le(s[12], s[13]) == 0x0A24 {
            DeviceId::ExpertModular
        } else {
            DeviceId::Unknown
        },
        brand_id: if s[11] == 0x32 {
            BrandId::TbsElectronics
        } else {
            BrandId::Unknown
        },
        serial_number: neg32(u32_le(s[6], s[7], s[8], s[9])) as u32,
    }
}

/// Field layout of an acknowledgement frame: the type byte at offset 6 and
/// the acknowledged PGN word at offset 12.
pub open spec fn spec_acknowledgement(s: Seq<u8>) -> Acknowledgement {
    Acknowledgement {
        ack_type: spec_acknowledgement_type(s[6]),
        pgn: word_le(s[12], s[13]) as u16,
    }
}

/// Mapping of the two installer-lock bits, the top bits of the word at
/// offset 8.
pub open spec fn spec_installer_lock(bits: u8) -> InstallerLock {
    if bits == 0 {
        InstallerLock::InstallerLockOff
    } else if bits == 1 {
        InstallerLock::InstallerLockOn
    } else {
        InstallerLock::ParameterNotAvailable
    }
}

/// Field layout of an operating mode status frame: the mode byte at offset
/// 6 and the lock flag in the two top bits of the word at offset 8.
pub open spec fn spec_operating_mode_status(s: Seq<u8>) -> OperatingModeStatus {
    OperatingModeStatus {
        mode: spec_operating_mode(s[6]),
        installer_lock: spec_installer_lock(s[9] >> 6),
    }
}

/// Dispatch on the PGN tag at offsets 3 and 4 together with the frame
/// length. An unrecognized pair decodes to the unknown message.
pub open spec fn spec_dispatch(s: Seq<u8>) -> PgModel {
    let p0 = s[3];
    let p1 = s[4];
    let n = s.len();
    if p0 == 0x1A && p1 == 0xF0 && n == 16 {
        PgModel::Bb1st(spec_bank_status(s))
    } else if p0 == 0x24 && p1 == 0xF0 && n == 16 {
        PgModel::Bb2st(spec_bank_status(s))
    } else if p0 == 0x2E && p1 == 0xF0 && n == 16 {
        PgModel::Bb3st(spec_bank_status(s))
    } else if p0 == 0x02 && p1 == 0xF0 && n == 16 {
        PgModel::VersionInfo(spec_version_info(s))
    } else if p0 == 0xFF && p1 == 0xFF && n == 8 {
        PgModel::Heartbeat
    } else if p0 == 0x18 && p1 == 0xF0 && n == 16 {
        PgModel::Bb1dc(spec_basic_quantities(s))
    } else if p0 == 0x22 && p1 == 0xF0 && n == 16 {
        PgModel::Bb2dc(spec_basic_quantities(s))
    } else if p0 == 0x2C && p1 == 0xF0 && n == 16 {
        PgModel::Bb3dc(spec_basic_quantities(s))
    } else if p0 == 0x19 && p1 == 0xF0 && n == 16 {
        PgModel::Bb1pc(spec_power_and_charge(s))
    } else if p0 == 0x23 && p1 == 0xF0 && n == 16 {
        PgModel::Bb2pc(spec_power_and_charge(s))
    } else if p0 == 0x2D && p1 == 0xF0 && n == 16 {
        PgModel::Bb3pc(spec_power_and_charge(s))
    } else if p0 == 0x1E && p1 == 0xF0 && n == 16 {
        PgModel::Bb1cs(spec_charge_state(s))
    } else if p0 == 0x28 && p1 == 0xF0 && n == 16 {
        PgModel::Bb2cs(spec_charge_state(s))
    } else if p0 == 0x32 && p1 == 0xF0 && n == 16 {
        PgModel::Bb3cs(spec_charge_state(s))
    } else if p0 == 0x20 && p1 == 0xF0 && n == 16 {
        PgModel::Bb1bs(spec_basic_setup(s))
    } else if p0 == 0x2A && p1 == 0xF0 && n == 16 {
        PgModel::Bb2bs(spec_basic_setup(s))
    } else if p0 == 0x34 && p1 == 0xF0 && n == 16 {
        PgModel::Bb3bs(spec_basic_setup(s))
    } else if p0 == 0x00 && p1 == 0xEE && n == 16 {
        PgModel::AddressClaimed(spec_address_claimed(s))
    } else if p0 == 0x00 && p1 == 0xE8 && n == 16 {
        PgModel::Acknowledgement(spec_acknowledgement(s))
    } else if p0 == 0x00 && p1 == 0xF0 && n == 40 {
        PgModel::DeviceName(s.subrange(6, 38))
    } else if p0 == 0x0E && p1 == 0xF0 && n == 16 {
        PgModel::OperatingModeStatus(spec_operating_mode_status(s))
    } else {
        PgModel::Unknown
    }
}

/// What decoding a de-stuffed frame yields: the unknown message when the
/// frame is shorter than 8 bytes or its checksum byte does not match the
/// checksum of the summed range, and otherwise the message the PGN
/// dispatch table assigns to it.
pub open spec fn spec_decode(s: Seq<u8>) -> PgModel {
    if s.len() < 8 {
        PgModel::Unknown
    } else if s[s.len() - 2] != checksum_of(s.subrange(1, s.len() - 2)) {
        PgModel::Unknown
    } else {
        spec_dispatch(s)
    }
}

/// Which battery bank a per-bank PG refers to.
#[derive(Clone, Copy)]
enum BankId {
    Bank1,
    Bank2,
    Bank3,
}

impl BankName {
    /// Maps the bank-name byte to the configured name.
    pub fn from_u8(byte: u8) -> (name: Self)
        ensures
            name == spec_bank_name(byte),
    {
        match byte {
            0 => BankName::BatteryBank1,
            1 => BankName::BatteryBank2,
            2 => BankName::BatteryBank3,
            3 => BankName::MainBatteryBank,
            4 => BankName::AuxiliaryBatteryBank,
            5 => BankName::AuxiliaryBatteryBank1,
            6 => BankName::AuxiliaryBatteryBank2,
            7 => BankName::PrimaryBatteryBank,
            8 => BankName::SecondaryBatteryBank,
            9 => BankName::StarterBattery,
            10 => BankName::ServiceBatteryBank,
            11 => BankName::AccessoryBatteryBank,
            12 => BankName::HouseBatteryBank,
            13 => BankName::PortBattery,
            14 => BankName::StarboardBatteryBank,
            15 => BankName::PowerBatteryBank,
            16 => BankName::GeneratorStarterBattery,
            17 => BankName::BowThrusterBattery,
            18 => BankName::RadioBattery,
            19 => BankName::VehicleBattery,
            20 => BankName::TrailerBattery,
            21 => BankName::DrivetrainBattery,
            22 => BankName::BrakeBattery,
            23 => BankName::SolarBattery,
            24 => BankName::OtherBattery,
            _ => BankName::ParameterNotAvailable,
        }
    }
}

impl ChargeStage {
    /// Maps the charge-stage byte to the stage.
    pub fn from_u8(charge_stage: u8) -> (stage: Self)
        ensures
            stage == spec_charge_stage(charge_stage),
    {
        match charge_stage {
            1 => ChargeStage::SoftStart,
            2 => ChargeStage::Bulk,
            3 => ChargeStage::ExtendedBulk,
            4 => ChargeStage::Absorption,
            6 => ChargeStage::Analyze,
            8 => ChargeStage::Float,
            9 => ChargeStage::Pulse,
            11 => ChargeStage::Equalize,
            13 => ChargeStage::Stop,
            15 => ChargeStage::Error,
            255 => ChargeStage::Unavailable,
            _ => ChargeStage::Unknown,
        }
    }
}

impl OperatingMode {
    /// Maps the operating-mode byte to the mode.
    pub fn from_u8(mode: u8) -> (operating_mode: Self)
        ensures
            operating_mode == spec_operating_mode(mode),
    {
        match mode {
            0 => OperatingMode::DeviceOff,
            1 => OperatingMode::DeviceBooting,
            2 => OperatingMode::DeviceWaitingForSlaves,
            3 => OperatingMode::DeviceWaitingForMaster,
            10 => OperatingMode::DeviceOn,
            11 => OperatingMode::DeviceOnNightMode,
            127 => OperatingMode::DeviceInError,
            _ => OperatingMode::ParameterNotAvailable,
        }
    }
}

impl IndicatorState {
    /// Maps a two-bit indicator field to the indicator state.
    pub fn from_u8(indicator_state: u8) -> (state: Self)
        ensures
            state == spec_indicator_state(indicator_state),
    {
        match indicator_state {
            0 => IndicatorState::Off,
            1 => IndicatorState::On,
            2 => IndicatorState::Blinking,
            3 => IndicatorState::NotAvailable,
            _ => IndicatorState::NotAvailable,
        }
    }
}

impl AcknowledgementType {
    /// Maps the acknowledgement-type byte to the type.
    pub fn from_u8(acknowledgment: u8) -> (ack_type: Self)
        ensures
            ack_type == spec_acknowledgement_type(acknowledgment),
    {
        match acknowledgment {
            0 => AcknowledgementType::PositiveAcknowledgement,
            1 => AcknowledgementType::NegativeAcknowledgement,
            2 => AcknowledgementType::AccessDenied,
            3 => AcknowledgementType::CannotRespond,
            _ => AcknowledgementType::Reserved,
        }
    }
}

/// Decoder turns de-bytestuffed frames into protocol messages.
pub struct Decoder {}

impl Default for Decoder {
    fn default() -> (decoder: Self)
        ensures
            true,
    {
        Self::new()
    }
}

impl Decoder {
    /// A decoder. The decoder is pure and keeps no state.
    pub fn new() -> (decoder: Self)
        ensures
            true,
    {
        Self {  }
    }

    /// Decodes a given frame into a `TbsPg` message.
    ///
    /// Receives frames with bytestuffing reverted and:
    /// 1. Ensures the frame is at least 8 bytes long.
    /// 2. Extracts the PGN tag and checksum, and validates the checksum.
    /// 3. Matches the PGN tag and frame length for known PGNs and decodes
    ///    them.
    ///
    /// A frame that is too short, carries a wrong checksum, or has an
    /// unrecognized PGN tag or length decodes to `TbsPg::Unknown`.
    pub fn decode_frame(&self, frame: Frame) -> (message: TbsPg)
        ensures
            message@ == spec_decode(frame@),
    {
        let frame_len = frame.0.len();
        if frame_len < 8 {
            return TbsPg::Unknown;
        }
        let pgn0 = frame.0[3];
        let pgn1 = frame.0[4];
        let checksum = frame.0[frame_len - 2];
        let calculated_checksum = self.calculate_checksum(&frame);

        if let Some(calculated_checksum) = calculated_checksum {
            if checksum != calculated_checksum {
                return TbsPg::Unknown;
            }
        } else {
            return TbsPg::Unknown;
        }

        if pgn0 == 0x1A && pgn1 == 0xF0 && frame_len == 16 {
            self.decode_bbst(BankId::Bank1, frame)
        } else if pgn0 == 0x24 && pgn1 == 0xF0 && frame_len == 16 {
            self.decode_bbst(BankId::Bank2, frame)
        } else if pgn0 == 0x2E && pgn1 == 0xF0 && frame_len == 16 {
            self.decode_bbst(BankId::Bank3, frame)
        } else if pgn0 == 0x02 && pgn1 == 0xF0 && frame_len == 16 {
            self.decode_version_info(frame)
        } else if pgn0 == 0xFF && pgn1 == 0xFF && frame_len == 8 {
            TbsPg::Heartbeat
        } else if pgn0 == 0x18 && pgn1 == 0xF0 && frame_len == 16 {
            self.decode_bbdc(BankId::Bank1, frame)
        } else if pgn0 == 0x22 && pgn1 == 0xF0 && frame_len == 16 {
            self.decode_bbdc(BankId::Bank2, frame)
        } else if pgn0 == 0x2C && pgn1 == 0xF0 && frame_len == 16 {
            self.decode_bbdc(BankId::Bank3, frame)
        } else if pgn0 == 0x19 && pgn1 == 0xF0 && frame_len == 16 {
            self.decode_bbpc(BankId::Bank1, frame)
        } else if pgn0 == 0x23 && pgn1 == 0xF0 && frame_len == 16 {
            self.decode_bbpc(BankId::Bank2, frame)
        } else if pgn0 == 0x2D && pgn1 == 0xF0 && frame_len == 16 {
            self.decode_bbpc(BankId::Bank3, frame)
        } else if pgn0 == 0x1E && pgn1 == 0xF0 && frame_len == 16 {
            self.decode_bbcs(BankId::Bank1, &frame)
        } else if pgn0 == 0x28 && pgn1 == 0xF0 && frame_len == 16 {
            self.decode_bbcs(BankId::Bank2, &frame)
        } else if pgn0 == 0x32 && pgn1 == 0xF0 && frame_len == 16 {
            self.decode_bbcs(BankId::Bank3, &frame)
        } else if pgn0 == 0x20 && pgn1 == 0xF0 && frame_len == 16 {
            self.decode_bbbs(BankId::Bank1, frame)
        } else if pgn0 == 0x2A && pgn1 == 0xF0 && frame_len == 16 {
            self.decode_bbbs(BankId::Bank2, frame)
        } else if pgn0 == 0x34 && pgn1 == 0xF0 && frame_len == 16 {
            self.decode_bbbs(BankId::Bank3, frame)
        } else if pgn0 == 0x00 && pgn1 == 0xEE && frame_len == 16 {
            self.decode_address_claimed(frame)
        } else if pgn0 == 0x00 && pgn1 == 0xE8 && frame_len == 16 {
            self.decode_acknowledgement(frame)
        } else if pgn0 == 0x00 && pgn1 == 0xF0 && frame_len == 40 {
            self.decode_device_name(frame)
        } else if pgn0 == 0x0E && pgn1 == 0xF0 && frame_len == 16 {
            self.decode_operating_mode(frame)
        } else {
            TbsPg::Unknown
        }
    }

    /// The checksum the device computes over a frame: the 8-bit wrapping sum
    /// of every byte but the leading delimiter and the two trailing bytes,
    /// negated. Frames shorter than 8 bytes have no checksum.
    pub fn calculate_checksum(&self, frame: &Frame) -> (checksum: Option<u8>)
        ensures
            frame@.len() < 8 ==> checksum is None,
            frame@.len() >= 8 ==> checksum == Some(
                checksum_of(frame@.subrange(1, frame@.len() - 2)) as u8,
            ),
    {
        let n = frame.0.len();
        if n < 8 {
            return None;
        }
        let ghost range = frame@.subrange(1, frame@.len() - 2);
        let mut sum: u8 = 0;
        let mut i: usize = 1;
        while i < n - 2
            invariant
                8 <= n == frame@.len(),
                1 <= i <= n - 2,
                range == frame@.subrange(1, frame@.len() - 2),
                sum == wrap_sum(range.subrange(0, i - 1)),
            decreases n - i,
        {
            let ghost prefix = range.subrange(0, i - 1);
            sum = sum.wrapping_add(frame.0[i]);
            proof {
                let longer = range.subrange(0, i as int);
                assert(longer.drop_last() =~= prefix);
                assert(longer.last() == range[i - 1] == frame@[i as int]);
            }
            i = i + 1;
        }
        proof {
            assert(range.subrange(0, range.len() as int) =~= range);
        }
        if sum == 0 {
            Some(0)
        } else {
            Some(255 - sum + 1)
        }
    }

    /// Decodes a bank status frame into the per-bank status message.
    fn decode_bbst(&self, bank_id: BankId, frame: Frame) -> (message: TbsPg)
        requires
            frame@.len() == 16,
        ensures
            message@ == (match bank_id {
                BankId::Bank1 => PgModel::Bb1st(spec_bank_status(frame@)),
                BankId::Bank2 => PgModel::Bb2st(spec_bank_status(frame@)),
                BankId::Bank3 => PgModel::Bb3st(spec_bank_status(frame@)),
            }),
    {
        let soc_raw = frame.0[8] as u16 + frame.0[9] as u16 * 256;
        let soc = if soc_raw == 65535 {
            StateOfCharge::Unavailable
        } else if soc_raw == 65533 {
            StateOfCharge::Initializing
        } else {
            StateOfCharge::ChargePercentage(soc_raw)
        };
        let soh_raw = frame.0[10] as u16 + frame.0[11] as u16 * 256;
        let soh = if soh_raw == 65535 {
            StateOfHealth::Unavailable
        } else if soh_raw == 65533 {
            StateOfHealth::Initializing
        } else {
            StateOfHealth::HealthPercentage(soh_raw)
        };
        let time_raw = frame.0[12] as u16 + frame.0[13] as u16 * 256;
        let time_remaining = if time_raw == 65535 {
            RemainingTime::Unavailable
        } else if time_raw == 65533 {
            RemainingTime::Charging
        } else {
            RemainingTime::Minutes(time_raw)
        };
        let bank_status = BankStatus {
            state_of_charge: soc,
            state_of_health: soh,
            time_remaining,
        };
        match bank_id {
            BankId::Bank1 => TbsPg::Bb1st(bank_status),
            BankId::Bank2 => TbsPg::Bb2st(bank_status),
            BankId::Bank3 => TbsPg::Bb3st(bank_status),
        }
    }

    /// Decodes a charge state frame into the per-bank charge state message.
    fn decode_bbcs(&self, bank_id: BankId, frame: &Frame) -> (message: TbsPg)
        requires
            frame@.len() == 16,
        ensures
            message@ == (match bank_id {
                BankId::Bank1 => PgModel::Bb1cs(spec_charge_state(frame@)),
                BankId::Bank2 => PgModel::Bb2cs(spec_charge_state(frame@)),
                BankId::Bank3 => PgModel::Bb3cs(spec_charge_state(frame@)),
            }),
    {
        let charge_stage = ChargeStage::from_u8(frame.0[8]);
        let indicator_flags = frame.0[9];
        let indicator_0_49 = IndicatorState::from_u8(indicator_flags & 0b11);
        let indicator_50_79 = IndicatorState::from_u8((indicator_flags >> 2) & 0b11);
        let indicator_80_99 = IndicatorState::from_u8((indicator_flags >> 4) & 0b11);
        let indicator_100 = IndicatorState::from_u8((indicator_flags >> 6) & 0b11);
        let charge_state = ChargeState {
            stage: charge_stage,
            indicator_0_49,
            indicator_50_79,
            indicator_80_99,
            indicator_100,
        };
        match bank_id {
            BankId::Bank1 => TbsPg::Bb1cs(charge_state),
            BankId::Bank2 => TbsPg::Bb2cs(charge_state),
            BankId::Bank3 => TbsPg::Bb3cs(charge_state),
        }
    }

    /// Decodes a power-and-charge frame into the per-bank power message.
    fn decode_bbpc(&self, bank_id: BankId, frame: Frame) -> (message: TbsPg)
        requires
            frame@.len() == 16,
        ensures
            message@ == (match bank_id {
                BankId::Bank1 => PgModel::Bb1pc(spec_power_and_charge(frame@)),
                BankId::Bank2 => PgModel::Bb2pc(spec_power_and_charge(frame@)),
                BankId::Bank3 => PgModel::Bb3pc(spec_power_and_charge(frame@)),
            }),
    {
        let power: u32 = 16777216 * frame.0[8] as u32 + 65536 * frame.0[9] as u32 + 256
            * frame.0[10] as u32;
        let power = if power != 0x00FFFFFF {
            Some(power)
        } else {
            None
        };
        let charge: u32 = 16777216 * frame.0[11] as u32 + 65536 * frame.0[12] as u32 + 256
            * frame.0[13] as u32;
        let charge = if charge != 0x00FFFFFF {
            Some(charge)
        } else {
            None
        };
        let power_and_charge = PowerAndCharge { power, consumed_amp_hours: charge };
        match bank_id {
            BankId::Bank1 => TbsPg::Bb1pc(power_and_charge),
            BankId::Bank2 => TbsPg::Bb2pc(power_and_charge),
            BankId::Bank3 => TbsPg::Bb3pc(power_and_charge),
        }
    }

    /// Splits one version word into major, minor and maintenance digits.
    fn convert_version(&self, version: u16) -> (converted: Version)
        ensures
            converted == spec_version(version as int),
    {
        Version {
            major: (version / 100) as u32,
            minor: ((version / 10) % 10) as u8,
            maintenance: (version % 10) as u8,
        }
    }

    /// Decodes a version info frame.
    fn decode_version_info(&self, frame: Frame) -> (message: TbsPg)
        requires
            frame@.len() == 16,
        ensures
            message@ == PgModel::VersionInfo(spec_version_info(frame@)),
    {
        let firmware_version = frame.0[6] as u16 + frame.0[7] as u16 * 256;
        let hardware_version = frame.0[8] as u16 + frame.0[9] as u16 * 256;
        let bootloader_version = frame.0[8] as u16 + frame.0[9] as u16 * 256;
        let auxiliary_version = frame.0[10] as u16 + frame.0[11] as u16 * 256;
        TbsPg::VersionInfo(
            VersionInfo {
                firmware_version: self.convert_version(firmware_version),
                hardware_version: self.convert_version(hardware_version),
                bootloader_version: self.convert_version(bootloader_version),
                auxiliary_version: self.convert_version(auxiliary_version),
            },
        )
    }

    /// Decodes a basic quantities frame into the per-bank message.
    fn decode_bbdc(&self, bank: BankId, frame: Frame) -> (message: TbsPg)
        requires
            frame@.len() == 16,
        ensures
            message@ == (match bank {
                BankId::Bank1 => PgModel::Bb1dc(spec_basic_quantities(frame@)),
                BankId::Bank2 => PgModel::Bb2dc(spec_basic_quantities(frame@)),
                BankId::Bank3 => PgModel::Bb3dc(spec_basic_quantities(frame@)),
            }),
    {
        let voltage_raw = frame.0[8] as u16 + frame.0[9] as u16 * 256;
        let voltage = if voltage_raw == 0xFFFF {
            None
        } else {
            Some(voltage_raw)
        };
        let current = if frame.0[10] == 0xFF && frame.0[11] == 0xFF && frame.0[12] == 0xFF {
            None
        } else {
            Some(
                frame.0[10] as u32 + 256 * frame.0[11] as u32 + 65536 * frame.0[12] as u32,
            )
        };
        let temperature = if frame.0[13] == 0xFE {
            Temperature::NoSensorDetected
        } else if frame.0[13] == 0xFF {
            Temperature::Unavailable
        } else {
            Temperature::DegreesCelsius(frame.0[13])
        };
        let quantities = BasicQuantities { voltage, current, temperature };
        match bank {
            BankId::Bank1 => TbsPg::Bb1dc(quantities),
            BankId::Bank2 => TbsPg::Bb2dc(quantities),
            BankId::Bank3 => TbsPg::Bb3dc(quantities),
        }
    }

    /// Decodes a basic setup frame into the per-bank setup message.
    fn decode_bbbs(&self, bank: BankId, frame: Frame) -> (message: TbsPg)
        requires
            frame@.len() == 16,
        ensures
            message@ == (match bank {
                BankId::Bank1 => PgModel::Bb1bs(spec_basic_setup(frame@)),
                BankId::Bank2 => PgModel::Bb2bs(spec_basic_setup(frame@)),
                BankId::Bank3 => PgModel::Bb3bs(spec_basic_setup(frame@)),
            }),
    {
        let enable_bits = frame.0[6] & 0b11;
        let bank_enable = if enable_bits == 0 {
            BankEnable::Disabled
        } else if enable_bits == 1 {
            BankEnable::Enabled
        } else {
            BankEnable::ParameterUnavailable
        };
        let battery_type_raw = frame.0[8] as u16 + frame.0[9] as u16 * 256;
        let battery_type = if battery_type_raw == 2000 {
            BatteryType::Flooded
        } else if battery_type_raw == 3000 {
            BatteryType::Gel
        } else if battery_type_raw == 3200 {
            BatteryType::AGM
        } else if battery_type_raw == 5000 {
            BatteryType::LiFePo4
        } else {
            BatteryType::ParameterNotAvailable
        };
        let bank_capacity_raw = frame.0[10] as u16 + frame.0[11] as u16 * 256;
        let bank_capacity = if bank_capacity_raw == 0xFFFF {
            BankCapacity::ParameterNotAvailable
        } else {
            BankCapacity::CapacityAh(bank_capacity_raw)
        };
        let bank_name = BankName::from_u8(frame.0[13]);
        let basic_setup = BasicSetup { bank_enable, bank_name, bank_capacity, battery_type };
        match bank {
            BankId::Bank1 => TbsPg::Bb1bs(basic_setup),
            BankId::Bank2 => TbsPg::Bb2bs(basic_setup),
            BankId::Bank3 => TbsPg::Bb3bs(basic_setup),
        }
    }

    /// Decodes an address claimed frame.
    fn decode_address_claimed(&self, frame: Frame) -> (message: TbsPg)
        requires
            frame@.len() == 16,
        ensures
            message@ == PgModel::AddressClaimed(spec_address_claimed(frame@)),
    {
        let device_id_raw = frame.0[12] as u16 + frame.0[13] as u16 * 256;
        let device_id = if device_id_raw != 0x0A24 {
            DeviceId::Unknown
        } else {
            DeviceId::ExpertModular
        };
        let brand_id = if frame.0[11] != 0x32 {
            BrandId::Unknown
        } else {
            BrandId::TbsElectronics
        };
        let serial: u32 = frame.0[6] as u32 + 256 * frame.0[7] as u32 + 65536
            * frame.0[8] as u32 + 16777216 * frame.0[9] as u32;
        let serial_number = if serial == 0 {
            0
        } else {
            0xFFFFFFFF - serial + 1
        };
        TbsPg::AddressClaimed(AddressClaimed { device_id, brand_id, serial_number })
    }

    /// Decodes an acknowledgement frame.
    fn decode_acknowledgement(&self, frame: Frame) -> (message: TbsPg)
        requires
            frame@.len() == 16,
        ensures
            message@ == PgModel::Acknowledgement(spec_acknowledgement(frame@)),
    {
        let ack_type = AcknowledgementType::from_u8(frame.0[6]);
        let pgn = frame.0[12] as u16 + frame.0[13] as u16 * 256;
        TbsPg::Acknowledgement(Acknowledgement { ack_type, pgn })
    }

    /// Decodes a device name frame: the 32 name bytes from offset 6.
    fn decode_device_name(&self, frame: Frame) -> (message: TbsPg)
        requires
            frame@.len() == 40,
        ensures
            message@ == PgModel::DeviceName(frame@.subrange(6, 38)),
    {
        let mut name: Vec<u8> = Vec::new();
        let mut i: usize = 6;
        proof {
            assert(name@ =~= frame@.subrange(6, 6));
        }
        while i < 38
            invariant
                6 <= i <= 38,
                frame@.len() == 40,
                name@ == frame@.subrange(6, i as int),
            decreases 38 - i,
        {
            name.push(frame.0[i]);
            proof {
                assert(frame@.subrange(6, i as int + 1) =~= frame@.subrange(6, i as int).push(
                    frame@[i as int],
                ));
            }
            i = i + 1;
        }
        TbsPg::DeviceName(DeviceName { name })
    }

    /// Decodes an operating mode status frame.
    fn decode_operating_mode(&self, frame: Frame) -> (message: TbsPg)
        requires
            frame@.len() == 16,
        ensures
            message@ == PgModel::OperatingModeStatus(spec_operating_mode_status(frame@)),
    {
        let mode = OperatingMode::from_u8(frame.0[6]);
        let lock_flag = frame.0[9] >> 6;
        let installer_lock = if lock_flag == 0 {
            InstallerLock::InstallerLockOff
        } else if lock_flag == 1 {
            InstallerLock::InstallerLockOn
        } else {
            InstallerLock::ParameterNotAvailable
        };
        TbsPg::OperatingModeStatus(OperatingModeStatus { mode, installer_lock })
    }
}

/// A frame the decoder accepts names its own checksum: whenever decoding
/// yields anything but the unknown message, the byte before the trailing
/// delimiter equals the two's-complement of the 8-bit wrapping sum of the
/// summed range.
pub proof fn lemma_decoded_implies_checksum(s: Seq<u8>)
    requires
        spec_decode(s) != PgModel::Unknown,
    ensures
        s.len() >= 8,
        s[s.len() - 2] == checksum_of(s.subrange(1, s.len() - 2)),
{
}

/// Decoding is referentially transparent: equal frame bytes decode to the
/// same message.
pub proof fn lemma_decode_deterministic(frame1: Seq<u8>, frame2: Seq<u8>)
    requires
        frame1 == frame2,
    ensures
        spec_decode(frame1) == spec_decode(frame2),
{
}

} // verus!
