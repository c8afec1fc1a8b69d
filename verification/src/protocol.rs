//! This module defines known enums, structs, and implementations related to
//! the protocol for the TBS battery monitors and chargers.
//!
//! Fields whose on-wire encoding is a scaled fixed-point number are kept
//! here as the raw integer read from the wire; the scaling into physical
//! units (volts, amperes, degrees) is presentation and is left to the
//! caller. Protocol-reserved sentinel encodings (not available,
//! initializing, ...) are modeled as distinct variants, never as magic
//! numbers.

use vstd::prelude::*;

verus! {

/// Represents the different stages of charging, used in the
/// [charge state](ChargeState) message.
#[derive(Debug, Clone, Copy, PartialEq, Eq)]
pub enum ChargeStage {
    Waiting,
    SoftStart,
    Bulk,
    ExtendedBulk,
    Absorption,
    Analyze,
    Float,
    Pulse,
    Equalize,
    Stop,
    Error,
    Unavailable,
    Unknown,
}

/// Represents the state of an indicator.
#[derive(Debug, Clone, Copy, PartialEq, Eq)]
pub enum IndicatorState {
    On,
    Off,
    Blinking,
    NotAvailable,
}

/// Represents the state of charge including indicators for ranges of charge
/// levels.
#[derive(Debug, Clone, Copy, PartialEq, Eq)]
pub struct ChargeState {
    pub stage: ChargeStage,
    pub indicator_0_49: IndicatorState,
    pub indicator_50_79: IndicatorState,
    pub indicator_80_99: IndicatorState,
    pub indicator_100: IndicatorState,
}

/// Represents the remaining time for charging or other operations, used in
/// the [bank status](BankStatus) message.
#[derive(Debug, Clone, Copy, PartialEq, Eq)]
pub enum RemainingTime {
    Minutes(u16),
    Charging,
    Unavailable,
}

/// Represents the state of health of the battery, used in the
/// [bank status](BankStatus) message. The percentage is carried as the raw
/// on-wire value, one hundred times the percentage.
#[derive(Debug, Clone, Copy, PartialEq, Eq)]
pub enum StateOfHealth {
    HealthPercentage(u16),
    Unavailable,
    Initializing,
}

/// Represents the state of charge of the battery, used in the
/// [bank status](BankStatus) message. The percentage is carried as the raw
/// on-wire value, one hundred times the percentage.
#[derive(Debug, Clone, Copy, PartialEq, Eq)]
pub enum StateOfCharge {
    ChargePercentage(u16),
    Unavailable,
    Initializing,
}

/// Represents the status of a battery bank.
#[derive(Debug, Clone, Copy, PartialEq, Eq)]
pub struct BankStatus {
    pub state_of_charge: StateOfCharge,
    pub state_of_health: StateOfHealth,
    // in minutes, not available when charging.
    pub time_remaining: RemainingTime,
}

/// Represents the version information of firmware, hardware, bootloader, and
/// auxiliary components, used in the [version info](VersionInfo) message.
#[derive(Debug, Clone, Copy, PartialEq, Eq)]
pub struct Version {
    pub major: u32,
    pub minor: u8,
    pub maintenance: u8,
}

/// Contains version information for firmware, hardware, bootloader, and
/// auxiliary components.
#[derive(Debug, Clone, Copy, PartialEq, Eq)]
pub struct VersionInfo {
    pub firmware_version: Version,
    pub hardware_version: Version,
    pub bootloader_version: Version,
    pub auxiliary_version: Version,
}

/// Represents the temperature, used in the [basic quantities]
/// (BasicQuantities) message. The raw on-wire byte encodes half degrees
/// Celsius offset by 40 degrees.
#[derive(Debug, Clone, Copy, PartialEq, Eq)]
pub enum Temperature {
    DegreesCelsius(u8),
    Unavailable,
    NoSensorDetected,
}

/// Represents so called "basic quantities" such as voltage, current, and
/// temperature. The voltage is the raw on-wire value in hundredths of a
/// volt; the current is the raw 24-bit on-wire value in hundredths of an
/// ampere offset by 80000 amperes.
#[derive(Debug, Clone, Copy, PartialEq, Eq)]
pub struct BasicQuantities {
    pub voltage: Option<u16>,
    pub current: Option<u32>,
    pub temperature: Temperature,
}

/// Represents power and charge information. Both fields hold the raw
/// big-endian 24-bit on-wire value shifted into the high bytes of a 32-bit
/// word: the power in tenths of a watt offset by 80000 watts, the consumed
/// charge in hundredths of an ampere-hour offset by 80000 ampere-hours.
#[derive(Debug, Clone, Copy, PartialEq, Eq)]
pub struct PowerAndCharge {
    pub power: Option<u32>,
    pub consumed_amp_hours: Option<u32>,
}

/// Represents the device ID, used in the [address claimed](AddressClaimed)
/// message.
#[derive(Debug, Clone, Copy, PartialEq, Eq)]
pub enum DeviceId {
    ExpertModular,
    Unknown,
}

/// Represents the brand ID, used in the [address claimed](AddressClaimed)
/// message.
#[derive(Debug, Clone, Copy, PartialEq, Eq)]
pub enum BrandId {
    TbsElectronics,
    Unknown,
}

/// Represents the address claimed by a device.
#[derive(Debug, Clone, Copy, PartialEq, Eq)]
pub struct AddressClaimed {
    pub device_id: DeviceId,
    pub brand_id: BrandId,
    pub serial_number: u32,
}

/// Represents the enablement state of a bank, used in the
/// [basic setup](BasicSetup) message.
#[derive(Debug, Clone, Copy, PartialEq, Eq)]
pub enum BankEnable {
    Disabled,
    Enabled,
    ParameterUnavailable,
}

/// Represents the chosen name of a battery bank, as configured by the user.
#[derive(Debug, Clone, Copy, PartialEq, Eq)]
pub enum BankName {
    BatteryBank1,
    BatteryBank2,
    BatteryBank3,
    MainBatteryBank,
    AuxiliaryBatteryBank,
    AuxiliaryBatteryBank1,
    AuxiliaryBatteryBank2,
    PrimaryBatteryBank,
    SecondaryBatteryBank,
    StarterBattery,
    ServiceBatteryBank,
    AccessoryBatteryBank,
    HouseBatteryBank,
    PortBattery,
    StarboardBatteryBank,
    PowerBatteryBank,
    GeneratorStarterBattery,
    BowThrusterBattery,
    RadioBattery,
    VehicleBattery,
    TrailerBattery,
    DrivetrainBattery,
    BrakeBattery,
    SolarBattery,
    OtherBattery,
    ParameterNotAvailable,
}

/// Represents the capacity of a bank in ampere-hours.
#[derive(Debug, Clone, Copy, PartialEq, Eq)]
pub enum BankCapacity {
    CapacityAh(u16),
    ParameterNotAvailable,
}

/// Represents the type of battery.
#[derive(Debug, Clone, Copy, PartialEq, Eq)]
pub enum BatteryType {
    Flooded,
    Gel,
    AGM,
    LiFePo4,
    ParameterNotAvailable,
}

/// Represents the basic setup of a battery bank, whether it is enabled or
/// not, its name (from [BankName]), and the battery type, from
/// [BatteryType].
#[derive(Debug, Clone, Copy, PartialEq, Eq)]
pub struct BasicSetup {
    pub bank_enable: BankEnable,
    pub bank_name: BankName,
    pub bank_capacity: BankCapacity,
    pub battery_type: BatteryType,
}

/// Represents the type of acknowledgement, used in the
/// [acknowledgement](Acknowledgement) message.
#[derive(Debug, Clone, Copy, PartialEq, Eq)]
pub enum AcknowledgementType {
    PositiveAcknowledgement,
    NegativeAcknowledgement,
    AccessDenied,
    CannotRespond,
    Reserved,
}

/// Represents an acknowledgement message, received when a request for a PGN
/// was sent.
#[derive(Debug, Clone, Copy, PartialEq, Eq)]
pub struct Acknowledgement {
    pub ack_type: AcknowledgementType,
    pub pgn: u16,
}

/// Represents the name of a device, as null-terminated string of 32 bytes.
#[derive(Debug, Clone, PartialEq, Eq)]
pub struct DeviceName {
    pub name: Vec<u8>,
}

/// Represents the operating mode of a device, used in the
/// [operating mode status](OperatingModeStatus).
#[derive(Debug, Clone, Copy, PartialEq, Eq)]
pub enum OperatingMode {
    DeviceOff,
    DeviceBooting,
    DeviceWaitingForSlaves,
    DeviceWaitingForMaster,
    DeviceOn,
    DeviceOnNightMode,
    DeviceInError,
    ParameterNotAvailable,
}

/// Represents the installer lock state, used in the
/// [operating mode status](OperatingModeStatus).
#[derive(Debug, Clone, Copy, PartialEq, Eq)]
pub enum InstallerLock {
    InstallerLockOff,
    InstallerLockOn,
    ParameterNotAvailable,
}

/// Operating mode status of a device.
#[derive(Debug, Clone, Copy, PartialEq, Eq)]
pub struct OperatingModeStatus {
    pub mode: OperatingMode,
    pub installer_lock: InstallerLock,
}

/// TBS protocol messages.
#[derive(Debug, Clone, PartialEq, Eq)]
pub enum TbsPg {
    Bb1dc(BasicQuantities),
    Bb2dc(BasicQuantities),
    Bb3dc(BasicQuantities),
    Bb1pc(PowerAndCharge),
    Bb2pc(PowerAndCharge),
    Bb3pc(PowerAndCharge),
    Bb1st(BankStatus),
    Bb2st(BankStatus),
    Bb3st(BankStatus),
    Bb1cs(ChargeState),
    Bb2cs(ChargeState),
    Bb3cs(ChargeState),
    Bb1bs(BasicSetup),
    Bb2bs(BasicSetup),
    Bb3bs(BasicSetup),
    AddressClaimed(AddressClaimed),
    VersionInfo(VersionInfo),
    Heartbeat,
    Acknowledgement(Acknowledgement),
    DeviceName(DeviceName),
    OperatingModeStatus(OperatingModeStatus),
    Unknown,
}

/// Mathematical model of a decoded protocol message. It mirrors [`TbsPg`]
/// variant by variant; the only difference is that a device name is modeled
/// as the byte sequence it carries.
pub enum PgModel {
    Bb1dc(BasicQuantities),
    Bb2dc(BasicQuantities),
    Bb3dc(BasicQuantities),
    Bb1pc(PowerAndCharge),
    Bb2pc(PowerAndCharge),
    Bb3pc(PowerAndCharge),
    Bb1st(BankStatus),
    Bb2st(BankStatus),
    Bb3st(BankStatus),
    Bb1cs(ChargeState),
    Bb2cs(ChargeState),
    Bb3cs(ChargeState),
    Bb1bs(BasicSetup),
    Bb2bs(BasicSetup),
    Bb3bs(BasicSetup),
    AddressClaimed(AddressClaimed),
    VersionInfo(VersionInfo),
    Heartbeat,
    Acknowledgement(Acknowledgement),
    DeviceName(Seq<u8>),
    OperatingModeStatus(OperatingModeStatus),
    Unknown,
}

impl View for TbsPg {
    type V = PgModel;

    open spec fn view(&self) -> PgModel {
        match self {
            TbsPg::Bb1dc(q) => PgModel::Bb1dc(*q),
            TbsPg::Bb2dc(q) => PgModel::Bb2dc(*q),
            TbsPg::Bb3dc(q) => PgModel::Bb3dc(*q),
            TbsPg::Bb1pc(p) => PgModel::Bb1pc(*p),
            TbsPg::Bb2pc(p) => PgModel::Bb2pc(*p),
            TbsPg::Bb3pc(p) => PgModel::Bb3pc(*p),
            TbsPg::Bb1st(s) => PgModel::Bb1st(*s),
            TbsPg::Bb2st(s) => PgModel::Bb2st(*s),
            TbsPg::Bb3st(s) => PgModel::Bb3st(*s),
            TbsPg::Bb1cs(c) => PgModel::Bb1cs(*c),
            TbsPg::Bb2cs(c) => PgModel::Bb2cs(*c),
            TbsPg::Bb3cs(c) => PgModel::Bb3cs(*c),
            TbsPg::Bb1bs(b) => PgModel::Bb1bs(*b),
            TbsPg::Bb2bs(b) => PgModel::Bb2bs(*b),
            TbsPg::Bb3bs(b) => PgModel::Bb3bs(*b),
            TbsPg::AddressClaimed(a) => PgModel::AddressClaimed(*a),
            TbsPg::VersionInfo(v) => PgModel::VersionInfo(*v),
            TbsPg::Heartbeat => PgModel::Heartbeat,
            TbsPg::Acknowledgement(a) => PgModel::Acknowledgement(*a),
            TbsPg::DeviceName(d) => PgModel::DeviceName(d.name@),
            TbsPg::OperatingModeStatus(o) => PgModel::OperatingModeStatus(*o),
            TbsPg::Unknown => PgModel::Unknown,
        }
    }
}

} // verus!
