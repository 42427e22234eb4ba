//! The registers of the power-delivery sink controller: what their bytes
//! mean, and the bytes to write.

use vstd::prelude::*;
use vstd::string::StringSliceAdditionalSpecFns;
use crate::bytes::bytes_eq;

verus! {

/// The voltage that the source delivers.
#[derive(Clone, Copy, Debug, PartialEq, Eq, Structural)]
pub enum SrcVoltage {
    Unattached,
    PD5V,
    PD9V,
    PD12V,
    PD15V,
    PD18V,
    PD20V,
}

/// A current, from 0.5 A to 5 A.
#[derive(Clone, Copy, Debug, PartialEq, Eq, Structural)]
pub enum Current {
    PD0_50,
    PD0_70,
    PD1_00,
    PD1_25,
    PD1_50,
    PD1_75,
    PD2_00,
    PD2_25,
    PD2_50,
    PD2_75,
    PD3_00,
    PD3_25,
    PD3_50,
    PD4_00,
    PD4_50,
    PD5_00,
}

/// The current that a 5 V contract without power delivery allows.
#[derive(Clone, Copy, Debug, PartialEq, Eq, Structural)]
pub enum Current5V {
    Default,
    Current1_5,
    Current2_4,
    Current3_0,
}

/// How the source answered the last request.
#[derive(Clone, Copy, Debug, PartialEq, Eq, Structural)]
pub enum PdResponse {
    NoResponse,
    Success,
    InvalidCommand,
    CommandNotSupported,
    TransactionFailed,
}

/// A command for the controller.
#[derive(Clone, Copy, Debug, PartialEq, Eq, Structural)]
pub enum Command {
    RequestPdo,
    GetCapabilities,
    HardReset,
}

/// A voltage to request.
#[derive(Clone, Copy, Debug, PartialEq, Eq, Structural)]
pub enum PdoSelection {
    NotSelected,
    PDO5V,
    PDO9V,
    PDO12V,
    PDO15V,
    PDO18V,
    PDO20V,
}

/// A voltage whose availability is asked for.
#[derive(Clone, Copy, Debug, PartialEq, Eq, Structural)]
pub enum VoltageSelection {
    PD5V,
    PD9V,
    PD12V,
    PD15V,
    PD18V,
    PD20V,
}

/// The voltage that three bits stand for.
pub open spec fn src_voltage_of(bits: u8) -> Option<SrcVoltage> {
    if bits == 0 {
        Some(SrcVoltage::Unattached)
    } else if bits == 1 {
        Some(SrcVoltage::PD5V)
    } else if bits == 2 {
        Some(SrcVoltage::PD9V)
    } else if bits == 3 {
        Some(SrcVoltage::PD12V)
    } else if bits == 4 {
        Some(SrcVoltage::PD15V)
    } else if bits == 5 {
        Some(SrcVoltage::PD18V)
    } else if bits == 6 {
        Some(SrcVoltage::PD20V)
    } else {
        None
    }
}

/// The current that four bits stand for.
pub open spec fn current_of(bits: u8) -> Option<Current> {
    if bits == 0 {
        Some(Current::PD0_50)
    } else if bits == 1 {
        Some(Current::PD0_70)
    } else if bits == 2 {
        Some(Current::PD1_00)
    } else if bits == 3 {
        Some(Current::PD1_25)
    } else if bits == 4 {
        Some(Current::PD1_50)
    } else if bits == 5 {
        Some(Current::PD1_75)
    } else if bits == 6 {
        Some(Current::PD2_00)
    } else if bits == 7 {
        Some(Current::PD2_25)
    } else if bits == 8 {
        Some(Current::PD2_50)
    } else if bits == 9 {
        Some(Current::PD2_75)
    } else if bits == 10 {
        Some(Current::PD3_00)
    } else if bits == 11 {
        Some(Current::PD3_25)
    } else if bits == 12 {
        Some(Current::PD3_50)
    } else if bits == 13 {
        Some(Current::PD4_00)
    } else if bits == 14 {
        Some(Current::PD4_50)
    } else if bits == 15 {
        Some(Current::PD5_00)
    } else {
        None
    }
}

/// The 5 V current that two bits stand for.
pub open spec fn current_5v_of(bits: u8) -> Option<Current5V> {
    if bits == 0 {
        Some(Current5V::Default)
    } else if bits == 1 {
        Some(Current5V::Current1_5)
    } else if bits == 2 {
        Some(Current5V::Current2_4)
    } else if bits == 3 {
        Some(Current5V::Current3_0)
    } else {
        None
    }
}

/// The answer that three bits stand for.
pub open spec fn pd_response_of(bits: u8) -> Option<PdResponse> {
    if bits == 0 {
        Some(PdResponse::NoResponse)
    } else if bits == 1 {
        Some(PdResponse::Success)
    } else if bits == 3 {
        Some(PdResponse::InvalidCommand)
    } else if bits == 4 {
        Some(PdResponse::CommandNotSupported)
    } else if bits == 5 {
        Some(PdResponse::TransactionFailed)
    } else {
        None
    }
}

impl SrcVoltage {
    /// Reads a voltage off its bits.
    pub fn from_bits(bits: u8) -> (voltage: Option<Self>)
        ensures
            voltage == src_voltage_of(bits),
    {
        match bits {
            0 => Some(SrcVoltage::Unattached),
            1 => Some(SrcVoltage::PD5V),
            2 => Some(SrcVoltage::PD9V),
            3 => Some(SrcVoltage::PD12V),
            4 => Some(SrcVoltage::PD15V),
            5 => Some(SrcVoltage::PD18V),
            6 => Some(SrcVoltage::PD20V),
            _ => None,
        }
    }
}

impl Current {
    /// Reads a current off its bits.
    pub fn from_bits(bits: u8) -> (current: Option<Self>)
        ensures
            current == current_of(bits),
    {
        match bits {
            0 => Some(Current::PD0_50),
            1 => Some(Current::PD0_70),
            2 => Some(Current::PD1_00),
            3 => Some(Current::PD1_25),
            4 => Some(Current::PD1_50),
            5 => Some(Current::PD1_75),
            6 => Some(Current::PD2_00),
            7 => Some(Current::PD2_25),
            8 => Some(Current::PD2_50),
            9 => Some(Current::PD2_75),
            10 => Some(Current::PD3_00),
            11 => Some(Current::PD3_25),
            12 => Some(Current::PD3_50),
            13 => Some(Current::PD4_00),
            14 => Some(Current::PD4_50),
            15 => Some(Current::PD5_00),
            _ => None,
        }
    }
}

impl Current5V {
    /// Reads a 5 V current off its bits.
    pub fn from_bits(bits: u8) -> (current: Option<Self>)
        ensures
            current == current_5v_of(bits),
    {
        match bits {
            0 => Some(Current5V::Default),
            1 => Some(Current5V::Current1_5),
            2 => Some(Current5V::Current2_4),
            3 => Some(Current5V::Current3_0),
            _ => None,
        }
    }
}

impl PdResponse {
    /// Reads an answer off its bits.
    pub fn from_bits(bits: u8) -> (response: Option<Self>)
        ensures
            response == pd_response_of(bits),
    {
        match bits {
            0 => Some(PdResponse::NoResponse),
            1 => Some(PdResponse::Success),
            3 => Some(PdResponse::InvalidCommand),
            4 => Some(PdResponse::CommandNotSupported),
            5 => Some(PdResponse::TransactionFailed),
            _ => None,
        }
    }
}

impl Command {
    /// The bits of a command.
    pub open spec fn bits(self) -> u8 {
        match self {
            Command::RequestPdo => 1,
            Command::GetCapabilities => 4,
            Command::HardReset => 16,
        }
    }

    /// The byte to write to the command register: the command in the five
    /// low bits, the rest clear.
    pub fn register_value(self) -> (value: u8)
        ensures
            value == self.bits(),
    {
        match self {
            Command::RequestPdo => 1,
            Command::GetCapabilities => 4,
            Command::HardReset => 16,
        }
    }
}

/// The register that reports on the selected contract.
pub const PD_STATUS0_ADDR: u8 = 0;

/// The register that reports on the attachment.
pub const PD_STATUS1_ADDR: u8 = 1;

/// The register that selects a voltage.
pub const SRC_PDO_ADDR: u8 = 8;

/// The register that takes commands.
pub const GO_COMMAND_ADDR: u8 = 9;

impl VoltageSelection {
    /// The register that reports whether this voltage is on offer.
    pub open spec fn status_register(self) -> u8 {
        match self {
            VoltageSelection::PD5V => 2,
            VoltageSelection::PD9V => 3,
            VoltageSelection::PD12V => 4,
            VoltageSelection::PD15V => 5,
            VoltageSelection::PD18V => 6,
            VoltageSelection::PD20V => 7,
        }
    }

    /// The register that reports whether this voltage is on offer.
    pub fn register(self) -> (address: u8)
        ensures
            address == self.status_register(),
    {
        match self {
            VoltageSelection::PD5V => 2,
            VoltageSelection::PD9V => 3,
            VoltageSelection::PD12V => 4,
            VoltageSelection::PD15V => 5,
            VoltageSelection::PD18V => 6,
            VoltageSelection::PD20V => 7,
        }
    }
}

/// What the two status registers report.
#[derive(Clone, Copy, Debug, PartialEq, Eq, Structural)]
pub struct Status {
    pub selected_voltage: SrcVoltage,
    pub selected_current: Current,
    pub attached: bool,
    pub cc2_attached: bool,
    pub pd_response: PdResponse,
    pub current_5v: Option<Current5V>,
}

/// The currents on offer at each voltage.
#[derive(Clone, Copy, Debug, PartialEq, Eq, Structural)]
pub struct Capabilities {
    pub pdo_5v: Option<Current>,
    pub pdo_9v: Option<Current>,
    pub pdo_12v: Option<Current>,
    pub pdo_15v: Option<Current>,
    pub pdo_18v: Option<Current>,
    pub pdo_20v: Option<Current>,
}

/// What the two status registers report. The first holds the current in
/// bits 0 to 3 and the voltage in bits 4 to 6. The second holds the 5 V
/// current in bits 0 and 1, whether the contract is a 5 V one in bit 2,
/// the source's answer in bits 3 to 5, the attachment in bit 6 and its
/// orientation in bit 7. Nothing where a field holds bits that stand for
/// no value.
pub open spec fn status_of(status0: u8, status1: u8) -> Option<Status> {
    match (
        src_voltage_of((status0 >> 4) & 7),
        current_of(status0 & 15),
        pd_response_of((status1 >> 3) & 7),
        current_5v_of(status1 & 3),
    ) {
        (Some(selected_voltage), Some(selected_current), Some(pd_response), Some(current_5v)) => Some(
            Status {
                selected_voltage,
                selected_current,
                attached: (status1 >> 6) & 1 == 1,
                cc2_attached: (status1 >> 7) & 1 == 1,
                pd_response,
                current_5v: if (status1 >> 2) & 1 == 1 {
                    Some(current_5v)
                } else {
                    None
                },
            },
        ),
        _ => None,
    }
}

impl Status {
    /// Reads the status off the bytes of the two status registers.
    pub fn decode(status0: u8, status1: u8) -> (status: Option<Status>)
        ensures
            status == status_of(status0, status1),
    {
        let selected_voltage = match SrcVoltage::from_bits((status0 >> 4) & 7) {
            Some(voltage) => voltage,
            None => {
                return None;
            },
        };
        let selected_current = match Current::from_bits(status0 & 15) {
            Some(current) => current,
            None => {
                return None;
            },
        };
        let pd_response = match PdResponse::from_bits((status1 >> 3) & 7) {
            Some(response) => response,
            None => {
                return None;
            },
        };
        let current_5v = match Current5V::from_bits(status1 & 3) {
            Some(current) => current,
            None => {
                return None;
            },
        };
        Some(
            Status {
                selected_voltage,
                selected_current,
                attached: (status1 >> 6) & 1 == 1,
                cc2_attached: (status1 >> 7) & 1 == 1,
                pd_response,
                current_5v: if (status1 >> 2) & 1 == 1 {
                    Some(current_5v)
                } else {
                    None
                },
            },
        )
    }
}

/// The current on offer that a voltage's status register reports: bit 7
/// says whether the voltage is on offer, bits 0 to 3 hold the current.
pub open spec fn offer_of(status: u8) -> Option<Current> {
    if (status >> 7) & 1 == 1 {
        current_of(status & 15)
    } else {
        None
    }
}

/// Reads the current on offer off a voltage's status register.
pub fn decode_offer(status: u8) -> (offer: Option<Current>)
    ensures
        offer == offer_of(status),
{
    if (status >> 7) & 1 == 1 {
        Current::from_bits(status & 15)
    } else {
        None
    }
}

/// The voltage that a name selects: `5V`, `9V` or `12V`, the `V` in either
/// case.
pub open spec fn selection_of(select: Seq<u8>) -> Option<PdoSelection> {
    if select == "5V".spec_bytes() || select == "5v".spec_bytes() {
        Some(PdoSelection::PDO5V)
    } else if select == "9V".spec_bytes() || select == "9v".spec_bytes() {
        Some(PdoSelection::PDO9V)
    } else if select == "12V".spec_bytes() || select == "12v".spec_bytes() {
        Some(PdoSelection::PDO12V)
    } else {
        None
    }
}

/// Reads the voltage that a name selects.
pub fn parse_selection(select: &[u8]) -> (selection: Option<PdoSelection>)
    ensures
        selection == selection_of(select@),
{
    if bytes_eq(select, "5V".as_bytes()) || bytes_eq(select, "5v".as_bytes()) {
        Some(PdoSelection::PDO5V)
    } else if bytes_eq(select, "9V".as_bytes()) || bytes_eq(select, "9v".as_bytes()) {
        Some(PdoSelection::PDO9V)
    } else if bytes_eq(select, "12V".as_bytes()) || bytes_eq(select, "12v".as_bytes()) {
        Some(PdoSelection::PDO12V)
    } else {
        None
    }
}

} // verus!
