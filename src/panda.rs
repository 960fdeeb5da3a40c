//! comma.ai panda: hardware constants and the USB bulk packet codec.
use vstd::prelude::*;

pub mod usb_protocol;

verus! {

/// Panda hardware types.
#[derive(Debug, PartialEq, Eq, Structural, Copy, Clone)]
pub enum HwType {
    Unknown,
    WhitePanda,
    GreyPanda,
    BlackPanda,
    Pedal,
    Uno,
    Dos,
    RedPanda,
    RedPandaV2,
    Tres,
    Quatro,
}

pub open spec fn hw_type_spec(b: u8) -> Option<HwType> {
    if b == 0x0 {
        Some(HwType::Unknown)
    } else if b == 0x1 {
        Some(HwType::WhitePanda)
    } else if b == 0x2 {
        Some(HwType::GreyPanda)
    } else if b == 0x3 {
        Some(HwType::BlackPanda)
    } else if b == 0x4 {
        Some(HwType::Pedal)
    } else if b == 0x5 {
        Some(HwType::Uno)
    } else if b == 0x6 {
        Some(HwType::Dos)
    } else if b == 0x7 {
        Some(HwType::RedPanda)
    } else if b == 0x8 {
        Some(HwType::RedPandaV2)
    } else if b == 0x9 {
        Some(HwType::Tres)
    } else if b == 0x10 {
        Some(HwType::Quatro)
    } else {
        None
    }
}

impl HwType {
    /// The hardware type the panda reports with this byte.
    pub fn from_repr(b: u8) -> (r: Option<HwType>)
        ensures
            r == hw_type_spec(b),
    {
        if b == 0x0 {
            Some(HwType::Unknown)
        } else if b == 0x1 {
            Some(HwType::WhitePanda)
        } else if b == 0x2 {
            Some(HwType::GreyPanda)
        } else if b == 0x3 {
            Some(HwType::BlackPanda)
        } else if b == 0x4 {
            Some(HwType::Pedal)
        } else if b == 0x5 {
            Some(HwType::Uno)
        } else if b == 0x6 {
            Some(HwType::Dos)
        } else if b == 0x7 {
            Some(HwType::RedPanda)
        } else if b == 0x8 {
            Some(HwType::RedPandaV2)
        } else if b == 0x9 {
            Some(HwType::Tres)
        } else if b == 0x10 {
            Some(HwType::Quatro)
        } else {
            None
        }
    }

    /// Whether this hardware type speaks CAN-FD.
    pub fn is_fd(&self) -> (r: bool)
        ensures
            r <==> (*self == HwType::RedPanda || *self == HwType::RedPandaV2 || *self == HwType::Tres
                || *self == HwType::Quatro),
    {
        match self {
            HwType::RedPanda | HwType::RedPandaV2 | HwType::Tres | HwType::Quatro => true,
            _ => false,
        }
    }
}

/// USB control and bulk endpoints of the panda.
#[derive(Debug, PartialEq, Eq, Structural, Copy, Clone)]
pub enum Endpoint {
    CanWrite,
    HwType,
    SafetyModel,
    CanSpeed,
    CanDataSpeed,
    CanResetCommunications,
    CanRead,
    PacketsVersions,
    PowerSave,
    CanFDAuto,
    HeartbeatDisabled,
}

impl Endpoint {
    /// The endpoint's request number.
    pub open spec fn spec_value(self) -> u8 {
        match self {
            Endpoint::CanWrite => 0x3,
            Endpoint::HwType => 0xc1,
            Endpoint::SafetyModel => 0xdc,
            Endpoint::CanSpeed => 0xde,
            Endpoint::CanDataSpeed => 0xf9,
            Endpoint::CanResetCommunications => 0xc0,
            Endpoint::CanRead => 0x81,
            Endpoint::PacketsVersions => 0xdd,
            Endpoint::PowerSave => 0xe7,
            Endpoint::CanFDAuto => 0xe8,
            Endpoint::HeartbeatDisabled => 0xf8,
        }
    }

    /// The endpoint's request number.
    pub fn value(&self) -> (r: u8)
        ensures
            r == self.spec_value(),
    {
        match self {
            Endpoint::CanWrite => 0x3,
            Endpoint::HwType => 0xc1,
            Endpoint::SafetyModel => 0xdc,
            Endpoint::CanSpeed => 0xde,
            Endpoint::CanDataSpeed => 0xf9,
            Endpoint::CanResetCommunications => 0xc0,
            Endpoint::CanRead => 0x81,
            Endpoint::PacketsVersions => 0xdd,
            Endpoint::PowerSave => 0xe7,
            Endpoint::CanFDAuto => 0xe8,
            Endpoint::HeartbeatDisabled => 0xf8,
        }
    }
}

/// Safety models of the panda firmware.
#[derive(Debug, PartialEq, Eq, Structural, Copy, Clone)]
pub enum SafetyModel {
    Silent,
    AllOutput,
}

impl SafetyModel {
    /// The safety model's number.
    pub fn value(&self) -> (r: u16)
        ensures
            *self == SafetyModel::Silent ==> r == 0,
            *self == SafetyModel::AllOutput ==> r == 17,
    {
        match self {
            SafetyModel::Silent => 0,
            SafetyModel::AllOutput => 17,
        }
    }
}

/// Panda error kinds.
#[derive(Debug, PartialEq, Eq, Structural, Copy, Clone)]
pub enum Error {
    /// A CAN packet has an invalid checksum in its header.
    InvalidChecksum,
    /// The panda firmware is not the expected version.
    WrongFirmwareVersion,
    /// The panda reported an unknown hardware type.
    UnknownHwType,
}

} // verus!
