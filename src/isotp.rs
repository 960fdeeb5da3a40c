//! ISO Transport Protocol (ISO 15765-2): frame types, errors and the
//! endpoint configuration. Segmentation and reassembly are in `codec` and
//! `session`.
use vstd::prelude::*;
use std::time::Duration;
use crate::can::{Identifier, is_dlc_len};
use crate::time::{duration_of_micros, micros};

pub mod codec;
pub mod laws;
pub mod session;

verus! {

/// Receive identifier offset from the transmit identifier (standard ids).
pub const DEFAULT_OFFSET: u32 = 0x8;
/// Default inter-frame timeout, in microseconds.
pub const DEFAULT_TIMEOUT_US: u64 = 100_000;
/// Default padding byte.
pub const DEFAULT_PADDING_BYTE: u8 = 0xaa;
/// N_WFTmax: the most consecutive Wait flow controls a sender accepts.
pub const MAX_WAIT_FC: usize = 10;
/// Payload of a classic CAN frame.
pub const CAN_MAX_DLEN: usize = 8;
/// Payload of a CAN-FD frame.
pub const CAN_FD_MAX_DLEN: usize = 64;
/// Largest datagram with classic framing (12-bit length).
pub const ISO_TP_MAX_DLEN: usize = 0xfff;
/// Largest datagram with CAN-FD framing (32-bit length).
pub const ISO_TP_FD_MAX_DLEN: usize = 0xffff_ffff;
/// Selects the frame type in the first byte.
pub const FRAME_TYPE_MASK: u8 = 0xf0;
/// Selects the flow status in the first byte of a flow control.
pub const FLOW_STATUS_MASK: u8 = 0x0f;

/// ISO-TP frame types, by the high nibble of the first byte.
#[derive(Debug, PartialEq, Eq, Structural, Copy, Clone)]
pub enum FrameType {
    Single,
    First,
    Consecutive,
    FlowControl,
}

pub open spec fn frame_type_spec(b: u8) -> Option<FrameType> {
    if b == 0x00 {
        Some(FrameType::Single)
    } else if b == 0x10 {
        Some(FrameType::First)
    } else if b == 0x20 {
        Some(FrameType::Consecutive)
    } else if b == 0x30 {
        Some(FrameType::FlowControl)
    } else {
        None
    }
}

impl FrameType {
    /// The frame type with this value of the masked first byte.
    pub fn from_repr(b: u8) -> (r: Option<FrameType>)
        ensures
            r == frame_type_spec(b),
    {
        if b == 0x00 {
            Some(FrameType::Single)
        } else if b == 0x10 {
            Some(FrameType::First)
        } else if b == 0x20 {
            Some(FrameType::Consecutive)
        } else if b == 0x30 {
            Some(FrameType::FlowControl)
        } else {
            None
        }
    }

    /// The value of the masked first byte.
    pub fn repr(&self) -> (r: u8)
        ensures
            frame_type_spec(r) == Some(*self),
    {
        match self {
            FrameType::Single => 0x00,
            FrameType::First => 0x10,
            FrameType::Consecutive => 0x20,
            FrameType::FlowControl => 0x30,
        }
    }
}

/// Flow status of a flow control frame.
#[derive(Debug, PartialEq, Eq, Structural, Copy, Clone)]
pub enum FlowStatus {
    ContinueToSend,
    Wait,
    Overflow,
}

pub open spec fn flow_status_spec(b: u8) -> Option<FlowStatus> {
    if b == 0 {
        Some(FlowStatus::ContinueToSend)
    } else if b == 1 {
        Some(FlowStatus::Wait)
    } else if b == 2 {
        Some(FlowStatus::Overflow)
    } else {
        None
    }
}

impl FlowStatus {
    /// The flow status with this value of the low nibble.
    pub fn from_repr(b: u8) -> (r: Option<FlowStatus>)
        ensures
            r == flow_status_spec(b),
    {
        if b == 0 {
            Some(FlowStatus::ContinueToSend)
        } else if b == 1 {
            Some(FlowStatus::Wait)
        } else if b == 2 {
            Some(FlowStatus::Overflow)
        } else {
            None
        }
    }
}

/// ISO-TP error kinds.
#[derive(Debug, PartialEq, Eq, Structural, Copy, Clone)]
pub enum Error {
    DataTooLarge,
    FlowControl,
    Overflow,
    OutOfOrder,
    UnknownFrameType,
    MalformedFrame,
    TooManyFCWait,
}

/// STmin in microseconds for its encoding: 0x00..=0x7f whole milliseconds,
/// 0xf1..=0xf9 hundreds of microseconds; no other byte is an STmin.
pub open spec fn st_min_micros(b: u8) -> Option<u64> {
    if b <= 0x7f {
        Some(((b as u64) * 1000) as u64)
    } else if 0xf1 <= b <= 0xf9 {
        Some((((b - 0xf0) as u64) * 100) as u64)
    } else {
        None
    }
}

/// Block size and separation time requested by a flow control frame.
#[derive(Debug, Copy, Clone)]
pub struct FlowControlConfig {
    pub block_size: u8,
    pub separation_time_min: Duration,
}

impl FlowControlConfig {
    /// Reads block size (byte 1) and STmin (byte 2) of a flow control payload.
    /// Fails with `MalformedFrame` on a payload under 3 bytes or an STmin
    /// outside both encodings.
    pub fn try_from_payload(data: &[u8]) -> (r: Result<FlowControlConfig, Error>)
        ensures
            r is Ok <==> data@.len() >= 3 && st_min_micros(data@[2]) is Some,
            r is Err ==> r == Err::<FlowControlConfig, Error>(Error::MalformedFrame),
            r matches Ok(c) ==> c.block_size == data@[1] && c.separation_time_min
                == duration_of_micros(st_min_micros(data@[2])->0),
    {
        if data.len() < 3 {
            return Err(Error::MalformedFrame);
        }
        let block_size = data[1];
        let st = data[2];
        let us: u64 = if st <= 0x7f {
            (st as u64) * 1000
        } else if 0xf1 <= st && st <= 0xf9 {
            ((st - 0xf0) as u64) * 100
        } else {
            return Err(Error::MalformedFrame);
        };
        Ok(FlowControlConfig { block_size, separation_time_min: micros(us) })
    }
}

/// Receive identifier derived from a transmit identifier: standard ids add
/// 8; extended ids swap their two low bytes.
pub open spec fn default_rx(tx: Identifier) -> Identifier {
    match tx {
        Identifier::Standard(id) => Identifier::Standard((id + DEFAULT_OFFSET) as u32),
        Identifier::Extended(id) => Identifier::Extended(swap_low_bytes(id)),
    }
}

pub open spec fn swap_low_bytes(id: u32) -> u32 {
    (id & 0xffff_0000) | ((id & 0xff) << 8) | ((id >> 8) & 0xff)
}

/// Configuration of one ISO-TP endpoint.
#[derive(Debug, Clone, Copy)]
pub struct IsoTPConfig {
    pub bus_: u8,
    /// Transmit identifier.
    pub tx_: Identifier,
    /// Receive identifier.
    pub rx_: Identifier,
    /// Padding byte; `None` disables padding of classic CAN frames.
    pub padding_: Option<u8>,
    /// Longest gap allowed between received frames.
    pub timeout_: Duration,
    /// Overrides the STmin that the peer asks for.
    pub separation_time_min_: Option<Duration>,
    /// CAN-FD framing.
    pub fd_: bool,
    /// Extended addressing byte.
    pub ext_address_: Option<u8>,
    /// Per-frame data length; 8 (classic) or 64 (CAN-FD) when `None`.
    pub max_dlen_: Option<usize>,
}

/// A per-frame data length that the hardware can carry and that leaves
/// room for the longest header.
pub open spec fn max_dlen_ok(d: usize) -> bool {
    is_dlc_len(d as int) && d >= CAN_MAX_DLEN
}

impl IsoTPConfig {
    /// The per-frame data length override, if any, is a valid one.
    pub open spec fn wf(&self) -> bool {
        self.max_dlen_ matches Some(d) ==> max_dlen_ok(d)
    }

    /// Configuration with bus 0, identifiers `Standard(0)`, padding 0xAA, a
    /// 100 ms timeout, classic framing, no STmin override, no extended
    /// address and the default data length.
    pub fn default_config() -> (r: IsoTPConfig)
        ensures
            r.wf(),
            r.bus_ == 0,
            r.tx_ == Identifier::Standard(0),
            r.rx_ == Identifier::Standard(0),
            r.padding_ == Some(DEFAULT_PADDING_BYTE),
            r.timeout_ == duration_of_micros(DEFAULT_TIMEOUT_US),
            r.separation_time_min_ is None,
            !r.fd_,
            r.ext_address_ is None,
            r.max_dlen_ is None,
    {
        IsoTPConfig {
            bus_: 0,
            tx_: Identifier::Standard(0),
            rx_: Identifier::Standard(0),
            padding_: Some(DEFAULT_PADDING_BYTE),
            timeout_: micros(DEFAULT_TIMEOUT_US),
            separation_time_min_: None,
            fd_: false,
            ext_address_: None,
            max_dlen_: None,
        }
    }

    /// Default configuration on `bus`, transmitting on `id` and receiving on
    /// the identifier derived from it.
    pub fn new(bus: u8, id: Identifier) -> (r: IsoTPConfig)
        requires
            id is Standard ==> id.raw_spec() + DEFAULT_OFFSET <= u32::MAX,
        ensures
            r == (IsoTPConfig { bus_: bus, tx_: id, rx_: default_rx(id), ..IsoTPConfig::default_config_spec() }),
            r.wf(),
    {
        IsoTPConfig::default_config().bus(bus).tx(id)
    }

    pub open spec fn default_config_spec() -> IsoTPConfig {
        IsoTPConfig {
            bus_: 0,
            tx_: Identifier::Standard(0),
            rx_: Identifier::Standard(0),
            padding_: Some(DEFAULT_PADDING_BYTE),
            timeout_: duration_of_micros(DEFAULT_TIMEOUT_US),
            separation_time_min_: None,
            fd_: false,
            ext_address_: None,
            max_dlen_: None,
        }
    }

    pub fn bus(self, bus: u8) -> (r: Self)
        ensures
            r == (IsoTPConfig { bus_: bus, ..self }),
    {
        IsoTPConfig { bus_: bus, ..self }
    }

    /// Sets the transmit identifier and derives the receive identifier:
    /// standard ids add 8, extended ids swap their two low bytes.
    pub fn tx(self, id: Identifier) -> (r: Self)
        requires
            id is Standard ==> id.raw_spec() + DEFAULT_OFFSET <= u32::MAX,
        ensures
            r == (IsoTPConfig { tx_: id, rx_: default_rx(id), ..self }),
    {
        let rx = match id {
            Identifier::Standard(v) => Identifier::Standard(v + DEFAULT_OFFSET),
            Identifier::Extended(v) => {
                Identifier::Extended((v & 0xffff_0000) | ((v & 0xff) << 8) | ((v >> 8) & 0xff))
            },
        };
        IsoTPConfig { tx_: id, rx_: rx, ..self }
    }

    /// Receive identifier at `offset` from a standard transmit identifier.
    /// Extended identifiers take no offset.
    pub fn rx_offset(self, offset: u32) -> (r: Self)
        requires
            self.tx_ is Standard,
            self.tx_.raw_spec() + offset <= u32::MAX,
        ensures
            r == (IsoTPConfig { rx_: Identifier::Standard((self.tx_.raw_spec() + offset) as u32), ..self }),
    {
        let rx = match self.tx_ {
            Identifier::Standard(v) => Identifier::Standard(v + offset),
            Identifier::Extended(v) => Identifier::Extended(v),
        };
        IsoTPConfig { rx_: rx, ..self }
    }

    pub fn rx(self, id: Identifier) -> (r: Self)
        ensures
            r == (IsoTPConfig { rx_: id, ..self }),
    {
        IsoTPConfig { rx_: id, ..self }
    }

    pub fn padding(self, padding: Option<u8>) -> (r: Self)
        ensures
            r == (IsoTPConfig { padding_: padding, ..self }),
    {
        IsoTPConfig { padding_: padding, ..self }
    }

    pub fn timeout(self, timeout: Duration) -> (r: Self)
        ensures
            r == (IsoTPConfig { timeout_: timeout, ..self }),
    {
        IsoTPConfig { timeout_: timeout, ..self }
    }

    pub fn separation_time_min(self, separation_time_min: Option<Duration>) -> (r: Self)
        ensures
            r == (IsoTPConfig { separation_time_min_: separation_time_min, ..self }),
    {
        IsoTPConfig { separation_time_min_: separation_time_min, ..self }
    }

    pub fn fd(self, fd: bool) -> (r: Self)
        ensures
            r == (IsoTPConfig { fd_: fd, ..self }),
    {
        IsoTPConfig { fd_: fd, ..self }
    }

    pub fn ext_address(self, ext_address: Option<u8>) -> (r: Self)
        ensures
            r == (IsoTPConfig { ext_address_: ext_address, ..self }),
    {
        IsoTPConfig { ext_address_: ext_address, ..self }
    }

    /// Overrides the per-frame data length; it must be a valid data length of
    /// at least 8 bytes.
    pub fn max_dlen(self, max_dlen: Option<usize>) -> (r: Self)
        requires
            max_dlen matches Some(d) ==> max_dlen_ok(d),
        ensures
            r == (IsoTPConfig { max_dlen_: max_dlen, ..self }),
    {
        IsoTPConfig { max_dlen_: max_dlen, ..self }
    }
}

impl Default for IsoTPConfig {
    fn default() -> (r: IsoTPConfig)
        ensures
            r == IsoTPConfig::default_config_spec(),
    {
        IsoTPConfig::default_config()
    }
}

} // verus!
