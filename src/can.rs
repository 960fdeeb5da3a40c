//! Generic CAN types: identifiers and frames.
use vstd::prelude::*;
use core::cmp::Ordering;
use vstd::std_specs::cmp::PartialOrdSpec;
use crate::error::Error;

verus! {

/// Largest 11-bit identifier.
pub const STANDARD_ID_MAX: u32 = 0x7ff;

/// Largest 29-bit identifier.
pub const EXTENDED_ID_MAX: u32 = 0x1fff_ffff;

/// Arbitration identifier of a CAN frame.
#[derive(Copy, Clone, Debug, PartialEq, Eq, Structural, Hash)]
pub enum Identifier {
    Standard(u32),
    Extended(u32),
}

/// Bus priority order: standard identifiers by value, every extended
/// identifier after every standard one, extended identifiers by value.
pub open spec fn identifier_order(a: Identifier, b: Identifier) -> Ordering {
    match (a, b) {
        (Identifier::Standard(x), Identifier::Standard(y)) => int_order(x as int, y as int),
        (Identifier::Extended(x), Identifier::Extended(y)) => int_order(x as int, y as int),
        (Identifier::Standard(_), Identifier::Extended(_)) => Ordering::Less,
        (Identifier::Extended(_), Identifier::Standard(_)) => Ordering::Greater,
    }
}

pub open spec fn int_order(x: int, y: int) -> Ordering {
    if x < y {
        Ordering::Less
    } else if x == y {
        Ordering::Equal
    } else {
        Ordering::Greater
    }
}

fn u32_order(x: u32, y: u32) -> (r: Ordering)
    ensures
        r == int_order(x as int, y as int),
{
    if x < y {
        Ordering::Less
    } else if x == y {
        Ordering::Equal
    } else {
        Ordering::Greater
    }
}

impl PartialOrd for Identifier {
    fn partial_cmp(&self, other: &Identifier) -> (r: Option<Ordering>) {
        match (self, other) {
            (Identifier::Standard(x), Identifier::Standard(y)) => Some(u32_order(*x, *y)),
            (Identifier::Extended(x), Identifier::Extended(y)) => Some(u32_order(*x, *y)),
            (Identifier::Standard(_), Identifier::Extended(_)) => Some(Ordering::Less),
            (Identifier::Extended(_), Identifier::Standard(_)) => Some(Ordering::Greater),
        }
    }
}

impl vstd::std_specs::cmp::PartialOrdSpecImpl for Identifier {
    open spec fn obeys_partial_cmp_spec() -> bool {
        true
    }

    open spec fn partial_cmp_spec(&self, other: &Identifier) -> Option<Ordering> {
        Some(identifier_order(*self, *other))
    }
}

/// Standard identifiers are ordered by value; an extended identifier is
/// ordered after every standard identifier.
pub proof fn lemma_identifier_order(a: u32, b: u32, c: u32)
    ensures
        (Identifier::Standard(a).partial_cmp_spec(&Identifier::Standard(b)) == Some(Ordering::Less))
            <==> a < b,
        Identifier::Extended(c).partial_cmp_spec(&Identifier::Standard(a)) == Some(
            Ordering::Greater,
        ),
        Identifier::Standard(a).partial_cmp_spec(&Identifier::Extended(c)) == Some(Ordering::Less),
{
}

impl Identifier {
    /// The numeric identifier, without its kind.
    pub open spec fn raw_spec(self) -> u32 {
        match self {
            Identifier::Standard(id) => id,
            Identifier::Extended(id) => id,
        }
    }

    /// The identifier fits in its 11 or 29 bits.
    pub open spec fn is_valid(self) -> bool {
        match self {
            Identifier::Standard(id) => id <= STANDARD_ID_MAX,
            Identifier::Extended(id) => id <= EXTENDED_ID_MAX,
        }
    }

    pub fn is_standard(&self) -> (r: bool)
        ensures
            r <==> self is Standard,
    {
        match self {
            Identifier::Standard(_) => true,
            Identifier::Extended(_) => false,
        }
    }

    pub fn is_extended(&self) -> (r: bool)
        ensures
            r <==> self is Extended,
    {
        !self.is_standard()
    }

    /// The numeric identifier, without its kind.
    pub fn raw(&self) -> (r: u32)
        ensures
            r == self.raw_spec(),
    {
        match self {
            Identifier::Standard(id) => *id,
            Identifier::Extended(id) => *id,
        }
    }

    /// Whether the identifier fits in its 11 or 29 bits.
    pub fn valid(&self) -> (r: bool)
        ensures
            r == self.is_valid(),
    {
        match self {
            Identifier::Standard(id) => *id <= STANDARD_ID_MAX,
            Identifier::Extended(id) => *id <= EXTENDED_ID_MAX,
        }
    }
}

/// Identifiers up to 0x7ff are standard, larger ones extended.
pub open spec fn identifier_of(id: u32) -> Identifier {
    if id <= STANDARD_ID_MAX {
        Identifier::Standard(id)
    } else {
        Identifier::Extended(id)
    }
}

impl From<u32> for Identifier {
    fn from(id: u32) -> (r: Identifier) {
        if id <= STANDARD_ID_MAX {
            Identifier::Standard(id)
        } else {
            Identifier::Extended(id)
        }
    }
}

impl vstd::std_specs::convert::FromSpecImpl<u32> for Identifier {
    open spec fn obeys_from_spec() -> bool {
        true
    }

    open spec fn from_spec(id: u32) -> Identifier {
        identifier_of(id)
    }
}

impl From<Identifier> for u32 {
    fn from(id: Identifier) -> (r: u32) {
        id.raw()
    }
}

impl vstd::std_specs::convert::FromSpecImpl<Identifier> for u32 {
    open spec fn obeys_from_spec() -> bool {
        true
    }

    open spec fn from_spec(id: Identifier) -> u32 {
        id.raw_spec()
    }
}

/// Payload lengths that a data length code can express:
/// 0 to 8, 12, 16, 20, 24, 32, 48 and 64.
pub open spec fn is_dlc_len(n: int) -> bool {
    (0 <= n <= 8) || n == 12 || n == 16 || n == 20 || n == 24 || n == 32 || n == 48 || n == 64
}

/// Payload length for a data length code (0..=15).
pub open spec fn dlc_to_len_spec(dlc: int) -> int {
    if dlc <= 8 {
        dlc
    } else if dlc == 9 {
        12
    } else if dlc == 10 {
        16
    } else if dlc == 11 {
        20
    } else if dlc == 12 {
        24
    } else if dlc == 13 {
        32
    } else if dlc == 14 {
        48
    } else {
        64
    }
}

/// Smallest valid payload length not below `n` (for `n <= 64`).
pub open spec fn next_dlc_len(n: int) -> int {
    if n <= 8 {
        n
    } else if n <= 12 {
        12
    } else if n <= 16 {
        16
    } else if n <= 20 {
        20
    } else if n <= 24 {
        24
    } else if n <= 32 {
        32
    } else if n <= 48 {
        48
    } else {
        64
    }
}

/// Whether `n` is a payload length that a data length code can express.
pub fn is_valid_dlc_len(n: usize) -> (r: bool)
    ensures
        r == is_dlc_len(n as int),
{
    n <= 8 || n == 12 || n == 16 || n == 20 || n == 24 || n == 32 || n == 48 || n == 64
}

/// Payload length for a data length code.
pub fn dlc_to_len(dlc: u8) -> (r: usize)
    requires
        dlc <= 15,
    ensures
        r as int == dlc_to_len_spec(dlc as int),
        is_dlc_len(r as int),
{
    if dlc <= 8 {
        dlc as usize
    } else if dlc == 9 {
        12
    } else if dlc == 10 {
        16
    } else if dlc == 11 {
        20
    } else if dlc == 12 {
        24
    } else if dlc == 13 {
        32
    } else if dlc == 14 {
        48
    } else {
        64
    }
}

/// Data length code of a valid payload length.
pub open spec fn len_to_dlc_spec(len: int) -> u8 {
    if len <= 8 {
        len as u8
    } else if len == 12 {
        9
    } else if len == 16 {
        10
    } else if len == 20 {
        11
    } else if len == 24 {
        12
    } else if len == 32 {
        13
    } else if len == 48 {
        14
    } else {
        15
    }
}

/// Data length code of a valid payload length.
pub fn len_to_dlc(len: usize) -> (r: u8)
    requires
        is_dlc_len(len as int),
    ensures
        r <= 15,
        r == len_to_dlc_spec(len as int),
        dlc_to_len_spec(r as int) == len as int,
{
    if len <= 8 {
        len as u8
    } else if len == 12 {
        9
    } else if len == 16 {
        10
    } else if len == 20 {
        11
    } else if len == 24 {
        12
    } else if len == 32 {
        13
    } else if len == 48 {
        14
    } else {
        15
    }
}

/// Smallest valid payload length not below `n`.
pub fn next_valid_dlc_len(n: usize) -> (r: usize)
    requires
        n <= 64,
    ensures
        r as int == next_dlc_len(n as int),
        is_dlc_len(r as int),
        r >= n,
{
    if n <= 8 {
        n
    } else if n <= 12 {
        12
    } else if n <= 16 {
        16
    } else if n <= 20 {
        20
    } else if n <= 24 {
        24
    } else if n <= 32 {
        32
    } else if n <= 48 {
        48
    } else {
        64
    }
}

/// A CAN or CAN-FD frame.
#[derive(Clone, Debug)]
pub struct Frame {
    /// The bus index for adapters with several CAN buses.
    pub bus: u8,
    /// Arbitration identifier.
    pub id: Identifier,
    /// Payload.
    pub data: Vec<u8>,
    /// The frame was sent by this host and echoed back by the hardware.
    pub loopback: bool,
    /// CAN-FD framing.
    pub fd: bool,
}

/// Two frames are equal when all fields but `loopback` are.
pub open spec fn same_frame(a: Frame, b: Frame) -> bool {
    a.bus == b.bus && a.id == b.id && a.data@ == b.data@ && a.fd == b.fd
}

/// Byte-wise equality of two slices.
pub fn bytes_equal(a: &[u8], b: &[u8]) -> (r: bool)
    ensures
        r <==> a@ == b@,
{
    if a.len() != b.len() {
        return false;
    }
    let mut i: usize = 0;
    while i < a.len()
        invariant
            a@.len() == b@.len(),
            i <= a@.len(),
            a@.subrange(0, i as int) == b@.subrange(0, i as int),
        decreases a@.len() - i,
    {
        if a[i] != b[i] {
            assert(a@[i as int] != b@[i as int]);
            return false;
        }
        assert(a@.subrange(0, i + 1) == a@.subrange(0, i as int).push(a@[i as int]));
        assert(b@.subrange(0, i + 1) == b@.subrange(0, i as int).push(b@[i as int]));
        i += 1;
    }
    assert(a@ == a@.subrange(0, a@.len() as int));
    assert(b@ == b@.subrange(0, b@.len() as int));
    true
}

impl PartialEq for Frame {
    fn eq(&self, other: &Frame) -> (r: bool) {
        self.bus == other.bus && self.id == other.id && self.fd == other.fd && bytes_equal(
            self.data.as_slice(),
            other.data.as_slice(),
        )
    }
}

impl vstd::std_specs::cmp::PartialEqSpecImpl for Frame {
    open spec fn obeys_eq_spec() -> bool {
        true
    }

    open spec fn eq_spec(&self, other: &Frame) -> bool {
        same_frame(*self, *other)
    }
}

/// Copies a byte slice into a new vector.
pub fn copy_bytes(s: &[u8]) -> (r: Vec<u8>)
    ensures
        r@ == s@,
{
    let mut v: Vec<u8> = Vec::with_capacity(s.len());
    let mut i: usize = 0;
    while i < s.len()
        invariant
            i <= s@.len(),
            v@ == s@.subrange(0, i as int),
        decreases s@.len() - i,
    {
        v.push(s[i]);
        assert(s@.subrange(0, i + 1) == s@.subrange(0, i as int).push(s@[i as int]));
        i += 1;
    }
    assert(s@ == s@.subrange(0, s@.len() as int));
    v
}

impl Frame {
    /// Builds a received-style frame (`loopback == false`). The payload
    /// length must be a valid data length and the identifier must fit in its
    /// bits; CAN-FD framing is used exactly when the payload exceeds 8 bytes.
    pub fn new(bus: u8, id: Identifier, data: &[u8]) -> (r: Result<Frame, Error>)
        ensures
            r is Ok <==> (is_dlc_len(data@.len() as int) && id.is_valid()),
            r is Err ==> r == Err::<Frame, Error>(Error::MalformedFrame),
            r matches Ok(f) ==> {
                &&& f.bus == bus
                &&& f.id == id
                &&& f.data@ == data@
                &&& !f.loopback
                &&& f.fd == (data@.len() > 8)
            },
    {
        if !is_valid_dlc_len(data.len()) || !id.valid() {
            return Err(Error::MalformedFrame);
        }
        Ok(Frame { bus, id, data: copy_bytes(data), loopback: false, fd: data.len() > 8 })
    }

    /// A copy of the frame with the `loopback` flag set to `loopback`.
    pub fn with_loopback(&self, loopback: bool) -> (r: Frame)
        ensures
            same_frame(r, *self),
            r.loopback == loopback,
    {
        Frame {
            bus: self.bus,
            id: self.id,
            data: copy_bytes(self.data.as_slice()),
            loopback,
            fd: self.fd,
        }
    }
}

} // verus!
