//! Identifier encoding of Linux SocketCAN frames.
use vstd::prelude::*;
use crate::can::{Identifier, EXTENDED_ID_MAX, STANDARD_ID_MAX};

verus! {

/// Flag bit of an extended identifier in a `can_id`.
pub const CAN_EFF_FLAG: u32 = 0x8000_0000;

/// The `can_id` of an identifier: standard ids as they are, extended ids
/// with the flag bit set.
pub fn id_to_canid(id: Identifier) -> (r: u32)
    ensures
        id is Standard ==> r == id.raw_spec(),
        id is Extended ==> r == (id.raw_spec() | CAN_EFF_FLAG),
{
    match id {
        Identifier::Standard(v) => v,
        Identifier::Extended(v) => v | CAN_EFF_FLAG,
    }
}

/// The identifier of a `can_id`: extended when the flag bit is set (29 low
/// bits), else standard (11 low bits).
pub fn canid_to_id(can_id: u32) -> (r: Identifier)
    ensures
        (can_id & CAN_EFF_FLAG) != 0 ==> r == Identifier::Extended(can_id & EXTENDED_ID_MAX),
        (can_id & CAN_EFF_FLAG) == 0 ==> r == Identifier::Standard(can_id & STANDARD_ID_MAX),
        r.is_valid(),
{
    if (can_id & CAN_EFF_FLAG) != 0 {
        let v = can_id & EXTENDED_ID_MAX;
        assert(v <= EXTENDED_ID_MAX) by (bit_vector)
            requires v == can_id & 0x1fff_ffffu32;
        Identifier::Extended(v)
    } else {
        let v = can_id & STANDARD_ID_MAX;
        assert(v <= STANDARD_ID_MAX) by (bit_vector)
            requires v == can_id & 0x7ffu32;
        Identifier::Standard(v)
    }
}

} // verus!
