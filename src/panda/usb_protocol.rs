//! Packet format of the panda's CAN bulk endpoints.
//!
//! Each packet is a 6-byte header followed by the payload:
//! byte 0 holds the data length code (high nibble) and the bus (bits 1..3);
//! bytes 1..4 hold, little-endian, the identifier shifted left by 3, the
//! extended flag (bit 2) and the returned flag (bit 1); byte 5 is a checksum
//! that makes the XOR of header and payload zero.
use vstd::prelude::*;
use crate::can::{
    Frame, Identifier, is_dlc_len, dlc_to_len, dlc_to_len_spec, is_valid_dlc_len, len_to_dlc,
    len_to_dlc_spec,
};
use crate::error::Error;
use crate::isotp::codec::{push_all, slice_to_vec};

verus! {

pub const CANPACKET_HEAD_SIZE: usize = 6;
/// A bulk transfer chunk is closed once it grows past this many bytes.
pub const CANPACKET_MAX_CHUNK_SIZE: usize = 256;

/// XOR of all bytes.
pub open spec fn xor_all(s: Seq<u8>) -> u8
    decreases s.len(),
{
    if s.len() == 0 {
        0
    } else {
        xor_all(s.drop_last()) ^ s.last()
    }
}

/// XOR of all bytes.
pub fn calculate_checksum(dat: &[u8]) -> (r: u8)
    ensures
        r == xor_all(dat@),
{
    let mut acc: u8 = 0;
    let mut i: usize = 0;
    while i < dat.len()
        invariant
            i <= dat@.len(),
            acc == xor_all(dat@.take(i as int)),
        decreases dat@.len() - i,
    {
        assert(dat@.take(i + 1).drop_last() =~= dat@.take(i as int));
        acc = acc ^ dat[i];
        i += 1;
    }
    assert(dat@.take(dat@.len() as int) =~= dat@);
    acc
}

/// A frame the packet format can carry.
pub open spec fn packable(f: Frame) -> bool {
    is_dlc_len(f.data@.len() as int) && f.id.is_valid() && f.bus <= 7
}

/// Identifier, extended flag: the header's 32-bit word.
pub open spec fn header_word(f: Frame) -> u32 {
    (f.id.raw_spec() << 3u32) | ((if f.id is Extended { 1u32 } else { 0u32 }) << 2u32)
}

pub open spec fn header_bytes(f: Frame) -> Seq<u8> {
    let w = header_word(f);
    seq![
        ((len_to_dlc_spec(f.data@.len() as int) << 4u8) | (f.bus << 1u8)) as u8,
        (w & 0xff) as u8,
        ((w >> 8u32) & 0xff) as u8,
        ((w >> 16u32) & 0xff) as u8,
        ((w >> 24u32) & 0xff) as u8
    ]
}

/// Header, checksum, payload.
pub open spec fn packet_bytes(f: Frame) -> Seq<u8> {
    header_bytes(f) + seq![xor_all(header_bytes(f)) ^ xor_all(f.data@)] + f.data@
}

/// Appends a packet to the open chunk, and opens a new chunk once the open
/// one is longer than the chunk size.
pub open spec fn add_packet(chunks: Seq<Seq<u8>>, p: Seq<u8>) -> Seq<Seq<u8>> {
    let last = chunks.last() + p;
    let next = chunks.drop_last().push(last);
    if last.len() > CANPACKET_MAX_CHUNK_SIZE {
        next.push(Seq::empty())
    } else {
        next
    }
}

/// The bulk chunks that carry `frames`.
pub open spec fn chunked(frames: Seq<Frame>) -> Seq<Seq<u8>>
    decreases frames.len(),
{
    if frames.len() == 0 {
        seq![Seq::empty()]
    } else {
        add_packet(chunked(frames.drop_last()), packet_bytes(frames.last()))
    }
}

pub open spec fn chunks_view(v: Seq<Vec<u8>>) -> Seq<Seq<u8>> {
    v.map_values(|c: Vec<u8>| c@)
}

/// Packs frames into bulk chunks. Fails with `MalformedFrame` when a frame
/// has an invalid payload length, an identifier too large for its kind, or a
/// bus above 7.
pub fn pack_can_buffer(frames: &[Frame]) -> (r: Result<Vec<Vec<u8>>, Error>)
    ensures
        r is Ok <==> forall|i: int| 0 <= i < frames@.len() ==> packable(#[trigger] frames@[i]),
        r is Err ==> r == Err::<Vec<Vec<u8>>, Error>(Error::MalformedFrame),
        r matches Ok(v) ==> chunks_view(v@) == chunked(frames@),
{
    let mut done: Vec<Vec<u8>> = Vec::new();
    let mut cur: Vec<u8> = Vec::new();
    let mut i: usize = 0;
    proof {
        assert(frames@.take(0) =~= Seq::<Frame>::empty());
        assert(chunks_view(done@).push(cur@) =~= chunked(frames@.take(0)));
    }
    while i < frames.len()
        invariant
            i <= frames@.len(),
            forall|j: int| 0 <= j < i ==> packable(#[trigger] frames@[j]),
            chunks_view(done@).push(cur@) == chunked(frames@.take(i as int)),
        decreases frames@.len() - i,
    {
        let f = &frames[i];
        if !is_valid_dlc_len(f.data.len()) || !f.id.valid() || f.bus > 7 {
            assert(!packable(frames@[i as int]));
            return Err(Error::MalformedFrame);
        }
        let dlc = len_to_dlc(f.data.len());
        let ext: u32 = if f.id.is_extended() { 1 } else { 0 };
        let w: u32 = (f.id.raw() << 3u32) | (ext << 2u32);
        let mut header: Vec<u8> = Vec::new();
        header.push(((dlc << 4u8) | (f.bus << 1u8)) as u8);
        header.push((w & 0xff) as u8);
        header.push(((w >> 8u32) & 0xff) as u8);
        header.push(((w >> 16u32) & 0xff) as u8);
        header.push(((w >> 24u32) & 0xff) as u8);
        assert(header@ =~= header_bytes(*f));
        let checksum = calculate_checksum(header.as_slice()) ^ calculate_checksum(f.data.as_slice());
        let ghost before = cur@;
        push_all(&mut cur, header.as_slice());
        cur.push(checksum);
        push_all(&mut cur, f.data.as_slice());
        proof {
            assert(cur@ =~= before + packet_bytes(*f));
            assert(frames@.take(i + 1).drop_last() =~= frames@.take(i as int));
            assert(frames@.take(i + 1).last() == *f);
        }
        if cur.len() > CANPACKET_MAX_CHUNK_SIZE {
            let mut full: Vec<u8> = Vec::new();
            std::mem::swap(&mut full, &mut cur);
            done.push(full);
            proof {
                assert(cur@ =~= Seq::<u8>::empty());
                assert(chunks_view(done@).push(cur@) =~= chunked(frames@.take(i + 1)));
            }
        } else {
            proof {
                assert(chunks_view(done@).push(cur@) =~= chunked(frames@.take(i + 1)));
            }
        }
        i += 1;
    }
    assert(frames@.take(frames@.len() as int) =~= frames@);
    done.push(cur);
    assert(chunks_view(done@) =~= chunked(frames@));
    Ok(done)
}

/// What one decoded packet says: bus, identifier, payload, returned flag.
pub struct PacketModel {
    pub bus: u8,
    pub id: Identifier,
    pub data: Seq<u8>,
    pub loopback: bool,
}

pub open spec fn packet_bus(d: Seq<u8>) -> u8 {
    (d[0] >> 1u8) & 0x7
}

pub open spec fn packet_dlc(d: Seq<u8>) -> u8 {
    (d[0] >> 4u8) & 0xf
}

pub open spec fn packet_raw_id(d: Seq<u8>) -> u32 {
    (((d[4] as u32) << 24u32) | ((d[3] as u32) << 16u32) | ((d[2] as u32) << 8u32) | (d[1] as u32))
        >> 3u32
}

pub open spec fn packet_extended(d: Seq<u8>) -> bool {
    (d[1] & 0x4) != 0
}

pub open spec fn packet_returned(d: Seq<u8>) -> bool {
    (d[1] & 0x2) != 0
}

/// Decodes whole packets from the front of `d`: the error that stopped it,
/// if any, the packets decoded, and the bytes left (from the packet that
/// failed, or the incomplete tail).
pub open spec fn unpack_spec(d: Seq<u8>) -> (Option<Error>, Seq<PacketModel>, Seq<u8>)
    decreases d.len(),
{
    if d.len() < CANPACKET_HEAD_SIZE {
        (None, Seq::empty(), d)
    } else if packet_raw_id(d) > 0x7ff && !packet_extended(d) {
        (Some(Error::MalformedFrame), Seq::empty(), d)
    } else {
        let n = dlc_to_len_spec(packet_dlc(d) as int);
        if n > d.len() - CANPACKET_HEAD_SIZE {
            (None, Seq::empty(), d)
        } else if xor_all(d.take(CANPACKET_HEAD_SIZE + n)) != 0 {
            (Some(Error::PandaError(crate::panda::Error::InvalidChecksum)), Seq::empty(), d)
        } else {
            let id = if packet_extended(d) {
                Identifier::Extended(packet_raw_id(d))
            } else {
                Identifier::Standard(packet_raw_id(d))
            };
            let p = PacketModel {
                bus: packet_bus(d),
                id,
                data: d.subrange(CANPACKET_HEAD_SIZE as int, CANPACKET_HEAD_SIZE + n),
                loopback: packet_returned(d),
            };
            let rest = unpack_spec(d.skip(CANPACKET_HEAD_SIZE + n));
            (rest.0, seq![p] + rest.1, rest.2)
        }
    }
}

pub open spec fn frame_model(f: Frame) -> PacketModel {
    PacketModel { bus: f.bus, id: f.id, data: f.data@, loopback: f.loopback }
}

/// Decodes the whole packets at the front of `dat` and removes them from it;
/// an incomplete packet stays for the next read. A standard identifier
/// above 0x7ff fails with `MalformedFrame`, a bad checksum with
/// `InvalidChecksum`; `dat` then starts at the packet that failed. A frame
/// uses CAN-FD framing when its payload exceeds 8 bytes.
pub fn unpack_can_buffer(dat: &mut Vec<u8>) -> (r: Result<Vec<Frame>, Error>)
    ensures
        ({
            let u = unpack_spec(old(dat)@);
            &&& final(dat)@ == u.2
            &&& u.0 matches Some(e) ==> r == Err::<Vec<Frame>, Error>(e)
            &&& u.0 is None ==> (r matches Ok(v) && v@.map_values(|f: Frame| frame_model(f)) == u.1
                && forall|i: int| 0 <= i < v@.len() ==> (#[trigger] v@[i]).fd == (v@[i].data@.len() > 8))
        }),
{
    let ghost d0 = dat@;
    let mut out: Vec<Frame> = Vec::new();
    let mut pos: usize = 0;
    let mut failed: Option<Error> = None;
    proof {
        assert(d0.skip(0) =~= d0);
        let u = unpack_spec(d0);
        assert(out@.map_values(|f: Frame| frame_model(f)) + u.1 =~= u.1);
    }
    while dat.len() - pos >= CANPACKET_HEAD_SIZE
        invariant_except_break
            failed is None,
        invariant
            dat@ == d0,
            pos <= d0.len(),
            ({
                let u = unpack_spec(d0.skip(pos as int));
                unpack_spec(d0) == (u.0, out@.map_values(|f: Frame| frame_model(f)) + u.1, u.2)
            }),
            forall|i: int| 0 <= i < out@.len() ==> (#[trigger] out@[i]).fd == (out@[i].data@.len() > 8),
        ensures
            ({
                let u = unpack_spec(d0.skip(pos as int));
                &&& failed == u.0
                &&& u.1 == Seq::<PacketModel>::empty()
                &&& u.2 == d0.skip(pos as int)
            }),
        decreases d0.len() - pos,
    {
        let ghost d = d0.skip(pos as int);
        let b0 = dat[pos];
        let b1 = dat[pos + 1];
        let b2 = dat[pos + 2];
        let b3 = dat[pos + 3];
        let b4 = dat[pos + 4];
        assert(b0 == d[0] && b1 == d[1] && b2 == d[2] && b3 == d[3] && b4 == d[4]);
        let bus = (b0 >> 1u8) & 0x7;
        let dlc = (b0 >> 4u8) & 0xf;
        let raw = (((b4 as u32) << 24u32) | ((b3 as u32) << 16u32) | ((b2 as u32) << 8u32) | (b1
            as u32)) >> 3u32;
        let extended = (b1 & 0x4) != 0;
        let returned = (b1 & 0x2) != 0;
        if raw > 0x7ff && !extended {
            failed = Some(Error::MalformedFrame);
            break;
        }
        assert(dlc <= 15) by (bit_vector)
            requires dlc == (b0 >> 4u8) & 0xf;
        let n = dlc_to_len(dlc);
        if n > dat.len() - pos - CANPACKET_HEAD_SIZE {
            break;
        }
        let end = pos + CANPACKET_HEAD_SIZE + n;
        let whole = slice_to_vec(dat.as_slice(), pos, end);
        assert(whole@ =~= d.take(CANPACKET_HEAD_SIZE + n));
        if calculate_checksum(whole.as_slice()) != 0 {
            failed = Some(Error::PandaError(crate::panda::Error::InvalidChecksum));
            break;
        }
        let data = slice_to_vec(dat.as_slice(), pos + CANPACKET_HEAD_SIZE, end);
        assert(data@ =~= d.subrange(CANPACKET_HEAD_SIZE as int, CANPACKET_HEAD_SIZE + n));
        let id = if extended {
            Identifier::Extended(raw)
        } else {
            Identifier::Standard(raw)
        };
        let f = Frame { bus, id, data, loopback: returned, fd: n > 8 };
        let ghost before = out@.map_values(|f: Frame| frame_model(f));
        out.push(f);
        proof {
            assert(out@.map_values(|f: Frame| frame_model(f)) =~= before.push(frame_model(f)));
            assert(d.skip(CANPACKET_HEAD_SIZE + n) =~= d0.skip(end as int));
            let u = unpack_spec(d0.skip(end as int));
            assert(before + (seq![frame_model(f)] + u.1) =~= before.push(frame_model(f)) + u.1);
        }
        pos = end;
    }
    let rest = slice_to_vec(dat.as_slice(), pos, dat.len());
    assert(rest@ =~= d0.skip(pos as int));
    *dat = rest;
    match failed {
        Some(e) => Err(e),
        None => {
            assert(out@.map_values(|f: Frame| frame_model(f)) + Seq::<PacketModel>::empty() =~= out@.map_values(|f: Frame| frame_model(f)));
            Ok(out)
        },
    }
}

} // verus!
