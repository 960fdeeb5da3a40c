//! Round trip of segmentation and reassembly.
use vstd::prelude::*;
use crate::can::Frame;
use crate::isotp::{IsoTPConfig, CAN_MAX_DLEN};
use crate::isotp::codec::{
    addr_len, can_max_len, chunks, consecutive_chunks, consecutive_frame_bytes, first_chunk_len,
    first_frame_bytes, first_header, fits_single, max_data_len, max_datagram_len, multi_frame_bytes,
    padded, single_frame_bytes, single_header, with_address,
};
use crate::isotp::session::{
    RxOutcome, RxState, be32_value, first_length, is_segmentation, rx_idle, rx_step, single_payload,
};
use crate::isotp::codec::be32;

verus! {

/// The receiver's state and the outcome of the last frame after `frames`.
pub open spec fn rx_run(cfg: IsoTPConfig, s: RxState, frames: Seq<Seq<u8>>) -> (RxState, RxOutcome)
    decreases frames.len(),
{
    if frames.len() == 0 {
        (s, RxOutcome::Continue)
    } else if frames.len() == 1 {
        rx_step(cfg, s, frames[0])
    } else {
        rx_run(cfg, rx_step(cfg, s, frames[0]).0, frames.drop_first())
    }
}

/// Frame payloads of consecutive frames `k0, k0 + 1, ...` carrying `cs`.
pub open spec fn cf_frames(cfg: IsoTPConfig, k0: int, cs: Seq<Seq<u8>>) -> Seq<Seq<u8>> {
    Seq::new(cs.len(), |j: int| with_address(cfg, consecutive_frame_bytes(cfg, k0 + j, cs[j])))
}

proof fn lemma_with_address(cfg: IsoTPConfig, b: Seq<u8>)
    ensures
        with_address(cfg, b).len() == b.len() + addr_len(cfg),
        with_address(cfg, b).skip(addr_len(cfg)) == b,
{
    assert(with_address(cfg, b).skip(addr_len(cfg)) =~= b);
}

proof fn lemma_padded_prefix(cfg: IsoTPConfig, x: Seq<u8>)
    requires
        x.len() + addr_len(cfg) <= 64,
    ensures
        padded(cfg, x).len() >= x.len(),
        forall|i: int| 0 <= i < x.len() ==> padded(cfg, x)[i] == x[i],
        x.len() + addr_len(cfg) >= CAN_MAX_DLEN && crate::can::is_dlc_len(x.len() + addr_len(cfg))
            ==> padded(cfg, x) == x,
{
}

/// Consecutive frames with sequence numbers from `k0` carrying the chunks of
/// `rest` complete the datagram `prefix + rest`.
proof fn lemma_consecutive_run(cfg: IsoTPConfig, rcfg: IsoTPConfig, prefix: Seq<u8>, rest: Seq<u8>, k0: int)
    requires
        cfg.wf(),
        addr_len(rcfg) == addr_len(cfg),
        max_data_len(rcfg) == max_data_len(cfg),
        rest.len() > 0,
        k0 >= 1,
    ensures
        rx_run(
            rcfg,
            RxState { receiving: true, len: (prefix.len() + rest.len()) as int, buf: prefix, idx: k0 % 16 },
            cf_frames(cfg, k0, chunks(rest, max_data_len(cfg) - 1)),
        ) == (rx_idle(), RxOutcome::Complete(prefix + rest)),
    decreases rest.len(),
{
    let size = max_data_len(cfg) - 1;
    let cs = chunks(rest, size);
    let frames = cf_frames(cfg, k0, cs);
    let s = RxState { receiving: true, len: (prefix.len() + rest.len()) as int, buf: prefix, idx: k0 % 16 };
    let c = cs[0];
    let x = seq![(0x20 + k0 % 16) as u8] + c;
    let b = consecutive_frame_bytes(cfg, k0, c);
    assert(size >= 6);
    if rest.len() <= size {
        assert(cs == seq![rest]);
        assert(c == rest);
    } else {
        assert(cs == seq![rest.take(size)] + chunks(rest.skip(size), size));
        assert(c == rest.take(size));
    }
    assert(c.len() <= size);
    lemma_padded_prefix(cfg, x);
    lemma_with_address(cfg, b);
    assert(frames[0] == with_address(cfg, b));
    let sn = (k0 % 16) as u8;
    assert(b[0] == x[0]);
    assert(x[0] == (0x20 + sn) as u8);
    assert(((0x20 + sn) as u8) & 0xf0 == 0x20 && ((0x20 + sn) as u8) & 0x0f == sn) by (bit_vector)
        requires sn < 16;
    let d = frames[0];
    assert(d.skip(addr_len(rcfg)) == b);
    let rem = s.len - s.buf.len();
    assert(rem == rest.len());
    assert(b.subrange(1, c.len() + 1 as int) =~= c);
    if rest.len() <= size {
        assert(frames.len() == 1);
        let end = if rem + 1 < b.len() { rem + 1 } else { b.len() as int };
        assert(end == rem + 1);
        assert(prefix + b.subrange(1, end) =~= prefix + rest);
    } else {
        assert(x.len() + addr_len(cfg) == max_data_len(cfg) + addr_len(cfg));
        assert(b == x);
        let end = if rem + 1 < b.len() { rem + 1 } else { b.len() as int };
        assert(end == b.len());
        let buf2 = prefix + b.subrange(1, end);
        assert(buf2 =~= prefix + rest.take(size));
        let s2 = RxState { buf: buf2, idx: (s.idx + 1) % 16, ..s };
        assert(rx_step(rcfg, s, d) == (s2, RxOutcome::Continue));
        assert((k0 % 16 + 1) % 16 == (k0 + 1) % 16);
        let rest2 = rest.skip(size);
        assert(frames.drop_first() =~= cf_frames(cfg, k0 + 1, chunks(rest2, size)));
        assert(prefix.len() + rest.len() == buf2.len() + rest2.len());
        lemma_consecutive_run(cfg, rcfg, buf2, rest2, k0 + 1);
        assert(buf2 + rest2 =~= prefix + rest);
        assert(frames.len() > 1);
    }
}

proof fn lemma_be32(n: int)
    requires
        0 <= n <= 0xffff_ffff,
    ensures
        be32_value(be32(n)[0], be32(n)[1], be32(n)[2], be32(n)[3]) == n,
{
    assert(n == (n / 0x100) * 0x100 + n % 0x100);
    assert(n / 0x100 == (n / 0x1_0000) * 0x100 + (n / 0x100) % 0x100);
    assert(n / 0x1_0000 == (n / 0x100_0000) * 0x100 + (n / 0x1_0000) % 0x100);
    assert(n / 0x100_0000 < 0x100);
}

/// A single frame alone completes its datagram, whatever the receiver was
/// doing.
proof fn lemma_single_frame(cfg: IsoTPConfig, rcfg: IsoTPConfig, p: Seq<u8>, s: RxState)
    requires
        cfg.wf(),
        addr_len(rcfg) == addr_len(cfg),
        0 < p.len(),
        fits_single(cfg, p.len() as int),
    ensures
        rx_step(rcfg, s, with_address(cfg, single_frame_bytes(cfg, p))) == (rx_idle(), RxOutcome::Complete(p)),
{
    let n = p.len() as int;
    let hdr = single_header(cfg, n);
    let x = hdr + p;
    let b = padded(cfg, x);
    lemma_padded_prefix(cfg, x);
    lemma_with_address(cfg, b);
    assert(with_address(cfg, b).skip(addr_len(rcfg)) == b);
    if n < can_max_len(cfg) {
        let v = n as u8;
        assert(b[0] == v);
        assert(v & 0xf0 == 0 && v & 0x0f == v) by (bit_vector)
            requires v < 8;
        assert(b.subrange(1, 1 + n) =~= p);
        assert(single_payload(b) == Some(p));
    } else {
        assert(b[0] == 0u8 && b[1] == n as u8);
        assert((0u8 & 0xf0) == 0 && (0u8 & 0x0f) == 0) by (bit_vector);
        assert(b.subrange(2, 2 + n) =~= p);
        assert(single_payload(b) == Some(p));
    }
}

/// A first frame starts the reassembly with the bytes it carries.
proof fn lemma_first_frame(cfg: IsoTPConfig, rcfg: IsoTPConfig, p: Seq<u8>)
    requires
        cfg.wf(),
        addr_len(rcfg) == addr_len(cfg),
        max_data_len(rcfg) == max_data_len(cfg),
        !fits_single(cfg, p.len() as int),
        p.len() <= max_datagram_len(cfg),
    ensures
        ({
            let first = first_chunk_len(cfg, p.len() as int);
            &&& 0 < first < p.len()
            &&& rx_step(rcfg, rx_idle(), with_address(cfg, first_frame_bytes(cfg, p))) == (
                RxState { receiving: true, len: p.len() as int, buf: p.take(first), idx: 1 },
                RxOutcome::FlowControl,
            )
        }),
{
    let n = p.len() as int;
    let hdr = first_header(n);
    let first = first_chunk_len(cfg, n);
    let b = first_frame_bytes(cfg, p);
    lemma_with_address(cfg, b);
    assert(b.len() == max_data_len(cfg));
    assert(b.skip(hdr.len() as int) =~= p.take(first));
    if n <= 0xfff {
        let y = (n / 0x100) as u8;
        assert(b[0] == (0x10 + y) as u8);
        assert(((0x10 + y) as u8) & 0xf0 == 0x10 && ((0x10 + y) as u8) & 0x0f == y) by (bit_vector)
            requires y < 16;
        assert(b[1] == (n % 0x100) as u8);
        assert(first_length(b) == Some((n, 2int)));
    } else {
        assert(b[0] == 0x10u8 && b[1] == 0u8);
        assert((0x10u8 & 0xf0) == 0x10 && (0x10u8 & 0x0f) == 0) by (bit_vector);
        lemma_be32(n);
        assert(b[2] == be32(n)[0] && b[3] == be32(n)[1] && b[4] == be32(n)[2] && b[5] == be32(n)[3]);
        assert(first_length(b) == Some((n, 6int)));
    }
}

/// Segmentation and reassembly round trip: the frames that carry a
/// non-empty datagram, fed in order to an idle receiver with the same
/// addressing and frame size, reassemble exactly that datagram.
pub proof fn lemma_round_trip(cfg: IsoTPConfig, rcfg: IsoTPConfig, p: Seq<u8>, fs: Seq<Frame>)
    requires
        cfg.wf(),
        addr_len(rcfg) == addr_len(cfg),
        max_data_len(rcfg) == max_data_len(cfg),
        0 < p.len(),
        fits_single(cfg, p.len() as int) || p.len() <= max_datagram_len(cfg),
        is_segmentation(cfg, p, fs),
    ensures
        rx_run(rcfg, rx_idle(), fs.map_values(|f: Frame| f.data@)) == (rx_idle(), RxOutcome::Complete(p)),
{
    let d = fs.map_values(|f: Frame| f.data@);
    if fits_single(cfg, p.len() as int) {
        lemma_single_frame(cfg, rcfg, p, rx_idle());
        assert(d.len() == 1);
        assert(d[0] == with_address(cfg, single_frame_bytes(cfg, p)));
    } else {
        let n = p.len() as int;
        let first = first_chunk_len(cfg, n);
        lemma_first_frame(cfg, rcfg, p);
        let cs = consecutive_chunks(cfg, p);
        let rest = p.skip(first);
        assert(multi_frame_bytes(cfg, p, 0) == first_frame_bytes(cfg, p));
        assert(d[0] == with_address(cfg, first_frame_bytes(cfg, p)));
        assert forall|j: int| 0 <= j < cs.len() implies #[trigger] d.drop_first()[j] == cf_frames(cfg, 1, cs)[j] by {
            assert(multi_frame_bytes(cfg, p, j + 1) == consecutive_frame_bytes(cfg, 1 + j, cs[j]));
            assert(d[j + 1] == fs[j + 1].data@);
        }
        assert(d.drop_first() =~= cf_frames(cfg, 1, cs));
        assert(rest.len() > 0);
        let size = max_data_len(cfg) - 1;
        assert(cs == chunks(rest, size));
        if rest.len() <= size {
            assert(cs.len() == 1);
        } else {
            assert(cs == seq![rest.take(size)] + chunks(rest.skip(size), size));
        }
        assert(d.len() >= 2);
        lemma_consecutive_run(cfg, rcfg, p.take(first), rest, 1);
        assert(p.take(first) + rest =~= p);
        assert((p.take(first).len() + rest.len()) as int == n);
    }
}

} // verus!
