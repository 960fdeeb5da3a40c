//! ISO-TP framing: padding, frame construction, and the payloads of single,
//! first, consecutive and flow control frames.
use vstd::prelude::*;
use crate::can::{Frame, is_dlc_len, next_dlc_len, is_valid_dlc_len, next_valid_dlc_len};
use crate::isotp::{
    Error, IsoTPConfig, CAN_MAX_DLEN, CAN_FD_MAX_DLEN, ISO_TP_MAX_DLEN, ISO_TP_FD_MAX_DLEN,
    DEFAULT_PADDING_BYTE,
};

verus! {

/// `n` copies of `b`.
pub open spec fn repeat(b: u8, n: int) -> Seq<u8> {
    Seq::new(n as nat, |_i: int| b)
}

/// 1 with an extended address byte in front of every payload, else 0.
pub open spec fn addr_len(cfg: IsoTPConfig) -> int {
    if cfg.ext_address_ is Some {
        1
    } else {
        0
    }
}

/// Room in a classic CAN frame after the extended address.
pub open spec fn can_max_len(cfg: IsoTPConfig) -> int {
    CAN_MAX_DLEN - addr_len(cfg)
}

/// ISO-TP bytes per CAN frame (after the extended address).
pub open spec fn max_data_len(cfg: IsoTPConfig) -> int {
    match cfg.max_dlen_ {
        Some(d) => d - addr_len(cfg),
        None => if cfg.fd_ {
            CAN_FD_MAX_DLEN - addr_len(cfg)
        } else {
            CAN_MAX_DLEN - addr_len(cfg)
        },
    }
}

/// Largest datagram: 4095 bytes classic, 2^32 - 1 with CAN-FD.
pub open spec fn max_datagram_len(cfg: IsoTPConfig) -> int {
    if cfg.fd_ {
        ISO_TP_FD_MAX_DLEN as int
    } else {
        ISO_TP_MAX_DLEN as int
    }
}

/// A datagram of `n` bytes goes in one single frame.
pub open spec fn fits_single(cfg: IsoTPConfig, n: int) -> bool {
    n < can_max_len(cfg) || n < max_data_len(cfg) - 1
}

/// Pads an ISO-TP payload: up to 8 bytes (with the address byte) when a
/// padding byte is set, and up to the next valid data length, with the
/// padding byte or 0xAA, when the length is not one.
pub open spec fn padded(cfg: IsoTPConfig, data: Seq<u8>) -> Seq<u8> {
    let len = data.len() + addr_len(cfg);
    let d1 = match cfg.padding_ {
        Some(p) => if len < CAN_MAX_DLEN {
            data + repeat(p, CAN_MAX_DLEN - len)
        } else {
            data
        },
        None => data,
    };
    if is_dlc_len(len) {
        d1
    } else {
        let p = match cfg.padding_ {
            Some(p) => p,
            None => DEFAULT_PADDING_BYTE,
        };
        d1 + repeat(p, next_dlc_len(len) - len)
    }
}

/// The frame payload: the extended address byte, if any, then `data`.
pub open spec fn with_address(cfg: IsoTPConfig, data: Seq<u8>) -> Seq<u8> {
    match cfg.ext_address_ {
        Some(a) => seq![a] + data,
        None => data,
    }
}

/// The frame that carries ISO-TP bytes `data` on the transmit identifier.
pub open spec fn is_tx_frame(cfg: IsoTPConfig, data: Seq<u8>, f: Frame) -> bool {
    &&& f.bus == cfg.bus_
    &&& f.id == cfg.tx_
    &&& f.data@ == with_address(cfg, data)
    &&& !f.loopback
    &&& f.fd == cfg.fd_
}

pub open spec fn single_header(cfg: IsoTPConfig, n: int) -> Seq<u8> {
    if n < can_max_len(cfg) {
        seq![n as u8]
    } else {
        seq![0x00u8, n as u8]
    }
}

/// Single frame: `[0x0L]` or the escape `[0x00, L]`, the data, padding.
pub open spec fn single_frame_bytes(cfg: IsoTPConfig, data: Seq<u8>) -> Seq<u8> {
    padded(cfg, single_header(cfg, data.len() as int) + data)
}

/// Big-endian bytes of a 32-bit length.
pub open spec fn be32(n: int) -> Seq<u8> {
    seq![
        ((n / 0x100_0000) % 0x100) as u8,
        ((n / 0x1_0000) % 0x100) as u8,
        ((n / 0x100) % 0x100) as u8,
        (n % 0x100) as u8
    ]
}

/// First frame header: `[0x1H, LL]` with a 12-bit length, or the escape
/// `[0x10, 0x00]` and four length bytes.
pub open spec fn first_header(n: int) -> Seq<u8> {
    if n <= ISO_TP_MAX_DLEN {
        seq![(0x10 + n / 0x100) as u8, (n % 0x100) as u8]
    } else {
        seq![0x10u8, 0x00u8] + be32(n)
    }
}

/// Data bytes carried by the first frame.
pub open spec fn first_chunk_len(cfg: IsoTPConfig, n: int) -> int {
    max_data_len(cfg) - first_header(n).len()
}

/// First frame: header and as many data bytes as fill the frame.
pub open spec fn first_frame_bytes(cfg: IsoTPConfig, data: Seq<u8>) -> Seq<u8> {
    first_header(data.len() as int) + data.take(first_chunk_len(cfg, data.len() as int))
}

/// Consecutive frame with sequence number `sn`: `[0x2S]`, data, padding.
pub open spec fn consecutive_frame_bytes(cfg: IsoTPConfig, sn: int, chunk: Seq<u8>) -> Seq<u8> {
    padded(cfg, seq![(0x20 + sn % 16) as u8] + chunk)
}

/// Splits the bytes after the first frame into consecutive-frame chunks of
/// `size` bytes; the last one may be shorter.
pub open spec fn chunks(rest: Seq<u8>, size: int) -> Seq<Seq<u8>>
    decreases rest.len(),
{
    if rest.len() == 0 || size <= 0 {
        Seq::empty()
    } else if rest.len() <= size {
        seq![rest]
    } else {
        seq![rest.take(size)] + chunks(rest.skip(size), size)
    }
}

/// Chunks of the datagram after its first frame.
pub open spec fn consecutive_chunks(cfg: IsoTPConfig, data: Seq<u8>) -> Seq<Seq<u8>> {
    chunks(data.skip(first_chunk_len(cfg, data.len() as int)), max_data_len(cfg) - 1)
}

/// Flow control that a receiver sends: ContinueToSend, block size 0, STmin 0.
pub open spec fn flow_control_bytes(cfg: IsoTPConfig) -> Seq<u8> {
    padded(cfg, seq![0x30u8, 0x00u8, 0x00u8])
}

/// ISO-TP bytes of the frames of a datagram that needs more than one.
pub open spec fn multi_frame_bytes(cfg: IsoTPConfig, data: Seq<u8>, k: int) -> Seq<u8> {
    if k == 0 {
        first_frame_bytes(cfg, data)
    } else {
        consecutive_frame_bytes(cfg, k, consecutive_chunks(cfg, data)[k - 1])
    }
}

proof fn lemma_padded_len(cfg: IsoTPConfig, data: Seq<u8>)
    requires
        data.len() + addr_len(cfg) <= CAN_FD_MAX_DLEN,
    ensures
        is_dlc_len(padded(cfg, data).len() + addr_len(cfg)),
        padded(cfg, data).len() >= data.len(),
        padded(cfg, data).take(data.len() as int) == data,
{
    let p = padded(cfg, data);
    assert(p.take(data.len() as int) =~= data);
}

/// 1 when the configuration has an extended address byte, else 0.
pub fn addr_length(cfg: &IsoTPConfig) -> (r: usize)
    ensures
        r == addr_len(*cfg),
{
    if cfg.ext_address_.is_some() {
        1
    } else {
        0
    }
}

/// ISO-TP bytes per CAN frame for this configuration.
pub fn max_data_length(cfg: &IsoTPConfig) -> (r: usize)
    requires
        cfg.wf(),
    ensures
        r == max_data_len(*cfg),
        CAN_MAX_DLEN - 1 <= r,
        r + addr_len(*cfg) <= CAN_FD_MAX_DLEN,
        is_dlc_len(r + addr_len(*cfg)),
{
    let off = addr_length(cfg);
    match cfg.max_dlen_ {
        Some(d) => d - off,
        None => if cfg.fd_ {
            CAN_FD_MAX_DLEN - off
        } else {
            CAN_MAX_DLEN - off
        },
    }
}

/// Largest datagram for this configuration.
pub fn max_datagram_length(cfg: &IsoTPConfig) -> (r: usize)
    ensures
        r == max_datagram_len(*cfg),
{
    if cfg.fd_ {
        ISO_TP_FD_MAX_DLEN
    } else {
        ISO_TP_MAX_DLEN
    }
}

/// Appends `n` copies of `b`.
fn push_repeat(v: &mut Vec<u8>, b: u8, n: usize)
    ensures
        final(v)@ == old(v)@ + repeat(b, n as int),
{
    let ghost start = v@;
    let mut i: usize = 0;
    while i < n
        invariant
            i <= n,
            v@ == start + repeat(b, i as int),
        decreases n - i,
    {
        v.push(b);
        assert(start + repeat(b, i + 1) =~= (start + repeat(b, i as int)).push(b));
        i += 1;
    }
}

/// Appends the bytes of `s`.
pub fn push_all(v: &mut Vec<u8>, s: &[u8])
    ensures
        final(v)@ == old(v)@ + s@,
{
    let ghost start = v@;
    let mut i: usize = 0;
    while i < s.len()
        invariant
            i <= s@.len(),
            v@ == start + s@.take(i as int),
        decreases s@.len() - i,
    {
        v.push(s[i]);
        assert(start + s@.take(i + 1) =~= (start + s@.take(i as int)).push(s@[i as int]));
        i += 1;
    }
    assert(s@.take(s@.len() as int) =~= s@);
}

/// The bytes `s[start..end]` as a new vector.
pub fn slice_to_vec(s: &[u8], start: usize, end: usize) -> (r: Vec<u8>)
    requires
        start <= end <= s@.len(),
    ensures
        r@ == s@.subrange(start as int, end as int),
{
    let mut v: Vec<u8> = Vec::new();
    let mut i: usize = start;
    while i < end
        invariant
            start <= i <= end,
            end <= s@.len(),
            v@ == s@.subrange(start as int, i as int),
        decreases end - i,
    {
        v.push(s[i]);
        assert(s@.subrange(start as int, i + 1) =~= s@.subrange(start as int, i as int).push(
            s@[i as int],
        ));
        i += 1;
    }
    v
}

/// Pads a payload in place as `padded` says.
pub fn pad(cfg: &IsoTPConfig, data: &mut Vec<u8>)
    requires
        old(data)@.len() + addr_len(*cfg) <= CAN_FD_MAX_DLEN,
    ensures
        final(data)@ == padded(*cfg, old(data)@),
        is_dlc_len(final(data)@.len() + addr_len(*cfg)),
{
    proof {
        lemma_padded_len(*cfg, data@);
    }
    let off = addr_length(cfg);
    let len = data.len() + off;
    if let Some(p) = cfg.padding_ {
        if len < CAN_MAX_DLEN {
            push_repeat(data, p, CAN_MAX_DLEN - len);
        }
    }
    if !is_valid_dlc_len(len) {
        let p = match cfg.padding_ {
            Some(p) => p,
            None => DEFAULT_PADDING_BYTE,
        };
        let target = next_valid_dlc_len(len);
        push_repeat(data, p, target - len);
    }
}

/// Builds the transmit frame for ISO-TP bytes `data`, with the extended
/// address in front. Fails with `MalformedFrame` when the frame payload
/// length is not a valid data length.
pub fn frame(cfg: &IsoTPConfig, data: &[u8]) -> (r: Result<Frame, Error>)
    ensures
        r is Ok <==> is_dlc_len(data@.len() + addr_len(*cfg)),
        r is Err ==> r == Err::<Frame, Error>(Error::MalformedFrame),
        r matches Ok(f) ==> is_tx_frame(*cfg, data@, f),
{
    let mut buf: Vec<u8> = Vec::new();
    if let Some(a) = cfg.ext_address_ {
        buf.push(a);
    }
    push_all(&mut buf, data);
    proof {
        if cfg.ext_address_ is Some {
            assert(buf@ =~= with_address(*cfg, data@));
        } else {
            assert(buf@ =~= with_address(*cfg, data@));
        }
    }
    if !is_valid_dlc_len(buf.len()) {
        return Err(Error::MalformedFrame);
    }
    Ok(Frame { bus: cfg.bus_, id: cfg.tx_, data: buf, loopback: false, fd: cfg.fd_ })
}

/// Whether a datagram of `n` bytes goes in one single frame.
pub fn fits_single_frame(cfg: &IsoTPConfig, n: usize) -> (r: bool)
    requires
        cfg.wf(),
    ensures
        r == fits_single(*cfg, n as int),
{
    n < CAN_MAX_DLEN - addr_length(cfg) || n < max_data_length(cfg) - 1
}

/// The single frame carrying a short datagram.
pub fn single_frame(cfg: &IsoTPConfig, data: &[u8]) -> (r: Frame)
    requires
        cfg.wf(),
        fits_single(*cfg, data@.len() as int),
    ensures
        is_tx_frame(*cfg, single_frame_bytes(*cfg, data@), r),
{
    let n = data.len();
    let mut buf: Vec<u8> = Vec::new();
    if n < CAN_MAX_DLEN - addr_length(cfg) {
        buf.push(n as u8);
    } else {
        buf.push(0x00);
        buf.push(n as u8);
    }
    assert(buf@ =~= single_header(*cfg, n as int));
    push_all(&mut buf, data);
    pad(cfg, &mut buf);
    match frame(cfg, buf.as_slice()) {
        Ok(f) => f,
        Err(_) => {
            assert(false);
            Frame { bus: 0, id: cfg.tx_, data: Vec::new(), loopback: false, fd: false }
        },
    }
}

/// The first frame of a datagram of at least `max_data_len - 2` bytes: its
/// header and as many bytes as fill the frame.
pub fn first_frame(cfg: &IsoTPConfig, data: &[u8]) -> (r: Frame)
    requires
        cfg.wf(),
        data@.len() >= max_data_len(*cfg) - 2,
        data@.len() <= ISO_TP_FD_MAX_DLEN,
    ensures
        is_tx_frame(*cfg, first_frame_bytes(*cfg, data@), r),
{
    let n = data.len();
    let mut buf: Vec<u8> = Vec::new();
    if n <= ISO_TP_MAX_DLEN {
        buf.push((0x10 + n / 0x100) as u8);
        buf.push((n % 0x100) as u8);
    } else {
        buf.push(0x10);
        buf.push(0x00);
        buf.push(((n / 0x100_0000) % 0x100) as u8);
        buf.push(((n / 0x1_0000) % 0x100) as u8);
        buf.push(((n / 0x100) % 0x100) as u8);
        buf.push((n % 0x100) as u8);
    }
    assert(buf@ =~= first_header(n as int));
    let take = max_data_length(cfg) - buf.len();
    let chunk = slice_to_vec(data, 0, take);
    assert(chunk@ =~= data@.take(take as int));
    push_all(&mut buf, chunk.as_slice());
    match frame(cfg, buf.as_slice()) {
        Ok(f) => f,
        Err(_) => {
            assert(false);
            Frame { bus: 0, id: cfg.tx_, data: Vec::new(), loopback: false, fd: false }
        },
    }
}

/// A consecutive frame with sequence number `sn` (taken modulo 16).
pub fn consecutive_frame(cfg: &IsoTPConfig, sn: usize, chunk: &[u8]) -> (r: Frame)
    requires
        cfg.wf(),
        chunk@.len() <= max_data_len(*cfg) - 1,
    ensures
        is_tx_frame(*cfg, consecutive_frame_bytes(*cfg, sn as int, chunk@), r),
{
    let max = max_data_length(cfg);
    let mut buf: Vec<u8> = Vec::new();
    buf.push((0x20 + sn % 16) as u8);
    push_all(&mut buf, chunk);
    assert(buf@ =~= seq![(0x20 + sn % 16) as u8] + chunk@);
    pad(cfg, &mut buf);
    match frame(cfg, buf.as_slice()) {
        Ok(f) => f,
        Err(_) => {
            assert(false);
            Frame { bus: 0, id: cfg.tx_, data: Vec::new(), loopback: false, fd: false }
        },
    }
}

/// The flow control frame a receiver answers a first frame with.
pub fn flow_control_frame(cfg: &IsoTPConfig) -> (r: Frame)
    requires
        cfg.wf(),
    ensures
        is_tx_frame(*cfg, flow_control_bytes(*cfg), r),
{
    let mut buf: Vec<u8> = Vec::new();
    buf.push(0x30);
    buf.push(0x00);
    buf.push(0x00);
    assert(buf@ =~= seq![0x30u8, 0x00u8, 0x00u8]);
    pad(cfg, &mut buf);
    match frame(cfg, buf.as_slice()) {
        Ok(f) => f,
        Err(_) => {
            assert(false);
            Frame { bus: 0, id: cfg.tx_, data: Vec::new(), loopback: false, fd: false }
        },
    }
}

/// The frames that carry a datagram, in sending order: one single frame, or
/// a first frame and its consecutive frames. A datagram longer than the
/// mode allows fails with `DataTooLarge`.
pub fn segment(cfg: &IsoTPConfig, data: &[u8]) -> (r: Result<Vec<Frame>, Error>)
    requires
        cfg.wf(),
    ensures
        r is Err <==> !fits_single(*cfg, data@.len() as int) && data@.len() > max_datagram_len(*cfg),
        r is Err ==> r == Err::<Vec<Frame>, Error>(Error::DataTooLarge),
        r matches Ok(fs) ==> fits_single(*cfg, data@.len() as int) ==> fs@.len() == 1
            && is_tx_frame(*cfg, single_frame_bytes(*cfg, data@), fs@[0]),
        r matches Ok(fs) ==> !fits_single(*cfg, data@.len() as int) ==> {
            &&& fs@.len() == 1 + consecutive_chunks(*cfg, data@).len()
            &&& forall|k: int| 0 <= k < fs@.len() ==> is_tx_frame(*cfg, #[trigger] multi_frame_bytes(*cfg, data@, k), fs@[k])
        },
{
    let n = data.len();
    if fits_single_frame(cfg, n) {
        let f = single_frame(cfg, data);
        let mut v: Vec<Frame> = Vec::new();
        v.push(f);
        return Ok(v);
    }
    if n > max_datagram_length(cfg) {
        return Err(Error::DataTooLarge);
    }
    let max = max_data_length(cfg);
    let size = max - 1;
    let hdr: usize = if n <= ISO_TP_MAX_DLEN { 2 } else { 6 };
    assert(hdr == first_header(n as int).len());
    let first = max - hdr;
    let ghost rest = data@.skip(first as int);
    let mut frames: Vec<Frame> = Vec::new();
    frames.push(first_frame(cfg, data));
    let mut pos: usize = first;
    let mut k: usize = 1;
    let ghost mut done: Seq<Seq<u8>> = Seq::empty();
    assert(data@.skip(pos as int) == rest);
    while pos < n
        invariant
            cfg.wf(),
            n == data@.len(),
            size == max_data_len(*cfg) - 1,
            size >= CAN_MAX_DLEN - 2,
            first == first_chunk_len(*cfg, n as int),
            !fits_single(*cfg, n as int),
            rest == data@.skip(first as int),
            first <= pos <= n,
            k == done.len() + 1,
            frames@.len() == k,
            k <= pos,
            chunks(rest, size as int) == done + chunks(data@.skip(pos as int), size as int),
            is_tx_frame(*cfg, first_frame_bytes(*cfg, data@), frames@[0]),
            forall|j: int| 0 <= j < done.len() ==> is_tx_frame(*cfg, #[trigger] consecutive_frame_bytes(*cfg, j + 1, done[j]), frames@[j + 1]),
        decreases n - pos,
    {
        let end = if n - pos <= size { n } else { pos + size };
        let chunk = slice_to_vec(data, pos, end);
        let ghost tail = data@.skip(pos as int);
        proof {
            if n - pos <= size {
                assert(chunk@ =~= tail);
                assert(chunks(tail, size as int) == seq![tail]);
                assert(data@.skip(end as int) =~= Seq::<u8>::empty());
                assert(chunks(data@.skip(end as int), size as int) == Seq::<Seq<u8>>::empty());
                assert(done + chunks(tail, size as int) =~= done.push(chunk@) + chunks(data@.skip(end as int), size as int));
            } else {
                assert(chunk@ =~= tail.take(size as int));
                assert(tail.skip(size as int) =~= data@.skip(end as int));
                assert(done + chunks(tail, size as int) =~= done.push(chunk@) + chunks(data@.skip(end as int), size as int));
            }
        }
        let f = consecutive_frame(cfg, k, chunk.as_slice());
        frames.push(f);
        proof {
            done = done.push(chunk@);
        }
        pos = end;
        k = k + 1;
    }
    proof {
        assert(data@.skip(n as int) =~= Seq::<u8>::empty());
        assert(done + chunks(data@.skip(pos as int), size as int) =~= done);
        assert forall|j: int| 0 <= j < frames@.len() implies is_tx_frame(*cfg, #[trigger] multi_frame_bytes(*cfg, data@, j), frames@[j]) by {
            assert(consecutive_chunks(*cfg, data@) == done);
            if j > 0 {
                let i = j - 1;
                assert(is_tx_frame(*cfg, consecutive_frame_bytes(*cfg, i + 1, done[i]), frames@[i + 1]));
            }
        }
    }
    Ok(frames)
}

} // verus!
