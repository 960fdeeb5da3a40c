//! ISO-TP transfer state machines. A `Sender` decides, frame by frame, what a
//! transmission does next; a `Reassembly` consumes received frames and says
//! when a datagram is complete. The caller performs the I/O and the waiting.
use vstd::prelude::*;
use std::time::Duration;
use crate::can::{Frame, same_frame};
use crate::isotp::{
    Error, FlowControlConfig, FlowStatus, FrameType, IsoTPConfig, flow_status_spec,
    frame_type_spec, st_min_micros, FRAME_TYPE_MASK, FLOW_STATUS_MASK, MAX_WAIT_FC,
};
use crate::isotp::codec::{
    addr_len, addr_length, flow_control_bytes, flow_control_frame, is_tx_frame, max_data_len,
    max_data_length, multi_frame_bytes, consecutive_chunks, fits_single, max_datagram_len,
    segment, single_frame_bytes, slice_to_vec, push_all,
};
use crate::time::duration_of_micros;

verus! {

/// The frames of a datagram as `segment` produces them.
pub open spec fn is_segmentation(cfg: IsoTPConfig, data: Seq<u8>, fs: Seq<Frame>) -> bool {
    if fits_single(cfg, data.len() as int) {
        fs.len() == 1 && is_tx_frame(cfg, single_frame_bytes(cfg, data), fs[0])
    } else {
        &&& fs.len() == 1 + consecutive_chunks(cfg, data).len()
        &&& forall|k: int| 0 <= k < fs.len() ==> is_tx_frame(cfg, #[trigger] multi_frame_bytes(cfg, data, k), fs[k])
    }
}

/// Where a transmission stands.
#[derive(Debug, Clone, Copy, PartialEq, Eq, Structural)]
pub enum TxPhase {
    /// The next frame is to be sent.
    Transmit,
    /// A flow control from the receiver is awaited.
    AwaitFlowControl,
    /// The separation time is to pass before the next frame.
    Gap,
    /// All frames were sent, or the transfer failed.
    Finished,
}

/// What the caller of a `Sender` is to do next.
pub enum SendAction {
    /// Send this frame and wait for its echo.
    Transmit(Frame),
    /// Wait for the next flow control frame and pass it to `on_flow_control`.
    AwaitFlowControl,
    /// Sleep this long.
    Sleep(Duration),
    /// The transfer is over.
    Done,
}

/// Progress of a transmission.
pub struct TxState {
    pub next: int,
    pub phase: TxPhase,
    pub block_size: u8,
    pub sent_in_block: int,
    pub waits: int,
    pub st_min: Duration,
}

/// The sender side of one ISO-TP transfer.
pub struct Sender {
    cfg: IsoTPConfig,
    frames: Vec<Frame>,
    next: usize,
    phase: TxPhase,
    block_size: u8,
    sent_in_block: usize,
    waits: usize,
    st_min: Duration,
}

/// The phase after the frame at `next - 1` went out.
pub open spec fn phase_after_send(next: int, len: int, block_size: u8, sent_in_block: int) -> TxPhase {
    if next == len {
        TxPhase::Finished
    } else if next == 1 {
        TxPhase::AwaitFlowControl
    } else if block_size != 0 && sent_in_block >= block_size {
        TxPhase::AwaitFlowControl
    } else {
        TxPhase::Gap
    }
}

impl Sender {
    pub closed spec fn config(&self) -> IsoTPConfig {
        self.cfg
    }

    pub closed spec fn frames(&self) -> Seq<Frame> {
        self.frames@
    }

    pub closed spec fn state(&self) -> TxState {
        TxState {
            next: self.next as int,
            phase: self.phase,
            block_size: self.block_size,
            sent_in_block: self.sent_in_block as int,
            waits: self.waits as int,
            st_min: self.st_min,
        }
    }

    pub open spec fn wf(&self) -> bool {
        let s = self.state();
        let n = self.frames().len();
        &&& 0 <= s.next <= n
        &&& s.phase == TxPhase::Transmit ==> s.next < n
        &&& s.phase == TxPhase::Gap ==> 1 <= s.next < n
        &&& s.phase == TxPhase::AwaitFlowControl ==> 1 <= s.next < n
        &&& 0 <= s.waits <= MAX_WAIT_FC
        &&& 0 <= s.sent_in_block <= s.block_size
        &&& (s.phase == TxPhase::Transmit || s.phase == TxPhase::Gap) && s.block_size != 0 ==> s.sent_in_block < s.block_size
    }

    /// The separation time between consecutive frames: the configured
    /// override, else what the receiver asked for.
    pub open spec fn gap(&self) -> Duration {
        match self.config().separation_time_min_ {
            Some(d) => d,
            None => self.state().st_min,
        }
    }

    /// Starts the transfer of `data`. Fails with `DataTooLarge`, before any
    /// frame is sent, when the datagram is longer than the mode allows.
    pub fn new(cfg: &IsoTPConfig, data: &[u8]) -> (r: Result<Sender, Error>)
        requires
            cfg.wf(),
        ensures
            r is Err <==> !fits_single(*cfg, data@.len() as int) && data@.len() > max_datagram_len(*cfg),
            r is Err ==> r == Err::<Sender, Error>(Error::DataTooLarge),
            r matches Ok(s) ==> {
                &&& s.wf()
                &&& s.config() == *cfg
                &&& is_segmentation(*cfg, data@, s.frames())
                &&& s.state().next == 0
                &&& s.state().phase == TxPhase::Transmit
                &&& s.state().block_size == 0
                &&& s.state().sent_in_block == 0
                &&& s.state().waits == 0
                &&& s.state().st_min == duration_of_micros(0)
            },
    {
        match segment(cfg, data) {
            Err(e) => Err(e),
            Ok(frames) => {
                proof {
                    if !fits_single(*cfg, data@.len() as int) {
                        assert(frames@.len() >= 1);
                    }
                }
                Ok(Sender {
                    cfg: *cfg,
                    frames,
                    next: 0,
                    phase: TxPhase::Transmit,
                    block_size: 0,
                    sent_in_block: 0,
                    waits: 0,
                    st_min: crate::time::micros(0),
                })
            },
        }
    }

    /// What to do next, and the state after doing it.
    pub fn next_action(&mut self) -> (r: SendAction)
        requires
            old(self).wf(),
        ensures
            final(self).wf(),
            final(self).config() == old(self).config(),
            final(self).frames() == old(self).frames(),
            ({
                let s = old(self).state();
                let t = final(self).state();
                let n = old(self).frames().len() as int;
                match s.phase {
                    TxPhase::Transmit => {
                        &&& r matches SendAction::Transmit(f) && same_frame(f, old(self).frames()[s.next]) && !f.loopback
                        &&& t.next == s.next + 1
                        &&& t.sent_in_block == (if s.next == 0 || s.block_size == 0 { 0 } else { s.sent_in_block + 1 })
                        &&& t.phase == phase_after_send(s.next + 1, n, s.block_size, t.sent_in_block)
                        &&& t.block_size == s.block_size && t.waits == s.waits && t.st_min == s.st_min
                    },
                    TxPhase::Gap => {
                        &&& r matches SendAction::Sleep(d) && d == old(self).gap()
                        &&& t == TxState { phase: TxPhase::Transmit, ..s }
                    },
                    TxPhase::AwaitFlowControl => r is AwaitFlowControl && t == s,
                    TxPhase::Finished => r is Done && t == s,
                }
            }),
    {
        match self.phase {
            TxPhase::Transmit => {
                let f = self.frames[self.next].with_loopback(false);
                let len = self.frames.len();
                assert(self.next < len);
                self.next = self.next + 1;
                self.sent_in_block = if self.next == 1 || self.block_size == 0 {
                    0
                } else {
                    self.sent_in_block + 1
                };
                self.phase = if self.next == self.frames.len() {
                    TxPhase::Finished
                } else if self.next == 1 {
                    TxPhase::AwaitFlowControl
                } else if self.block_size != 0 && self.sent_in_block >= self.block_size as usize {
                    TxPhase::AwaitFlowControl
                } else {
                    TxPhase::Gap
                };
                SendAction::Transmit(f)
            },
            TxPhase::Gap => {
                self.phase = TxPhase::Transmit;
                match self.cfg.separation_time_min_ {
                    Some(d) => SendAction::Sleep(d),
                    None => SendAction::Sleep(self.st_min),
                }
            },
            TxPhase::AwaitFlowControl => SendAction::AwaitFlowControl,
            TxPhase::Finished => SendAction::Done,
        }
    }

    /// Handles a flow control frame while one is awaited; `data` is the
    /// frame's payload, extended address included. ContinueToSend takes the
    /// block size and STmin and resumes sending; Wait keeps waiting, for
    /// ten in a row at most (the eleventh fails with `TooManyFCWait`);
    /// Overflow fails with `Overflow`; a frame that is no flow control fails
    /// with `FlowControl`; a payload too short,
    /// an unknown flow status or a bad STmin fail with `MalformedFrame`. A
    /// failure ends the transfer.
    pub fn on_flow_control(&mut self, data: &[u8]) -> (r: Result<(), Error>)
        requires
            old(self).wf(),
            old(self).state().phase == TxPhase::AwaitFlowControl,
        ensures
            final(self).wf(),
            final(self).config() == old(self).config(),
            final(self).frames() == old(self).frames(),
            ({
                let s = old(self).state();
                let t = final(self).state();
                let fc = fc_outcome(old(self).config(), data@, s.waits);
                &&& r == fc.0
                &&& r is Err ==> t == TxState { phase: TxPhase::Finished, ..s }
                &&& fc.1 is Wait && r is Ok ==> t == TxState { waits: s.waits + 1, ..s }
                &&& fc.1 is ContinueToSend ==> t == TxState {
                    phase: TxPhase::Transmit,
                    block_size: fc.2,
                    sent_in_block: 0,
                    waits: 0,
                    st_min: duration_of_micros(st_min_micros(fc.3)->0),
                    ..s
                }
            }),
    {
        let off = addr_length(&self.cfg);
        let r = parse_flow_control(data, off, self.waits);
        match r {
            Ok(FlowReply::Continue(c)) => {
                self.block_size = c.block_size;
                self.st_min = c.separation_time_min;
                self.sent_in_block = 0;
                self.waits = 0;
                self.phase = TxPhase::Transmit;
                Ok(())
            },
            Ok(FlowReply::Wait) => {
                self.waits = self.waits + 1;
                Ok(())
            },
            Err(e) => {
                self.phase = TxPhase::Finished;
                Err(e)
            },
        }
    }
}

/// A flow control that lets the transfer go on.
pub enum FlowReply {
    Continue(FlowControlConfig),
    Wait,
}

/// Result of a flow control given the Waits so far: the error or success,
/// the flow status read, the block size byte and the STmin byte.
pub open spec fn fc_outcome(cfg: IsoTPConfig, data: Seq<u8>, waits: int) -> (Result<(), Error>, FlowStatus, u8, u8) {
    let b = data.skip(addr_len(cfg));
    if data.len() <= addr_len(cfg) {
        (Err(Error::MalformedFrame), FlowStatus::Overflow, 0, 0)
    } else if frame_type_spec(b[0] & FRAME_TYPE_MASK) != Some(FrameType::FlowControl) {
        (Err(Error::FlowControl), FlowStatus::Overflow, 0, 0)
    } else {
        match flow_status_spec(b[0] & FLOW_STATUS_MASK) {
            Some(FlowStatus::ContinueToSend) => if b.len() >= 3 && st_min_micros(b[2]) is Some {
                (Ok(()), FlowStatus::ContinueToSend, b[1], b[2])
            } else {
                (Err(Error::MalformedFrame), FlowStatus::Overflow, 0, 0)
            },
            Some(FlowStatus::Wait) => if waits + 1 > MAX_WAIT_FC {
                (Err(Error::TooManyFCWait), FlowStatus::Wait, 0, 0)
            } else {
                (Ok(()), FlowStatus::Wait, 0, 0)
            },
            Some(FlowStatus::Overflow) => (Err(Error::Overflow), FlowStatus::Overflow, 0, 0),
            None => (Err(Error::MalformedFrame), FlowStatus::Overflow, 0, 0),
        }
    }
}

fn parse_flow_control(data: &[u8], off: usize, waits: usize) -> (r: Result<FlowReply, Error>)
    requires
        off <= 1,
        waits <= MAX_WAIT_FC,
    ensures
        ({
            let cfg_off = off as int;
            let b = data@.skip(cfg_off);
            &&& data@.len() <= cfg_off ==> r == Err::<FlowReply, Error>(Error::MalformedFrame)
            &&& data@.len() > cfg_off ==> {
                let ty = frame_type_spec(b[0] & FRAME_TYPE_MASK);
                let st = flow_status_spec(b[0] & FLOW_STATUS_MASK);
                &&& ty != Some(FrameType::FlowControl) ==> r == Err::<FlowReply, Error>(Error::FlowControl)
                &&& ty == Some(FrameType::FlowControl) ==> match st {
                    Some(FlowStatus::ContinueToSend) => if b.len() >= 3 && st_min_micros(b[2]) is Some {
                        r matches Ok(FlowReply::Continue(c)) && c.block_size == b[1]
                            && c.separation_time_min == duration_of_micros(st_min_micros(b[2])->0)
                    } else {
                        r == Err::<FlowReply, Error>(Error::MalformedFrame)
                    },
                    Some(FlowStatus::Wait) => if waits + 1 > MAX_WAIT_FC {
                        r == Err::<FlowReply, Error>(Error::TooManyFCWait)
                    } else {
                        r matches Ok(FlowReply::Wait)
                    },
                    Some(FlowStatus::Overflow) => r == Err::<FlowReply, Error>(Error::Overflow),
                    None => r == Err::<FlowReply, Error>(Error::MalformedFrame),
                }
            }
        }),
{
    if data.len() <= off {
        return Err(Error::MalformedFrame);
    }
    let b0 = data[off];
    if FrameType::from_repr(b0 & FRAME_TYPE_MASK) != Some(FrameType::FlowControl) {
        return Err(Error::FlowControl);
    }
    match FlowStatus::from_repr(b0 & FLOW_STATUS_MASK) {
        Some(FlowStatus::ContinueToSend) => {
            let body = slice_to_vec(data, off, data.len());
            assert(body@ == data@.skip(off as int));
            match FlowControlConfig::try_from_payload(body.as_slice()) {
                Ok(c) => Ok(FlowReply::Continue(c)),
                Err(e) => Err(e),
            }
        },
        Some(FlowStatus::Wait) => {
            if waits + 1 > MAX_WAIT_FC {
                Err(Error::TooManyFCWait)
            } else {
                Ok(FlowReply::Wait)
            }
        },
        Some(FlowStatus::Overflow) => Err(Error::Overflow),
        None => Err(Error::MalformedFrame),
    }
}

/// What a received frame led to.
pub enum RecvStep {
    /// Nothing to do yet.
    Continue,
    /// A first frame arrived: send this flow control frame.
    SendFlowControl(Frame),
    /// The datagram is complete.
    Complete(Vec<u8>),
    /// A first frame that carries its whole declared length arrived: send
    /// this flow control frame; the datagram, cut to that length, is
    /// complete.
    SendFlowControlAndComplete(Frame, Vec<u8>),
}

/// Reassembly progress: the declared length, the bytes so far and the
/// expected sequence number, while a segmented datagram is being received.
pub struct RxState {
    pub receiving: bool,
    pub len: int,
    pub buf: Seq<u8>,
    pub idx: int,
}

/// What a received frame does, in the model.
pub enum RxOutcome {
    Continue,
    FlowControl,
    Complete(Seq<u8>),
    FlowControlComplete(Seq<u8>),
    Fail(Error),
}

pub open spec fn rx_idle() -> RxState {
    RxState { receiving: false, len: 0, buf: Seq::empty(), idx: 1 }
}

/// Payload of a single frame: length in the low nibble, or the escape
/// `0x00, L`; fails when the frame is too short for it.
pub open spec fn single_payload(b: Seq<u8>) -> Option<Seq<u8>> {
    let n = (b[0] & 0x0f) as int;
    if n == 0 {
        if b.len() < 2 || b[1] as int + 2 > b.len() {
            None
        } else {
            Some(b.subrange(2, 2 + b[1] as int))
        }
    } else if n + 1 > b.len() {
        None
    } else {
        Some(b.subrange(1, 1 + n))
    }
}

/// Big-endian value of four bytes.
pub open spec fn be32_value(a: u8, b: u8, c: u8, d: u8) -> int {
    ((a as int * 0x100 + b as int) * 0x100 + c as int) * 0x100 + d as int
}

/// Declared length and header size of a first frame: 12-bit length, or the
/// escape `0x10, 0x00` and a 32-bit length.
pub open spec fn first_length(b: Seq<u8>) -> Option<(int, int)> {
    let n = (b[0] & 0x0f) as int * 0x100 + b[1] as int;
    if n != 0 {
        Some((n, 2))
    } else if b.len() < 6 {
        None
    } else {
        Some((be32_value(b[2], b[3], b[4], b[5]), 6))
    }
}

/// The reassembly step for one received frame payload `data` (extended
/// address included).
pub open spec fn rx_step(cfg: IsoTPConfig, s: RxState, data: Seq<u8>) -> (RxState, RxOutcome) {
    let b = data.skip(addr_len(cfg));
    if data.len() <= addr_len(cfg) {
        (rx_idle(), RxOutcome::Fail(Error::MalformedFrame))
    } else {
        match frame_type_spec(b[0] & FRAME_TYPE_MASK) {
            Some(FrameType::Single) => match single_payload(b) {
                Some(p) => (rx_idle(), RxOutcome::Complete(p)),
                None => (rx_idle(), RxOutcome::Fail(Error::MalformedFrame)),
            },
            Some(FrameType::First) => if s.receiving {
                (rx_idle(), RxOutcome::Fail(Error::OutOfOrder))
            } else if b.len() < 2 {
                (rx_idle(), RxOutcome::Fail(Error::MalformedFrame))
            } else {
                match first_length(b) {
                    None => (rx_idle(), RxOutcome::Fail(Error::MalformedFrame)),
                    Some((n, h)) => if b.len() < max_data_len(cfg) {
                        (rx_idle(), RxOutcome::Fail(Error::MalformedFrame))
                    } else if b.len() - h >= n {
                        (rx_idle(), RxOutcome::FlowControlComplete(b.subrange(h, h + n)))
                    } else {
                        (RxState { receiving: true, len: n, buf: b.skip(h), idx: 1 }, RxOutcome::FlowControl)
                    },
                }
            },
            Some(FrameType::Consecutive) => if !s.receiving {
                (rx_idle(), RxOutcome::Fail(Error::OutOfOrder))
            } else {
                let rem = s.len - s.buf.len();
                let tx_dl = max_data_len(cfg);
                if (rem >= tx_dl - 1 && b.len() < tx_dl) || (rem < tx_dl - 1 && b.len() - 1 < rem) {
                    (rx_idle(), RxOutcome::Fail(Error::MalformedFrame))
                } else if (b[0] & 0x0f) as int != s.idx {
                    (rx_idle(), RxOutcome::Fail(Error::OutOfOrder))
                } else {
                    let end = if rem + 1 < b.len() { rem + 1 } else { b.len() as int };
                    let buf = s.buf + b.subrange(1, end);
                    if buf.len() >= s.len {
                        (rx_idle(), RxOutcome::Complete(buf))
                    } else {
                        (RxState { buf: buf, idx: (s.idx + 1) % 16, ..s }, RxOutcome::Continue)
                    }
                }
            },
            Some(FrameType::FlowControl) => (s, RxOutcome::Continue),
            None => (rx_idle(), RxOutcome::Fail(Error::UnknownFrameType)),
        }
    }
}

/// The result matches the modelled outcome.
pub open spec fn step_matches(cfg: IsoTPConfig, r: Result<RecvStep, Error>, o: RxOutcome) -> bool {
    match o {
        RxOutcome::Continue => r matches Ok(RecvStep::Continue),
        RxOutcome::FlowControl => r matches Ok(RecvStep::SendFlowControl(f)) && is_tx_frame(
            cfg,
            flow_control_bytes(cfg),
            f,
        ),
        RxOutcome::Complete(p) => r matches Ok(RecvStep::Complete(v)) && v@ == p,
        RxOutcome::FlowControlComplete(p) => r matches Ok(RecvStep::SendFlowControlAndComplete(f, v))
            && is_tx_frame(cfg, flow_control_bytes(cfg), f) && v@ == p,
        RxOutcome::Fail(e) => r == Err::<RecvStep, Error>(e),
    }
}

/// The receiver side: reassembles one datagram after another.
pub struct Reassembly {
    receiving: bool,
    len: usize,
    buf: Vec<u8>,
    idx: u8,
}

impl Reassembly {
    pub closed spec fn state(&self) -> RxState {
        RxState { receiving: self.receiving, len: self.len as int, buf: self.buf@, idx: self.idx as int }
    }

    pub open spec fn wf(&self) -> bool {
        let s = self.state();
        &&& s.receiving ==> s.buf.len() < s.len && 0 <= s.idx < 16
        &&& !s.receiving ==> s == rx_idle()
    }

    /// Waiting for the first frame of a datagram.
    pub fn new() -> (r: Reassembly)
        ensures
            r.wf(),
            r.state() == rx_idle(),
    {
        let r = Reassembly { receiving: false, len: 0, buf: Vec::new(), idx: 1 };
        assert(r.state().buf =~= Seq::<u8>::empty());
        r
    }

    fn reset(&mut self)
        ensures
            final(self).wf(),
            final(self).state() == rx_idle(),
    {
        self.receiving = false;
        self.len = 0;
        self.buf = Vec::new();
        self.idx = 1;
        assert(self.state().buf =~= Seq::<u8>::empty());
    }

    /// Consumes one received frame payload (extended address included):
    /// a single frame completes at once; a full-length first frame asks for
    /// a flow control and starts a datagram, or completes it at once when it
    /// already carries the declared length; consecutive frames must come in sequence
    /// and be full length but for the last; a flow control frame is ignored.
    /// After a completed datagram or an error the next datagram starts over.
    #[verifier::rlimit(60)]
    pub fn on_frame(&mut self, cfg: &IsoTPConfig, data: &[u8]) -> (r: Result<RecvStep, Error>)
        requires
            old(self).wf(),
            cfg.wf(),
        ensures
            final(self).wf(),
            final(self).state() == rx_step(*cfg, old(self).state(), data@).0,
            step_matches(*cfg, r, rx_step(*cfg, old(self).state(), data@).1),
    {
        let off = addr_length(cfg);
        if data.len() <= off {
            self.reset();
            return Err(Error::MalformedFrame);
        }
        let ghost b = data@.skip(off as int);
        let b0 = data[off];
        assert(b0 == b[0]);
        let blen = data.len() - off;
        match FrameType::from_repr(b0 & FRAME_TYPE_MASK) {
            Some(FrameType::Single) => {
                self.reset();
                let n = (b0 & 0x0f) as usize;
                if n == 0 {
                    if blen < 2 || data[off + 1] as usize + 2 > blen {
                        return Err(Error::MalformedFrame);
                    }
                    let m = data[off + 1] as usize;
                    let p = slice_to_vec(data, off + 2, off + 2 + m);
                    assert(p@ =~= b.subrange(2, 2 + m));
                    Ok(RecvStep::Complete(p))
                } else {
                    if n + 1 > blen {
                        return Err(Error::MalformedFrame);
                    }
                    let p = slice_to_vec(data, off + 1, off + 1 + n);
                    assert(p@ =~= b.subrange(1, 1 + n));
                    Ok(RecvStep::Complete(p))
                }
            },
            Some(FrameType::First) => {
                if self.receiving {
                    self.reset();
                    return Err(Error::OutOfOrder);
                }
                if blen < 2 {
                    self.reset();
                    return Err(Error::MalformedFrame);
                }
                let n12 = ((b0 & 0x0f) as usize) * 0x100 + data[off + 1] as usize;
                let (n, h) = if n12 != 0 {
                    (n12, 2usize)
                } else {
                    if blen < 6 {
                        self.reset();
                        return Err(Error::MalformedFrame);
                    }
                    let v = ((data[off + 2] as u64 * 0x100 + data[off + 3] as u64) * 0x100
                        + data[off + 4] as u64) * 0x100 + data[off + 5] as u64;
                    if v > usize::MAX as u64 {
                        self.reset();
                        return Err(Error::MalformedFrame);
                    }
                    (v as usize, 6usize)
                };
                if blen < max_data_length(cfg) {
                    self.reset();
                    return Err(Error::MalformedFrame);
                }
                if blen - h >= n {
                    self.reset();
                    let p = slice_to_vec(data, off + h, off + h + n);
                    assert(p@ =~= b.subrange(h as int, h + n));
                    return Ok(RecvStep::SendFlowControlAndComplete(flow_control_frame(cfg), p));
                }
                let p = slice_to_vec(data, off + h, data.len());
                assert(p@ =~= b.skip(h as int));
                self.receiving = true;
                self.len = n;
                self.buf = p;
                self.idx = 1;
                Ok(RecvStep::SendFlowControl(flow_control_frame(cfg)))
            },
            Some(FrameType::Consecutive) => {
                if !self.receiving {
                    self.reset();
                    return Err(Error::OutOfOrder);
                }
                let rem = self.len - self.buf.len();
                let tx_dl = max_data_length(cfg);
                if (rem >= tx_dl - 1 && blen < tx_dl) || (rem < tx_dl - 1 && blen - 1 < rem) {
                    self.reset();
                    return Err(Error::MalformedFrame);
                }
                if (b0 & 0x0f) != self.idx {
                    self.reset();
                    return Err(Error::OutOfOrder);
                }
                let end = if rem < blen - 1 { rem + 1 } else { blen };
                let chunk = slice_to_vec(data, off + 1, off + end);
                assert(chunk@ =~= b.subrange(1, end as int));
                push_all(&mut self.buf, chunk.as_slice());
                if self.buf.len() >= self.len {
                    let mut done: Vec<u8> = Vec::new();
                    std::mem::swap(&mut done, &mut self.buf);
                    self.reset();
                    Ok(RecvStep::Complete(done))
                } else {
                    self.idx = (self.idx + 1) % 16;
                    Ok(RecvStep::Continue)
                }
            },
            Some(FrameType::FlowControl) => Ok(RecvStep::Continue),
            None => {
                self.reset();
                Err(Error::UnknownFrameType)
            },
        }
    }
}

/// The frame belongs to this endpoint: it arrived on the receive identifier
/// from the bus (not an echo) and, with extended addressing, starts with the
/// address byte.
pub open spec fn accepts_spec(cfg: IsoTPConfig, f: Frame) -> bool {
    &&& f.id == cfg.rx_
    &&& !f.loopback
    &&& cfg.ext_address_ matches Some(a) ==> f.data@.len() > 0 && f.data@[0] == a
}

/// Whether a received frame belongs to this endpoint.
pub fn accepts(cfg: &IsoTPConfig, f: &Frame) -> (r: bool)
    ensures
        r == accepts_spec(*cfg, *f),
{
    if f.id != cfg.rx_ || f.loopback {
        return false;
    }
    match cfg.ext_address_ {
        Some(a) => f.data.len() > 0 && f.data[0] == a,
        None => true,
    }
}

} // verus!
