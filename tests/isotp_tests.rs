use automotive::can::{Frame, Identifier};
use automotive::isotp::session::accepts;
use automotive::isotp::codec::segment;
use automotive::isotp::session::{Reassembly, RecvStep, SendAction, Sender, TxPhase};
use automotive::isotp::{Error as IsoTPError, FlowControlConfig, IsoTPConfig};
use std::time::Duration;

/// Everything one transfer did: frames sent (payloads), sleeps, result.
struct Transfer {
    frames: Vec<Vec<u8>>,
    sleeps: Vec<Duration>,
    received: Option<Vec<u8>>,
    flow_controls: usize,
}

/// Runs a sender against an in-memory receiver. `fc` overrides the flow
/// control bytes the receiver answers with (address byte excluded).
fn run(tx_cfg: &IsoTPConfig, rx_cfg: &IsoTPConfig, data: &[u8], fc: Option<&[u8]>) -> Transfer {
    let mut sender = Sender::new(tx_cfg, data).unwrap();
    let mut rx = Reassembly::new();
    let mut out = Transfer { frames: vec![], sleeps: vec![], received: None, flow_controls: 0 };
    let mut pending_fc: Option<Vec<u8>> = None;
    loop {
        match sender.next_action() {
            SendAction::Transmit(f) => {
                assert_eq!(f.id, tx_cfg.tx_);
                out.frames.push(f.data.clone());
                match rx.on_frame(rx_cfg, &f.data).unwrap() {
                    RecvStep::Complete(v) => out.received = Some(v),
                    RecvStep::SendFlowControl(fcf) => pending_fc = Some(fcf.data.clone()),
                    RecvStep::SendFlowControlAndComplete(_, v) => out.received = Some(v),
                    RecvStep::Continue => {}
                }
            }
            SendAction::AwaitFlowControl => {
                let bytes = match fc {
                    Some(b) => {
                        let mut v = vec![];
                        if let Some(a) = rx_cfg.ext_address_ {
                            v.push(a);
                        }
                        v.extend_from_slice(b);
                        v
                    }
                    None => pending_fc.take().expect("flow control"),
                };
                out.flow_controls += 1;
                sender.on_flow_control(&bytes).unwrap();
            }
            SendAction::Sleep(d) => out.sleeps.push(d),
            SendAction::Done => break,
        }
    }
    out
}

fn pair(padding: Option<u8>, fd: bool, ext: Option<u8>) -> (IsoTPConfig, IsoTPConfig) {
    let tx = IsoTPConfig::new(0, Identifier::Standard(0x7a1))
        .padding(padding)
        .fd(fd)
        .ext_address(ext);
    let rx = IsoTPConfig::new(0, Identifier::Standard(0x7a9))
        .rx(Identifier::Standard(0x7a1))
        .padding(padding)
        .fd(fd)
        .ext_address(ext);
    (tx, rx)
}

fn echo(msg_len: usize, padding: Option<u8>, fd: bool, ext: Option<u8>) {
    let (tx, rx) = pair(padding, fd, ext);
    let request = vec![0xaa; msg_len];
    let t = run(&tx, &rx, &request, None);
    assert_eq!(t.received, Some(request));
}

#[test]
fn single_frame_without_padding() {
    let (tx, _) = pair(None, false, None);
    let frames = segment(&tx, &[0x3e, 0x00]).unwrap();
    assert_eq!(frames.len(), 1);
    assert_eq!(frames[0].data, vec![0x02, 0x3e, 0x00]);
    assert_eq!(frames[0].id, Identifier::Standard(0x7a1));
    assert!(!frames[0].fd);
}

#[test]
fn single_frame_with_default_padding() {
    let tx = IsoTPConfig::default().tx(Identifier::Standard(0x7a1));
    assert_eq!(tx.rx_, Identifier::Standard(0x7a9));
    let frames = segment(&tx, &[0x3e, 0x00]).unwrap();
    assert_eq!(frames[0].data, vec![0x02, 0x3e, 0x00, 0xaa, 0xaa, 0xaa, 0xaa, 0xaa]);
}

#[test]
fn multi_frame_default_config() {
    let tx = IsoTPConfig::default().tx(Identifier::Standard(0x7a1));
    let mut rx_cfg = IsoTPConfig::default().tx(Identifier::Standard(0x7a9));
    rx_cfg = rx_cfg.rx(Identifier::Standard(0x7a1));
    let data = vec![0xaa; 64];
    let t = run(&tx, &rx_cfg, &data, Some(&[0x30, 0x00, 0x00, 0xaa, 0xaa, 0xaa, 0xaa, 0xaa]));
    assert_eq!(t.frames[0], vec![0x10, 0x40, 0xaa, 0xaa, 0xaa, 0xaa, 0xaa, 0xaa]);
    assert_eq!(t.frames.len(), 10);
    for (i, f) in t.frames[1..].iter().enumerate() {
        assert_eq!(f.len(), 8);
        assert_eq!(f[0], 0x21 + i as u8);
        assert!(f[1..].iter().all(|&b| b == 0xaa));
    }
    assert_eq!(t.flow_controls, 1);
    assert_eq!(t.sleeps.len(), 8);
    assert_eq!(t.received, Some(data));
}

#[test]
fn receiver_flow_control_frame() {
    let (_, rx) = pair(Some(0xaa), false, None);
    let mut r = Reassembly::new();
    let step = r.on_frame(&rx, &[0x10, 0x14, 1, 2, 3, 4, 5, 6]).unwrap();
    match step {
        RecvStep::SendFlowControl(f) => {
            assert_eq!(f.data, vec![0x30, 0x00, 0x00, 0xaa, 0xaa, 0xaa, 0xaa, 0xaa]);
            assert_eq!(f.id, Identifier::Standard(0x7a9));
        }
        _ => panic!("expected a flow control"),
    }
}

#[test]
fn isotp_test_flow_control() {
    for len in [1, 7, 62, 64, 256] {
        echo(len, Some(0xaa), false, None);
    }
}

#[test]
fn isotp_test_padding() {
    for len in [1, 5, 62, 64] {
        echo(len, Some(0xcc), false, None);
        echo(len, None, false, None);
    }
    let (tx, _) = pair(Some(0xcc), false, None);
    let frames = segment(&tx, &[1, 2, 3, 4, 5]).unwrap();
    assert_eq!(frames[0].data, vec![0x05, 1, 2, 3, 4, 5, 0xcc, 0xcc]);
}

#[test]
fn isotp_test_stmin() {
    let (tx, rx) = pair(Some(0xaa), false, None);
    let t = run(&tx, &rx, &[0xaa; 64], Some(&[0x30, 0x00, 50]));
    assert_eq!(t.sleeps.len(), 8);
    assert!(t.sleeps.iter().all(|d| *d == Duration::from_millis(50)));
    // A configured separation time takes precedence over the peer's.
    let tx = tx.separation_time_min(Some(Duration::from_millis(2)));
    let t = run(&tx, &rx, &[0xaa; 64], Some(&[0x30, 0x00, 0xf3]));
    assert!(t.sleeps.iter().all(|d| *d == Duration::from_millis(2)));
}

#[test]
fn isotp_test_bs() {
    for bs in 1..=8u8 {
        let (tx, rx) = pair(Some(0xaa), false, None);
        let data = vec![0xaa; 64];
        let t = run(&tx, &rx, &data, Some(&[0x30, bs, 0x00]));
        assert_eq!(t.received, Some(data));
        // One flow control after the first frame, then one after every
        // `bs` consecutive frames but the last.
        let cfs = 9usize;
        assert_eq!(t.flow_controls, 1 + (cfs - 1) / bs as usize);
    }
}

#[test]
fn isotp_test_fd() {
    for len in [62, 50, 256, 5000] {
        echo(len, Some(0xaa), true, None);
    }
    let (tx, _) = pair(Some(0xaa), true, None);
    let frames = segment(&tx, &[0xaa; 50]).unwrap();
    assert_eq!(frames.len(), 1);
    assert_eq!(&frames[0].data[..2], &[0x00, 50]);
    assert_eq!(frames[0].data.len(), 64);
    let frames = segment(&tx, &vec![0xaa; 5000]).unwrap();
    assert_eq!(&frames[0].data[..6], &[0x10, 0x00, 0x00, 0x00, 0x13, 0x88]);
    assert_eq!(frames[0].data.len(), 64);
}

#[test]
fn isotp_test_extended() {
    for len in [1, 7, 62, 64, 256] {
        echo(len, Some(0xaa), false, Some(0xff));
    }
    let (tx, _) = pair(Some(0xaa), false, Some(0xff));
    let frames = segment(&tx, &[1, 2]).unwrap();
    assert_eq!(frames[0].data, vec![0xff, 0x02, 1, 2, 0xaa, 0xaa, 0xaa, 0xaa]);
}

#[test]
fn isotp_test_fd_extended() {
    for len in [62, 50, 256, 5000] {
        echo(len, Some(0xaa), true, Some(0xff));
    }
}

#[test]
fn data_too_large() {
    let (tx, _) = pair(Some(0xaa), false, None);
    assert_eq!(segment(&tx, &vec![0u8; 4096]).unwrap_err(), IsoTPError::DataTooLarge);
    assert!(Sender::new(&tx, &vec![0u8; 4096]).is_err());
    assert!(segment(&tx, &vec![0u8; 4095]).is_ok());
}

#[test]
fn flow_control_wait_overflow_and_errors() {
    let (tx, _) = pair(Some(0xaa), false, None);
    let data = vec![0u8; 20];
    let mut s = Sender::new(&tx, &data).unwrap();
    assert!(matches!(s.next_action(), SendAction::Transmit(_)));
    assert!(matches!(s.next_action(), SendAction::AwaitFlowControl));
    for _ in 0..10 {
        assert_eq!(s.on_flow_control(&[0x31, 0, 0]), Ok(()));
    }
    assert_eq!(s.on_flow_control(&[0x31, 0, 0]), Err(IsoTPError::TooManyFCWait));
    assert!(matches!(s.next_action(), SendAction::Done));

    let mut s = Sender::new(&tx, &data).unwrap();
    s.next_action();
    assert_eq!(s.on_flow_control(&[0x32, 0, 0]), Err(IsoTPError::Overflow));
    let mut s = Sender::new(&tx, &data).unwrap();
    s.next_action();
    assert_eq!(s.on_flow_control(&[0x21, 0, 0]), Err(IsoTPError::FlowControl));
    let mut s = Sender::new(&tx, &data).unwrap();
    s.next_action();
    assert_eq!(s.on_flow_control(&[0x33, 0, 0]), Err(IsoTPError::MalformedFrame));
    let mut s = Sender::new(&tx, &data).unwrap();
    s.next_action();
    assert_eq!(s.on_flow_control(&[0x30, 0, 0x80]), Err(IsoTPError::MalformedFrame));
    let mut s = Sender::new(&tx, &data).unwrap();
    s.next_action();
    assert_eq!(s.on_flow_control(&[0x31, 0, 0]), Ok(()));
    assert_eq!(s.on_flow_control(&[0x30, 0, 0]), Ok(()));
    assert!(matches!(s.next_action(), SendAction::Transmit(_)));
    let _ = TxPhase::Transmit;
}

#[test]
fn flow_control_config_st_min() {
    let c = FlowControlConfig::try_from_payload(&[0x30, 4, 0x7f]).unwrap();
    assert_eq!(c.block_size, 4);
    assert_eq!(c.separation_time_min, Duration::from_millis(127));
    let c = FlowControlConfig::try_from_payload(&[0x30, 0, 0xf1]).unwrap();
    assert_eq!(c.separation_time_min, Duration::from_micros(100));
    let c = FlowControlConfig::try_from_payload(&[0x30, 0, 0xf9]).unwrap();
    assert_eq!(c.separation_time_min, Duration::from_micros(900));
    assert!(FlowControlConfig::try_from_payload(&[0x30, 0, 0xf0]).is_err());
    assert!(FlowControlConfig::try_from_payload(&[0x30, 0, 0xfa]).is_err());
    assert!(FlowControlConfig::try_from_payload(&[0x30, 0]).is_err());
}

#[test]
fn reassembly_errors() {
    let (_, rx) = pair(Some(0xaa), false, None);
    let mut r = Reassembly::new();
    assert_eq!(r.on_frame(&rx, &[0x21, 1, 2, 3, 4, 5, 6, 7]).err(), Some(IsoTPError::OutOfOrder));
    assert_eq!(r.on_frame(&rx, &[0x45, 1]).err(), Some(IsoTPError::UnknownFrameType));
    assert_eq!(r.on_frame(&rx, &[0x05, 1, 2]).err(), Some(IsoTPError::MalformedFrame));
    assert!(matches!(r.on_frame(&rx, &[0x30, 0, 0]), Ok(RecvStep::Continue)));
    // First frame that is not full length.
    assert_eq!(r.on_frame(&rx, &[0x10, 0x14, 1, 2]).err(), Some(IsoTPError::MalformedFrame));
    // Wrong sequence number.
    assert!(matches!(r.on_frame(&rx, &[0x10, 0x14, 1, 2, 3, 4, 5, 6]), Ok(RecvStep::SendFlowControl(_))));
    assert_eq!(r.on_frame(&rx, &[0x22, 1, 2, 3, 4, 5, 6, 7]).err(), Some(IsoTPError::OutOfOrder));
    // A second first frame while receiving.
    assert!(matches!(r.on_frame(&rx, &[0x10, 0x14, 1, 2, 3, 4, 5, 6]), Ok(RecvStep::SendFlowControl(_))));
    assert_eq!(r.on_frame(&rx, &[0x10, 0x14, 1, 2, 3, 4, 5, 6]).err(), Some(IsoTPError::OutOfOrder));
    // Short consecutive frame that is not the last.
    assert!(matches!(r.on_frame(&rx, &[0x10, 0x14, 1, 2, 3, 4, 5, 6]), Ok(RecvStep::SendFlowControl(_))));
    assert_eq!(r.on_frame(&rx, &[0x21, 1, 2]).err(), Some(IsoTPError::MalformedFrame));
}

#[test]
fn first_frame_carrying_whole_datagram() {
    let (_, rx) = pair(Some(0xaa), false, None);
    let mut r = Reassembly::new();
    match r.on_frame(&rx, &[0x10, 0x03, 1, 2, 3, 4, 5, 6]).unwrap() {
        RecvStep::SendFlowControlAndComplete(f, v) => {
            assert_eq!(f.data, vec![0x30, 0x00, 0x00, 0xaa, 0xaa, 0xaa, 0xaa, 0xaa]);
            assert_eq!(v, vec![1, 2, 3]);
        }
        _ => panic!("expected a flow control and a complete datagram"),
    }
    // The next datagram starts over.
    assert!(matches!(r.on_frame(&rx, &[0x02, 7, 8]), Ok(RecvStep::Complete(_))));
}

#[test]
fn reassembly_truncates_last_frame() {
    let (_, rx) = pair(Some(0xaa), false, None);
    let mut r = Reassembly::new();
    assert!(matches!(r.on_frame(&rx, &[0x10, 0x08, 1, 2, 3, 4, 5, 6]), Ok(RecvStep::SendFlowControl(_))));
    match r.on_frame(&rx, &[0x21, 7, 8, 0xaa, 0xaa, 0xaa, 0xaa, 0xaa]).unwrap() {
        RecvStep::Complete(v) => assert_eq!(v, vec![1, 2, 3, 4, 5, 6, 7, 8]),
        _ => panic!("expected a complete datagram"),
    }
}

#[test]
fn config_builders() {
    let c = IsoTPConfig::new(1, Identifier::Extended(0x18da10f1));
    assert_eq!(c.bus_, 1);
    assert_eq!(c.rx_, Identifier::Extended(0x18daf110));
    assert_eq!(c.timeout_, Duration::from_millis(100));
    let c = IsoTPConfig::default().tx(Identifier::Standard(0x700)).rx_offset(0x10);
    assert_eq!(c.rx_, Identifier::Standard(0x710));
    let c = c.max_dlen(Some(64)).fd(true).timeout(Duration::from_secs(1));
    assert_eq!(c.max_dlen_, Some(64));
    assert!(c.fd_);
    assert_eq!(c.timeout_, Duration::from_secs(1));
}

#[test]
fn accepts_filters_frames() {
    let (_, rx) = pair(Some(0xaa), false, Some(0x55));
    let rx = rx.rx(Identifier::Standard(0x7a1));
    let f = Frame::new(0, Identifier::Standard(0x7a1), &[0x55, 0x01, 0x02]).unwrap();
    assert!(accepts(&rx, &f));
    assert!(!accepts(&rx, &f.with_loopback(true)));
    let g = Frame::new(0, Identifier::Standard(0x7a1), &[0x54, 0x01, 0x02]).unwrap();
    assert!(!accepts(&rx, &g));
    let h = Frame::new(0, Identifier::Standard(0x7a2), &[0x55, 0x01, 0x02]).unwrap();
    assert!(!accepts(&rx, &h));
}
