use automotive::can::{Frame, Identifier};
use automotive::dispatch::{EchoError, PendingSends};

fn frame(bus: u8, id: u32, data: &[u8]) -> Frame {
    Frame::new(bus, Identifier::Standard(id), data).unwrap()
}

#[test]
fn echoes_resolve_sends_in_order_per_key() {
    let mut reg = PendingSends::new();
    let frames: Vec<Frame> = (0..5u8).map(|i| frame(0, 0x7a1, &[i])).collect();
    let tickets: Vec<u64> = frames.iter().map(|f| reg.register(f).unwrap()).collect();
    assert_eq!(reg.len(), 5);
    let mut resolved = vec![];
    for f in &frames {
        resolved.push(reg.on_loopback(&f.with_loopback(true)).unwrap());
    }
    assert_eq!(resolved, tickets);
    assert_eq!(reg.len(), 0);
}

#[test]
fn keys_are_independent() {
    let mut reg = PendingSends::new();
    let a = frame(0, 0x100, &[1]);
    let b = frame(1, 0x100, &[2]);
    let c = frame(0, 0x200, &[3]);
    let ta = reg.register(&a).unwrap();
    let tb = reg.register(&b).unwrap();
    let tc = reg.register(&c).unwrap();
    assert_eq!(reg.on_loopback(&c.with_loopback(true)), Ok(tc));
    assert_eq!(reg.on_loopback(&b.with_loopback(true)), Ok(tb));
    assert_eq!(reg.on_loopback(&a.with_loopback(true)), Ok(ta));
}

#[test]
fn each_send_is_resolved_once() {
    let mut reg = PendingSends::new();
    let a = frame(0, 0x100, &[1, 2]);
    let t = reg.register(&a).unwrap();
    assert_eq!(reg.on_loopback(&a.with_loopback(true)), Ok(t));
    assert_eq!(reg.on_loopback(&a.with_loopback(true)), Err(EchoError::NoPendingSend));
}

#[test]
fn mismatched_echo_is_reported() {
    let mut reg = PendingSends::new();
    let a = frame(0, 0x100, &[1, 2]);
    reg.register(&a).unwrap();
    let other = frame(0, 0x100, &[9, 9]);
    assert_eq!(reg.on_loopback(&other.with_loopback(true)), Err(EchoError::Mismatch));
    assert_eq!(reg.len(), 0);
}

#[test]
fn tickets_are_fresh() {
    let mut reg = PendingSends::new();
    let a = frame(0, 0x100, &[1]);
    assert_eq!(reg.register(&a), Some(0));
    assert_eq!(reg.register(&a), Some(1));
}
