use futures::future;
use futures::task;
use futures::Async;

use relm_core::arena::StreamArena;
use relm_core::convert::{Converter, Identity};
use relm_core::stream::Polled;

struct Double;

impl Converter<u64> for Double {
    fn conv(&self, m: u64) -> u64 {
        m * 2
    }

    fn convert(&self, m: u64) -> u64 {
        m * 2
    }
}

struct Offset(u64);

impl Converter<u64> for Offset {
    fn conv(&self, m: u64) -> u64 {
        m + self.0
    }

    fn convert(&self, m: u64) -> u64 {
        m + self.0
    }
}

enum Wire {
    Keep,
    Double,
    Offset(u64),
}

impl Converter<u64> for Wire {
    fn conv(&self, m: u64) -> u64 {
        self.convert(m)
    }

    fn convert(&self, m: u64) -> u64 {
        match self {
            Wire::Keep => m,
            Wire::Double => m * 2,
            Wire::Offset(k) => m + k,
        }
    }
}

fn poll_now<M: Copy, C: Converter<M>>(arena: &mut StreamArena<M, C>, id: usize) -> Polled<M> {
    let mut spawn = futures::executor::spawn(future::poll_fn(|| {
        Ok::<_, ()>(Async::Ready(arena.stream_mut(id).poll(task::current())))
    }));
    spawn.wait_future().unwrap()
}

#[test]
fn fan_out_via_converter() {
    let mut arena: StreamArena<u64, Double> = StreamArena::new();
    let s = arena.create();
    let t = arena.create();
    arena.stream_mut(s).observe(Double, t);
    arena.emit(s, 21);
    assert_eq!(poll_now(&mut arena, t), Polled::Ready(42));
    assert_eq!(poll_now(&mut arena, s), Polled::Ready(21));
}

#[test]
fn identity_converter_forwards_unchanged() {
    let mut arena: StreamArena<u64, Identity> = StreamArena::new();
    let s = arena.create();
    let t = arena.create();
    arena.stream_mut(s).observe(Identity, t);
    arena.emit(s, 17);
    assert_eq!(poll_now(&mut arena, t), Polled::Ready(17));
}

#[test]
fn observers_run_in_registration_order() {
    let mut arena: StreamArena<u64, Wire> = StreamArena::new();
    let s = arena.create();
    let t = arena.create();
    arena.stream_mut(s).observe(Wire::Double, t);
    arena.stream_mut(s).observe(Wire::Offset(1), t);
    arena.emit(s, 10);
    assert_eq!(poll_now(&mut arena, t), Polled::Ready(20));
    assert_eq!(poll_now(&mut arena, t), Polled::Ready(11));
}

#[test]
fn observe_is_not_retroactive() {
    let mut arena: StreamArena<u64, Identity> = StreamArena::new();
    let s = arena.create();
    let t = arena.create();
    arena.emit(s, 1);
    arena.stream_mut(s).observe(Identity, t);
    assert_eq!(arena.stream(t).pending_events(), 0);
    arena.emit(s, 2);
    assert_eq!(poll_now(&mut arena, t), Polled::Ready(2));
}

#[test]
fn locked_source_suppresses_fan_out() {
    let mut arena: StreamArena<u64, Identity> = StreamArena::new();
    let s = arena.create();
    let t = arena.create();
    arena.stream_mut(s).observe(Identity, t);
    arena.stream_mut(s).lock();
    arena.emit(s, 3);
    assert_eq!(arena.stream(s).pending_events(), 0);
    assert_eq!(arena.stream(t).pending_events(), 0);
}

#[test]
fn locked_target_drops_forwarded_message() {
    let mut arena: StreamArena<u64, Identity> = StreamArena::new();
    let s = arena.create();
    let t = arena.create();
    arena.stream_mut(s).observe(Identity, t);
    arena.stream_mut(t).lock();
    arena.emit(s, 4);
    assert_eq!(arena.stream(s).pending_events(), 1);
    assert_eq!(arena.stream(t).pending_events(), 0);
}

#[test]
fn forwarding_is_single_hop() {
    let mut arena: StreamArena<u64, Identity> = StreamArena::new();
    let s = arena.create();
    let t = arena.create();
    let u = arena.create();
    arena.stream_mut(s).observe(Identity, t);
    arena.stream_mut(t).observe(Identity, u);
    arena.emit(s, 5);
    assert_eq!(arena.stream(t).pending_events(), 1);
    assert_eq!(arena.stream(u).pending_events(), 0);
}

#[test]
fn dangling_target_forwards_to_nobody() {
    let mut arena: StreamArena<u64, Identity> = StreamArena::new();
    let s = arena.create();
    arena.stream_mut(s).observe(Identity, 7);
    arena.emit(s, 6);
    assert_eq!(arena.stream(s).pending_events(), 1);
    assert_eq!(arena.len(), 1);
}

#[test]
fn self_edge_delivers_converted_before_own_message() {
    let mut arena: StreamArena<u64, Double> = StreamArena::new();
    let s = arena.create();
    arena.stream_mut(s).observe(Double, s);
    arena.emit(s, 8);
    assert_eq!(poll_now(&mut arena, s), Polled::Ready(16));
    assert_eq!(poll_now(&mut arena, s), Polled::Ready(8));
}
