use futures::future;
use futures::task;
use futures::Async;

use relm_core::arena::StreamArena;
use relm_core::convert::{Converter, Identity};
use relm_core::stream::Polled;

fn poll_now<M: Copy, C: Converter<M>>(arena: &mut StreamArena<M, C>, id: usize) -> Polled<M> {
    let mut spawn = futures::executor::spawn(future::poll_fn(|| {
        Ok::<_, ()>(Async::Ready(arena.stream_mut(id).poll(task::current())))
    }));
    spawn.wait_future().unwrap()
}

#[test]
fn fifo_three_messages() {
    let mut arena: StreamArena<u64, Identity> = StreamArena::new();
    let id = arena.create();
    arena.emit(id, 1);
    arena.emit(id, 2);
    arena.emit(id, 3);
    assert_eq!(arena.stream(id).pending_events(), 3);
    assert_eq!(poll_now(&mut arena, id), Polled::Ready(1));
    assert_eq!(poll_now(&mut arena, id), Polled::Ready(2));
    assert_eq!(poll_now(&mut arena, id), Polled::Ready(3));
    assert_eq!(poll_now(&mut arena, id), Polled::NotReady);
}

#[test]
fn lock_suppresses_and_drops() {
    let mut arena: StreamArena<u64, Identity> = StreamArena::new();
    let id = arena.create();
    arena.stream_mut(id).lock();
    assert!(arena.stream(id).is_locked());
    arena.emit(id, 41);
    arena.stream_mut(id).unlock();
    assert!(!arena.stream(id).is_locked());
    assert_eq!(arena.stream(id).pending_events(), 0);
    assert_eq!(poll_now(&mut arena, id), Polled::NotReady);
    arena.emit(id, 42);
    assert_eq!(poll_now(&mut arena, id), Polled::Ready(42));
}

#[test]
fn close_terminal_and_idempotent() {
    let mut arena: StreamArena<u64, Identity> = StreamArena::new();
    let id = arena.create();
    arena.emit(id, 7);
    arena.stream_mut(id).close();
    assert!(arena.stream(id).is_terminated());
    arena.stream_mut(id).close();
    assert!(arena.stream(id).is_terminated());
    assert_eq!(poll_now(&mut arena, id), Polled::Closed);
    assert_eq!(poll_now(&mut arena, id), Polled::Closed);
}

#[test]
fn emit_after_close_is_dropped() {
    let mut arena: StreamArena<u64, Identity> = StreamArena::new();
    let id = arena.create();
    arena.stream_mut(id).close();
    arena.emit(id, 5);
    assert_eq!(arena.stream(id).pending_events(), 0);
    assert_eq!(poll_now(&mut arena, id), Polled::Closed);
}

#[test]
fn lock_on_closed_stream_is_inert() {
    let mut arena: StreamArena<u64, Identity> = StreamArena::new();
    let id = arena.create();
    arena.stream_mut(id).close();
    arena.stream_mut(id).lock();
    assert!(!arena.stream(id).is_locked());
    assert!(arena.stream(id).is_terminated());
}

#[test]
fn no_cross_stream_ordering() {
    let mut arena: StreamArena<u64, Identity> = StreamArena::new();
    let a = arena.create();
    let b = arena.create();
    arena.emit(a, 1);
    arena.emit(b, 10);
    arena.emit(a, 2);
    arena.emit(b, 20);
    assert_eq!(poll_now(&mut arena, b), Polled::Ready(10));
    assert_eq!(poll_now(&mut arena, a), Polled::Ready(1));
    assert_eq!(poll_now(&mut arena, b), Polled::Ready(20));
    assert_eq!(poll_now(&mut arena, a), Polled::Ready(2));
}

#[test]
fn arena_indices_are_stable() {
    let mut arena: StreamArena<u64, Identity> = StreamArena::new();
    assert_eq!(arena.len(), 0);
    let a = arena.create();
    let b = arena.create();
    let c = arena.create();
    assert_eq!((a, b, c), (0, 1, 2));
    assert_eq!(arena.len(), 3);
    arena.emit(b, 9);
    assert_eq!(arena.stream(a).pending_events(), 0);
    assert_eq!(arena.stream(b).pending_events(), 1);
    assert_eq!(arena.stream(c).pending_events(), 0);
}
