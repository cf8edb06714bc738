use mini_runtime::http::{get_req, IoAction, IoEvent, Phase, ReadOutcome, READ_CHUNK};
use mini_runtime::{Http, HttpGetFuture, Reactor, ReadyQueue, Waker};

fn read(bytes: &[u8]) -> IoEvent {
    IoEvent::Read(ReadOutcome::Bytes(bytes.to_vec()))
}

fn closed() -> IoEvent {
    IoEvent::Read(ReadOutcome::Bytes(Vec::new()))
}

/// A request that has been opened, with the reactor and the queue of its
/// waker.
fn opened(path: &str) -> (HttpGetFuture, Reactor, ReadyQueue, Waker) {
    let queue = ReadyQueue::new();
    let waker = Waker::new(1, 5, queue.clone());
    let mut reactor = Reactor::new();
    let mut future = Http::get(path);
    let action = future.advance(&mut reactor, &waker, IoEvent::Polled);
    assert!(matches!(action, IoAction::Open { .. }));
    (future, reactor, queue, waker)
}

#[test]
fn the_request_is_written_out_exactly() {
    assert_eq!(
        get_req("/600/HelloAsyncAwait"),
        "GET /600/HelloAsyncAwait HTTP/1.1\r\nHost: localhost\r\nConnection: close\r\n\r\n"
    );
    assert_eq!(get_req(""), "GET  HTTP/1.1\r\nHost: localhost\r\nConnection: close\r\n\r\n");
    assert_eq!(
        get_req("/a b"),
        "GET /a b HTTP/1.1\r\nHost: localhost\r\nConnection: close\r\n\r\n"
    );
}

#[test]
fn a_read_fills_at_most_4096_bytes() {
    assert_eq!(READ_CHUNK, 4096);
}

#[test]
fn a_new_request_has_not_started() {
    let future = Http::get("/x");
    assert_eq!(future.phase(), Phase::NotStarted);
    assert_eq!(future.id(), 0);
    let future = HttpGetFuture::new(String::from("/y"));
    assert_eq!(future.phase(), Phase::NotStarted);
}

#[test]
fn the_first_poll_opens_the_connection_and_registers_the_waker() {
    let queue = ReadyQueue::new();
    let waker = Waker::new(3, 8, queue.clone());
    let mut reactor = Reactor::new();
    let mut future = Http::get("/600/HelloAsyncAwait");
    let action = future.advance(&mut reactor, &waker, IoEvent::Polled);
    assert_eq!(
        action,
        IoAction::Open {
            request: String::from(
                "GET /600/HelloAsyncAwait HTTP/1.1\r\nHost: localhost\r\nConnection: close\r\n\r\n"
            ),
            id: 1,
        }
    );
    assert_eq!(future.phase(), Phase::AwaitingReadable);
    assert_eq!(future.id(), 1);
    assert!(reactor.is_registered(1));
    assert_eq!(reactor.wake(1), Some(3));
    assert_eq!(queue.pop(), Some(8));
    assert_eq!(reactor.next_id(), 2);
}

#[test]
fn each_request_gets_an_operation_id_of_its_own() {
    let queue = ReadyQueue::new();
    let waker = Waker::new(0, 0, queue);
    let mut reactor = Reactor::new();
    let mut first = Http::get("/a");
    let mut second = Http::get("/b");
    assert!(matches!(
        first.advance(&mut reactor, &waker, IoEvent::Polled),
        IoAction::Open { id: 1, .. }
    ));
    assert!(matches!(
        second.advance(&mut reactor, &waker, IoEvent::Polled),
        IoAction::Open { id: 2, .. }
    ));
    assert_eq!(first.id(), 1);
    assert_eq!(second.id(), 2);
}

#[test]
fn a_later_poll_asks_for_a_read() {
    let (mut future, mut reactor, _queue, waker) = opened("/x");
    assert_eq!(future.advance(&mut reactor, &waker, IoEvent::Polled), IoAction::Read);
    assert_eq!(future.phase(), Phase::AwaitingReadable);
}

#[test]
fn bytes_are_kept_and_the_read_is_repeated() {
    let (mut future, mut reactor, _queue, waker) = opened("/x");
    assert_eq!(future.advance(&mut reactor, &waker, IoEvent::Polled), IoAction::Read);
    assert_eq!(future.advance(&mut reactor, &waker, read(b"Hello")), IoAction::Read);
    assert_eq!(future.advance(&mut reactor, &waker, read(b", ")), IoAction::Read);
    assert_eq!(future.advance(&mut reactor, &waker, read(b"world")), IoAction::Read);
    assert_eq!(
        future.advance(&mut reactor, &waker, closed()),
        IoAction::Finish(String::from("Hello, world"))
    );
    assert_eq!(future.phase(), Phase::Done);
}

#[test]
fn an_interrupted_read_is_retried_at_once() {
    let (mut future, mut reactor, queue, waker) = opened("/x");
    assert_eq!(
        future.advance(&mut reactor, &waker, IoEvent::Read(ReadOutcome::Interrupted)),
        IoAction::Read
    );
    assert_eq!(future.phase(), Phase::AwaitingReadable);
    assert!(reactor.is_registered(1));
    assert_eq!(queue.pop(), None);
}

#[test]
fn a_blocked_read_suspends_and_registers_the_current_waker() {
    let (mut future, mut reactor, old_queue, _old_waker) = opened("/x");
    let new_queue = ReadyQueue::new();
    let new_waker = Waker::new(9, 77, new_queue.clone());
    assert_eq!(future.advance(&mut reactor, &new_waker, IoEvent::Polled), IoAction::Read);
    assert_eq!(reactor.wake(1), Some(1));
    assert_eq!(old_queue.pop(), Some(5));
    assert_eq!(
        future.advance(&mut reactor, &new_waker, IoEvent::Read(ReadOutcome::WouldBlock)),
        IoAction::Suspend
    );
    assert_eq!(future.phase(), Phase::AwaitingReadable);
    assert_eq!(reactor.wake(1), Some(9));
    assert_eq!(new_queue.pop(), Some(77));
    assert_eq!(old_queue.pop(), None);
}

#[test]
fn the_close_of_the_connection_finishes_and_deregisters() {
    let (mut future, mut reactor, queue, waker) = opened("/x");
    assert_eq!(future.advance(&mut reactor, &waker, read(b"abc")), IoAction::Read);
    assert_eq!(
        future.advance(&mut reactor, &waker, closed()),
        IoAction::Finish(String::from("abc"))
    );
    assert_eq!(future.phase(), Phase::Done);
    assert!(!reactor.is_registered(1));
    assert_eq!(reactor.wake(1), None);
    assert_eq!(queue.pop(), None);
}

#[test]
fn an_empty_response_is_the_empty_text() {
    let (mut future, mut reactor, _queue, waker) = opened("/x");
    assert_eq!(future.advance(&mut reactor, &waker, closed()), IoAction::Finish(String::new()));
}

#[test]
fn a_failed_read_aborts_and_deregisters() {
    let (mut future, mut reactor, _queue, waker) = opened("/x");
    assert_eq!(future.advance(&mut reactor, &waker, read(b"abc")), IoAction::Read);
    assert_eq!(
        future.advance(&mut reactor, &waker, IoEvent::Read(ReadOutcome::Failed)),
        IoAction::Abort
    );
    assert_eq!(future.phase(), Phase::Done);
    assert!(!reactor.is_registered(1));
}

#[test]
fn the_response_is_the_bytes_sent_decoded_as_text() {
    let content = "HelloAsyncAwait \u{e9}\u{4e16}\u{754c}\r\n";
    let bytes = content.as_bytes();
    for size in [1, 2, 3, 5, bytes.len()] {
        let (mut future, mut reactor, _queue, waker) = opened("/echo");
        assert_eq!(future.advance(&mut reactor, &waker, IoEvent::Polled), IoAction::Read);
        for chunk in bytes.chunks(size) {
            assert_eq!(future.advance(&mut reactor, &waker, read(chunk)), IoAction::Read);
            assert_eq!(
                future.advance(&mut reactor, &waker, IoEvent::Read(ReadOutcome::WouldBlock)),
                IoAction::Suspend
            );
            assert_eq!(future.advance(&mut reactor, &waker, IoEvent::Polled), IoAction::Read);
        }
        assert_eq!(
            future.advance(&mut reactor, &waker, closed()),
            IoAction::Finish(String::from(content))
        );
    }
}

#[test]
fn invalid_sequences_are_replaced_not_refused() {
    let (mut future, mut reactor, _queue, waker) = opened("/x");
    assert_eq!(future.advance(&mut reactor, &waker, read(b"ab\xffcd")), IoAction::Read);
    assert_eq!(future.advance(&mut reactor, &waker, read(b"\xc3")), IoAction::Read);
    assert_eq!(
        future.advance(&mut reactor, &waker, closed()),
        IoAction::Finish(String::from("ab\u{fffd}cd\u{fffd}"))
    );
}

#[test]
fn a_response_longer_than_one_read_is_put_together() {
    let (mut future, mut reactor, _queue, waker) = opened("/x");
    let chunk = vec![b'a'; READ_CHUNK];
    let mut expected = String::new();
    for _ in 0..3 {
        assert_eq!(future.advance(&mut reactor, &waker, read(&chunk)), IoAction::Read);
        expected.push_str(&"a".repeat(READ_CHUNK));
    }
    assert_eq!(future.advance(&mut reactor, &waker, read(b"end")), IoAction::Read);
    expected.push_str("end");
    assert_eq!(future.advance(&mut reactor, &waker, closed()), IoAction::Finish(expected));
}

#[test]
fn a_close_finishes_even_if_the_operation_has_left_the_registry() {
    let (mut future, mut reactor, _queue, waker) = opened("/x");
    assert_eq!(future.advance(&mut reactor, &waker, read(b"abc")), IoAction::Read);
    reactor.deregister(1);
    assert!(!reactor.is_registered(1));
    assert_eq!(
        future.advance(&mut reactor, &waker, closed()),
        IoAction::Finish(String::from("abc"))
    );
    assert_eq!(future.phase(), Phase::Done);
    assert!(!reactor.is_registered(1));
}
