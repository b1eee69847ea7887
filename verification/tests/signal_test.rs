use std::future::Future;
use std::sync::atomic::{AtomicBool, Ordering};
use std::sync::Arc;
use std::task::{Context, Poll, Wake, Waker};

use embedded_recruitment_task::client::{
    Action, Client, DecodeOutcome, Event, ReadOutcome, WriteOutcome,
};
use embedded_recruitment_task::message::{ClientMessage, EchoMessage, Request, Response, ServerMessage};
use embedded_recruitment_task::server::{Server, ServerAction, ServerEvent, StopOutcome};

/// Remembers whether it was woken.
struct Flag(AtomicBool);

impl Wake for Flag {
    fn wake(self: Arc<Self>) {
        self.0.store(true, Ordering::SeqCst);
    }
}

#[test]
fn stop_wakes_a_task_that_waits() {
    let mut server = Server::new(8080);
    assert_eq!(server.run::<String>(ServerEvent::Started), ServerAction::Accept);

    let notifier = server.shutdown_notify();
    let mut waiting = Box::pin(notifier.notified());
    let flag = Arc::new(Flag(AtomicBool::new(false)));
    let waker = Waker::from(flag.clone());
    let mut context = Context::from_waker(&waker);
    assert!(waiting.as_mut().poll(&mut context).is_pending());
    assert!(!flag.0.load(Ordering::SeqCst));

    assert_eq!(server.stop(), StopOutcome::Signalled);
    assert!(flag.0.load(Ordering::SeqCst));
    assert_eq!(waiting.as_mut().poll(&mut context), Poll::Ready(()));
}

#[test]
fn a_stop_of_a_stopped_server_wakes_nobody() {
    let mut server = Server::new(8080);

    let notifier = server.shutdown_notify();
    let mut waiting = Box::pin(notifier.notified());
    let flag = Arc::new(Flag(AtomicBool::new(false)));
    let waker = Waker::from(flag.clone());
    let mut context = Context::from_waker(&waker);
    assert!(waiting.as_mut().poll(&mut context).is_pending());

    assert_eq!(server.stop(), StopOutcome::AlreadyStopped);
    assert!(!flag.0.load(Ordering::SeqCst));
    assert!(waiting.as_mut().poll(&mut context).is_pending());
}

#[test]
fn a_stop_ends_a_wait_for_a_connection() {
    let mut server = Server::new(8080);
    assert_eq!(server.run::<String>(ServerEvent::Started), ServerAction::Accept);

    // The caller waits for a connection and for the signal.
    let notifier = server.shutdown_notify();
    let mut waiting = Box::pin(notifier.notified());
    assert!(!server.shutdown_notified());
    let flag = Arc::new(Flag(AtomicBool::new(false)));
    let waker = Waker::from(flag.clone());
    let mut context = Context::from_waker(&waker);
    assert!(waiting.as_mut().poll(&mut context).is_pending());
    assert!(!server.accepts(&ServerEvent::<String>::ShutdownNotified));

    // No connection comes; the stop alone ends the loop.
    assert_eq!(server.stop(), StopOutcome::Signalled);
    assert_eq!(waiting.as_mut().poll(&mut context), Poll::Ready(()));
    assert!(server.accepts(&ServerEvent::<String>::ShutdownNotified));
    assert_eq!(server.run::<String>(ServerEvent::ShutdownNotified), ServerAction::Finish(Ok(())));
    assert!(!server.is_running());
}

#[test]
fn the_notifier_is_one_and_the_same() {
    let mut server = Server::new(8080);
    let first = server.shutdown_notify();
    assert_eq!(server.run::<String>(ServerEvent::Started), ServerAction::Accept);
    assert_eq!(server.stop(), StopOutcome::Signalled);
    let second = server.shutdown_notify();
    assert!(Arc::ptr_eq(&first, &second));
    let other = Server::new(8080);
    assert!(!Arc::ptr_eq(&first, &other.shutdown_notify()));
}

/// One echo exchange on `client`, which waits for a read with `buffer` out.
fn exchange(client: &mut Client, buffer: Vec<u8>, content: &str) -> (String, Vec<u8>) {
    let read = Event::<String>::Read { buffer, outcome: ReadOutcome::Data(content.len().max(1)) };
    assert!(matches!(client.handle(read), Action::Decode(_)));
    let request = Request::EchoMessage(EchoMessage { content: content.to_string() });
    let decoded = DecodeOutcome::Message(ClientMessage { message: Some(request) });
    let echoed = match client.handle::<String>(Event::Decoded(decoded)) {
        Action::Send(ServerMessage {
            message: Some(Response::EchoMessage(echo)),
        }) => echo.content,
        other => panic!("unexpected action: {:?}", other),
    };
    match client.handle::<String>(Event::Written(WriteOutcome::Flushed)) {
        Action::Read(buffer) => (echoed, buffer),
        other => panic!("unexpected action: {:?}", other),
    }
}

fn invoked() -> (Client, Vec<u8>) {
    let mut client = Client::new();
    match client.handle::<String>(Event::Invoked) {
        Action::Read(buffer) => (client, buffer),
        other => panic!("unexpected action: {:?}", other),
    }
}

#[test]
fn replies_come_in_the_order_of_the_requests() {
    let (mut client, mut buffer) = invoked();
    let contents = ["first", "second", "", "fourth", "second"];
    let mut replies: Vec<String> = Vec::new();
    for content in contents {
        let (echoed, next) = exchange(&mut client, buffer, content);
        buffer = next;
        replies.push(echoed);
    }
    assert_eq!(replies, vec!["first", "second", "", "fourth", "second"]);
}

#[test]
fn clients_do_not_talk_across() {
    let (mut a, mut buffer_a) = invoked();
    let (mut b, mut buffer_b) = invoked();
    for round in 0..3 {
        let for_a = format!("a{}", round);
        let for_b = format!("b{}", round);
        // The two exchanges overlap: both reads come before either reply.
        buffer_a[..2].copy_from_slice(for_a.as_bytes());
        buffer_b[..2].copy_from_slice(for_b.as_bytes());
        let read_a = Event::<String>::Read { buffer: buffer_a, outcome: ReadOutcome::Data(2) };
        let read_b = Event::<String>::Read { buffer: buffer_b, outcome: ReadOutcome::Data(2) };
        assert_eq!(a.handle(read_a), Action::Decode(for_a.clone().into_bytes()));
        assert_eq!(b.handle(read_b), Action::Decode(for_b.clone().into_bytes()));
        let echo_a = EchoMessage { content: for_a };
        let echo_b = EchoMessage { content: for_b };
        let decoded_b = DecodeOutcome::Message(ClientMessage {
            message: Some(Request::EchoMessage(echo_b.clone())),
        });
        let decoded_a = DecodeOutcome::Message(ClientMessage {
            message: Some(Request::EchoMessage(echo_a.clone())),
        });
        assert_eq!(
            b.handle::<String>(Event::Decoded(decoded_b)),
            Action::Send(ServerMessage {
                message: Some(Response::EchoMessage(echo_b))
            })
        );
        assert_eq!(
            a.handle::<String>(Event::Decoded(decoded_a)),
            Action::Send(ServerMessage {
                message: Some(Response::EchoMessage(echo_a))
            })
        );
        buffer_a = match a.handle::<String>(Event::Written(WriteOutcome::Flushed)) {
            Action::Read(buffer) => buffer,
            other => panic!("unexpected action: {:?}", other),
        };
        buffer_b = match b.handle::<String>(Event::Written(WriteOutcome::Flushed)) {
            Action::Read(buffer) => buffer,
            other => panic!("unexpected action: {:?}", other),
        };
    }
}
