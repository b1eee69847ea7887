use embedded_recruitment_task::client::{
    Action, Client, Completion, DecodeOutcome, Event, ReadOutcome, WriteOutcome,
};
use embedded_recruitment_task::message::{
    AddRequest, ClientMessage, EchoMessage, Request, Response, ServerMessage,
};
use embedded_recruitment_task::server::{
    Server, ServerAction, ServerEvent, StopOutcome, Supervision,
};

/// A server that has been started.
fn create_server(port: u16) -> Server {
    let mut server = Server::new(port);
    assert_eq!(server.run::<String>(ServerEvent::Started), ServerAction::Accept);
    server
}

/// Accepts one connection on `server` and gives back its handler, invoked and
/// with its first read asked for.
fn connect(server: &mut Server) -> (Client, Vec<u8>) {
    assert_eq!(server.run::<String>(ServerEvent::Accepted), ServerAction::Spawn);
    assert_eq!(server.run::<String>(ServerEvent::Spawned), ServerAction::Accept);
    assert_eq!(server.handle_client::<String>(None), Supervision::Invoke);
    let mut client = Client::new();
    match client.handle::<String>(Event::Invoked) {
        Action::Read(buffer) => (client, buffer),
        other => panic!("Failed to connect to the server: {:?}", other),
    }
}

/// Sends one request over the connection: `wire` stands for its encoded
/// bytes. Gives back the reply and the buffer of the next read.
fn send(
    client: &mut Client,
    mut buffer: Vec<u8>,
    wire: &[u8],
    message: Request,
) -> (ServerMessage, Vec<u8>) {
    buffer[..wire.len()].copy_from_slice(wire);
    let read = Event::<String>::Read { buffer, outcome: ReadOutcome::Data(wire.len()) };
    assert!(client.accepts(&read), "Failed to send message");
    match client.handle(read) {
        Action::Decode(bytes) => assert_eq!(bytes, wire.to_vec()),
        other => panic!("Failed to send message: {:?}", other),
    }
    let decoded = Event::<String>::Decoded(DecodeOutcome::Message(ClientMessage {
        message: Some(message),
    }));
    let reply = match client.handle(decoded) {
        Action::Send(reply) => reply,
        other => panic!("Failed to receive response: {:?}", other),
    };
    match client.handle::<String>(Event::Written(WriteOutcome::Flushed)) {
        Action::Read(buffer) => (reply, buffer),
        other => panic!("Failed to receive response: {:?}", other),
    }
}

/// The peer closes the connection.
fn disconnect(server: &Server, client: &mut Client, buffer: Vec<u8>) {
    let closed = Event::<String>::Read { buffer, outcome: ReadOutcome::Data(0) };
    assert_eq!(
        client.handle(closed),
        Action::Finish(Ok(Completion::Disconnected)),
        "Failed to disconnect from the server"
    );
    assert_eq!(
        server.handle_client::<String>(Some(Ok(Completion::Disconnected))),
        Supervision::Stop(Ok(())),
        "Failed to disconnect from the server"
    );
}

fn echo(content: &str) -> EchoMessage {
    EchoMessage { content: content.to_string() }
}

#[test]
fn test_client_connection() {
    let mut server = create_server(1000);
    assert_eq!(server.get_port(), 1000);

    let (mut client, buffer) = connect(&mut server);
    disconnect(&server, &mut client, buffer);

    assert_eq!(server.stop(), StopOutcome::Signalled);
}

#[test]
fn test_client_echo_message() {
    let mut server = create_server(1000);
    let (mut client, buffer) = connect(&mut server);

    let echo_message = echo("Hello, World!");
    let message = Request::EchoMessage(echo_message.clone());

    let (response, buffer) = send(&mut client, buffer, b"Hello, World!", message);
    match response {
        ServerMessage { message: Some(Response::EchoMessage(echo)) } => {
            assert_eq!(
                echo.content, echo_message.content,
                "Echoed message content does not match"
            );
        }
        _ => panic!("Expected EchoMessage, but received a different message"),
    }

    disconnect(&server, &mut client, buffer);
    assert_eq!(server.stop(), StopOutcome::Signalled);
}

#[test]
fn test_multiple_echo_messages() {
    let mut server = create_server(1000);
    let (mut client, mut buffer) = connect(&mut server);

    let messages = vec![
        "Hello, World!".to_string(),
        "How are you?".to_string(),
        "Goodbye!".to_string(),
    ];

    for message_content in messages {
        let message = Request::EchoMessage(echo(&message_content));
        let (response, next) = send(&mut client, buffer, message_content.as_bytes(), message);
        buffer = next;
        match response {
            ServerMessage { message: Some(Response::EchoMessage(echo)) } => {
                assert_eq!(
                    echo.content, message_content,
                    "Echoed message content does not match"
                );
            }
            _ => panic!("Expected EchoMessage, but received a different message"),
        }
    }

    disconnect(&server, &mut client, buffer);
    assert_eq!(server.stop(), StopOutcome::Signalled);
}

#[test]
fn test_multiple_clients() {
    let mut server = create_server(1000);
    let mut clients = vec![
        connect(&mut server),
        connect(&mut server),
        connect(&mut server),
    ];

    let messages = vec![
        "Hello, World!".to_string(),
        "How are you?".to_string(),
        "Goodbye!".to_string(),
    ];

    for message_content in messages {
        let echo_message = echo(&message_content);
        let message = Request::EchoMessage(echo_message.clone());

        for (client, buffer) in clients.iter_mut() {
            let taken = std::mem::take(buffer);
            let (response, next) =
                send(client, taken, message_content.as_bytes(), message.clone());
            *buffer = next;
            match response {
                ServerMessage {
                    message: Some(Response::EchoMessage(echo)),
                } => {
                    assert_eq!(
                        echo.content, message_content,
                        "Echoed message content does not match"
                    );
                }
                _ => panic!("Expected EchoMessage, but received a different message"),
            }
        }
    }

    for (mut client, buffer) in clients {
        disconnect(&server, &mut client, buffer);
    }
    assert_eq!(server.stop(), StopOutcome::Signalled);
}

#[test]
fn test_client_add_request() {
    let mut server = create_server(1000);
    let (mut client, buffer) = connect(&mut server);

    let add_request = AddRequest { a: 10, b: 20 };
    let message = Request::AddRequest(add_request.clone());

    let (response, buffer) = send(&mut client, buffer, &[0x12, 0x04, 0x08, 0x0a, 0x10, 0x14], message);
    match response {
        ServerMessage { message: Some(Response::AddResponse(add_response)) } => {
            assert_eq!(
                add_response.result,
                add_request.a + add_request.b,
                "AddResponse result does not match"
            );
            assert_eq!(add_response.result, 30);
        }
        _ => panic!("Expected AddResponse, but received a different message"),
    }

    disconnect(&server, &mut client, buffer);
    assert_eq!(server.stop(), StopOutcome::Signalled);
}
