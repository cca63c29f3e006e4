use sim7020::at_command::receive::socket_reception::SocketDataReception;
use sim7020::at_command::receive::UnsolicitedMessage;
use sim7020::at_command::socket::{CreateSocket, Domain, Protocol, SocketCreated, Type};
use sim7020::at_command::AtRequest;
use sim7020::bounded::{BoundedBytes, BoundedText};
use sim7020::contexts::socket_context::{
    new_socket_context, new_socket_context_command, SocketStage,
};
use sim7020::modem::{BringUp, BringUpAction, Modem};
use sim7020::nal::tcp_socket::{copy_payload, SocketStatus, TcpSocketContext};
use sim7020::AtError;

#[test]
fn a_socket_from_creation_to_close() {
    let command = new_socket_context_command(Domain::IPv4, Type::TCP, Protocol::IP, Some(3));
    let mut scratch = [0u8; 512];
    assert_eq!(command.get_command(&mut scratch).unwrap(), b"AT+CSOC=1,1,1,3\r\n");
    let reply = command.parse_response_struct(b"+CSOC: 1\r\n\r\nOK\r\n");
    let context = new_socket_context(reply).unwrap();
    assert_eq!(context.socket_id(), 1);
    let connect = context.connect_to_remote_command(1111, "127.0.0.1");
    let mut scratch = [0u8; 512];
    assert_eq!(connect.get_command(&mut scratch).unwrap(), b"AT+CSOCON=1,1111,\"127.0.0.1\"\r\n");
    let mut connected = context.connect_to_remote(connect.parse_response_struct(b"\r\nOK\r\n")).unwrap();
    assert_eq!(connected.socket_id(), 1);
    let send = connected.send_string_command("HELLO TEST");
    let mut scratch = [0u8; 512];
    assert_eq!(send.get_command(&mut scratch).unwrap(), b"AT+CSOSEND=1,0,\"HELLO TEST\"\r\n");
    assert_eq!(connected.send_string(Ok(())), Ok(()));
    let payload = [1u8, 2];
    let send = connected.send_data_command(&payload);
    let mut scratch = [0u8; 512];
    assert_eq!(send.get_command(&mut scratch).unwrap(), b"AT+CSOSEND=1,4,0102\r\n");
    assert_eq!(connected.send_data(Err(AtError::ErrorReply(9))), Err(AtError::ErrorReply(9)));
    assert_eq!(connected.send_data(Ok(())), Ok(()));
    let close = connected.close_command();
    let mut scratch = [0u8; 512];
    assert_eq!(close.get_command(&mut scratch).unwrap(), b"AT+CSOCL=1\r\n");
    assert_eq!(connected.close(Ok(())), Ok(()));
}

#[test]
fn a_socket_that_was_never_connected_can_be_closed() {
    let context = new_socket_context(Ok(SocketCreated { socket_id: 4 })).unwrap();
    assert_eq!(context.close_command().socket_id, 4);
    assert_eq!(context.close(Err(AtError::NotReady)), Err(AtError::NotReady));
}

#[test]
fn failures_of_the_engine_are_handed_on() {
    assert_eq!(new_socket_context(Err(AtError::AtParseError)).unwrap_err(), AtError::AtParseError);
    let context = new_socket_context(Ok(SocketCreated { socket_id: 4 })).unwrap();
    assert_eq!(context.connect_to_remote(Err(AtError::ErrorReply(9))).unwrap_err(), AtError::ErrorReply(9));
}

#[test]
fn a_tcp_socket_connects_once() {
    let mut socket = TcpSocketContext::new();
    assert_eq!(socket, TcpSocketContext { socket_id: None, connected: SocketStatus::Disconnected });
    assert_eq!(socket.ensure_connected(), Err(AtError::IllegalModuleState));
    assert_eq!(socket.connect_command(80, "10.0.0.1").unwrap_err(), AtError::IllegalModuleState);
    assert_eq!(socket.close_command(), Err(AtError::IllegalModuleState));
    assert_eq!(
        socket.create_command(Domain::IPv6),
        Some(CreateSocket {
            cid: None,
            domain: Domain::IPv6,
            protocol: Protocol::IP,
            connection_type: Type::TCP
        })
    );
    assert_eq!(socket.socket_created(5), Ok(()));
    assert_eq!(socket.socket_created(6), Err(AtError::IllegalModuleState));
    assert_eq!(socket.socket_id, Some(5));
    let connect = socket.connect_command(80, "10.0.0.1").unwrap();
    assert_eq!((connect.socket_id, connect.port, connect.remote_address), (5, 80, "10.0.0.1"));
    assert_eq!(socket.send_command(b"x").unwrap_err(), AtError::IllegalModuleState);
    socket.mark_connected();
    assert_eq!(socket.ensure_connected(), Ok(()));
    assert_eq!(socket.create_command(Domain::IPv4), None);
    let send = socket.send_command(b"xy").unwrap();
    assert_eq!((send.socket_id, send.data), (5, &b"xy"[..]));
    let send = socket.send_str_command("text").unwrap();
    assert_eq!((send.socket_id, send.data), (5, "text"));
    assert_eq!(socket.close_command().unwrap().socket_id, 5);
}

#[test]
fn a_tcp_socket_takes_the_data_that_is_for_it() {
    let mut socket = TcpSocketContext::new();
    let message = SocketDataReception::decode(b"+CSONMI: 5,6,010203").unwrap();
    let mut buffer = [0xffu8; 4];
    assert_eq!(socket.receive(&message, &mut buffer), Err(AtError::IllegalModuleState));
    socket.socket_created(5).unwrap();
    socket.mark_connected();
    assert_eq!(socket.receive(&message, &mut buffer), Ok(3));
    assert_eq!(buffer, [1, 2, 3, 0xff]);
    let other = SocketDataReception::decode(b"+CSONMI: 6,6,0a0b0c").unwrap();
    assert_eq!(socket.receive(&other, &mut buffer), Err(AtError::IOError));
    assert_eq!(buffer, [1, 2, 3, 0xff]);
    let mut small = [0u8; 2];
    assert_eq!(socket.receive(&message, &mut small), Err(AtError::CapacityError));
    assert_eq!(small, [0, 0]);
}

#[test]
fn payloads_are_copied_to_the_start_of_the_buffer() {
    let mut buffer = [9u8; 3];
    assert_eq!(copy_payload(&mut buffer, b""), Ok(0));
    assert_eq!(buffer, [9, 9, 9]);
    assert_eq!(copy_payload(&mut buffer, b"abc"), Ok(3));
    assert_eq!(&buffer, b"abc");
    assert_eq!(copy_payload(&mut buffer, b"abcd"), Err(AtError::CapacityError));
    assert_eq!(&buffer, b"abc");
}

#[test]
fn bounded_texts_keep_what_fits() {
    assert_eq!(BoundedText::<4>::new("abcd").unwrap().as_str(), "abcd");
    assert_eq!(BoundedText::<4>::new("").unwrap().as_str(), "");
    assert_eq!(BoundedText::<4>::new("abcde").unwrap_err(), AtError::CapacityError);
    assert_eq!(BoundedText::<4>::new("\u{fc}\u{fc}").unwrap().as_str(), "\u{fc}\u{fc}");
    assert_eq!(BoundedText::<4>::new("\u{fc}\u{fc}a").unwrap_err(), AtError::CapacityError);
    let most = "x".repeat(255);
    assert_eq!(BoundedText::<255>::new(&most).unwrap().as_str(), most);
    let more = "x".repeat(256);
    assert_eq!(BoundedText::<255>::new(&more).unwrap_err(), AtError::CapacityError);
    assert_eq!(BoundedText::<300>::new(&more).unwrap_err(), AtError::CapacityError);
    assert_eq!(BoundedText::<0>::new("").unwrap().as_str(), "");
}

#[test]
fn bounded_bytes_hold_512() {
    let mut bytes = BoundedBytes::new();
    assert_eq!(bytes.len(), 0);
    for i in 0..512 {
        assert_eq!(bytes.push((i % 251) as u8), Ok(()));
    }
    assert_eq!(bytes.len(), 512);
    assert_eq!(bytes.push(7), Err(AtError::CapacityError));
    assert_eq!(bytes.len(), 512);
    assert_eq!(bytes.as_slice()[0], 0);
    assert_eq!(bytes.as_slice()[250], 250);
    assert_eq!(bytes.as_slice()[251], 0);
    assert_eq!(bytes.as_slice()[511], (511 % 251) as u8);
}

#[test]
fn a_closed_socket_cannot_be_used() {
    let context = new_socket_context(Ok(SocketCreated { socket_id: 8 })).unwrap();
    let stage = context.current_stage();
    assert_eq!(stage, SocketStage::Pending(8));
    assert_eq!(context.close(Ok(())), Ok(()));
    let closed = stage.close(Ok(())).unwrap();
    assert_eq!(closed, SocketStage::Closed);
    assert_eq!(closed.connect(Ok(())), Err(AtError::IllegalModuleState));
    assert_eq!(closed.send(Ok(())), Err(AtError::IllegalModuleState));
    assert_eq!(closed.close(Ok(())), Err(AtError::IllegalModuleState));
}

#[test]
fn socket_stages_follow_the_lifecycle() {
    let pending = SocketStage::Pending(2);
    assert_eq!(pending.send(Ok(())), Err(AtError::IllegalModuleState));
    assert_eq!(pending.connect(Err(AtError::NotReady)), Err(AtError::NotReady));
    let connected = pending.connect(Ok(())).unwrap();
    assert_eq!(connected, SocketStage::Connected(2));
    assert_eq!(connected.connect(Ok(())), Err(AtError::IllegalModuleState));
    assert_eq!(connected.send(Ok(())), Ok(()));
    assert_eq!(connected.send(Err(AtError::ErrorReply(9))), Err(AtError::ErrorReply(9)));
    assert_eq!(connected.close(Err(AtError::IOError)), Err(AtError::IOError));
    assert_eq!(connected.close(Ok(())), Ok(SocketStage::Closed));
    assert_eq!(pending.close(Ok(())), Ok(SocketStage::Closed));
    let context = new_socket_context(Ok(SocketCreated { socket_id: 2 })).unwrap();
    let context = context.connect_to_remote(Ok(())).unwrap();
    assert_eq!(context.current_stage(), SocketStage::Connected(2));
}

#[test]
fn test_socket_context() -> Result<(), AtError> {
    let echo_off = [65, 84, 69, 48, 13, 10];
    let create = b"AT+CSOC=1,1,1,3\r\n";
    let connect = b"AT+CSOCON=1,1111,\"127.0.0.1\"\r\n";
    let send_string = b"AT+CSOSEND=1,0,\"HELLO TEST\"\r\n";
    let close = b"AT+CSOCL=1\r\n";

    let create_response = b"+CSOC: 1\r\n\r\nOK\r\n";
    let ok_response = b"\r\nOK\r\n";

    let mut modem = Modem::new();
    let mut power_pin_high = false;
    let mut dtr_pin_low = false;
    let mut state = BringUp::begin();
    loop {
        let outcome = match state.action() {
            BringUpAction::AssertPowerLine => {
                power_pin_high = true;
                Ok(())
            }
            BringUpAction::DeassertWakeLine => {
                dtr_pin_low = true;
                Ok(())
            }
            BringUpAction::Wait(_) => Ok(()),
            BringUpAction::Execute(command) => {
                let mut scratch = [0u8; 512];
                let (sent, outcome) = modem.send_and_wait_response(&command, &mut scratch, ok_response)?;
                assert_eq!(sent, echo_off);
                outcome
            }
            BringUpAction::Done => break,
            BringUpAction::Fail(error) => return Err(error),
        };
        state = state.advance(outcome);
    }
    assert!(power_pin_high);
    assert!(dtr_pin_low);

    let command = new_socket_context_command(Domain::IPv4, Type::TCP, Protocol::IP, Some(3));
    let mut scratch = [0u8; 512];
    let (sent, reply) = modem.send_and_wait_response(&command, &mut scratch, create_response)?;
    assert_eq!(sent, create);
    let context = new_socket_context(reply)?;

    let command = context.connect_to_remote_command(1111, "127.0.0.1");
    let mut scratch = [0u8; 512];
    let (sent, reply) = modem.send_and_wait_response(&command, &mut scratch, ok_response)?;
    assert_eq!(sent, connect);
    let mut connected_socket = context.connect_to_remote(reply).unwrap();

    let command = connected_socket.send_string_command("HELLO TEST");
    let mut scratch = [0u8; 512];
    let (sent, reply) = modem.send_and_wait_response(&command, &mut scratch, ok_response)?;
    assert_eq!(sent, send_string);
    connected_socket.send_string(reply).unwrap();

    let command = connected_socket.close_command();
    let mut scratch = [0u8; 512];
    let (sent, reply) = modem.send_and_wait_response(&command, &mut scratch, ok_response)?;
    assert_eq!(sent, close);
    connected_socket.close(reply)?;

    Ok(())
}
