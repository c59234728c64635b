use pong_serv::messages::hello_step;
use pong_serv::{
    parse_gm0_input_message, parse_gm1_input_message, ClientUpdateError, GameAbortedMessage,
    GameCompletedMessage, GameMode0StartMessage, GameMode1StartMessage, GameModes, HelloMessage,
    HelloUpdateError, Side, WsEvent,
};

#[test]
fn game_completed_bytes() {
    let msg = GameCompletedMessage::new(Side::Right);
    assert_eq!(msg.side, 1);
    assert_eq!(msg.to_bytes(), vec![0x82, 0x02, 0x01]);
    assert_eq!(GameCompletedMessage::new(Side::Left).to_bytes(), vec![0x82, 0x02, 0x00]);
}

#[test]
fn game_aborted_bytes() {
    assert_eq!(GameAbortedMessage::new().to_bytes(), vec![0x81, 0x03]);
}

#[test]
fn game_mode_1_start_bytes() {
    let msg = GameMode1StartMessage::new(1_700_000_000_000);
    assert_eq!(msg.starting_time, 1_700_000_000_000);
    assert_eq!(
        msg.to_bytes(),
        vec![0x81, 0x1b, 0, 0, 1, 139, 207, 229, 104, 0]
    );
    assert_eq!(GameMode1StartMessage::new(23).to_bytes(), vec![0x81, 23]);
    assert_eq!(GameMode1StartMessage::new(24).to_bytes(), vec![0x81, 0x18, 24]);
    assert_eq!(GameMode1StartMessage::new(70_000).to_bytes(), vec![0x81, 0x1a, 0, 1, 0x11, 0x70]);
}

#[test]
fn game_mode_0_start_bytes() {
    let msg = GameMode0StartMessage::new("b", Side::Left, 5000);
    assert_eq!(msg.enemy_username, "b");
    assert_eq!(msg.side, 0);
    assert_eq!(msg.starting_time, 5000);
    assert_eq!(msg.to_bytes(), vec![0x83, 0x61, b'b', 0x00, 0x19, 0x13, 0x88]);
    let msg = GameMode0StartMessage::new("é", Side::Right, 0);
    assert_eq!(msg.to_bytes(), vec![0x83, 0x62, 0xc3, 0xa9, 0x01, 0x00]);
}

#[test]
fn gm0_input_valid_and_ping() {
    assert_eq!(parse_gm0_input_message(WsEvent::Binary(vec![0x81, 0x20])), Ok(Some(-1)));
    assert_eq!(parse_gm0_input_message(WsEvent::Binary(vec![0x81, 0x00])), Ok(Some(0)));
    assert_eq!(parse_gm0_input_message(WsEvent::Binary(vec![0x81, 0x01])), Ok(Some(1)));
    assert_eq!(parse_gm0_input_message(WsEvent::Ping), Ok(None));
}

#[test]
fn gm0_input_errors() {
    assert_eq!(
        parse_gm0_input_message(WsEvent::Binary(vec![0x81, 0x02])),
        Err(ClientUpdateError::ProtocolViolation)
    );
    assert_eq!(
        parse_gm0_input_message(WsEvent::Binary(vec![0xff])),
        Err(ClientUpdateError::ParsingFailed)
    );
    assert_eq!(
        parse_gm0_input_message(WsEvent::OtherFrame),
        Err(ClientUpdateError::ProtocolViolation)
    );
    assert_eq!(
        parse_gm0_input_message(WsEvent::Pong(vec![])),
        Err(ClientUpdateError::ProtocolViolation)
    );
    assert_eq!(parse_gm0_input_message(WsEvent::Closed), Err(ClientUpdateError::ConnectionLost));
    assert_eq!(
        parse_gm0_input_message(WsEvent::TransportError),
        Err(ClientUpdateError::ConnectionError)
    );
}

#[test]
fn gm1_input() {
    assert_eq!(
        parse_gm1_input_message(WsEvent::Binary(vec![0x82, 0x01, 0x20])),
        Ok(Some((1, -1)))
    );
    assert_eq!(parse_gm1_input_message(WsEvent::Ping), Ok(None));
    assert_eq!(
        parse_gm1_input_message(WsEvent::Binary(vec![0x82, 0x01, 0x21])),
        Err(ClientUpdateError::ProtocolViolation)
    );
    assert_eq!(
        parse_gm1_input_message(WsEvent::Binary(vec![0x81, 0x01])),
        Err(ClientUpdateError::ParsingFailed)
    );
    assert_eq!(parse_gm1_input_message(WsEvent::Closed), Err(ClientUpdateError::ConnectionLost));
}

#[test]
fn hello_decoding() {
    let bytes = vec![0x83, 0x03, 0x65, b'a', b'l', b'i', b'c', b'e', 0x01];
    assert_eq!(
        hello_step(WsEvent::Binary(bytes)),
        Some(Ok(HelloMessage::new(3, String::from("alice"), 1)))
    );
    assert_eq!(hello_step(WsEvent::Ping), None);
    assert_eq!(hello_step(WsEvent::Binary(vec![0x01])), Some(Err(HelloUpdateError::ParsingFailed)));
    assert_eq!(hello_step(WsEvent::OtherFrame), Some(Err(HelloUpdateError::ProtocolViolation)));
    assert_eq!(hello_step(WsEvent::Closed), Some(Err(HelloUpdateError::ConnectionLost)));
    assert_eq!(hello_step(WsEvent::TransportError), Some(Err(HelloUpdateError::ConnectionError)));
}

#[test]
fn game_mode_codes() {
    assert_eq!(u8::from(GameModes::MatchMadeRemote1v1), 0);
    assert_eq!(u8::from(GameModes::Local1v1), 1);
}
