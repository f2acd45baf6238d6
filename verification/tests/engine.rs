use playwith::error::{ErrorKind, ProtocolError};
use playwith::protocol::engine::{Protocol, SubcommandState};
use playwith::protocol::input::{InputReport, Reply};
use playwith::protocol::{ControllerType, Direction, Output, Type};

fn frame(timer: u8, id: u8, payload: &[u8]) -> Vec<u8> {
    let mut frame = vec![0xA1, 0x01, timer, 1, 2, 3, 4, 5, 6, 7, 8, id];
    frame.extend_from_slice(payload);
    frame
}

#[test]
fn new_protocol_is_at_the_start() {
    let protocol = Protocol::new(ControllerType::JoyConR);
    assert_eq!(protocol.controller_type(), ControllerType::JoyConR);
    assert_eq!(protocol.address, [0; 6]);
    assert_eq!(protocol.state.mode, 0x3F);
    assert!(!protocol.state.rumble_enabled);
    assert_eq!(protocol.state.left_rumble, [0; 4]);
    assert_eq!(protocol.state.right_rumble, [0; 4]);
    assert_eq!(protocol.state.player_lights, 0);
    assert_eq!(protocol.state.flash.len(), 0x80000);
    assert!(protocol.state.flash.iter().all(|b| *b == 0xFF));
    assert_eq!(protocol.state, SubcommandState::new());
}

#[test]
fn device_info_tells_type_and_address() {
    let mut protocol = Protocol::new(ControllerType::ProController);
    protocol.set_address([0x11, 0x22, 0x33, 0x44, 0x55, 0x66]);
    let report = protocol.dispatch(5, 0x02, &[]).unwrap();
    assert_eq!(
        report,
        InputReport::answer(
            5,
            0x82,
            0x02,
            vec![0x03, 0x48, 0x03, 0x02, 0x11, 0x22, 0x33, 0x44, 0x55, 0x66, 0x01, 0x01]
        )
    );
    assert_eq!(protocol.state, SubcommandState::new());
    let mut left = Protocol::new(ControllerType::JoyConL);
    let report = left.dispatch(0, 0x02, &[9, 9]).unwrap();
    assert_eq!(report.reply.unwrap().data[2], 0x01);
}

#[test]
fn input_report_mode_is_set() {
    let mut protocol = Protocol::new(ControllerType::ProController);
    let report = protocol.dispatch(6, 0x03, &[0x30]).unwrap();
    assert_eq!(report, InputReport::answer(6, 0x80, 0x03, vec![]));
    assert_eq!(protocol.state.mode, 0x30);
    let mut expected = SubcommandState::new();
    expected.mode = 0x30;
    assert_eq!(protocol.state, expected);
}

#[test]
fn player_lights_are_set() {
    let mut protocol = Protocol::new(ControllerType::ProController);
    let report = protocol.dispatch(7, 0x30, &[0x05, 0xFF]).unwrap();
    assert_eq!(report, InputReport::answer(7, 0x80, 0x30, vec![]));
    let mut expected = SubcommandState::new();
    expected.player_lights = 0x05;
    assert_eq!(protocol.state, expected);
}

#[test]
fn rumble_is_switched_on_and_off() {
    let mut protocol = Protocol::new(ControllerType::ProController);
    let report = protocol.dispatch(8, 0x48, &[0x01]).unwrap();
    assert_eq!(report, InputReport::answer(8, 0x80, 0x48, vec![]));
    assert!(protocol.state.rumble_enabled);
    protocol.dispatch(9, 0x48, &[0x00]).unwrap();
    assert!(!protocol.state.rumble_enabled);
    protocol.dispatch(9, 0x48, &[0x7F]).unwrap();
    assert!(protocol.state.rumble_enabled);
}

#[test]
fn flash_read_serves_the_memory() {
    let mut protocol = Protocol::new(ControllerType::ProController);
    protocol.state.flash[0x6000] = 0x12;
    protocol.state.flash[0x6001] = 0x34;
    protocol.state.flash[0x6002] = 0x56;
    let before = protocol.state.clone();
    let report = protocol.dispatch(1, 0x10, &[0x00, 0x60, 0x00, 0x00, 0x04, 0xEE]).unwrap();
    assert_eq!(
        report.reply,
        Some(Reply {
            ack: 0x90,
            subcommand: 0x10,
            data: vec![0x00, 0x60, 0x00, 0x00, 0x04, 0x12, 0x34, 0x56, 0xFF],
        })
    );
    assert_eq!(report.timer, 1);
    assert_eq!(protocol.state, before);
}

#[test]
fn flash_read_offset_is_little_endian() {
    let mut protocol = Protocol::new(ControllerType::ProController);
    protocol.state.flash[0x07_FFFF] = 0xAB;
    protocol.state.flash[0x01_0203] = 0xCD;
    let report = protocol.dispatch(1, 0x10, &[0xFF, 0xFF, 0x07, 0x00, 0x01]).unwrap();
    assert_eq!(report.reply.unwrap().data, vec![0xFF, 0xFF, 0x07, 0x00, 0x01, 0xAB]);
    let report = protocol.dispatch(1, 0x10, &[0x03, 0x02, 0x01, 0x00, 0x01]).unwrap();
    assert_eq!(report.reply.unwrap().data, vec![0x03, 0x02, 0x01, 0x00, 0x01, 0xCD]);
}

#[test]
fn flash_read_up_to_the_end_is_served() {
    let mut protocol = Protocol::new(ControllerType::ProController);
    let report = protocol.dispatch(1, 0x10, &[0xF0, 0xFF, 0x07, 0x00, 0x10]).unwrap();
    assert_eq!(report.reply.unwrap().data.len(), 5 + 0x10);
    let report = protocol.dispatch(1, 0x10, &[0x00, 0x00, 0x08, 0x00, 0x00]).unwrap();
    assert_eq!(report.reply.unwrap().data, vec![0x00, 0x00, 0x08, 0x00, 0x00]);
}

#[test]
fn flash_read_beyond_the_memory_is_out_of_range() {
    let mut protocol = Protocol::new(ControllerType::ProController);
    let before = protocol.clone();
    for payload in [
        [0xF1u8, 0xFF, 0x07, 0x00, 0x10],
        [0x00, 0x00, 0x08, 0x00, 0x01],
        [0xFF, 0xFF, 0xFF, 0xFF, 0xFF],
        [0x00, 0x00, 0x00, 0x01, 0x00],
    ] {
        let error = protocol.dispatch(1, 0x10, &payload).unwrap_err();
        assert_eq!(error.kind, ErrorKind::Protocol(ProtocolError::OutOfRange));
        assert_eq!(error.message, "flash read out of range");
        assert_eq!(protocol, before);
    }
    protocol.state.flash.truncate(16);
    assert!(protocol.dispatch(1, 0x10, &[0x08, 0, 0, 0, 0x08]).is_ok());
    let error = protocol.dispatch(1, 0x10, &[0x08, 0, 0, 0, 0x09]).unwrap_err();
    assert_eq!(error.kind, ErrorKind::Protocol(ProtocolError::OutOfRange));
}

#[test]
fn short_payload_has_an_invalid_length() {
    let mut protocol = Protocol::new(ControllerType::ProController);
    let before = protocol.clone();
    for (id, payload) in [
        (0x03u8, vec![]),
        (0x30, vec![]),
        (0x48, vec![]),
        (0x10, vec![]),
        (0x10, vec![0, 0, 0, 0]),
    ] {
        let error = protocol.dispatch(1, id, &payload).unwrap_err();
        assert_eq!(error.kind, ErrorKind::Protocol(ProtocolError::InvalidLength));
        assert_eq!(protocol, before);
    }
}

#[test]
fn unknown_subcommand_is_an_error() {
    let mut protocol = Protocol::new(ControllerType::ProController);
    let before = protocol.clone();
    for id in 0..=255u8 {
        if [0x02, 0x03, 0x10, 0x30, 0x48].contains(&id) {
            continue;
        }
        let error = protocol.dispatch(1, id, &[1, 2, 3, 4, 5, 6]).unwrap_err();
        assert_eq!(error.kind, ErrorKind::Protocol(ProtocolError::UnknownSubcommand));
        assert_eq!(error.message, "unknown subcommand");
        assert_eq!(protocol, before);
    }
}

#[test]
fn rumble_is_taken_over_from_every_frame() {
    let mut protocol = Protocol::new(ControllerType::ProController);
    let rumble = Output {
        direction: Direction::Output,
        t: Type::Rumble,
        timer: 0,
        left_rumble: [9, 8, 7, 6],
        right_rumble: [5, 4, 3, 2],
        subcommand: None,
        data: None,
    };
    assert_eq!(protocol.handle(&rumble), Ok(None));
    assert_eq!(protocol.state.left_rumble, [9, 8, 7, 6]);
    assert_eq!(protocol.state.right_rumble, [5, 4, 3, 2]);

    let answer = protocol.process(&frame(4, 0x03, &[0x30])).unwrap().unwrap();
    assert_eq!(protocol.state.left_rumble, [1, 2, 3, 4]);
    assert_eq!(protocol.state.right_rumble, [5, 6, 7, 8]);
    assert_eq!(protocol.state.mode, 0x30);
    assert_eq!(
        answer,
        vec![0xA2, 0x21, 4, 0x8E, 0, 0, 0, 0x00, 0x08, 0x80, 0x00, 0x08, 0x80, 0x80, 0x80, 0x03]
    );
}

#[test]
fn rumble_is_taken_over_before_a_failing_subcommand() {
    let mut protocol = Protocol::new(ControllerType::ProController);
    let error = protocol.process(&frame(4, 0x99, &[])).unwrap_err();
    assert_eq!(error.kind, ErrorKind::Protocol(ProtocolError::UnknownSubcommand));
    let mut expected = SubcommandState::new();
    expected.left_rumble = [1, 2, 3, 4];
    expected.right_rumble = [5, 6, 7, 8];
    assert_eq!(protocol.state, expected);
}

#[test]
fn malformed_frame_changes_nothing() {
    let mut protocol = Protocol::new(ControllerType::ProController);
    let before = protocol.clone();
    let mut bad = frame(4, 0x03, &[0x30]);
    bad[0] = 0xA2;
    let error = protocol.process(&bad).unwrap_err();
    assert_eq!(error.kind, ErrorKind::Protocol(ProtocolError::InvalidDirection));
    assert_eq!(protocol, before);
    let error = protocol.process(&bad[..5]).unwrap_err();
    assert_eq!(error.kind, ErrorKind::Protocol(ProtocolError::InvalidLength));
    assert_eq!(protocol, before);
}

#[test]
fn frames_without_subcommand_get_no_answer() {
    let mut protocol = Protocol::new(ControllerType::ProController);
    let mut rumble = frame(4, 0x03, &[0x30]);
    rumble[1] = 0x10;
    assert_eq!(protocol.process(&rumble), Ok(None));
    assert_eq!(protocol.state.mode, 0x3F);
    let mut request = frame(4, 0x03, &[0x30]);
    request[1] = 0x11;
    assert_eq!(protocol.process(&request), Ok(None));
    assert_eq!(protocol.state.mode, 0x3F);
    assert_eq!(protocol.state.left_rumble, [1, 2, 3, 4]);
}

#[test]
fn reset_goes_back_to_the_start() {
    let mut protocol = Protocol::new(ControllerType::JoyConL);
    protocol.set_address([1, 2, 3, 4, 5, 6]);
    protocol.process(&frame(4, 0x03, &[0x30])).unwrap();
    protocol.process(&frame(5, 0x30, &[0x01])).unwrap();
    protocol.process(&frame(6, 0x48, &[0x01])).unwrap();
    protocol.state.flash[0] = 0;
    protocol.reset();
    assert_eq!(protocol.state, SubcommandState::new());
    assert_eq!(protocol.address, [1, 2, 3, 4, 5, 6]);
    assert_eq!(protocol.controller_type(), ControllerType::JoyConL);
}

#[test]
fn timer_is_echoed() {
    let mut protocol = Protocol::new(ControllerType::ProController);
    for timer in [0u8, 1, 0x7F, 0xFF] {
        let answer = protocol.process(&frame(timer, 0x02, &[])).unwrap().unwrap();
        assert_eq!(answer[2], timer);
    }
}

#[test]
fn unknown_subcommand_is_refused_in_a_reply() {
    let mut protocol = Protocol::new(ControllerType::ProController);
    let answer = protocol.respond(&frame(4, 0x99, &[1, 2])).unwrap().unwrap();
    assert_eq!(
        answer,
        vec![0xA2, 0x21, 4, 0x8E, 0, 0, 0, 0x00, 0x08, 0x80, 0x00, 0x08, 0x80, 0x80, 0x00, 0x99]
    );
    assert_eq!(protocol.state.left_rumble, [1, 2, 3, 4]);
    assert_eq!(InputReport::refusal(4, 0x99), InputReport::answer(4, 0x00, 0x99, vec![]));
}

#[test]
fn respond_answers_like_process_otherwise() {
    let mut one = Protocol::new(ControllerType::ProController);
    let mut two = Protocol::new(ControllerType::ProController);
    let mut rumble = frame(1, 0x03, &[0x30]);
    rumble[1] = 0x10;
    let frames = [
        frame(1, 0x02, &[]),
        frame(2, 0x03, &[0x30]),
        frame(3, 0x10, &[0, 0, 0, 0, 4]),
        frame(4, 0x10, &[0, 0, 8, 0, 4]),
        frame(5, 0x30, &[]),
        rumble,
        vec![0xA2; 12],
        vec![0xA1; 3],
    ];
    for f in frames {
        assert_eq!(one.respond(&f), two.process(&f));
        assert_eq!(one, two);
    }
}
