use playwith::error::{ErrorKind, ProtocolError};
use playwith::protocol::input::{encode_input, InputReport, Reply};
use playwith::protocol::{decode_output, ControllerType, Direction, Output, Subcommand, Type};

fn subcommand_frame() -> Vec<u8> {
    vec![
        0xA1, 0x01, 0x07, 0x00, 0x01, 0x40, 0x40, 0x10, 0x11, 0x12, 0x13, 0x30, 0x05, 0x06,
    ]
}

#[test]
fn short_frames_have_an_invalid_length() {
    let frame = subcommand_frame();
    for len in 0..12 {
        let error = decode_output(&frame[..len]).unwrap_err();
        assert_eq!(error.kind, ErrorKind::Protocol(ProtocolError::InvalidLength));
        assert_eq!(error.message, "invalid output length");
    }
}

#[test]
fn frame_of_twelve_bytes_is_long_enough() {
    let frame = subcommand_frame();
    let output = decode_output(&frame[..12]).unwrap();
    assert_eq!(output.subcommand, Some(0x30));
    assert_eq!(output.data, Some(vec![]));
}

#[test]
fn wrong_direction_is_an_invalid_direction() {
    for tag in [0x00u8, 0xA0, 0xA2, 0xFF] {
        let mut frame = subcommand_frame();
        frame[0] = tag;
        let error = decode_output(&frame).unwrap_err();
        assert_eq!(error.kind, ErrorKind::Protocol(ProtocolError::InvalidDirection));
        assert_eq!(error.message, "invalid output direction");
    }
}

#[test]
fn unknown_type_is_an_invalid_type() {
    for code in 0..=255u8 {
        let mut frame = subcommand_frame();
        frame[1] = code;
        let decoded = decode_output(&frame);
        if code == 0x01 || code == 0x10 || code == 0x11 {
            assert!(decoded.is_ok());
        } else {
            let error = decoded.unwrap_err();
            assert_eq!(error.kind, ErrorKind::Protocol(ProtocolError::InvalidType));
            assert_eq!(error.message, "invalid output type");
        }
    }
}

#[test]
fn length_is_checked_before_direction_and_type() {
    let error = decode_output(&[0xA2, 0x55, 0x00]).unwrap_err();
    assert_eq!(error.kind, ErrorKind::Protocol(ProtocolError::InvalidLength));
    let mut frame = subcommand_frame();
    frame[0] = 0x00;
    frame[1] = 0x55;
    let error = decode_output(&frame).unwrap_err();
    assert_eq!(error.kind, ErrorKind::Protocol(ProtocolError::InvalidDirection));
}

#[test]
fn subcommand_frame_decodes_to_its_fields() {
    let output = decode_output(&subcommand_frame()).unwrap();
    assert_eq!(output.direction, Direction::Output);
    assert_eq!(output.t, Type::Subcommand);
    assert_eq!(output.timer, 0x07);
    assert_eq!(output.left_rumble, [0x00, 0x01, 0x40, 0x40]);
    assert_eq!(output.right_rumble, [0x10, 0x11, 0x12, 0x13]);
    assert_eq!(output.subcommand, Some(0x30));
    assert_eq!(output.data, Some(vec![0x05, 0x06]));
}

#[test]
fn rumble_frame_has_no_subcommand_and_no_data() {
    let mut frame = subcommand_frame();
    frame[1] = 0x10;
    let output = decode_output(&frame).unwrap();
    assert_eq!(output.t, Type::Rumble);
    assert_eq!(output.timer, 0x07);
    assert_eq!(output.left_rumble, [0x00, 0x01, 0x40, 0x40]);
    assert_eq!(output.right_rumble, [0x10, 0x11, 0x12, 0x13]);
    assert_eq!(output.subcommand, None);
    assert_eq!(output.data, None);
}

#[test]
fn request_frame_has_data_and_no_subcommand() {
    let mut frame = subcommand_frame();
    frame[1] = 0x11;
    let output = decode_output(&frame).unwrap();
    assert_eq!(output.t, Type::RequestIrNfcMcu);
    assert_eq!(output.subcommand, None);
    assert_eq!(output.data, Some(vec![0x05, 0x06]));
}

#[test]
fn try_from_is_decode_output() {
    let frame = subcommand_frame();
    assert_eq!(Output::try_from(&frame[..]), decode_output(&frame));
    assert_eq!(Output::try_from(&frame[..3]), decode_output(&frame[..3]));
}

#[test]
fn constructed_subcommand_frame_decodes_back() {
    for (timer, id, payload) in [
        (0u8, 0x02u8, vec![]),
        (9, 0x10, vec![0x00, 0x60, 0x00, 0x00, 0x10]),
        (255, 0xEE, vec![1, 2, 3, 4, 5, 6, 7, 8, 9]),
    ] {
        let output = Output {
            direction: Direction::Output,
            t: Type::Subcommand,
            timer,
            left_rumble: [1, 2, 3, 4],
            right_rumble: [5, 6, 7, 8],
            subcommand: Some(id),
            data: Some(payload.clone()),
        };
        let frame = output.to_bytes();
        assert_eq!(frame.len(), 12 + payload.len());
        let decoded = decode_output(&frame).unwrap();
        assert_eq!(decoded.timer, timer);
        assert_eq!(decoded.left_rumble, [1, 2, 3, 4]);
        assert_eq!(decoded.right_rumble, [5, 6, 7, 8]);
        assert_eq!(decoded.subcommand, Some(id));
        assert_eq!(decoded.data, Some(payload));
        assert_eq!(decoded, output);
    }
}

#[test]
fn output_frame_has_the_documented_layout() {
    let output = Output {
        direction: Direction::Output,
        t: Type::Subcommand,
        timer: 0x07,
        left_rumble: [0x00, 0x01, 0x40, 0x40],
        right_rumble: [0x10, 0x11, 0x12, 0x13],
        subcommand: Some(0x30),
        data: Some(vec![0x05, 0x06]),
    };
    assert_eq!(output.to_bytes(), subcommand_frame());
    let rumble = Output {
        direction: Direction::Output,
        t: Type::Rumble,
        timer: 1,
        left_rumble: [2, 3, 4, 5],
        right_rumble: [6, 7, 8, 9],
        subcommand: None,
        data: None,
    };
    assert_eq!(rumble.to_bytes(), vec![0xA1, 0x10, 1, 2, 3, 4, 5, 6, 7, 8, 9, 0]);
    assert_eq!(decode_output(&rumble.to_bytes()).unwrap(), rumble);
}

#[test]
fn input_frame_has_the_documented_layout() {
    let report = InputReport {
        report_id: 0x21,
        timer: 0x07,
        battery: 0x8E,
        buttons: [1, 2, 3],
        left_stick: [4, 5, 6],
        right_stick: [7, 8, 9],
        vibrator: 0x80,
        reply: Some(Reply { ack: 0x82, subcommand: 0x02, data: vec![0xAA, 0xBB] }),
    };
    assert_eq!(
        encode_input(&report),
        vec![0xA2, 0x21, 0x07, 0x8E, 1, 2, 3, 4, 5, 6, 7, 8, 9, 0x80, 0x82, 0x02, 0xAA, 0xBB]
    );
    let plain = InputReport { report_id: 0x30, reply: None, ..report };
    assert_eq!(
        encode_input(&plain),
        vec![0xA2, 0x30, 0x07, 0x8E, 1, 2, 3, 4, 5, 6, 7, 8, 9, 0x80]
    );
}

#[test]
fn input_frame_is_no_output_frame() {
    let report = InputReport::answer(3, 0x80, 0x03, vec![]);
    let frame = encode_input(&report);
    assert_eq!(frame[0], 0xA2);
    let error = decode_output(&frame).unwrap_err();
    assert_eq!(error.kind, ErrorKind::Protocol(ProtocolError::InvalidDirection));
}

#[test]
fn answer_is_an_idle_controller() {
    let report = InputReport::answer(3, 0x90, 0x10, vec![1, 2]);
    assert_eq!(report.report_id, 0x21);
    assert_eq!(report.timer, 3);
    assert_eq!(report.battery, 0x8E);
    assert_eq!(report.buttons, [0, 0, 0]);
    assert_eq!(report.left_stick, [0x00, 0x08, 0x80]);
    assert_eq!(report.right_stick, [0x00, 0x08, 0x80]);
    assert_eq!(report.vibrator, 0x80);
    assert_eq!(report.reply, Some(Reply { ack: 0x90, subcommand: 0x10, data: vec![1, 2] }));
}

#[test]
fn direction_tags() {
    assert_eq!(Direction::Output.tag(), 0xA1);
    assert_eq!(Direction::Input.tag(), 0xA2);
    assert_eq!(Direction::Output.to_text(), "Output");
    assert_eq!(Direction::Input.to_text(), "Input");
}

#[test]
fn type_codes() {
    assert_eq!(Type::try_from(0x01u8).unwrap(), Type::Subcommand);
    assert_eq!(Type::try_from(0x10u8).unwrap(), Type::Rumble);
    assert_eq!(Type::try_from(0x11u8).unwrap(), Type::RequestIrNfcMcu);
    let error = Type::try_from(0x12u8).unwrap_err();
    assert_eq!(error.kind, ErrorKind::Protocol(ProtocolError::InvalidType));
    assert_eq!(error.message, "invalid output type");
    assert_eq!(Type::Subcommand.code(), 0x01);
    assert_eq!(Type::Rumble.code(), 0x10);
    assert_eq!(Type::RequestIrNfcMcu.code(), 0x11);
}

#[test]
fn subcommand_identifiers() {
    let table = [
        (0x02u8, Subcommand::RequestDeviceInfo),
        (0x03, Subcommand::SetInputReportMode),
        (0x10, Subcommand::SpiFlashRead),
        (0x30, Subcommand::SetPlayerLights),
        (0x48, Subcommand::EnableVibration),
    ];
    for (id, subcommand) in table {
        assert_eq!(Subcommand::from_id(id).unwrap(), subcommand);
        assert_eq!(subcommand.id(), id);
    }
    let error = Subcommand::from_id(0x04).unwrap_err();
    assert_eq!(error.kind, ErrorKind::Protocol(ProtocolError::UnknownSubcommand));
    assert_eq!(error.message, "unknown subcommand");
}

#[test]
fn controller_type_names() {
    assert_eq!(ControllerType::JoyConL.name(), "Joy-Con (L)");
    assert_eq!(ControllerType::JoyConR.name(), "Joy-Con (R)");
    assert_eq!(ControllerType::ProController.name(), "Pro Controller");
    assert_eq!(ControllerType::JoyConL.id(), 1);
    assert_eq!(ControllerType::JoyConR.id(), 2);
    assert_eq!(ControllerType::ProController.id(), 3);
    for t in [ControllerType::JoyConL, ControllerType::JoyConR, ControllerType::ProController] {
        assert_eq!(ControllerType::from_flag(t.flag()), Some(t));
    }
    assert_eq!(ControllerType::from_flag("PRO_CONTROLLER"), Some(ControllerType::ProController));
    assert_eq!(ControllerType::from_flag("JOY_CON_L"), Some(ControllerType::JoyConL));
    assert_eq!(ControllerType::from_flag("JOY_CON_R"), Some(ControllerType::JoyConR));
    assert_eq!(ControllerType::from_flag("pro_controller"), None);
    assert_eq!(ControllerType::from_flag(""), None);
}
