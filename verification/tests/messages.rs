use tentacli::output::{
    console_line, handler_error, handler_step, HandlerStep, output_action, should_send, ConsoleColor, HandlerOutput, OutputAction,
};
use tentacli::text::{
    cannot_connect_message, connected_message, decimal_string, sent_message, unhandled_name,
};
use tentacli::writer::OutgoingPacket;

type Output = HandlerOutput<u32, u64>;

#[test]
fn decimal_notation() {
    assert_eq!(decimal_string(0), "0");
    assert_eq!(decimal_string(7), "7");
    assert_eq!(decimal_string(10), "10");
    assert_eq!(decimal_string(8085), "8085");
    assert_eq!(decimal_string(u64::MAX), u64::MAX.to_string());
}

#[test]
fn connection_messages() {
    assert_eq!(connected_message("127.0.0.1", 3724), "Connected to 127.0.0.1:3724");
    assert_eq!(cannot_connect_message("refused"), "Cannot connect: refused");
}

#[test]
fn unhandled_packet_names() {
    assert_eq!(unhandled_name(Some("SMSG_MOTD".to_string()), 0x33D), "SMSG_MOTD");
    assert_eq!(unhandled_name(None, 829), "Unknown opcode: 829");
}

#[test]
fn sent_packet_messages() {
    assert_eq!(sent_message(Some("CMSG_PING".to_string()), 0x1DC, 12), "CMSG_PING: 12 bytes sent");
    assert_eq!(sent_message(None, 55, 6), "55: 6 bytes sent");
}

#[test]
fn console_lines() {
    let cases: Vec<(Output, &str, ConsoleColor)> = vec![
        (HandlerOutput::SuccessMessage("ok".into(), None), "[SUCCESS]: ok", ConsoleColor::BrightGreen),
        (HandlerOutput::ErrorMessage("bad".into(), None), "[ERROR]: bad", ConsoleColor::BrightRed),
        (HandlerOutput::DebugMessage("d".into(), Some("x".into())), "[DEBUG]: d", ConsoleColor::BrightBlack),
        (HandlerOutput::ResponseMessage("in".into(), None), "[RECV]: in", ConsoleColor::BrightMagenta),
        (HandlerOutput::RequestMessage("out".into(), None), "[SEND]: out", ConsoleColor::BrightCyan),
    ];
    for (output, text, color) in cases {
        let line = console_line(&output).unwrap();
        assert_eq!(line.text, text);
        assert_eq!(line.color, color);
    }
    assert!(console_line(&Output::Freeze).is_none());
    assert!(console_line(&Output::SelectRealm(1)).is_none());
}

#[test]
fn output_routing() {
    match output_action(Output::Data(0x37, vec![1, 2], "{}".into())) {
        OutputAction::Send(p) => {
            assert_eq!(p.opcode, 0x37);
            assert_eq!(p.data, vec![1, 2]);
            assert_eq!(p.json_details, "{}");
        }
        _ => panic!("send expected"),
    }
    match output_action(Output::ConnectionRequest("h".into(), 8085)) {
        OutputAction::Connect(h, p) => {
            assert_eq!(h, "h");
            assert_eq!(p, 8085);
        }
        _ => panic!("connect expected"),
    }
    assert!(matches!(output_action(Output::SelectRealm(4)), OutputAction::SelectRealm(4)));
    assert!(matches!(output_action(Output::SelectCharacter(9)), OutputAction::SelectCharacter(9)));
    assert!(matches!(output_action(Output::Drop), OutputAction::Stop));
    assert!(matches!(output_action(Output::Freeze), OutputAction::Ignore));
    assert!(matches!(output_action(Output::DebugMessage("x".into(), None)), OutputAction::Ignore));
}

#[test]
fn empty_packets_are_not_sent() {
    let empty = OutgoingPacket { opcode: 1, data: vec![], json_details: String::new() };
    let full = OutgoingPacket { opcode: 1, data: vec![0], json_details: String::new() };
    assert!(!should_send(&empty));
    assert!(should_send(&full));
}

#[test]
fn handler_outputs_wait_or_broadcast() {
    assert!(matches!(handler_step(Output::Freeze), HandlerStep::Wait));
    match handler_step(Output::SelectRealm(3)) {
        HandlerStep::Broadcast(Output::SelectRealm(3)) => {}
        _ => panic!("broadcast expected"),
    }
    match handler_step(Output::DebugMessage("m".into(), Some("d".into()))) {
        HandlerStep::Broadcast(Output::DebugMessage(m, d)) => {
            assert_eq!(m, "m");
            assert_eq!(d, Some("d".to_string()));
        }
        _ => panic!("broadcast expected"),
    }
    match handler_error::<u32, u64>("boom".to_string()) {
        Output::ErrorMessage(m, None) => assert_eq!(m, "boom"),
        _ => panic!("error message expected"),
    }
}
