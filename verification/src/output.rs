//! What the packet handlers report, and what the client does with it: the
//! routing of the output task, the handler dispatch and the console lines.
use crate::writer::OutgoingPacket;
use vstd::prelude::*;
use vstd::string::*;

verus! {

/// What a packet handler hands back. `R` is a realm and `C` a character as
/// the session stores them; the rules here only pass them on.
pub enum HandlerOutput<R, C> {
    SuccessMessage(String, Option<String>),
    ErrorMessage(String, Option<String>),
    DebugMessage(String, Option<String>),
    ResponseMessage(String, Option<String>),
    RequestMessage(String, Option<String>),
    /// A packet to send: opcode, bytes, description of its fields.
    Data(u32, Vec<u8>, String),
    /// Connect to another server (host, port).
    ConnectionRequest(String, u16),
    SelectRealm(R),
    SelectCharacter(C),
    /// Wait until a realm or character is chosen.
    Freeze,
    /// Stop the output task.
    Drop,
}

/// What the output task does with one handler output.
pub enum OutputAction<R, C> {
    /// Queue this packet for the writer.
    Send(OutgoingPacket),
    /// Connect to this host and port, switch the reader and writer to the
    /// session's key and tell the read task.
    Connect(String, u16),
    /// Store the realm in the session and wake the frozen handler.
    SelectRealm(R),
    /// Store the character in the session and wake the frozen handler.
    SelectCharacter(C),
    /// Leave the output loop.
    Stop,
    /// Nothing to do.
    Ignore,
}

/// The output task's decision for one handler output.
pub fn output_action<R, C>(output: HandlerOutput<R, C>) -> (a: OutputAction<R, C>)
    ensures
        match output {
            HandlerOutput::Data(opcode, data, json_details) => a matches OutputAction::Send(p) && p.opcode
                == opcode && p.data == data && p.json_details == json_details,
            HandlerOutput::ConnectionRequest(host, port) => a == OutputAction::<R, C>::Connect(host, port),
            HandlerOutput::SelectRealm(r) => a == OutputAction::<R, C>::SelectRealm(r),
            HandlerOutput::SelectCharacter(c) => a == OutputAction::<R, C>::SelectCharacter(c),
            HandlerOutput::Drop => a is Stop,
            _ => a is Ignore,
        },
{
    match output {
        HandlerOutput::Data(opcode, data, json_details) => OutputAction::Send(
            OutgoingPacket { opcode, data, json_details },
        ),
        HandlerOutput::ConnectionRequest(host, port) => OutputAction::Connect(host, port),
        HandlerOutput::SelectRealm(r) => OutputAction::SelectRealm(r),
        HandlerOutput::SelectCharacter(c) => OutputAction::SelectCharacter(c),
        HandlerOutput::Drop => OutputAction::Stop,
        _ => OutputAction::Ignore,
    }
}

/// What the handler dispatch does with one output of a handler.
pub enum HandlerStep<R, C> {
    /// Wait until a realm or character is chosen.
    Wait,
    /// Broadcast the output to the other tasks.
    Broadcast(HandlerOutput<R, C>),
}

/// The handler dispatch's decision for one output: a freeze waits, any
/// other output is broadcast as it is.
pub fn handler_step<R, C>(output: HandlerOutput<R, C>) -> (s: HandlerStep<R, C>)
    ensures
        output is Freeze ==> s is Wait,
        !(output is Freeze) ==> s == HandlerStep::Broadcast(output),
{
    match output {
        HandlerOutput::Freeze => HandlerStep::Wait,
        _ => HandlerStep::Broadcast(output),
    }
}

/// The output that reports a failed handler: its error text, with no details.
pub fn handler_error<R, C>(reason: String) -> (o: HandlerOutput<R, C>)
    ensures
        o == HandlerOutput::<R, C>::ErrorMessage(reason, None),
{
    HandlerOutput::ErrorMessage(reason, None)
}

/// Whether the writer task sends a queued packet: empty packets are dropped.
pub fn should_send(packet: &OutgoingPacket) -> (b: bool)
    ensures
        b == (packet.data@.len() > 0),
{
    packet.data.len() > 0
}

/// The colours of the console's lines.
#[derive(Debug, Clone, Copy, PartialEq, Eq)]
pub enum ConsoleColor {
    BrightGreen,
    BrightRed,
    BrightBlack,
    BrightMagenta,
    BrightCyan,
}

/// A line for the console, with its colour.
pub struct ConsoleLine {
    pub text: String,
    pub color: ConsoleColor,
}

/// The tag and colour under which the console shows an output, for the
/// kinds of output that it shows.
pub open spec fn console_style<R, C>(output: HandlerOutput<R, C>) -> Option<(Seq<char>, ConsoleColor)> {
    match output {
        HandlerOutput::SuccessMessage(_, _) => Some(("[SUCCESS]: "@, ConsoleColor::BrightGreen)),
        HandlerOutput::ErrorMessage(_, _) => Some(("[ERROR]: "@, ConsoleColor::BrightRed)),
        HandlerOutput::DebugMessage(_, _) => Some(("[DEBUG]: "@, ConsoleColor::BrightBlack)),
        HandlerOutput::ResponseMessage(_, _) => Some(("[RECV]: "@, ConsoleColor::BrightMagenta)),
        HandlerOutput::RequestMessage(_, _) => Some(("[SEND]: "@, ConsoleColor::BrightCyan)),
        _ => None,
    }
}

/// The message that a message output carries.
pub open spec fn message_of<R, C>(output: HandlerOutput<R, C>) -> Seq<char> {
    match output {
        HandlerOutput::SuccessMessage(m, _) => m@,
        HandlerOutput::ErrorMessage(m, _) => m@,
        HandlerOutput::DebugMessage(m, _) => m@,
        HandlerOutput::ResponseMessage(m, _) => m@,
        HandlerOutput::RequestMessage(m, _) => m@,
        _ => Seq::empty(),
    }
}

/// The console shows a message output as its tag followed by its message
/// field, whatever details the output carries; other outputs are not shown.
pub proof fn lemma_console_shows_the_message<R, C>(m: String, d: Option<String>)
    ensures
        console_style(HandlerOutput::<R, C>::SuccessMessage(m, d)) == Some(("[SUCCESS]: "@, ConsoleColor::BrightGreen)),
        console_style(HandlerOutput::<R, C>::ErrorMessage(m, d)) == Some(("[ERROR]: "@, ConsoleColor::BrightRed)),
        console_style(HandlerOutput::<R, C>::DebugMessage(m, d)) == Some(("[DEBUG]: "@, ConsoleColor::BrightBlack)),
        console_style(HandlerOutput::<R, C>::ResponseMessage(m, d)) == Some(("[RECV]: "@, ConsoleColor::BrightMagenta)),
        console_style(HandlerOutput::<R, C>::RequestMessage(m, d)) == Some(("[SEND]: "@, ConsoleColor::BrightCyan)),
        message_of(HandlerOutput::<R, C>::SuccessMessage(m, d)) == m@,
        message_of(HandlerOutput::<R, C>::ErrorMessage(m, d)) == m@,
        message_of(HandlerOutput::<R, C>::DebugMessage(m, d)) == m@,
        message_of(HandlerOutput::<R, C>::ResponseMessage(m, d)) == m@,
        message_of(HandlerOutput::<R, C>::RequestMessage(m, d)) == m@,
        console_style(HandlerOutput::<R, C>::Freeze) is None,
        console_style(HandlerOutput::<R, C>::Drop) is None,
{
}

fn tagged_line(tag: &str, message: &String, color: ConsoleColor) -> (l: ConsoleLine)
    ensures
        l.text@ == tag@ + message@,
        l.color == color,
{
    let mut text = String::from_str(tag);
    text.append(message.as_str());
    ConsoleLine { text, color }
}

/// The console's line for an output: the message behind its tag, in the
/// tag's colour; other outputs are not shown.
pub fn console_line<R, C>(output: &HandlerOutput<R, C>) -> (l: Option<ConsoleLine>)
    ensures
        match console_style(*output) {
            Some((tag, color)) => l matches Some(line) && line.text@ == tag + message_of(*output)
                && line.color == color,
            None => l is None,
        },
        output matches HandlerOutput::SuccessMessage(m, _) ==> (l matches Some(line) && line.text@
            == "[SUCCESS]: "@ + m@ && line.color == ConsoleColor::BrightGreen),
        output matches HandlerOutput::ErrorMessage(m, _) ==> (l matches Some(line) && line.text@
            == "[ERROR]: "@ + m@ && line.color == ConsoleColor::BrightRed),
        output matches HandlerOutput::DebugMessage(m, _) ==> (l matches Some(line) && line.text@
            == "[DEBUG]: "@ + m@ && line.color == ConsoleColor::BrightBlack),
        output matches HandlerOutput::ResponseMessage(m, _) ==> (l matches Some(line) && line.text@
            == "[RECV]: "@ + m@ && line.color == ConsoleColor::BrightMagenta),
        output matches HandlerOutput::RequestMessage(m, _) ==> (l matches Some(line) && line.text@
            == "[SEND]: "@ + m@ && line.color == ConsoleColor::BrightCyan),
{
    match output {
        HandlerOutput::SuccessMessage(m, _) => Some(tagged_line("[SUCCESS]: ", m, ConsoleColor::BrightGreen)),
        HandlerOutput::ErrorMessage(m, _) => Some(tagged_line("[ERROR]: ", m, ConsoleColor::BrightRed)),
        HandlerOutput::DebugMessage(m, _) => Some(tagged_line("[DEBUG]: ", m, ConsoleColor::BrightBlack)),
        HandlerOutput::ResponseMessage(m, _) => Some(tagged_line("[RECV]: ", m, ConsoleColor::BrightMagenta)),
        HandlerOutput::RequestMessage(m, _) => Some(tagged_line("[SEND]: ", m, ConsoleColor::BrightCyan)),
        _ => None,
    }
}

} // verus!
