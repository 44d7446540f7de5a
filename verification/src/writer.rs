//! Writing packets to the server, as a state machine.
//!
//! An outgoing world packet starts with a 6-byte header that the header
//! cipher covers; a warden answer's body goes through the warden cipher
//! too. [`Writer::write`] says what to transform, [`Writer::feed`] takes the
//! transformed bytes, and the last request hands over the bytes to send.
use crate::opcode::CMSG_WARDEN_DATA;
use vstd::prelude::*;

verus! {

/// Length of the header of an outgoing world packet.
pub const OUTCOME_WORLD_PACKET_HEADER_LENGTH: usize = 6;

/// A packet ready to leave: its opcode, its full bytes (header included) and
/// a description of its fields for the log.
pub struct OutgoingPacket {
    pub opcode: u32,
    pub data: Vec<u8>,
    pub json_details: String,
}

/// Where a [`Writer`] stands within a packet.
pub enum WriteStage {
    /// Between packets.
    Idle,
    /// Waiting for the encrypted header; the body waits beside it.
    Header { opcode: u32, body: Vec<u8> },
    /// Waiting for the warden-encrypted body; the encrypted header waits.
    WardenBody { header: Vec<u8> },
}

/// The model of a [`WriteStage`].
pub enum WriteStageView {
    Idle,
    Header(u32, Seq<u8>),
    WardenBody(Seq<u8>),
}

impl View for WriteStage {
    type V = WriteStageView;

    open spec fn view(&self) -> WriteStageView {
        match self {
            WriteStage::Idle => WriteStageView::Idle,
            WriteStage::Header { opcode, body } => WriteStageView::Header(*opcode, body@),
            WriteStage::WardenBody { header } => WriteStageView::WardenBody(header@),
        }
    }
}

/// What the caller of a [`Writer`] does next.
pub enum WriteRequest {
    /// Write these bytes to the stream; the packet is done.
    Send(Vec<u8>),
    /// Run the header cipher over these bytes and feed the result back.
    EncryptHeader(Vec<u8>),
    /// Run the warden cipher over these bytes and feed the result back.
    EncryptWardenBody(Vec<u8>),
}

/// The model of a [`WriteRequest`].
pub enum WriteAction {
    Send(Seq<u8>),
    EncryptHeader(Seq<u8>),
    EncryptWardenBody(Seq<u8>),
}

impl View for WriteRequest {
    type V = WriteAction;

    open spec fn view(&self) -> WriteAction {
        match self {
            WriteRequest::Send(b) => WriteAction::Send(b@),
            WriteRequest::EncryptHeader(b) => WriteAction::EncryptHeader(b@),
            WriteRequest::EncryptWardenBody(b) => WriteAction::EncryptWardenBody(b@),
        }
    }
}

/// The model of a [`Writer`].
pub struct WriterView {
    pub encrypting: bool,
    pub need_sync: bool,
    pub stage: WriteStageView,
}

/// The decisions of a connection's write half: whether a header cipher is
/// in use, whether the next packet still leaves unencrypted (the first one
/// after the switch to the world server), and where the current packet
/// stands.
pub struct Writer {
    pub encrypting: bool,
    pub need_sync: bool,
    pub stage: WriteStage,
}

impl View for Writer {
    type V = WriterView;

    open spec fn view(&self) -> WriterView {
        WriterView { encrypting: self.encrypting, need_sync: self.need_sync, stage: self.stage@ }
    }
}

/// Whether a packet's data goes through the header cipher when it is
/// written in state `w`.
pub open spec fn encrypts_next(w: WriterView) -> bool {
    w.encrypting && !w.need_sync
}

/// The writer's transition when a packet with `opcode` and `data` is handed
/// to it.
pub open spec fn write_step(w: WriterView, opcode: u32, data: Seq<u8>) -> (WriterView, WriteAction) {
    if !w.encrypting {
        (WriterView { stage: WriteStageView::Idle, ..w }, WriteAction::Send(data))
    } else if w.need_sync {
        (WriterView { need_sync: false, stage: WriteStageView::Idle, ..w }, WriteAction::Send(data))
    } else {
        (
            WriterView {
                stage: WriteStageView::Header(opcode, data.skip(OUTCOME_WORLD_PACKET_HEADER_LENGTH as int)),
                ..w
            },
            WriteAction::EncryptHeader(data.take(OUTCOME_WORLD_PACKET_HEADER_LENGTH as int)),
        )
    }
}

/// Whether an outgoing packet's body goes through the warden cipher.
pub open spec fn spec_needs_warden_encryption(opcode: u32, warden_present: bool) -> bool {
    opcode == CMSG_WARDEN_DATA && warden_present
}

/// The writer's transition when the caller feeds back transformed bytes.
pub open spec fn write_feed_step(w: WriterView, input: Seq<u8>, warden_present: bool) -> (
    WriterView,
    WriteAction,
) {
    match w.stage {
        WriteStageView::Header(opcode, body) => if spec_needs_warden_encryption(opcode, warden_present) {
            (WriterView { stage: WriteStageView::WardenBody(input), ..w }, WriteAction::EncryptWardenBody(body))
        } else {
            (WriterView { stage: WriteStageView::Idle, ..w }, WriteAction::Send(input + body))
        },
        WriteStageView::WardenBody(header) => (
            WriterView { stage: WriteStageView::Idle, ..w },
            WriteAction::Send(header + input),
        ),
        WriteStageView::Idle => (w, WriteAction::Send(input)),
    }
}


/// An encrypted packet leaves as its encrypted header followed by its body:
/// the body bytes reach the stream untouched unless the packet is a warden
/// answer, and when the cipher keeps the header's length, so does the
/// packet. Fed back unchanged, the header leaves the data as it was.
pub proof fn lemma_write_frames_body(
    w: WriterView,
    opcode: u32,
    data: Seq<u8>,
    sealed_header: Seq<u8>,
    warden_present: bool,
)
    requires
        w.stage is Idle,
        encrypts_next(w),
        data.len() >= OUTCOME_WORLD_PACKET_HEADER_LENGTH,
        !spec_needs_warden_encryption(opcode, warden_present),
    ensures
        ({
            let (w1, a1) = write_step(w, opcode, data);
            let (w2, a2) = write_feed_step(w1, sealed_header, warden_present);
            &&& a1 == WriteAction::EncryptHeader(data.take(OUTCOME_WORLD_PACKET_HEADER_LENGTH as int))
            &&& a2 == WriteAction::Send(sealed_header + data.skip(OUTCOME_WORLD_PACKET_HEADER_LENGTH as int))
            &&& w2.stage is Idle
            &&& sealed_header.len() == OUTCOME_WORLD_PACKET_HEADER_LENGTH ==> (sealed_header + data.skip(
                OUTCOME_WORLD_PACKET_HEADER_LENGTH as int,
            )).len() == data.len()
            &&& sealed_header == data.take(OUTCOME_WORLD_PACKET_HEADER_LENGTH as int) ==> a2
                == WriteAction::Send(data)
        }),
{
    assert(data.take(6) + data.skip(6) =~= data);
}

/// A warden answer leaves as its encrypted header followed by its
/// warden-encrypted body; fed back unchanged, both leave the data as it was.
pub proof fn lemma_write_frames_warden_body(
    w: WriterView,
    opcode: u32,
    data: Seq<u8>,
    sealed_header: Seq<u8>,
    sealed_body: Seq<u8>,
)
    requires
        w.stage is Idle,
        encrypts_next(w),
        data.len() >= OUTCOME_WORLD_PACKET_HEADER_LENGTH,
        opcode == CMSG_WARDEN_DATA,
    ensures
        ({
            let (w1, a1) = write_step(w, opcode, data);
            let (w2, a2) = write_feed_step(w1, sealed_header, true);
            let (w3, a3) = write_feed_step(w2, sealed_body, true);
            &&& a1 == WriteAction::EncryptHeader(data.take(OUTCOME_WORLD_PACKET_HEADER_LENGTH as int))
            &&& a2 == WriteAction::EncryptWardenBody(data.skip(OUTCOME_WORLD_PACKET_HEADER_LENGTH as int))
            &&& a3 == WriteAction::Send(sealed_header + sealed_body)
            &&& w3.stage is Idle
            &&& (sealed_header == data.take(OUTCOME_WORLD_PACKET_HEADER_LENGTH as int) && sealed_body
                == data.skip(OUTCOME_WORLD_PACKET_HEADER_LENGTH as int)) ==> a3 == WriteAction::Send(data)
        }),
{
    assert(data.take(6) + data.skip(6) =~= data);
}

/// With a header cipher, exactly one packet leaves unencrypted after a
/// switch to the world server: a write clears the flag, nothing sets it
/// again, and every later packet starts with the header cipher.
pub proof fn lemma_write_sync_once(w: WriterView, op1: u32, d1: Seq<u8>, op2: u32, d2: Seq<u8>, input: Seq<u8>, warden_present: bool)
    requires
        w.encrypting,
        w.stage is Idle,
    ensures
        !write_step(w, op1, d1).0.need_sync,
        w.need_sync ==> write_step(w, op1, d1).1 == WriteAction::Send(d1),
        write_step(w, op1, d1).0.stage is Idle ==> write_step(write_step(w, op1, d1).0, op2, d2).1
            is EncryptHeader,
        write_feed_step(w, input, warden_present).0.need_sync == w.need_sync,
        write_feed_step(w, input, warden_present).0.encrypting == w.encrypting,
{
}

/// Without a header cipher every packet leaves whole, at any length; with
/// one, so does the first packet after the switch to the world server.
pub proof fn lemma_plain_packets_leave_whole(w: WriterView, opcode: u32, data: Seq<u8>)
    ensures
        !w.encrypting ==> write_step(w, opcode, data) == (
            WriterView { stage: WriteStageView::Idle, ..w },
            WriteAction::Send(data),
        ),
        w.encrypting && w.need_sync ==> write_step(w, opcode, data) == (
            WriterView { need_sync: false, stage: WriteStageView::Idle, ..w },
            WriteAction::Send(data),
        ),
{
}

/// Only a warden answer's body goes through the warden cipher, and only
/// when one is set up: any other packet leaves as its sealed header followed
/// by its body untouched.
pub proof fn lemma_only_warden_answers_are_sealed(
    w: WriterView,
    opcode: u32,
    body: Seq<u8>,
    sealed: Seq<u8>,
    warden_present: bool,
)
    requires
        w.stage == WriteStageView::Header(opcode, body),
    ensures
        (opcode != CMSG_WARDEN_DATA || !warden_present) ==> write_feed_step(w, sealed, warden_present) == (
            WriterView { stage: WriteStageView::Idle, ..w },
            WriteAction::Send(sealed + body),
        ),
        (opcode == CMSG_WARDEN_DATA && warden_present) ==> write_feed_step(w, sealed, warden_present).1
            == WriteAction::EncryptWardenBody(body),
        (write_feed_step(w, sealed, warden_present).1 is EncryptWardenBody) ==> (opcode == CMSG_WARDEN_DATA
            && warden_present),
{
}

/// A packet written through the header cipher, other than a warden answer
/// with a warden cipher set up, leaves as the sealed header followed by the
/// data after its first six bytes.
pub proof fn lemma_sealed_packet_bytes(
    w: WriterView,
    opcode: u32,
    data: Seq<u8>,
    sealed: Seq<u8>,
    warden_present: bool,
)
    requires
        w.stage is Idle,
        w.encrypting,
        !w.need_sync,
        data.len() >= 6,
        opcode != CMSG_WARDEN_DATA || !warden_present,
    ensures
        write_step(w, opcode, data).1 == WriteAction::EncryptHeader(data.take(6)),
        write_feed_step(write_step(w, opcode, data).0, sealed, warden_present).1 == WriteAction::Send(
            sealed + data.skip(6),
        ),
{
}

impl Writer {
    /// A writer between packets; with `encrypting` the header cipher applies.
    pub fn new(need_sync: bool, encrypting: bool) -> (w: Writer)
        ensures
            w@ == (WriterView { encrypting, need_sync, stage: WriteStageView::Idle }),
    {
        Writer { encrypting, need_sync, stage: WriteStage::Idle }
    }

    /// Starts writing `packet`. Without a cipher, and for the first packet
    /// after a switch to the world server, its data is sent as it is;
    /// otherwise its first six bytes go to the header cipher first. A packet
    /// left unfinished is dropped.
    pub fn write(&mut self, packet: &OutgoingPacket) -> (q: WriteRequest)
        requires
            encrypts_next(old(self)@) ==> packet.data@.len() >= OUTCOME_WORLD_PACKET_HEADER_LENGTH,
        ensures
            (final(self)@, q@) == write_step(old(self)@, packet.opcode, packet.data@),
            !old(self)@.encrypting ==> (q matches WriteRequest::Send(b) && b@ == packet.data@),
            old(self)@.encrypting && old(self)@.need_sync ==> (q matches WriteRequest::Send(b) && b@
                == packet.data@),
    {
        self.stage = WriteStage::Idle;
        if !self.encrypting {
            let data = packet.data.clone();
            proof {
                assert(data@ =~= packet.data@);
            }
            WriteRequest::Send(data)
        } else if self.need_sync {
            self.need_sync = false;
            let data = packet.data.clone();
            proof {
                assert(data@ =~= packet.data@);
            }
            WriteRequest::Send(data)
        } else {
            let mut header = packet.data.clone();
            proof {
                assert(header@ =~= packet.data@);
            }
            let body = header.split_off(OUTCOME_WORLD_PACKET_HEADER_LENGTH);
            self.stage = WriteStage::Header { opcode: packet.opcode, body };
            WriteRequest::EncryptHeader(header)
        }
    }

    /// Takes the bytes that the last request had transformed and says what
    /// comes next. `warden_present` tells whether a warden cipher is set up
    /// now; it matters only when the header comes back.
    pub fn feed(&mut self, input: Vec<u8>, warden_present: bool) -> (q: WriteRequest)
        requires
            !(old(self)@.stage is Idle),
        ensures
            (final(self)@, q@) == write_feed_step(old(self)@, input@, warden_present),
            old(self)@.stage matches WriteStageView::Header(op, body) ==> (if op == CMSG_WARDEN_DATA
                && warden_present {
                q matches WriteRequest::EncryptWardenBody(b) && b@ == body
            } else {
                &&& q matches WriteRequest::Send(b) && b@ == input@ + body
                &&& final(self)@.stage is Idle
            }),
    {
        let mut stage = WriteStage::Idle;
        std::mem::swap(&mut stage, &mut self.stage);
        match stage {
            WriteStage::Idle => {
                proof { assert(false); }
                WriteRequest::Send(input)
            },
            WriteStage::Header { opcode, body } => {
                if opcode == CMSG_WARDEN_DATA && warden_present {
                    self.stage = WriteStage::WardenBody { header: input };
                    WriteRequest::EncryptWardenBody(body)
                } else {
                    let mut bytes = input;
                    let mut rest = body;
                    bytes.append(&mut rest);
                    WriteRequest::Send(bytes)
                }
            },
            WriteStage::WardenBody { header } => {
                let mut bytes = header;
                let mut rest = input;
                bytes.append(&mut rest);
                WriteRequest::Send(bytes)
            },
        }
    }
}

} // verus!
