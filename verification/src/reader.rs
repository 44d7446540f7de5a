//! Reading packets from the server, as a state machine.
//!
//! The caller owns the stream and the ciphers. [`Reader::read`] starts a
//! packet; each [`ReadRequest`] says what to do next (read so many bytes,
//! run a cipher over some bytes), and [`Reader::feed`] takes the outcome.
//!
//! World packets (once a session key exists) start with a 4-byte header
//! that the header cipher covers: a big-endian size (16 bits, or 24 bits when
//! the first byte has its high bit set, the 5th byte then following
//! unencrypted), then a little-endian 16-bit opcode. The size counts the
//! opcode's two bytes and the body. Login packets start with a 1-byte opcode
//! whose body length is fixed by the opcode.
use crate::opcode::{LOGIN_CHALLENGE, LOGIN_PROOF, REALM_LIST, SMSG_WARDEN_DATA};
use crate::wire::{
    be_u16_value, be_u24_value, le_u16_value, read_be_u16, read_be_u24, read_le_u16,
};
use vstd::prelude::*;

verus! {

/// Bytes of a world packet's size that belong to the opcode.
pub const INCOME_WORLD_OPCODE_LENGTH: usize = 2;

/// Length of the encrypted part of a world header.
pub const WORLD_HEADER_LENGTH: usize = 4;

/// A packet as it came from the server.
pub struct IncomingPacket {
    pub opcode: u16,
    pub body: Vec<u8>,
    pub header: Vec<u8>,
}

/// The model of an [`IncomingPacket`].
pub struct PacketView {
    pub opcode: u16,
    pub body: Seq<u8>,
    pub header: Seq<u8>,
}

impl View for IncomingPacket {
    type V = PacketView;

    open spec fn view(&self) -> PacketView {
        PacketView { opcode: self.opcode, body: self.body@, header: self.header@ }
    }
}

/// Whether a world header whose first byte is `first` carries a 24-bit size.
pub open spec fn spec_is_long_packet(first: u8) -> bool {
    first >= 0x80
}

/// Whether a world header whose first byte is `first` carries a 24-bit size.
pub fn is_long_packet(first: u8) -> (r: bool)
    ensures
        r == spec_is_long_packet(first),
{
    first >= 0x80
}

/// The full length of a world header whose first byte is `first`.
pub open spec fn world_header_len(first: u8) -> nat {
    if spec_is_long_packet(first) {
        5
    } else {
        4
    }
}

/// A complete world header: its length is fixed by its first byte.
pub open spec fn is_world_header(h: Seq<u8>) -> bool {
    h.len() >= 4 && h.len() == world_header_len(h[0])
}

/// The size field of a complete world header.
pub open spec fn header_size(h: Seq<u8>) -> int {
    if spec_is_long_packet(h[0]) {
        be_u24_value(h)
    } else {
        be_u16_value(h)
    }
}

/// The opcode field of a complete world header.
pub open spec fn header_opcode(h: Seq<u8>) -> int {
    if spec_is_long_packet(h[0]) {
        le_u16_value(h.subrange(3, 5))
    } else {
        le_u16_value(h.subrange(2, 4))
    }
}

/// The two fields of a world header.
pub struct WorldHeader {
    pub size: u32,
    pub opcode: u16,
}

/// Reads the size and the opcode out of a complete (decrypted) world header.
pub fn parse_world_header(header: &[u8]) -> (r: WorldHeader)
    requires
        is_world_header(header@),
    ensures
        r.size == header_size(header@),
        r.opcode == header_opcode(header@),
{
    if is_long_packet(header[0]) {
        let size = read_be_u24(header);
        let opcode = read_le_u16(&header[3..5]);
        WorldHeader { size, opcode }
    } else {
        let size = read_be_u16(header);
        let opcode = read_le_u16(&header[2..4]);
        WorldHeader { size: size as u32, opcode }
    }
}

/// The length of the body that follows a world header of the given size.
pub fn world_body_len(size: u32) -> (n: usize)
    requires
        size >= INCOME_WORLD_OPCODE_LENGTH,
    ensures
        n == size - INCOME_WORLD_OPCODE_LENGTH,
{
    size as usize - INCOME_WORLD_OPCODE_LENGTH
}

/// The body length of a login packet, fixed by its opcode.
pub open spec fn spec_login_body_len(opcode: u8) -> nat {
    if opcode == LOGIN_CHALLENGE || opcode == LOGIN_PROOF {
        32
    } else if opcode == REALM_LIST {
        128
    } else {
        0
    }
}

/// The body length of a login packet, fixed by its opcode.
pub fn login_body_len(opcode: u8) -> (n: usize)
    ensures
        n == spec_login_body_len(opcode),
{
    if opcode == LOGIN_CHALLENGE || opcode == LOGIN_PROOF {
        32
    } else if opcode == REALM_LIST {
        128
    } else {
        0
    }
}

/// Whether a world packet's body goes through the warden cipher.
pub open spec fn spec_needs_warden_decryption(opcode: u16, warden_present: bool) -> bool {
    opcode == SMSG_WARDEN_DATA && warden_present
}

/// Where a [`Reader`] stands within a packet.
pub enum ReadStage {
    /// Between packets.
    Idle,
    /// Waiting for the 4 header bytes as they came from the stream.
    Header,
    /// Waiting for the 4 header bytes after the header cipher.
    DecryptedHeader,
    /// Waiting for the 5th byte of a long header.
    ExtraByte { header: Vec<u8> },
    /// Waiting for the body of a world packet.
    Body { opcode: u16, len: usize },
    /// Waiting for the body of a world packet after the warden cipher.
    WardenBody { opcode: u16 },
    /// Waiting for the 1-byte opcode of a login packet.
    LoginOpcode,
    /// Waiting for the body of a login packet.
    LoginBody { code: u8, len: usize },
}

/// The model of a [`ReadStage`].
pub enum ReadStageView {
    Idle,
    Header,
    DecryptedHeader,
    ExtraByte(Seq<u8>),
    Body(u16, nat),
    WardenBody(u16),
    LoginOpcode,
    LoginBody(u8, nat),
}

impl View for ReadStage {
    type V = ReadStageView;

    open spec fn view(&self) -> ReadStageView {
        match self {
            ReadStage::Idle => ReadStageView::Idle,
            ReadStage::Header => ReadStageView::Header,
            ReadStage::DecryptedHeader => ReadStageView::DecryptedHeader,
            ReadStage::ExtraByte { header } => ReadStageView::ExtraByte(header@),
            ReadStage::Body { opcode, len } => ReadStageView::Body(*opcode, *len as nat),
            ReadStage::WardenBody { opcode } => ReadStageView::WardenBody(*opcode),
            ReadStage::LoginOpcode => ReadStageView::LoginOpcode,
            ReadStage::LoginBody { code, len } => ReadStageView::LoginBody(*code, *len as nat),
        }
    }
}

/// What the caller of a [`Reader`] does next.
pub enum ReadRequest {
    /// Read exactly this many bytes and feed them back.
    Bytes(usize),
    /// Run the header cipher over these bytes and feed the result back.
    DecryptHeader(Vec<u8>),
    /// Run the warden cipher over this body and feed the result back.
    DecryptWardenBody(Vec<u8>),
    /// The packet is complete.
    Packet(IncomingPacket),
}

/// The model of a [`ReadRequest`].
pub enum ReadAction {
    Bytes(nat),
    DecryptHeader(Seq<u8>),
    DecryptWardenBody(Seq<u8>),
    Packet(PacketView),
}

impl View for ReadRequest {
    type V = ReadAction;

    open spec fn view(&self) -> ReadAction {
        match self {
            ReadRequest::Bytes(n) => ReadAction::Bytes(*n as nat),
            ReadRequest::DecryptHeader(b) => ReadAction::DecryptHeader(b@),
            ReadRequest::DecryptWardenBody(b) => ReadAction::DecryptWardenBody(b@),
            ReadRequest::Packet(p) => ReadAction::Packet(p@),
        }
    }
}

/// A world header whose size is too small to hold its own opcode: the
/// body length `size - 2` does not exist. The client gives up on the stream.
#[derive(Debug, Clone, Copy, PartialEq, Eq)]
pub enum ReadFault {
    BodySizeUnderflow { size: u32 },
}

/// The model of a [`Reader`].
pub struct ReaderView {
    pub decrypting: bool,
    pub need_sync: bool,
    pub stage: ReadStageView,
}

/// The decisions of a connection's read half: whether a header cipher is in
/// use, whether the next header still arrives unencrypted (right after the
/// switch to the world server), and where the current packet stands.
pub struct Reader {
    pub decrypting: bool,
    pub need_sync: bool,
    pub stage: ReadStage,
}

impl View for Reader {
    type V = ReaderView;

    open spec fn view(&self) -> ReaderView {
        ReaderView { decrypting: self.decrypting, need_sync: self.need_sync, stage: self.stage@ }
    }
}

/// A stage that a reader can be in: a pending long header holds its first
/// four bytes, the first with its high bit set.
pub open spec fn stage_wf(s: ReadStageView) -> bool {
    match s {
        ReadStageView::ExtraByte(h) => h.len() == 4 && spec_is_long_packet(h[0]),
        _ => true,
    }
}

/// The length of input that a stage waits for, where it fixes one.
pub open spec fn accepts_input(s: ReadStageView, input: Seq<u8>) -> bool {
    match s {
        ReadStageView::Idle => false,
        ReadStageView::Header => input.len() == 4,
        ReadStageView::DecryptedHeader => input.len() == 4,
        ReadStageView::ExtraByte(_) => input.len() == 1,
        ReadStageView::LoginOpcode => input.len() == 1,
        ReadStageView::Body(_, n) => input.len() == n,
        ReadStageView::LoginBody(_, n) => input.len() == n,
        _ => true,
    }
}

/// What follows a complete world header `h`: the body is requested, or the
/// header is refused when its size cannot hold the opcode.
pub open spec fn after_world_header(h: Seq<u8>) -> (ReadStageView, Result<ReadAction, ReadFault>) {
    if header_size(h) < INCOME_WORLD_OPCODE_LENGTH {
        (ReadStageView::Idle, Err(ReadFault::BodySizeUnderflow { size: header_size(h) as u32 }))
    } else {
        (
            ReadStageView::Body(
                header_opcode(h) as u16,
                (header_size(h) - INCOME_WORLD_OPCODE_LENGTH) as nat,
            ),
            Ok(ReadAction::Bytes((header_size(h) - INCOME_WORLD_OPCODE_LENGTH) as nat)),
        )
    }
}

/// What follows the 4 plain header bytes `h`: the 5th byte of a long
/// header, or the body.
pub open spec fn after_plain_header(h: Seq<u8>) -> (ReadStageView, Result<ReadAction, ReadFault>) {
    if spec_is_long_packet(h[0]) {
        (ReadStageView::ExtraByte(h), Ok(ReadAction::Bytes(1)))
    } else {
        after_world_header(h)
    }
}

/// A packet with the given opcode and body, and no header bytes kept.
pub open spec fn complete(opcode: u16, body: Seq<u8>) -> Result<ReadAction, ReadFault> {
    Ok(ReadAction::Packet(PacketView { opcode, body, header: Seq::empty() }))
}

/// The reader's transition on the caller's input: the new state and what
/// the caller does next.
pub open spec fn read_step(r: ReaderView, input: Seq<u8>, warden_present: bool) -> (
    ReaderView,
    Result<ReadAction, ReadFault>,
) {
    let with = |s: ReadStageView, sync: bool| ReaderView { decrypting: r.decrypting, need_sync: sync, stage: s };
    match r.stage {
        ReadStageView::Header => if r.need_sync {
            let (s, a) = after_plain_header(input);
            (with(s, false), a)
        } else {
            (with(ReadStageView::DecryptedHeader, false), Ok(ReadAction::DecryptHeader(input)))
        },
        ReadStageView::DecryptedHeader => {
            let (s, a) = after_plain_header(input);
            (with(s, r.need_sync), a)
        },
        ReadStageView::ExtraByte(h) => {
            let (s, a) = after_world_header(h + input);
            (with(s, r.need_sync), a)
        },
        ReadStageView::Body(opcode, _) => if spec_needs_warden_decryption(opcode, warden_present) {
            (with(ReadStageView::WardenBody(opcode), r.need_sync), Ok(ReadAction::DecryptWardenBody(input)))
        } else {
            (with(ReadStageView::Idle, r.need_sync), complete(opcode, input))
        },
        ReadStageView::WardenBody(opcode) => (with(ReadStageView::Idle, r.need_sync), complete(opcode, input)),
        ReadStageView::LoginOpcode => if spec_login_body_len(input[0]) == 0 {
            (with(ReadStageView::Idle, r.need_sync), complete(input[0] as u16, Seq::empty()))
        } else {
            (
                with(ReadStageView::LoginBody(input[0], spec_login_body_len(input[0])), r.need_sync),
                Ok(ReadAction::Bytes(spec_login_body_len(input[0]))),
            )
        },
        ReadStageView::LoginBody(opcode, _) => (with(ReadStageView::Idle, r.need_sync), complete(opcode as u16, input)),
        // An idle reader takes no input (`feed` refuses it).
        ReadStageView::Idle => (r, Ok(ReadAction::Bytes(0))),
    }
}

/// The model of a `Result<ReadRequest, ReadFault>`.
pub open spec fn read_result_view(r: Result<ReadRequest, ReadFault>) -> Result<ReadAction, ReadFault> {
    match r {
        Ok(q) => Ok(q@),
        Err(e) => Err(e),
    }
}

/// With a header cipher, exactly one header arrives unencrypted after a
/// switch to the world server: reading it clears the flag, nothing sets the
/// flag again, and every later header goes to the header cipher.
pub proof fn lemma_read_sync_once(r: ReaderView, raw: Seq<u8>, input: Seq<u8>, warden_present: bool)
    requires
        r.decrypting,
        r.stage is Header,
        raw.len() == 4,
    ensures
        !read_step(r, raw, warden_present).0.need_sync,
        r.need_sync ==> !(read_step(r, raw, warden_present).1 matches Ok(ReadAction::DecryptHeader(_))),
        !r.need_sync ==> read_step(r, raw, warden_present).1 == Ok::<ReadAction, ReadFault>(
            ReadAction::DecryptHeader(raw),
        ),
        read_step(ReaderView { stage: ReadStageView::DecryptedHeader, ..r }, input, warden_present).0.need_sync
            == r.need_sync,
{
}

/// A whole world packet with a short header, read through the header
/// cipher: the reader asks for 4 bytes, has them decrypted, asks for
/// `size - 2` body bytes, and hands out the body with the header's opcode.
/// Warden data takes one more pass, through the warden cipher.
pub proof fn lemma_read_world_packet(
    r: ReaderView,
    raw: Seq<u8>,
    plain: Seq<u8>,
    body: Seq<u8>,
    clear_body: Seq<u8>,
    warden_present: bool,
)
    requires
        r.decrypting,
        !r.need_sync,
        r.stage is Header,
        raw.len() == 4,
        plain.len() == 4,
        !spec_is_long_packet(plain[0]),
        header_size(plain) >= INCOME_WORLD_OPCODE_LENGTH,
        body.len() == header_size(plain) - INCOME_WORLD_OPCODE_LENGTH,
    ensures
        ({
            let (r1, a1) = read_step(r, raw, warden_present);
            let (r2, a2) = read_step(r1, plain, warden_present);
            let (r3, a3) = read_step(r2, body, warden_present);
            let op = header_opcode(plain) as u16;
            &&& a1 == Ok::<ReadAction, ReadFault>(ReadAction::DecryptHeader(raw))
            &&& a2 == Ok::<ReadAction, ReadFault>(
                ReadAction::Bytes((header_size(plain) - INCOME_WORLD_OPCODE_LENGTH) as nat),
            )
            &&& !spec_needs_warden_decryption(op, warden_present) ==> a3 == complete(op, body) && r3.stage is Idle
            &&& spec_needs_warden_decryption(op, warden_present) ==> {
                &&& a3 == Ok::<ReadAction, ReadFault>(ReadAction::DecryptWardenBody(body))
                &&& read_step(r3, clear_body, warden_present).1 == complete(op, clear_body)
                &&& read_step(r3, clear_body, warden_present).0.stage is Idle
            }
        }),
{
}

/// A long header: the 5th byte follows unencrypted and the size has three
/// bytes; the body asked for is again `size - 2` bytes.
pub proof fn lemma_read_long_header(r: ReaderView, plain: Seq<u8>, extra: Seq<u8>, warden_present: bool)
    requires
        r.stage is DecryptedHeader,
        plain.len() == 4,
        spec_is_long_packet(plain[0]),
        extra.len() == 1,
    ensures
        ({
            let (r1, a1) = read_step(r, plain, warden_present);
            let full = plain + extra;
            &&& a1 == Ok::<ReadAction, ReadFault>(ReadAction::Bytes(1))
            &&& stage_wf(r1.stage)
            &&& read_step(r1, extra, warden_present) == (
                ReaderView { stage: after_world_header(full).0, ..r },
                after_world_header(full).1,
            )
            &&& header_size(full) == full[0] * 65536 + full[1] * 256 + full[2]
            &&& header_opcode(full) == full[3] + full[4] * 256
        }),
{
}

/// A short header written as the server writes it (size big-endian, then
/// opcode little-endian) reads back as that size and opcode.
pub proof fn lemma_short_header_fields(size: u16, opcode: u16)
    requires
        size < 0x8000,
    ensures
        ({
            let h = seq![(size / 256) as u8, (size % 256) as u8, (opcode % 256) as u8, (opcode / 256) as u8];
            &&& is_world_header(h)
            &&& !spec_is_long_packet(h[0])
            &&& header_size(h) == size
            &&& header_opcode(h) == opcode
        }),
{
    let h = seq![(size / 256) as u8, (size % 256) as u8, (opcode % 256) as u8, (opcode / 256) as u8];
    assert(h.subrange(2, 4) =~= seq![(opcode % 256) as u8, (opcode / 256) as u8]);
}

/// A long header (its 24-bit size has the top bit set) written big-endian
/// then little-endian reads back as that size and opcode.
pub proof fn lemma_long_header_fields(size: u32, opcode: u16)
    requires
        0x800000 <= size < 0x1000000,
    ensures
        ({
            let h = seq![
                (size / 65536) as u8,
                ((size / 256) % 256) as u8,
                (size % 256) as u8,
                (opcode % 256) as u8,
                (opcode / 256) as u8,
            ];
            &&& is_world_header(h)
            &&& spec_is_long_packet(h[0])
            &&& header_size(h) == size
            &&& header_opcode(h) == opcode
        }),
{
    let h = seq![
        (size / 65536) as u8,
        ((size / 256) % 256) as u8,
        (size % 256) as u8,
        (opcode % 256) as u8,
        (opcode / 256) as u8,
    ];
    assert(h.subrange(3, 5) =~= seq![(opcode % 256) as u8, (opcode / 256) as u8]);
    assert(size == (size / 65536) * 65536 + ((size / 256) % 256) * 256 + size % 256) by (nonlinear_arith)
        requires
            size < 0x1000000,
    ;
}

/// Only warden data goes through the warden cipher, and only when one is set
/// up: every other world body is handed out exactly as it was read, and the
/// reader is idle again.
pub proof fn lemma_only_warden_data_is_decrypted(
    r: ReaderView,
    opcode: u16,
    n: nat,
    body: Seq<u8>,
    warden_present: bool,
)
    requires
        r.stage == ReadStageView::Body(opcode, n),
    ensures
        (opcode != SMSG_WARDEN_DATA || !warden_present) ==> read_step(r, body, warden_present) == (
            ReaderView { stage: ReadStageView::Idle, ..r },
            Ok::<ReadAction, ReadFault>(
                ReadAction::Packet(PacketView { opcode, body, header: Seq::empty() }),
            ),
        ),
        (opcode == SMSG_WARDEN_DATA && warden_present) ==> read_step(r, body, warden_present).1 == Ok::<
            ReadAction,
            ReadFault,
        >(ReadAction::DecryptWardenBody(body)),
        (read_step(r, body, warden_present).1 matches Ok(ReadAction::DecryptWardenBody(_))) ==> (opcode
            == SMSG_WARDEN_DATA && warden_present),
{
}

/// Login framing: the opcode byte fixes the body, 32 bytes for the logon
/// challenge and proof, 128 for the realm list, none for any other opcode;
/// the body read next becomes the packet's body under that opcode.
pub proof fn lemma_login_framing(r: ReaderView, c: u8, body: Seq<u8>, warden_present: bool)
    requires
        r.stage is LoginOpcode,
    ensures
        ({
            let (r1, a1) = read_step(r, seq![c], warden_present);
            &&& (c == LOGIN_CHALLENGE || c == LOGIN_PROOF) ==> a1 == Ok::<ReadAction, ReadFault>(
                ReadAction::Bytes(32),
            ) && r1.stage == ReadStageView::LoginBody(c, 32)
            &&& c == REALM_LIST ==> a1 == Ok::<ReadAction, ReadFault>(ReadAction::Bytes(128)) && r1.stage
                == ReadStageView::LoginBody(c, 128)
            &&& (c != LOGIN_CHALLENGE && c != LOGIN_PROOF && c != REALM_LIST) ==> a1 == Ok::<
                ReadAction,
                ReadFault,
            >(ReadAction::Packet(PacketView { opcode: c as u16, body: Seq::empty(), header: Seq::empty() }))
                && r1.stage is Idle
            &&& r1.stage is LoginBody ==> read_step(r1, body, warden_present) == (
                ReaderView { stage: ReadStageView::Idle, ..r1 },
                Ok::<ReadAction, ReadFault>(
                    ReadAction::Packet(PacketView { opcode: c as u16, body, header: Seq::empty() }),
                ),
            )
            &&& r1.need_sync == r.need_sync && r1.decrypting == r.decrypting
        }),
{
    assert(seq![c][0] == c);
}

impl Reader {
    /// A reader between packets; with `decrypting` the world framing and the
    /// header cipher apply, else the login framing.
    pub fn new(need_sync: bool, decrypting: bool) -> (r: Reader)
        ensures
            r@ == (ReaderView { decrypting, need_sync, stage: ReadStageView::Idle }),
    {
        Reader { decrypting, need_sync, stage: ReadStage::Idle }
    }

    /// Starts reading a packet: 4 header bytes of a world packet, or the
    /// 1-byte opcode of a login packet. A packet left unfinished (the
    /// stream failed) is dropped.
    pub fn read(&mut self) -> (q: ReadRequest)
        ensures
            final(self)@.decrypting == old(self)@.decrypting,
            final(self)@.need_sync == old(self)@.need_sync,
            old(self)@.decrypting ==> q@ == ReadAction::Bytes(4) && final(self)@.stage is Header,
            !old(self)@.decrypting ==> q@ == ReadAction::Bytes(1) && final(self)@.stage is LoginOpcode,
    {
        if self.decrypting {
            self.stage = ReadStage::Header;
            ReadRequest::Bytes(WORLD_HEADER_LENGTH)
        } else {
            self.stage = ReadStage::LoginOpcode;
            ReadRequest::Bytes(1)
        }
    }

    fn finish_world_header(&mut self, h: &[u8]) -> (q: Result<ReadRequest, ReadFault>)
        requires
            is_world_header(h@),
        ensures
            final(self).decrypting == old(self).decrypting,
            final(self).need_sync == old(self).need_sync,
            (final(self).stage@, read_result_view(q)) == after_world_header(h@),
    {
        let parsed = parse_world_header(h);
        if parsed.size < INCOME_WORLD_OPCODE_LENGTH as u32 {
            self.stage = ReadStage::Idle;
            Err(ReadFault::BodySizeUnderflow { size: parsed.size })
        } else {
            let n = world_body_len(parsed.size);
            self.stage = ReadStage::Body { opcode: parsed.opcode, len: n };
            Ok(ReadRequest::Bytes(n))
        }
    }

    fn finish_plain_header(&mut self, h: Vec<u8>) -> (q: Result<ReadRequest, ReadFault>)
        requires
            h@.len() == 4,
        ensures
            final(self).decrypting == old(self).decrypting,
            final(self).need_sync == old(self).need_sync,
            (final(self).stage@, read_result_view(q)) == after_plain_header(h@),
            stage_wf(final(self).stage@),
    {
        if is_long_packet(h[0]) {
            self.stage = ReadStage::ExtraByte { header: h };
            Ok(ReadRequest::Bytes(1))
        } else {
            self.finish_world_header(h.as_slice())
        }
    }

    /// Takes what the last request asked for and says what comes next.
    /// `warden_present` tells whether a warden cipher is set up now; it
    /// matters only when a world body arrives.
    pub fn feed(&mut self, input: Vec<u8>, warden_present: bool) -> (q: Result<ReadRequest, ReadFault>)
        requires
            stage_wf(old(self)@.stage),
            accepts_input(old(self)@.stage, input@),
        ensures
            stage_wf(final(self)@.stage),
            (final(self)@, read_result_view(q)) == read_step(old(self)@, input@, warden_present),
            old(self)@.stage matches ReadStageView::Body(op, _) ==> (if op == SMSG_WARDEN_DATA && warden_present {
                q matches Ok(ReadRequest::DecryptWardenBody(b)) && b@ == input@
            } else {
                &&& q matches Ok(ReadRequest::Packet(p)) && p.opcode == op && p.body@ == input@
                    && p.header@.len() == 0
                &&& final(self)@.stage is Idle
            }),
            old(self)@.stage is LoginOpcode && (input@[0] == LOGIN_CHALLENGE || input@[0] == LOGIN_PROOF)
                ==> (q matches Ok(ReadRequest::Bytes(n)) && n == 32),
            old(self)@.stage is LoginOpcode && input@[0] == REALM_LIST ==> (q matches Ok(
                ReadRequest::Bytes(n),
            ) && n == 128),
            old(self)@.stage matches ReadStageView::LoginBody(c, _) ==> (q matches Ok(ReadRequest::Packet(p))
                && p.opcode == c as u16 && p.body@ == input@),
    {
        let mut stage = ReadStage::Idle;
        std::mem::swap(&mut stage, &mut self.stage);
        match stage {
            ReadStage::Idle => {
                proof { assert(false); }
                Ok(ReadRequest::Bytes(0))
            },
            ReadStage::Header => {
                if self.need_sync {
                    self.need_sync = false;
                    self.finish_plain_header(input)
                } else {
                    self.stage = ReadStage::DecryptedHeader;
                    Ok(ReadRequest::DecryptHeader(input))
                }
            },
            ReadStage::DecryptedHeader => self.finish_plain_header(input),
            ReadStage::ExtraByte { header } => {
                let mut full = header;
                full.push(input[0]);
                proof {
                    assert(full@ == header@ + input@);
                }
                self.finish_world_header(full.as_slice())
            },
            ReadStage::Body { opcode, len: _ } => {
                if opcode == SMSG_WARDEN_DATA && warden_present {
                    self.stage = ReadStage::WardenBody { opcode };
                    Ok(ReadRequest::DecryptWardenBody(input))
                } else {
                    Ok(ReadRequest::Packet(IncomingPacket { opcode, body: input, header: Vec::new() }))
                }
            },
            ReadStage::WardenBody { opcode } => {
                Ok(ReadRequest::Packet(IncomingPacket { opcode, body: input, header: Vec::new() }))
            },
            ReadStage::LoginOpcode => {
                let opcode = input[0];
                let n = login_body_len(opcode);
                if n == 0 {
                    Ok(ReadRequest::Packet(IncomingPacket { opcode: opcode as u16, body: Vec::new(), header: Vec::new() }))
                } else {
                    self.stage = ReadStage::LoginBody { code: opcode, len: n };
                    Ok(ReadRequest::Bytes(n))
                }
            },
            ReadStage::LoginBody { code, len: _ } => {
                Ok(ReadRequest::Packet(IncomingPacket { opcode: code as u16, body: input, header: Vec::new() }))
            },
        }
    }
}

} // verus!
