//! A fresh connection's read and write halves.
use crate::reader::{ReadStageView, Reader, ReaderView};
use crate::writer::{WriteStageView, Writer, WriterView};
use vstd::prelude::*;

verus! {

/// The decisions for both halves of a connection, and whether a warden
/// cipher is set up for it.
pub struct StreamHalves {
    pub reader: Reader,
    pub writer: Writer,
    pub warden: bool,
}

/// The halves of a fresh connection. With a session key (the world server)
/// both use the header ciphers, the first packet each way still passes
/// plain, and a warden cipher is set up; without one (the login server)
/// there are no ciphers at all.
pub fn stream_halves(with_session_key: bool) -> (h: StreamHalves)
    ensures
        h.reader@ == (ReaderView {
            decrypting: with_session_key,
            need_sync: with_session_key,
            stage: ReadStageView::Idle,
        }),
        h.writer@ == (WriterView {
            encrypting: with_session_key,
            need_sync: with_session_key,
            stage: WriteStageView::Idle,
        }),
        h.warden == with_session_key,
{
    StreamHalves {
        reader: Reader::new(with_session_key, with_session_key),
        writer: Writer::new(with_session_key, with_session_key),
        warden: with_session_key,
    }
}

} // verus!
