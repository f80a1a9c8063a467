//! Session-layer failures as the flash engine sees them.
use vstd::prelude::*;
use crate::protocol::NackCode;

verus! {

/// A command round trip that did not produce a reply.
#[derive(Clone, Debug, PartialEq, Eq)]
pub enum SessionError {
    /// No reply within the command timeout (milliseconds).
    CommandTimeout(u64),
    /// The receive side of the transport closed.
    RxClosed,
    /// The session layer already parsed a NACK.
    Nack { rejected_opcode: u8, code: NackCode },
    /// Any other transport or session failure, described.
    Other(String),
}

} // verus!
