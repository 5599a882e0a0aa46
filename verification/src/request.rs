//! The contract every outbound request kind implements: a fixed wire-level
//! operation tag, and a body-encoding method over a growable byte buffer.

use vstd::prelude::*;

use crate::types::SerializeError;

verus! {

/// The operation tag identifying a request kind on the wire. The tag of a
/// request variant is fixed at compile time and never computed at runtime;
/// placing it in the frame header is the frame assembler's job.
#[derive(Clone, Copy, Debug, PartialEq, Eq, Structural)]
pub enum RequestOpcode {
    Query,
    Prepare,
    Execute,
    Options,
    Batch,
}

/// A request that can be encoded into a protocol frame body.
///
/// Encoding only ever appends bytes to the output buffer — never removes or
/// reorders them — and what it appends and whether it succeeds are functions
/// of the request value alone.
pub trait SerializableRequest {
    /// The fixed operation tag of this request kind.
    spec fn spec_opcode() -> RequestOpcode;

    /// Whether encoding this request succeeds, and with which error it
    /// fails.
    spec fn spec_result(&self) -> Result<(), SerializeError>;

    /// The bytes that encoding this request appends to the output buffer,
    /// successful or not.
    spec fn spec_appended(&self) -> Seq<u8>;

    /// The operation tag for the frame header, known without constructing
    /// an instance.
    fn opcode() -> (r: RequestOpcode)
        ensures
            r == Self::spec_opcode(),
    ;

    /// Appends this request's wire body to `buf`. On failure the buffer
    /// holds a valid prefix of the body and must be discarded by the
    /// caller, never reused.
    fn serialize(&self, buf: &mut Vec<u8>) -> (r: Result<(), SerializeError>)
        ensures
            r == self.spec_result(),
            final(buf)@ == old(buf)@ + self.spec_appended(),
    ;
}

} // verus!
