//! The handoff from the query-parameter serialization subsystem.
//!
//! Serializing a statement's parameters (consistency level, bound values,
//! paging state, timestamps) is entirely delegated to an external
//! collaborator; this core never interprets its output. A request carries
//! that collaborator's verdict — the serialized bytes, or the failure it
//! reported — and appends or propagates it verbatim.

use vstd::prelude::*;

use crate::types::{append_slice, SerializeError};

verus! {

/// A statement's query parameters, represented by the outcome of the
/// delegated serialization subsystem.
pub struct QueryParameters {
    /// What the external serializer produced for these parameters: the
    /// serialized bytes, or the failure it reported.
    pub outcome: Result<Vec<u8>, SerializeError>,
}

impl QueryParameters {
    /// Whether serializing these parameters succeeds, and with which error
    /// it fails.
    pub open spec fn spec_result(&self) -> Result<(), SerializeError> {
        match self.outcome {
            Ok(_) => Ok(()),
            Err(e) => Err(e),
        }
    }

    /// The bytes that serializing these parameters appends: the delegated
    /// serializer's output, or nothing where it failed.
    pub open spec fn spec_bytes(&self) -> Seq<u8> {
        match self.outcome {
            Ok(body) => body@,
            Err(_) => Seq::<u8>::empty(),
        }
    }

    /// Appends the serialized parameters to `buf`, or propagates the
    /// delegated serializer's failure unchanged, appending nothing.
    pub fn serialize(&self, buf: &mut Vec<u8>) -> (r: Result<(), SerializeError>)
        ensures
            r == self.spec_result(),
            final(buf)@ == old(buf)@ + self.spec_bytes(),
    {
        match &self.outcome {
            Ok(body) => {
                append_slice(body.as_slice(), buf);
                Ok(())
            },
            Err(e) => {
                proof {
                    assert(buf@ =~= old(buf)@ + self.spec_bytes());
                }
                Err(*e)
            },
        }
    }
}

} // verus!
