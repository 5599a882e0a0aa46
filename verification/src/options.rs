//! The Options request, and the canonical option-name vocabulary.

use vstd::prelude::*;

use crate::request::{RequestOpcode, SerializableRequest};
use crate::types::SerializeError;

verus! {

/// A request for the connection options the server supports. Its wire body
/// is empty by protocol definition: the request exists purely to trigger a
/// server response enumerating the supported options.
pub struct Options;

impl SerializableRequest for Options {
    open spec fn spec_opcode() -> RequestOpcode {
        RequestOpcode::Options
    }

    open spec fn spec_result(&self) -> Result<(), SerializeError> {
        Ok(())
    }

    open spec fn spec_appended(&self) -> Seq<u8> {
        Seq::<u8>::empty()
    }

    fn opcode() -> (r: RequestOpcode) {
        RequestOpcode::Options
    }

    fn serialize(&self, buf: &mut Vec<u8>) -> (r: Result<(), SerializeError>) {
        proof {
            assert(buf@ =~= buf@ + Seq::<u8>::empty());
        }
        Ok(())
    }
}

// Canonical wire keys for connection options in the SUPPORTED/STARTUP
// negotiation exchange. These strings are protocol-mandated and must match
// byte-for-byte what the server expects; no normalization is permitted.

pub const SCYLLA_SHARD_AWARE_PORT: &'static str = "SCYLLA_SHARD_AWARE_PORT";

pub const SCYLLA_SHARD_AWARE_PORT_SSL: &'static str = "SCYLLA_SHARD_AWARE_PORT_SSL";

pub const COMPRESSION: &'static str = "COMPRESSION";

pub const CQL_VERSION: &'static str = "CQL_VERSION";

pub const DRIVER_NAME: &'static str = "DRIVER_NAME";

pub const DRIVER_VERSION: &'static str = "DRIVER_VERSION";

} // verus!
