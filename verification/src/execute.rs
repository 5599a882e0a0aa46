//! The Execute request: run a previously prepared statement.

use vstd::prelude::*;

use crate::query::QueryParameters;
use crate::request::{RequestOpcode, SerializableRequest};
use crate::shared_bytes::{bytes_as_slice, bytes_view};
use crate::types::{
    spec_short_bytes, spec_u16_be, write_short_bytes, SerializeError, SHORT_BYTES_MAX_LEN,
};

verus! {

/// A request to execute a statement previously registered with the server
/// through the prepare exchange.
pub struct Execute {
    /// The opaque server-assigned identifier of the prepared statement,
    /// encoded verbatim as a length-prefixed byte block.
    pub id: bytes::Bytes,
    /// The statement's query parameters, whose serialization is delegated
    /// and appended directly after the identifier block.
    pub parameters: QueryParameters,
}

impl SerializableRequest for Execute {
    open spec fn spec_opcode() -> RequestOpcode {
        RequestOpcode::Execute
    }

    open spec fn spec_result(&self) -> Result<(), SerializeError> {
        if bytes_view(self.id).len() > SHORT_BYTES_MAX_LEN {
            Err(SerializeError::OversizedField)
        } else {
            self.parameters.spec_result()
        }
    }

    open spec fn spec_appended(&self) -> Seq<u8> {
        if bytes_view(self.id).len() > SHORT_BYTES_MAX_LEN {
            Seq::<u8>::empty()
        } else {
            spec_short_bytes(bytes_view(self.id)) + self.parameters.spec_bytes()
        }
    }

    fn opcode() -> (r: RequestOpcode) {
        RequestOpcode::Execute
    }

    fn serialize(&self, buf: &mut Vec<u8>) -> (r: Result<(), SerializeError>) {
        let id_bytes = bytes_as_slice(&self.id);
        match write_short_bytes(id_bytes, buf) {
            Ok(_) => {},
            Err(e) => {
                proof {
                    assert(buf@ =~= old(buf)@ + self.spec_appended());
                }
                return Err(e);
            },
        }
        let r = self.parameters.serialize(buf);
        proof {
            assert(buf@ =~= old(buf)@ + self.spec_appended());
        }
        r
    }
}

/// Law: for a statement id of byte length at most 65535, the Execute body
/// starts with the two bytes of the big-endian length, continues with the
/// identifier's bytes exactly, and ends with precisely the bytes the
/// parameter serializer produced in isolation; encoding succeeds exactly
/// when that serializer did.
pub proof fn lemma_execute_body_layout(req: Execute)
    requires
        bytes_view(req.id).len() <= SHORT_BYTES_MAX_LEN,
    ensures
        req.spec_appended().len() == 2 + bytes_view(req.id).len()
            + req.parameters.spec_bytes().len(),
        req.spec_appended().subrange(0, 2) == spec_u16_be(bytes_view(req.id).len() as int),
        req.spec_appended().subrange(2, 2 + bytes_view(req.id).len() as int) == bytes_view(
            req.id,
        ),
        req.spec_appended().skip(2 + bytes_view(req.id).len() as int)
            == req.parameters.spec_bytes(),
        req.spec_result() == req.parameters.spec_result(),
{
    let body = req.spec_appended();
    let id = bytes_view(req.id);
    let params = req.parameters.spec_bytes();
    assert(body == spec_short_bytes(id) + params);
    assert(body.subrange(0, 2) =~= spec_u16_be(id.len() as int));
    assert(body.subrange(2, 2 + id.len() as int) =~= id);
    assert(body.skip(2 + id.len() as int) =~= params);
}

/// Law: for a statement id of byte length over 65535, encoding an Execute
/// request fails with the oversized-field error and appends nothing — in
/// particular, no parameter bytes.
pub proof fn lemma_execute_oversized(req: Execute)
    requires
        bytes_view(req.id).len() > SHORT_BYTES_MAX_LEN,
    ensures
        req.spec_result() == Err::<(), SerializeError>(SerializeError::OversizedField),
        req.spec_appended() == Seq::<u8>::empty(),
{
}

} // verus!
