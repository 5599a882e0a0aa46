use bytes::Bytes;
use scylla_cql::execute::Execute;
use scylla_cql::options::Options;
use scylla_cql::options::{
    COMPRESSION, CQL_VERSION, DRIVER_NAME, DRIVER_VERSION, SCYLLA_SHARD_AWARE_PORT,
    SCYLLA_SHARD_AWARE_PORT_SSL,
};
use scylla_cql::query::QueryParameters;
use scylla_cql::request::{RequestOpcode, SerializableRequest};
use scylla_cql::types::{write_short_bytes, SerializeError};

#[test]
fn execute_body_layout() {
    let req = Execute {
        id: Bytes::from(vec![0x01, 0x02]),
        parameters: QueryParameters {
            outcome: Ok(vec![0xAA]),
        },
    };
    let mut buf: Vec<u8> = Vec::new();
    assert_eq!(req.serialize(&mut buf), Ok(()));
    assert_eq!(buf, vec![0x00, 0x02, 0x01, 0x02, 0xAA]);
}

#[test]
fn execute_empty_id() {
    let req = Execute {
        id: Bytes::new(),
        parameters: QueryParameters {
            outcome: Ok(vec![0x05, 0x06]),
        },
    };
    let mut buf: Vec<u8> = Vec::new();
    assert_eq!(req.serialize(&mut buf), Ok(()));
    assert_eq!(buf, vec![0x00, 0x00, 0x05, 0x06]);
}

#[test]
fn execute_id_length_boundary() {
    let req = Execute {
        id: Bytes::from(vec![0x7F; 65535]),
        parameters: QueryParameters {
            outcome: Ok(Vec::new()),
        },
    };
    let mut buf: Vec<u8> = Vec::new();
    assert_eq!(req.serialize(&mut buf), Ok(()));
    assert_eq!(buf.len(), 2 + 65535);
    assert_eq!(buf[0], 0xFF);
    assert_eq!(buf[1], 0xFF);
    assert!(buf[2..].iter().all(|&b| b == 0x7F));
}

#[test]
fn execute_oversized_id() {
    let req = Execute {
        id: Bytes::from(vec![0x00; 65536]),
        parameters: QueryParameters {
            outcome: Ok(vec![0xAA]),
        },
    };
    let mut buf: Vec<u8> = Vec::new();
    assert_eq!(req.serialize(&mut buf), Err(SerializeError::OversizedField));
    assert_eq!(buf, Vec::<u8>::new());
}

#[test]
fn execute_delegated_failure() {
    let req = Execute {
        id: Bytes::from(vec![0x09]),
        parameters: QueryParameters {
            outcome: Err(SerializeError::Parameters),
        },
    };
    let mut buf: Vec<u8> = Vec::new();
    assert_eq!(req.serialize(&mut buf), Err(SerializeError::Parameters));
    assert_eq!(buf, vec![0x00, 0x01, 0x09]);
}

#[test]
fn options_empty_body() {
    let req = Options;
    let mut buf: Vec<u8> = Vec::new();
    assert_eq!(req.serialize(&mut buf), Ok(()));
    assert_eq!(req.serialize(&mut buf), Ok(()));
    assert_eq!(req.serialize(&mut buf), Ok(()));
    assert_eq!(buf, Vec::<u8>::new());
}

#[test]
fn options_preexisting_bytes() {
    let req = Options;
    let mut buf: Vec<u8> = vec![0xFF];
    assert_eq!(req.serialize(&mut buf), Ok(()));
    assert_eq!(buf, vec![0xFF]);
}

#[test]
fn opcode_stability() {
    assert_eq!(Execute::opcode(), RequestOpcode::Execute);
    assert_eq!(Execute::opcode(), Execute::opcode());
    assert_eq!(Options::opcode(), RequestOpcode::Options);
    assert_eq!(Options::opcode(), Options::opcode());
    assert_ne!(Execute::opcode(), Options::opcode());
}

#[test]
fn option_name_constants() {
    assert_eq!(SCYLLA_SHARD_AWARE_PORT, "SCYLLA_SHARD_AWARE_PORT");
    assert_eq!(SCYLLA_SHARD_AWARE_PORT_SSL, "SCYLLA_SHARD_AWARE_PORT_SSL");
    assert_eq!(COMPRESSION, "COMPRESSION");
    assert_eq!(CQL_VERSION, "CQL_VERSION");
    assert_eq!(DRIVER_NAME, "DRIVER_NAME");
    assert_eq!(DRIVER_VERSION, "DRIVER_VERSION");
    assert_eq!(COMPRESSION.as_bytes(), COMPRESSION.as_bytes());
    assert_eq!(DRIVER_NAME.as_bytes(), DRIVER_NAME.as_bytes());
}

#[test]
fn short_bytes_exact() {
    let mut buf: Vec<u8> = Vec::new();
    assert_eq!(write_short_bytes(&[0xAB], &mut buf), Ok(()));
    assert_eq!(buf, vec![0x00, 0x01, 0xAB]);

    let mut big: Vec<u8> = Vec::new();
    assert_eq!(write_short_bytes(&[0x11; 300], &mut big), Ok(()));
    assert_eq!(big.len(), 302);
    assert_eq!(big[0], 0x01);
    assert_eq!(big[1], 0x2C);
}

#[test]
fn short_bytes_appends_after_existing() {
    let mut buf: Vec<u8> = vec![0xEE];
    assert_eq!(write_short_bytes(&[0x07], &mut buf), Ok(()));
    assert_eq!(buf, vec![0xEE, 0x00, 0x01, 0x07]);
}

#[test]
fn short_bytes_oversized() {
    let mut buf: Vec<u8> = Vec::new();
    let payload: Vec<u8> = vec![0x00; 70000];
    assert_eq!(
        write_short_bytes(&payload, &mut buf),
        Err(SerializeError::OversizedField)
    );
    assert_eq!(buf, Vec::<u8>::new());
}

#[test]
fn params_serialize_in_isolation() {
    let p = QueryParameters {
        outcome: Ok(vec![0xAA]),
    };
    let mut buf: Vec<u8> = Vec::new();
    assert_eq!(p.serialize(&mut buf), Ok(()));
    assert_eq!(buf, vec![0xAA]);

    let failing = QueryParameters {
        outcome: Err(SerializeError::Parameters),
    };
    let mut other: Vec<u8> = vec![0x01];
    assert_eq!(failing.serialize(&mut other), Err(SerializeError::Parameters));
    assert_eq!(other, vec![0x01]);
}
