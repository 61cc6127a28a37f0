use interceptor_chain::error::{Error, ErrorKind};
use interceptor_chain::payload::{read_body, Payload, MAX_SIZ};

#[test]
fn payload_collects_chunks_in_order() {
    let mut body = Payload::new();
    assert_eq!(body.len(), 0);
    assert_eq!(body.as_slice(), b"");
    assert_eq!(body.push_chunk(b"{\"name\":"), Ok(()));
    assert_eq!(body.push_chunk(b""), Ok(()));
    assert_eq!(body.push_chunk(b"\"a\"}"), Ok(()));
    assert_eq!(body.len(), 12);
    assert_eq!(body.as_slice(), b"{\"name\":\"a\"}");
}

#[test]
fn payload_takes_exactly_the_limit() {
    assert_eq!(MAX_SIZ, 262144);
    let mut body = Payload::new();
    assert_eq!(body.push_chunk(&vec![7u8; MAX_SIZ - 1]), Ok(()));
    assert_eq!(body.push_chunk(&[8u8]), Ok(()));
    assert_eq!(body.len(), MAX_SIZ);
    assert_eq!(body.as_slice()[MAX_SIZ - 1], 8);
}

#[test]
fn payload_refuses_the_chunk_that_overflows() {
    let mut body = Payload::new();
    assert_eq!(body.push_chunk(&vec![1u8; MAX_SIZ]), Ok(()));
    let refused = body.push_chunk(&[2u8]);
    assert_eq!(refused, Err(Error::new(ErrorKind::BadRequest, "overflow")));
    assert_eq!(body.len(), MAX_SIZ);
    assert_eq!(body.push_chunk(b""), Ok(()));
    let mut other = Payload::new();
    assert!(other.push_chunk(&vec![0u8; MAX_SIZ + 1]).is_err());
    assert_eq!(other.len(), 0);
    assert_eq!(other.push_chunk(b"ok"), Ok(()));
    assert_eq!(other.as_slice(), b"ok");
}

#[test]
fn read_body_joins_the_chunks() {
    let chunks = vec![b"ab".to_vec(), Vec::new(), b"cde".to_vec()];
    assert_eq!(read_body(&chunks), Ok(b"abcde".to_vec()));
    assert_eq!(read_body(&Vec::new()), Ok(Vec::new()));
}

#[test]
fn read_body_refuses_a_body_over_the_limit() {
    let chunks = vec![vec![0u8; MAX_SIZ / 2], vec![0u8; MAX_SIZ / 2], vec![0u8; 1], Vec::new()];
    let error = read_body(&chunks).unwrap_err();
    assert_eq!(error.kind, ErrorKind::BadRequest);
    assert_eq!(error.message, "overflow");
    assert_eq!(error.error_response().status, 400);
    let fits = vec![vec![0u8; MAX_SIZ / 2], vec![0u8; MAX_SIZ / 2]];
    assert_eq!(read_body(&fits).unwrap().len(), MAX_SIZ);
}
