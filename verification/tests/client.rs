use motr_client::client::{InitializationError, MotrClient, ObjectId, OperationError};

fn ready_client() -> MotrClient {
    MotrClient::new(0).expect("a zero status must yield a handle")
}

#[test]
fn construction_succeeds_on_zero_status() {
    assert!(MotrClient::new(0).is_ok());
}

#[test]
fn construction_fails_on_nonzero_status() {
    // an unreachable HA address makes the native initialization report a
    // nonzero status; that must never become a handle
    let r = MotrClient::new(-101);
    match r {
        Ok(_) => panic!("a failed initialization must not yield a handle"),
        Err(e) => assert_eq!(e, InitializationError { status: -101 }),
    }
}

#[test]
fn test_create() {
    let client = ready_client();
    let id = ObjectId { hi: 12345, low: 9999999999 };
    assert!(client.create_object(id, 0).is_ok());
}

#[test]
fn repeated_create_surfaces_status() {
    let client = ready_client();
    let id = ObjectId { hi: 12345, low: 9999999999 };
    assert!(client.create_object(id, 0).is_ok());
    // the store reports a nonzero status for the repeated creation; the
    // wrapper surfaces it verbatim instead of silently succeeding twice
    assert_eq!(client.create_object(id, -17), Err(OperationError::Status(-17)));
}

#[test]
fn test_write() {
    let client = ready_client();
    let id = ObjectId { hi: 12345, low: 9999999999 };
    let data = vec![b'X'; 8192];
    let before = data.clone();
    let res = client.write_object(id, 0, &data, 0);
    assert_eq!(res, Ok(8192));
    // the caller retains the buffer, unchanged
    assert_eq!(data, before);
}

#[test]
fn failed_write_surfaces_status() {
    let client = ready_client();
    let id = ObjectId { hi: 1, low: 2 };
    let data = vec![1u8, 2, 3];
    assert_eq!(client.write_object(id, 0, &data, 7), Err(OperationError::Status(7)));
}

#[test]
fn test_read() {
    let client = ready_client();
    let id = ObjectId { hi: 12345, low: 9999999999 };
    let produced = vec![7u8; 5000];
    let buf = client
        .read_object(id, 400, 5000, Some(produced.clone()))
        .expect("a full buffer must be accepted");
    assert_eq!(buf.len(), 5000);
    assert_eq!(buf.into_bytes(), produced);
}

#[test]
fn zero_length_read_returns_zero_bytes() {
    let client = ready_client();
    let id = ObjectId { hi: 3, low: 4 };
    let buf = client
        .read_object(id, 0, 0, Some(Vec::new()))
        .expect("a zero-length request with an empty buffer must succeed");
    assert_eq!(buf.len(), 0);
    assert!(buf.as_bytes().is_empty());
}

#[test]
fn read_without_descriptor_fails() {
    let client = ready_client();
    let id = ObjectId { hi: 3, low: 4 };
    match client.read_object(id, 0, 8, None) {
        Err(OperationError::NoResult) => {}
        _ => panic!("a read that produced no buffer must fail with NoResult"),
    }
}

#[test]
fn short_read_is_surfaced() {
    let client = ready_client();
    let id = ObjectId { hi: 3, low: 4 };
    match client.read_object(id, 0, 10, Some(vec![1u8, 2, 3])) {
        Err(OperationError::LengthMismatch { requested, returned }) => {
            assert_eq!(requested, 10);
            assert_eq!(returned, 3);
        }
        _ => panic!("a buffer of the wrong length must fail with LengthMismatch"),
    }
}

#[test]
fn round_trip_through_wrapper() {
    // wrapper side of the round-trip law: the write is acknowledged, the
    // store echoes the written bytes, and the wrapper hands them back
    // unchanged
    let client = ready_client();
    let id = ObjectId { hi: 21, low: 42 };
    assert!(client.create_object(id, 0).is_ok());
    let data = vec![10u8, 20, 30, 40];
    assert_eq!(client.write_object(id, 0, &data, 0), Ok(4));
    let buf = client
        .read_object(id, 0, 4, Some(data.clone()))
        .expect("the echoed bytes must be accepted");
    assert_eq!(buf.into_bytes(), data);
}
