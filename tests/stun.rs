use tenebra::stun::{make_binding_request, retry_delay, MAX_RETRIES, RETRY_INTERVAL_MS};

#[test]
fn binding_request_header() {
    let a = make_binding_request().unwrap();
    assert_eq!(a.len(), 20);
    assert_eq!(&a[..8], &[0x00, 0x01, 0x00, 0x00, 0x21, 0x12, 0xa4, 0x42]);
    let b = make_binding_request().unwrap();
    assert_ne!(a[8..], b[8..]);
}

#[test]
fn retries_five_times_at_100_ms() {
    assert_eq!(MAX_RETRIES, 5);
    assert_eq!(RETRY_INTERVAL_MS, 100);
    for done in 0..5 {
        assert_eq!(retry_delay(done), Some(100));
    }
    assert_eq!(retry_delay(5), None);
    assert_eq!(retry_delay(u32::MAX), None);
}
