use verigate::correlation::{CorrelationError, CorrelationStore};

#[test]
fn begin_then_complete_returns_the_context_once() {
    // A user begins verification for a guild, the callback consumes the key,
    // and a second callback with the same key finds nothing.
    let mut store = CorrelationStore::new(600);
    let key = store.begin(42, 100, 1_000).unwrap();
    assert_eq!(store.complete(key, 1_010), Ok((42, 100)));
    assert_eq!(store.complete(key, 1_011), Err(CorrelationError::NotFound));
}

#[test]
fn unknown_key_is_not_found() {
    let mut store = CorrelationStore::new(600);
    assert_eq!(store.complete(12345, 0), Err(CorrelationError::NotFound));
}

#[test]
fn entry_expires_after_ttl() {
    let mut store = CorrelationStore::new(600);
    let key = store.begin(42, 100, 1_000).unwrap();
    // Just past the time-to-live the entry reads as absent.
    assert_eq!(
        store.complete(key, 1_000 + 600 + 1),
        Err(CorrelationError::NotFound)
    );
    // And it was removed on that touch.
    assert_eq!(store.len(), 0);
}

#[test]
fn entry_is_live_up_to_the_ttl_boundary() {
    let mut store = CorrelationStore::new(600);
    let key = store.begin(7, 8, 1_000).unwrap();
    assert_eq!(store.complete(key, 1_000 + 600), Ok((7, 8)));
}

#[test]
fn clock_running_backwards_reads_as_expired() {
    let mut store = CorrelationStore::new(600);
    let key = store.begin(7, 8, 1_000).unwrap();
    assert_eq!(store.complete(key, 999), Err(CorrelationError::NotFound));
}

#[test]
fn concurrent_attempts_do_not_interfere() {
    let mut store = CorrelationStore::new(600);
    let k1 = store.begin(1, 10, 0).unwrap();
    let k2 = store.begin(2, 20, 0).unwrap();
    let k3 = store.begin(3, 30, 0).unwrap();
    assert_ne!(k1, k2);
    assert_ne!(k2, k3);
    assert_eq!(store.complete(k2, 1), Ok((2, 20)));
    assert_eq!(store.complete(k1, 1), Ok((1, 10)));
    assert_eq!(store.complete(k3, 1), Ok((3, 30)));
}

#[test]
fn keys_are_drawn_fresh() {
    let mut store = CorrelationStore::new(600);
    let k1 = store.begin(1, 1, 0).unwrap();
    let k2 = store.begin(1, 1, 0).unwrap();
    assert_ne!(k1, k2);
}

#[test]
fn keys_carry_the_conventional_version_and_variant() {
    let mut store = CorrelationStore::new(600);
    let key = store.begin(1, 1, 0).unwrap();
    let text = verigate::keytext::render_key(key);
    // Hyphenated form xxxxxxxx-xxxx-4xxx-yxxx-...: the version digit reads 4
    // and the variant digit has its top two bits reading binary 10.
    assert_eq!(text.as_bytes()[14], b'4');
    assert!(matches!(text.as_bytes()[19], b'8' | b'9' | b'a' | b'b'));
    assert_eq!(text, uuid::Uuid::from_u128(key).hyphenated().to_string());
    assert_eq!(uuid::Uuid::from_u128(key).get_version_num(), 4);
}
