use wbmrs::digest::digest;

#[test]
fn digest_is_deterministic() {
    assert_eq!(digest("hello"), digest("hello"));
}

#[test]
fn digest_distinguishes_close_inputs() {
    assert_ne!(digest("hello"), digest("hello!"));
}

#[test]
fn digest_known_values() {
    assert_eq!(digest("hello"), "aaf4c61ddcc5e8a2dabede0f3b482cd9aea9434d");
    assert_eq!(digest(""), "da39a3ee5e6b4b0d3255bfef95601890afd80709");
    assert_eq!(digest("hello").len(), 40);
}
