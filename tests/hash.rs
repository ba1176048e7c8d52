use arqonship::oracle::hash::{compute_hash, compute_signature_hash};

#[test]
fn test_compute_hash_deterministic() {
    let content = "fn main() { println!(\"Hello\"); }";
    let hash1 = compute_hash(content);
    let hash2 = compute_hash(content);
    assert_eq!(hash1, hash2);
    assert_eq!(hash1.len(), 64);
}

#[test]
fn test_compute_hash_different_inputs() {
    let hash1 = compute_hash("hello");
    let hash2 = compute_hash("world");
    assert_ne!(hash1, hash2);
}

#[test]
fn test_compute_signature_hash_includes_name() {
    let hash1 = compute_signature_hash("foo", "body");
    let hash2 = compute_signature_hash("bar", "body");
    assert_ne!(hash1, hash2);
}

#[test]
fn test_compute_signature_hash_includes_body() {
    let hash1 = compute_signature_hash("func", "body1");
    let hash2 = compute_signature_hash("func", "body2");
    assert_ne!(hash1, hash2);
}

#[test]
fn test_compute_signature_hash_deterministic() {
    let hash1 = compute_signature_hash("test_fn", "{ return 42; }");
    let hash2 = compute_signature_hash("test_fn", "{ return 42; }");
    assert_eq!(hash1, hash2);
}

#[test]
fn hash_known_digest() {
    assert_eq!(compute_hash("abc"), "ba7816bf8f01cfea414140de5dae2223b00361a396177a9cb410ff61f20015ad");
    assert_eq!(compute_signature_hash("a", "bc"), compute_hash("a::bc"));
}

#[test]
fn hash_sensitive_to_one_character() {
    assert_ne!(compute_hash("fn a() {}"), compute_hash("fn a() { }"));
    assert_ne!(compute_hash("fn a() {}"), compute_hash("fn b() {}"));
}
