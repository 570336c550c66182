use euterpe_server::library::file_hash::{
    content_hash_xxh64, content_hash_xxh64_chunks, format_hex16, ContentXxh64,
};

#[test]
fn empty_vector_is_known_digest() {
    assert_eq!(content_hash_xxh64(b""), "ef46db3751d8e999");
    assert_eq!(content_hash_xxh64_chunks(&[&[] as &[u8]]), "ef46db3751d8e999");
}

#[test]
fn chunks_match_single_buffer() {
    let data = b"the quick brown fox jumps over the lazy dog";
    let whole = content_hash_xxh64(data);
    let split = content_hash_xxh64_chunks(&[&data[..19], &data[19..]]);
    assert_eq!(whole, split);
    let many = content_hash_xxh64_chunks(&[&data[..20], &data[20..]]);
    assert_eq!(whole, many);
}

#[test]
fn incremental_hasher_and_hex() {
    let mut h = ContentXxh64::default();
    h.update(b"abc");
    h.update(b"");
    h.update(b"def");
    assert_eq!(h.finish(), content_hash_xxh64(b"abcdef"));
    assert_eq!(format_hex16(0x1f), "000000000000001f");
    assert_eq!(format_hex16(u64::MAX), "ffffffffffffffff");
    assert_ne!(content_hash_xxh64(b"a"), content_hash_xxh64(b""));
}
