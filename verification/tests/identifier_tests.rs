use wasm_registry::ident::module_identifier;

#[test]
fn identifier_deterministic() {
    let bytes: Vec<u8> = vec![0x00, 0x61, 0x73, 0x6d, 0x01, 0x00, 0x00, 0x00];
    let first = module_identifier(&bytes);
    let second = module_identifier(&bytes);
    assert_eq!(first, second);
}

#[test]
fn identifiers_distinct_for_distinct_content() {
    let a: Vec<u8> = vec![0x00, 0x61, 0x73, 0x6d, 0x01, 0x00, 0x00, 0x00];
    let b: Vec<u8> = vec![0x00, 0x61, 0x73, 0x6d, 0x01, 0x00, 0x00, 0x01];
    assert_ne!(module_identifier(&a), module_identifier(&b));
    let empty: Vec<u8> = Vec::new();
    assert_ne!(module_identifier(&a), module_identifier(&empty));
    assert_ne!(module_identifier(&b), module_identifier(&empty));
}

#[test]
fn identifier_matches_direct_composition() {
    let bytes: Vec<u8> = vec![1, 2, 3, 4, 5];
    let digest = wasmer_cache::Hash::generate(bytes.as_slice()).to_string();
    let expected = uuid::Uuid::new_v5(&uuid::Uuid::NAMESPACE_OID, digest.as_bytes())
        .hyphenated()
        .to_string();
    assert_eq!(module_identifier(&bytes), expected);
}

#[test]
fn identifier_is_hyphenated_uuid_text() {
    let bytes: Vec<u8> = vec![9, 9, 9];
    let id = module_identifier(&bytes);
    assert_eq!(id.len(), 36);
    let chars: Vec<char> = id.chars().collect();
    for (i, c) in chars.iter().enumerate() {
        if i == 8 || i == 13 || i == 18 || i == 23 {
            assert_eq!(*c, '-');
        } else {
            assert!(c.is_ascii_hexdigit());
        }
    }
}
