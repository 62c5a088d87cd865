use circle::ids::{id_from_bytes, new_id};

#[test]
fn id_from_bytes_sets_version_and_variant() {
    let b: Vec<u8> = (0u8..16).collect();
    assert_eq!(id_from_bytes(&b), "00010203-0405-4607-8809-0a0b0c0d0e0f");
    assert_eq!(id_from_bytes(&[0xff; 16]), "ffffffff-ffff-4fff-bfff-ffffffffffff");
    assert_eq!(id_from_bytes(&[0u8; 16]), "00000000-0000-4000-8000-000000000000");
}

#[test]
fn fresh_ids_are_distinct_uuid_text() {
    let a = new_id().unwrap();
    assert_eq!(a.len(), 36);
    for (i, c) in a.chars().enumerate() {
        if [8, 13, 18, 23].contains(&i) {
            assert_eq!(c, '-');
        } else {
            assert!(c.is_ascii_digit() || ('a'..='f').contains(&c));
        }
    }
    assert_eq!(&a[14..15], "4");
    assert_ne!(a, new_id().unwrap());
}
