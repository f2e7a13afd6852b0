use notes::Note;
use sha2::Digest;

fn key(x: u8) -> Vec<u8> {
    vec![x; 32]
}

/// The first eight bytes of the SHA-256 digest of the given tag name,
/// computed here independently of the library.
fn discriminator(tag: &str) -> Vec<u8> {
    sha2::Sha256::digest(tag.as_bytes())[..8].to_vec()
}

fn le32(n: u32) -> Vec<u8> {
    n.to_le_bytes().to_vec()
}

fn le64i(n: i64) -> Vec<u8> {
    n.to_le_bytes().to_vec()
}

#[test]
fn serialized_note_follows_the_declared_layout() {
    let note = Note::new(key(7), "hello".to_string(), "world".to_string(), 1_700_000_000).unwrap();
    let bytes = note.serialize();
    let mut expected = discriminator("account:Note");
    expected.extend_from_slice(&key(7));
    expected.extend_from_slice(&le32(5));
    expected.extend_from_slice(b"hello");
    expected.extend_from_slice(&le32(5));
    expected.extend_from_slice(b"world");
    expected.extend_from_slice(&le64i(1_700_000_000));
    expected.extend_from_slice(&le64i(1_700_000_000));
    assert_eq!(bytes, expected);
}

#[test]
fn serialized_note_encodes_negative_timestamps_in_two_complement() {
    let mut note = Note::new(key(1), "t".to_string(), "c".to_string(), -5).unwrap();
    note.last_updated = 3;
    let bytes = note.serialize();
    let n = bytes.len();
    assert_eq!(&bytes[n - 16..n - 8], &(-5i64).to_le_bytes());
    assert_eq!(&bytes[n - 8..], &3i64.to_le_bytes());
}

#[test]
fn serialized_note_fits_the_fixed_reservation() {
    let note = Note::new(
        key(2),
        "a".repeat(100),
        "c".repeat(1090),
        i64::MAX,
    )
    .unwrap();
    let bytes = note.serialize();
    assert!(bytes.len() <= 8 + 32 + 4 + 100 + 4 + 6000 + 8 + 8);
    assert_eq!(bytes.len(), 8 + 32 + 4 + 100 + 4 + 1090 + 8 + 8);
}

#[test]
fn deserialize_inverts_serialize_whatever_the_reserved_slack_holds() {
    let note = Note::new(key(3), "héllo".to_string(), "wörld".to_string(), -42).unwrap();
    let mut bytes = note.serialize();
    bytes.resize(8 + 32 + 4 + 100 + 4 + 6000 + 8 + 8, 0xAA);
    let back = Note::deserialize(&bytes).unwrap();
    assert_eq!(back.author, note.author);
    assert_eq!(back.title, note.title);
    assert_eq!(back.content, note.content);
    assert_eq!(back.created_at, note.created_at);
    assert_eq!(back.last_updated, note.last_updated);
}

#[test]
fn deserialize_rejects_a_wrong_discriminator() {
    let note = Note::new(key(3), "t".to_string(), "c".to_string(), 1).unwrap();
    let mut bytes = note.serialize();
    bytes[0] ^= 0xFF;
    assert!(Note::deserialize(&bytes).is_none());
}

#[test]
fn deserialize_rejects_a_truncated_image() {
    let note = Note::new(key(3), "title".to_string(), "content".to_string(), 1).unwrap();
    let bytes = note.serialize();
    assert!(Note::deserialize(&bytes[..bytes.len() - 1]).is_none());
    assert!(Note::deserialize(&bytes[..40]).is_none());
    assert!(Note::deserialize(&[]).is_none());
}

#[test]
fn deserialize_rejects_invalid_utf8_in_a_string() {
    let note = Note::new(key(3), "title".to_string(), "content".to_string(), 1).unwrap();
    let mut bytes = note.serialize();
    // The first title byte sits after the discriminator, the author key and
    // the length prefix; 0xFF never occurs in UTF-8.
    bytes[8 + 32 + 4] = 0xFF;
    assert!(Note::deserialize(&bytes).is_none());
}

#[test]
fn create_instruction_data_carries_tag_and_both_strings() {
    let data = notes::encode_create_note("hi", "é!");
    let mut expected = discriminator("global:create_note");
    expected.extend_from_slice(&le32(2));
    expected.extend_from_slice(b"hi");
    expected.extend_from_slice(&le32(3));
    expected.extend_from_slice("é!".as_bytes());
    assert_eq!(data, expected);
}

#[test]
fn update_instruction_data_carries_tag_and_content() {
    let data = notes::encode_update_note("w2");
    let mut expected = discriminator("global:update_note");
    expected.extend_from_slice(&le32(2));
    expected.extend_from_slice(b"w2");
    assert_eq!(data, expected);
}

#[test]
fn delete_instruction_data_is_the_tag_alone() {
    let data = notes::encode_delete_note();
    assert_eq!(data, discriminator("global:delete_note"));
}
