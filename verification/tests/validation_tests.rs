use notes::ErrorCode;
use notes::Note;

fn key(x: u8) -> Vec<u8> {
    vec![x; 32]
}

#[test]
fn title_of_exactly_100_bytes_is_accepted() {
    let title = "a".repeat(100);
    let note = Note::new(key(1), title.clone(), "body".to_string(), 7).unwrap();
    assert_eq!(note.title, title);
    assert_eq!(note.title.len(), 100);
}

#[test]
fn title_of_101_bytes_is_rejected_as_too_long() {
    let title = "a".repeat(101);
    let err = Note::new(key(1), title, "body".to_string(), 7).unwrap_err();
    assert_eq!(err, ErrorCode::TitleTooLong);
}

#[test]
fn multibyte_title_of_100_bytes_is_accepted() {
    let title = "é".repeat(50);
    assert_eq!(title.len(), 100);
    let note = Note::new(key(1), title.clone(), "body".to_string(), 7).unwrap();
    assert_eq!(note.title, title);
}

#[test]
fn multibyte_title_of_102_bytes_is_rejected() {
    let title = "é".repeat(51);
    assert_eq!(title.len(), 102);
    let err = Note::new(key(1), title, "body".to_string(), 7).unwrap_err();
    assert_eq!(err, ErrorCode::TitleTooLong);
}

#[test]
fn content_of_exactly_1090_bytes_is_accepted() {
    let content = "c".repeat(1090);
    let note = Note::new(key(1), "t".to_string(), content.clone(), 7).unwrap();
    assert_eq!(note.content, content);
}

#[test]
fn content_of_1091_bytes_is_rejected_as_too_long() {
    let content = "c".repeat(1091);
    let err = Note::new(key(1), "t".to_string(), content, 7).unwrap_err();
    assert_eq!(err, ErrorCode::ContentTooLong);
}

#[test]
fn whitespace_only_title_is_rejected_as_empty() {
    let err = Note::new(key(1), "   ".to_string(), "body".to_string(), 7).unwrap_err();
    assert_eq!(err, ErrorCode::TitleEmpty);
}

#[test]
fn empty_title_is_rejected_as_empty() {
    let err = Note::new(key(1), "".to_string(), "body".to_string(), 7).unwrap_err();
    assert_eq!(err, ErrorCode::TitleEmpty);
}

#[test]
fn single_letter_title_is_accepted() {
    let note = Note::new(key(1), "a".to_string(), "body".to_string(), 7).unwrap();
    assert_eq!(note.title, "a");
}

#[test]
fn whitespace_only_content_is_rejected_as_empty() {
    let err = Note::new(key(1), "title".to_string(), " \t\n ".to_string(), 7).unwrap_err();
    assert_eq!(err, ErrorCode::ContentEmpty);
}

#[test]
fn length_checks_precede_emptiness_checks() {
    // A title that is both over the limit and blank reports TitleTooLong,
    // the first check in declared order.
    let title = " ".repeat(101);
    let err = Note::new(key(1), title, "body".to_string(), 7).unwrap_err();
    assert_eq!(err, ErrorCode::TitleTooLong);
    // An oversized title wins over an oversized content.
    let err = Note::new(key(1), "a".repeat(101), "c".repeat(2000), 7).unwrap_err();
    assert_eq!(err, ErrorCode::TitleTooLong);
    // An oversized content wins over a blank title.
    let err = Note::new(key(1), "   ".to_string(), "c".repeat(1091), 7).unwrap_err();
    assert_eq!(err, ErrorCode::ContentTooLong);
}

#[test]
fn new_note_copies_fields_and_sets_both_timestamps() {
    let note = Note::new(key(9), "hello".to_string(), "world".to_string(), 1_700_000_000).unwrap();
    assert_eq!(note.author, key(9));
    assert_eq!(note.title, "hello");
    assert_eq!(note.content, "world");
    assert_eq!(note.created_at, 1_700_000_000);
    assert_eq!(note.last_updated, 1_700_000_000);
}

#[test]
fn update_by_another_signer_is_unauthorized_and_unchanged() {
    let mut note = Note::new(key(1), "hello".to_string(), "world".to_string(), 7).unwrap();
    let err = note.apply_update(&key(2), "x".to_string(), 8).unwrap_err();
    assert_eq!(err, ErrorCode::Unauthorized);
    assert_eq!(note.content, "world");
    assert_eq!(note.last_updated, 7);
}

#[test]
fn update_replaces_content_and_refreshes_last_updated() {
    let mut note = Note::new(key(1), "hello".to_string(), "world".to_string(), 7).unwrap();
    note.apply_update(&key(1), "w2".to_string(), 9).unwrap();
    assert_eq!(note.content, "w2");
    assert_eq!(note.created_at, 7);
    assert_eq!(note.last_updated, 9);
    assert_eq!(note.title, "hello");
    assert_eq!(note.author, key(1));
}

#[test]
fn update_with_oversized_content_fails_and_leaves_note_unchanged() {
    let mut note = Note::new(key(1), "hello".to_string(), "world".to_string(), 7).unwrap();
    let err = note.apply_update(&key(1), "c".repeat(1091), 9).unwrap_err();
    assert_eq!(err, ErrorCode::ContentTooLong);
    assert_eq!(note.content, "world");
    assert_eq!(note.last_updated, 7);
}

#[test]
fn update_with_blank_content_fails_with_content_empty() {
    let mut note = Note::new(key(1), "hello".to_string(), "world".to_string(), 7).unwrap();
    let err = note.apply_update(&key(1), "  ".to_string(), 9).unwrap_err();
    assert_eq!(err, ErrorCode::ContentEmpty);
    assert_eq!(note.content, "world");
}

#[test]
fn check_author_accepts_author_and_rejects_others() {
    let note = Note::new(key(1), "hello".to_string(), "world".to_string(), 7).unwrap();
    assert!(note.check_author(&key(1)).is_ok());
    assert_eq!(note.check_author(&key(2)).unwrap_err(), ErrorCode::Unauthorized);
}

#[test]
fn is_blank_recognizes_whitespace_and_nothing_else() {
    assert!(notes::is_blank(""));
    assert!(notes::is_blank("   "));
    assert!(notes::is_blank(" \t\r\n"));
    assert!(!notes::is_blank(" a "));
    assert!(!notes::is_blank("x"));
}

#[test]
fn validate_create_mirrors_the_handler_checks() {
    assert!(notes::validate_create("t", "c").is_ok());
    assert_eq!(
        notes::validate_create(&"a".repeat(101), "c").unwrap_err(),
        ErrorCode::TitleTooLong
    );
    assert_eq!(
        notes::validate_create("t", &"c".repeat(1091)).unwrap_err(),
        ErrorCode::ContentTooLong
    );
    assert_eq!(notes::validate_create(" ", "c").unwrap_err(), ErrorCode::TitleEmpty);
    assert_eq!(notes::validate_create("t", " ").unwrap_err(), ErrorCode::ContentEmpty);
}

#[test]
fn validate_content_mirrors_the_update_checks() {
    assert!(notes::validate_content("c").is_ok());
    assert_eq!(
        notes::validate_content(&"c".repeat(1091)).unwrap_err(),
        ErrorCode::ContentTooLong
    );
    assert_eq!(notes::validate_content("").unwrap_err(), ErrorCode::ContentEmpty);
}

#[test]
fn error_codes_are_stable_and_messages_name_the_true_bounds() {
    assert_eq!(ErrorCode::TitleTooLong.code(), 6000);
    assert_eq!(ErrorCode::ContentTooLong.code(), 6001);
    assert_eq!(ErrorCode::TitleEmpty.code(), 6002);
    assert_eq!(ErrorCode::ContentEmpty.code(), 6003);
    assert_eq!(ErrorCode::Unauthorized.code(), 6004);
    assert_eq!(ErrorCode::TitleTooLong.message(), "Title cannot be more than 100 bytes.");
    assert_eq!(
        ErrorCode::ContentTooLong.message(),
        "Content cannot be more than 1090 bytes."
    );
    assert_eq!(ErrorCode::TitleEmpty.message(), "Title cannot be empty.");
    assert_eq!(ErrorCode::ContentEmpty.message(), "Content cannot be empty.");
    assert_eq!(ErrorCode::Unauthorized.message(), "Unauthorized");
}
