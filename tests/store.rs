use pastebin::category::PasteCategory;
use pastebin::paste::{Paste, PasteRow, PasteSettings};
use pastebin::service::{
    field_kind, get_status, paste_from_form, post_status, FormField, PostError,
};
use pastebin::store::{read_outcome, write_outcome, DbFailure, StoreError};

fn sample() -> Paste {
    Paste {
        id: String::from("1234"),
        category: PasteCategory::Plaintext,
        contents: "foo".bytes().collect(),
        date: String::from("1970-01-01T00:00:00+00:00"),
        duration: 2048,
    }
}

#[test]
fn missing_paste_is_not_an_error() {
    let r = read_outcome(Ok(None));
    assert!(matches!(r, Ok(None)));
    assert_eq!(get_status(&r), 404);
}

#[test]
fn written_paste_reads_back() {
    let p = sample();
    assert!(write_outcome(p.id.clone(), Ok(1)).is_ok());
    let row: PasteRow = p.clone().into_row();
    let found = read_outcome(Ok(Some(row))).unwrap().unwrap();
    assert_eq!(found.duration, 2048);
    assert_eq!(found.contents, b"foo".to_vec());
    assert_eq!(found, p);
}

#[test]
fn duplicate_id_is_reported() {
    let failure = DbFailure {
        unique_violation: true,
        message: String::from("UNIQUE constraint failed: pastes.id"),
    };
    match write_outcome(String::from("1234"), Err(failure)) {
        Err(StoreError::DuplicateId(id)) => assert_eq!(id, "1234"),
        other => panic!("unexpected {:?}", other),
    }
}

#[test]
fn unexpected_row_count_is_an_error() {
    for n in [0u64, 2] {
        match write_outcome(String::from("a"), Ok(n)) {
            Err(StoreError::RowCount(m)) => assert_eq!(m, n),
            other => panic!("unexpected {:?}", other),
        }
    }
}

#[test]
fn driver_failures_are_storage_errors() {
    let failure = DbFailure { unique_violation: false, message: String::from("disk I/O error") };
    match write_outcome(String::from("a"), Err(failure.clone())) {
        Err(StoreError::Storage(m)) => assert_eq!(m, "disk I/O error"),
        other => panic!("unexpected {:?}", other),
    }
    let r = read_outcome(Err(failure));
    assert!(matches!(r, Err(StoreError::Storage(_))));
    assert_eq!(get_status(&r), 500);
}

#[test]
fn corrupt_row_is_an_error() {
    let row = PasteRow {
        id: String::from("a"),
        category: String::from("csv"),
        contents: vec![],
        date: String::new(),
        duration: 0,
    };
    assert!(matches!(read_outcome(Ok(Some(row))), Err(StoreError::CorruptRow(_))));
}

#[test]
fn form_fields_are_recognised_by_exact_name() {
    assert_eq!(field_kind(&String::from("pasteSettings")), Some(FormField::Settings));
    assert_eq!(field_kind(&String::from("contents")), Some(FormField::Contents));
    assert_eq!(field_kind(&String::from("Contents")), None);
    assert_eq!(field_kind(&String::from("other")), None);
}

#[test]
fn form_builds_a_paste_or_names_the_fault() {
    let settings = PasteSettings {
        id: String::from("1234"),
        category: String::from("plaintext"),
        duration: 2048,
    };
    let p = paste_from_form(Some(settings.clone()), Some(b"foo".to_vec()), String::from("t"))
        .unwrap();
    assert_eq!(p.category, PasteCategory::Plaintext);
    assert_eq!(p.duration, 2048);
    assert!(matches!(
        paste_from_form(None, Some(vec![]), String::new()),
        Err(PostError::MissingPart)
    ));
    assert!(matches!(
        paste_from_form(Some(settings), None, String::new()),
        Err(PostError::MissingPart)
    ));
    let bad = PasteSettings { id: String::new(), category: String::from("csv"), duration: 0 };
    assert!(matches!(
        paste_from_form(Some(bad), Some(vec![]), String::new()),
        Err(PostError::Category(_))
    ));
}

#[test]
fn statuses_follow_outcomes() {
    assert_eq!(post_status(&Ok(())), 201);
    assert_eq!(post_status(&Err(PostError::MissingPart)), 400);
    assert_eq!(post_status(&Err(PostError::UnknownField(String::from("x")))), 400);
    assert_eq!(post_status(&Err(PostError::Store(StoreError::RowCount(0)))), 500);
    assert_eq!(get_status(&Ok(Some(sample()))), 200);
}
