use pastebin::category::PasteCategory;
use pastebin::paste::{Paste, PasteRow, PasteSettings, RowError};

fn sample() -> Paste {
    Paste {
        id: String::from("1234"),
        category: PasteCategory::Plaintext,
        contents: "foo".bytes().collect(),
        date: String::from("1970-01-01T00:00:00+00:00"),
        duration: 2048,
    }
}

#[test]
fn paste_round_trips_through_its_row() {
    let p = sample();
    let row = p.clone().into_row();
    assert_eq!(row.category, "plaintext");
    assert_eq!(row.duration, 2048);
    let back = Paste::from_row(row).unwrap();
    assert_eq!(back, p);
    assert_eq!(back.duration, 2048);
    assert_eq!(back.contents, b"foo".to_vec());
}

#[test]
fn row_with_capitalised_category_is_read() {
    let row = PasteRow {
        id: String::from("a"),
        category: String::from("Html"),
        contents: vec![0, 255],
        date: String::from("d"),
        duration: 4294967295,
    };
    let p = Paste::from_row(row).unwrap();
    assert_eq!(p.category, PasteCategory::Html);
    assert_eq!(p.duration, u32::MAX);
}

#[test]
fn row_with_bad_category_is_corrupt() {
    let row = PasteRow {
        id: String::from("a"),
        category: String::from("csv"),
        contents: vec![],
        date: String::from("d"),
        duration: 1,
    };
    match Paste::from_row(row) {
        Err(RowError::Category(e)) => assert_eq!(e.text, "csv"),
        other => panic!("unexpected {:?}", other),
    }
}

#[test]
fn row_with_out_of_range_duration_is_corrupt() {
    for d in [-1i64, 4294967296] {
        let row = PasteRow {
            id: String::from("a"),
            category: String::from("url"),
            contents: vec![],
            date: String::from("d"),
            duration: d,
        };
        match Paste::from_row(row) {
            Err(RowError::Duration(x)) => assert_eq!(x, d),
            other => panic!("unexpected {:?}", other),
        }
    }
}

#[test]
fn paste_from_settings_checks_category() {
    let settings = PasteSettings {
        id: String::from("x"),
        category: String::from("Markdown"),
        duration: 60,
    };
    let p = Paste::from_settings(settings, vec![1, 2], String::from("now")).unwrap();
    assert_eq!(p.id, "x");
    assert_eq!(p.category, PasteCategory::Markdown);
    assert_eq!(p.contents, vec![1, 2]);
    assert_eq!(p.date, "now");
    assert_eq!(p.duration, 60);
    let bad = PasteSettings { id: String::from("x"), category: String::from("csv"), duration: 60 };
    assert_eq!(Paste::from_settings(bad, vec![], String::new()).unwrap_err().text, "csv");
}
