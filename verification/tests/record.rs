use tempfile::NamedTempFile;
use xdg_attrs::record::decode_value;
use xdg_attrs::Attributes;

fn temp_file() -> (NamedTempFile, String) {
    let f = NamedTempFile::new().unwrap();
    let p = f.path().to_str().unwrap().to_string();
    (f, p)
}

fn full_record() -> Attributes {
    Attributes {
        comment: Some("a note".to_string()),
        creator: Some("inkscape".to_string()),
        language: Some("en".to_string()),
        tags: Some(vec!["alpha".to_string(), "beta".to_string()]),
        origin_url: Some("https://example.com/file".to_string()),
        origin_referrer: Some("https://example.com/".to_string()),
        origin_email_subject: Some("hello".to_string()),
        origin_email_from: Some("someone@example.com".to_string()),
        origin_email_message_id: Some("<id@example.com>".to_string()),
    }
}

#[test]
fn decode_value_absent_stays_absent() {
    assert_eq!(decode_value(None), None);
}

#[test]
fn decode_value_invalid_utf8_is_absent() {
    assert_eq!(decode_value(Some(vec![0xff, 0xfe, 0x01])), None);
}

#[test]
fn decode_value_valid_utf8_is_text() {
    let bytes = "h\u{e9}llo".as_bytes().to_vec();
    assert_eq!(decode_value(Some(bytes)), Some("h\u{e9}llo".to_string()));
}

#[test]
fn from_stored_all_absent() {
    let a = Attributes::from_stored(None, None, None, None, None, None, None, None, None);
    assert_eq!(a.comment, None);
    assert_eq!(a.creator, None);
    assert_eq!(a.language, None);
    assert_eq!(a.tags, None);
    assert_eq!(a.origin_url, None);
    assert_eq!(a.origin_referrer, None);
    assert_eq!(a.origin_email_subject, None);
    assert_eq!(a.origin_email_from, None);
    assert_eq!(a.origin_email_message_id, None);
}

#[test]
fn from_stored_splits_tags() {
    let a = Attributes::from_stored(
        None,
        None,
        None,
        Some(b"a,,b".to_vec()),
        None,
        None,
        None,
        None,
        None,
    );
    assert_eq!(a.tags, Some(vec!["a".to_string(), String::new(), "b".to_string()]));
}

#[test]
fn write_plan_of_partial_record() {
    let mut a = Attributes::default();
    a.comment = Some("note".to_string());
    a.tags = Some(vec!["x".to_string(), "y".to_string()]);
    let entries = a.stored_entries();
    assert_eq!(entries.len(), 2);
    assert_eq!(entries[0].0, "user.xdg.comment");
    assert_eq!(entries[0].1, b"note".to_vec());
    assert_eq!(entries[1].0, "user.xdg.tags");
    assert_eq!(entries[1].1, b"x,y".to_vec());
}

#[test]
fn write_plan_of_empty_record_is_empty() {
    let a = Attributes::default();
    assert_eq!(a.stored_entries().len(), 0);
}

#[test]
fn read_fresh_file_all_absent() {
    let (_f, p) = temp_file();
    let a = Attributes::read_file(&p).unwrap();
    assert_eq!(a.comment, None);
    assert_eq!(a.creator, None);
    assert_eq!(a.language, None);
    assert_eq!(a.tags, None);
    assert_eq!(a.origin_url, None);
    assert_eq!(a.origin_referrer, None);
    assert_eq!(a.origin_email_subject, None);
    assert_eq!(a.origin_email_from, None);
    assert_eq!(a.origin_email_message_id, None);
}

#[test]
fn full_record_round_trips() {
    let (_f, p) = temp_file();
    let a = full_record();
    a.write_file(&p).unwrap();
    let b = Attributes::read_file(&p).unwrap();
    assert_eq!(b.comment, a.comment);
    assert_eq!(b.creator, a.creator);
    assert_eq!(b.language, a.language);
    assert_eq!(b.tags, a.tags);
    assert_eq!(b.origin_url, a.origin_url);
    assert_eq!(b.origin_referrer, a.origin_referrer);
    assert_eq!(b.origin_email_subject, a.origin_email_subject);
    assert_eq!(b.origin_email_from, a.origin_email_from);
    assert_eq!(b.origin_email_message_id, a.origin_email_message_id);
}

#[test]
fn partial_record_round_trips_exactly() {
    let (_f, p) = temp_file();
    let mut a = Attributes::default();
    a.comment = Some("only this".to_string());
    a.tags = Some(vec!["one".to_string(), "two".to_string()]);
    a.write_file(&p).unwrap();
    let b = Attributes::read_file(&p).unwrap();
    assert_eq!(b.comment, Some("only this".to_string()));
    assert_eq!(b.tags, Some(vec!["one".to_string(), "two".to_string()]));
    assert_eq!(b.creator, None);
    assert_eq!(b.language, None);
    assert_eq!(b.origin_url, None);
    assert_eq!(b.origin_referrer, None);
    assert_eq!(b.origin_email_subject, None);
    assert_eq!(b.origin_email_from, None);
    assert_eq!(b.origin_email_message_id, None);
}

#[test]
fn absent_field_does_not_clear_key() {
    let (_f, p) = temp_file();
    xattr::set(&p, "user.xdg.creator", b"gimp").unwrap();
    let mut a = Attributes::default();
    a.comment = Some("fresh".to_string());
    a.write_file(&p).unwrap();
    let b = Attributes::read_file(&p).unwrap();
    assert_eq!(b.creator, Some("gimp".to_string()));
    assert_eq!(b.comment, Some("fresh".to_string()));
}

#[test]
fn invalid_utf8_value_reads_as_absent() {
    let (_f, p) = temp_file();
    xattr::set(&p, "user.xdg.language", &[0xc3, 0x28]).unwrap();
    xattr::set(&p, "user.xdg.comment", b"ok").unwrap();
    let b = Attributes::read_file(&p).unwrap();
    assert_eq!(b.language, None);
    assert_eq!(b.comment, Some("ok".to_string()));
}

#[test]
fn empty_tag_list_still_writes_its_key() {
    let (_f, p) = temp_file();
    let mut a = Attributes::default();
    a.tags = Some(Vec::new());
    a.write_file(&p).unwrap();
    assert_eq!(xattr::get(&p, "user.xdg.tags").unwrap(), Some(Vec::new()));
    let b = Attributes::read_file(&p).unwrap();
    assert_eq!(b.tags, Some(vec![String::new()]));
}

#[test]
fn failed_key_write_keeps_earlier_fields() {
    let (_f, p) = temp_file();
    let mut a = Attributes::default();
    a.comment = Some("first".to_string());
    // Larger than the kernel's per-attribute cap, so this key write fails
    // whatever the filesystem.
    a.origin_email_from = Some("x".repeat(100_000));
    assert!(a.write_file(&p).is_err());
    let b = Attributes::read_file(&p).unwrap();
    assert_eq!(b.comment, Some("first".to_string()));
    assert_eq!(b.origin_email_from, None);
}

#[test]
fn write_to_missing_path_fails() {
    let mut a = Attributes::default();
    a.comment = Some("x".to_string());
    assert!(a.write_file("/this/path/does/not/exist/anywhere").is_err());
}

#[test]
fn read_missing_path_folds_to_absent() {
    let a = Attributes::read_file("/this/path/does/not/exist/anywhere").unwrap();
    assert_eq!(a.comment, None);
    assert_eq!(a.tags, None);
}
