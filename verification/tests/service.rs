use zapo::service::{CAUSE, DATE, EMITTER, HTTP_TELL, STATUS};

#[test]
fn status_texts() {
    assert_eq!(STATUS::OK.status(), "OK");
    assert_eq!(STATUS::FAIL.status(), "FAIL");
}

#[test]
fn cause_texts() {
    assert_eq!(CAUSE::CANNOT_PERFORME.cause(), "CANNOT PERFORME");
    assert_eq!(CAUSE::BAD_REQUEST.cause(), "BAD REQUEST");
    assert_eq!(CAUSE::WRONG_INFO.cause(), "WRONG INFO");
    assert_eq!(CAUSE::NONE.cause(), "NONE");
}

#[test]
fn texts_identify_variants() {
    let statuses = [STATUS::OK.status(), STATUS::FAIL.status()];
    assert_ne!(statuses[0], statuses[1]);
    let causes = [
        CAUSE::CANNOT_PERFORME.cause(),
        CAUSE::BAD_REQUEST.cause(),
        CAUSE::WRONG_INFO.cause(),
        CAUSE::NONE.cause(),
    ];
    for i in 0..causes.len() {
        for j in 0..causes.len() {
            assert_eq!(i == j, causes[i] == causes[j]);
        }
    }
}

#[test]
fn emitter_without_field_gives_empty_pair() {
    assert_eq!(EMITTER::EMITE.emite(None), [String::new(), String::new()]);
}

#[test]
fn emitter_with_field_gives_it() {
    assert_eq!(
        EMITTER::EMITE.emite(Some(["token", "abc"])),
        ["token".to_string(), "abc".to_string()]
    );
}

#[test]
fn emitter_none_names_itself() {
    assert_eq!(EMITTER::NONE.emite(Some(["x", "y"])), ["emit".to_string(), "NONE".to_string()]);
    assert_eq!(EMITTER::NONE.emite(None), ["emit".to_string(), "NONE".to_string()]);
}

#[test]
fn date_has_utc_datetime_shape() {
    let date = DATE::THIS_DATE.date();
    assert!(date.ends_with(" UTC"));
    assert!(date.len() >= 23);
    let b = date.as_bytes();
    assert!(b[..4].iter().all(|c| c.is_ascii_digit()));
    assert_eq!(b[4], b'-');
    assert!(b[5].is_ascii_digit() && b[6].is_ascii_digit());
    assert_eq!(b[7], b'-');
    assert!(b[8].is_ascii_digit() && b[9].is_ascii_digit());
    assert_eq!(b[10], b' ');
    assert!(b[11].is_ascii_digit() && b[12].is_ascii_digit());
    assert_eq!(b[13], b':');
    assert!(b[14].is_ascii_digit() && b[15].is_ascii_digit());
    assert_eq!(b[16], b':');
    assert!(b[17].is_ascii_digit() && b[18].is_ascii_digit());
    let fraction = &date[19..date.len() - 4];
    assert!(
        fraction.is_empty()
            || (fraction.starts_with('.')
                && [4, 7, 10].contains(&fraction.len())
                && fraction[1..].bytes().all(|c| c.is_ascii_digit()))
    );
}

#[test]
fn tell_dated_fields() {
    let fields = HTTP_TELL::tell_dated(
        ["token".to_string(), "abc".to_string()],
        "NONE".to_string(),
        "OK".to_string(),
        "2025-01-01".to_string(),
    );
    let entries = fields.entries();
    assert_eq!(
        entries,
        vec![
            ("token".to_string(), "abc".to_string()),
            ("STATUS".to_string(), "OK".to_string()),
            ("CAUSE".to_string(), "NONE".to_string()),
            ("DATE".to_string(), "2025-01-01".to_string()),
        ]
    );
}

#[test]
fn tell_fields_replace_emitted_field_of_same_name() {
    let fields = HTTP_TELL::tell_dated(
        ["STATUS".to_string(), "forged".to_string()],
        "WRONG INFO".to_string(),
        "FAIL".to_string(),
        "now".to_string(),
    );
    assert_eq!(fields.get(&"STATUS".to_string()), Some("FAIL".to_string()));
    assert_eq!(fields.entries().len(), 3);
}

#[test]
fn tell_is_dated_now() {
    let fields = HTTP_TELL::TELL(EMITTER::EMITE.emite(None), CAUSE::NONE.cause(), STATUS::OK.status());
    assert_eq!(fields.get(&"".to_string()), Some(String::new()));
    assert_eq!(fields.get(&"STATUS".to_string()), Some("OK".to_string()));
    assert_eq!(fields.get(&"CAUSE".to_string()), Some("NONE".to_string()));
    let date = fields.get(&"DATE".to_string()).unwrap();
    assert!(date.ends_with("UTC"));
}
