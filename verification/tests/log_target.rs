use freddie::log_target::{pid_stamp, put_target, record_target, stamp_record, RecordTarget};

#[test]
fn a_line_that_is_not_an_object_is_written_through() {
    let written = stamp_record(b"a stray line", "{\"pid\":1,", "mercury");
    assert_eq!(written, b"a stray line");
}

#[test]
fn put_target_rewrites_the_app_crate_to_the_app_name() {
    let mut line =
        br#"{"pid":1,"target":"isograph_cli","message":"hello from isograph"}"#.to_vec();
    put_target(&mut line, "isograph");
    assert_eq!(
        line,
        br#"{"pid":1,"target":"isograph","message":"hello from isograph"}"#
    );
}

#[test]
fn put_target_rewrites_a_module_under_the_app() {
    let mut line = br#"{"pid":1,"target":"figaro::daemon","message":"dispatch"}"#.to_vec();
    put_target(&mut line, "figaro");
    assert_eq!(line, br#"{"pid":1,"target":"figaro","message":"dispatch"}"#);
}

#[test]
fn put_target_rewrites_this_crate_under_the_app_name() {
    let mut line = br#"{"pid":1,"target":"freddie_cli::daemon","message":"logging"}"#.to_vec();
    put_target(&mut line, "isograph");
    assert_eq!(
        line,
        br#"{"pid":1,"target":"isograph::daemon","message":"logging"}"#
    );
}

#[test]
fn put_target_rewrites_a_client_record_under_the_app_name() {
    let mut line =
        br#"{"pid":1,"target":"freddie_cli::client","message":"isograph started"}"#.to_vec();
    put_target(&mut line, "isograph");
    assert_eq!(
        line,
        br#"{"pid":1,"target":"isograph::client","message":"isograph started"}"#
    );
}

#[test]
fn put_target_leaves_an_explicit_target() {
    let mut line = br#"{"pid":1,"target":"keystroke","message":"tapped"}"#.to_vec();
    put_target(&mut line, "figaro");
    assert_eq!(
        line,
        br#"{"pid":1,"target":"keystroke","message":"tapped"}"#
    );
}

#[test]
fn a_record_with_no_target_or_no_closing_quote_is_untouched() {
    let mut line = br#"{"pid":1,"message":"figaro"}"#.to_vec();
    put_target(&mut line, "figaro");
    assert_eq!(line, br#"{"pid":1,"message":"figaro"}"#);
    let mut open = br#"{"target":"figaro::daemon"#.to_vec();
    put_target(&mut open, "figaro");
    assert_eq!(open, br#"{"target":"figaro::daemon"#);
}

#[test]
fn a_longer_crate_name_with_another_tail_is_not_the_app() {
    assert_eq!(record_target(b"figaroo", "figaro"), RecordTarget::Other);
    assert_eq!(record_target(b"figaro:x", "figaro"), RecordTarget::Other);
    assert_eq!(record_target(b"figaro_cli", "figaro"), RecordTarget::AppCrate);
    assert_eq!(record_target(b"freddie_cli", "figaro"), RecordTarget::FreddieCli);
    assert_eq!(record_target(b"freddie_clix", "figaro"), RecordTarget::Other);
}

#[test]
fn an_object_gets_the_stamp_in_place_of_its_brace() {
    let stamp = pid_stamp(4242);
    assert_eq!(stamp, "{\"pid\":4242,");
    let written = stamp_record(br#"{"target":"figaro::daemon","level":"INFO"}"#, &stamp, "figaro");
    assert_eq!(
        written,
        br#"{"pid":4242,"target":"figaro","level":"INFO"}"#
    );
}
