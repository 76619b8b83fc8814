use freddie::instance::{
    held_after_probe, lock_file_name, open_outcome, recorded_pid, Held, LockError, NavError, NoUserDir, Pid,
};
use freddie::windows_types::{
    open_args, selection_of, source_from_sender, DeviceInfo, Selection, SourceId, WindowError,
};

#[test]
fn open_args_are_dash_b_bundle_id() {
    assert_eq!(open_args("com.google.Chrome"), ["-b", "com.google.Chrome"]);
    assert_eq!(open_args("dev.zed.Zed"), ["-b", "dev.zed.Zed"]);
}

#[test]
fn errors_say_what_went_wrong() {
    assert_eq!(
        WindowError::NotTrusted.message(),
        "Accessibility is not granted"
    );
    assert_eq!(
        NavError::Failed.message(),
        "`open` reported failure (app missing or activation refused)"
    );
    assert!(LockError::NoStateDir.message().contains("is HOME set?"));
    assert!(NoUserDir.message().contains("lock and the log"));
    let running = LockError::AlreadyRunning(std::path::PathBuf::from("/tmp/a.lock")).message();
    assert_eq!(
        running,
        "another instance is already running (it holds /tmp/a.lock)"
    );
}

#[test]
fn a_pid_reads_as_its_number() {
    assert_eq!(Pid(4294967295).to_text(), "4294967295");
    assert_eq!(Held::By(Pid(7)), Held::By(Pid(7)));
    assert_ne!(Held::Free, Held::Unnamed);
}

#[test]
fn a_lock_file_is_named_for_its_app() {
    assert_eq!(lock_file_name("mercury"), "mercury.lock");
    assert_eq!(lock_file_name(""), ".lock");
}

#[test]
fn a_granted_probe_means_nobody_holds_the_lock() {
    assert_eq!(held_after_probe(Ok(()), Some(Pid(9))).unwrap(), Held::Free);
    assert_eq!(held_after_probe(Ok(()), None).unwrap(), Held::Free);
}

#[test]
fn a_refused_probe_names_the_holder_when_it_recorded_its_pid() {
    let refused = || Err(LockError::AlreadyRunning(std::path::PathBuf::from("/tmp/a.lock")));
    assert_eq!(held_after_probe(refused(), Some(Pid(42))).unwrap(), Held::By(Pid(42)));
    assert_eq!(held_after_probe(refused(), None).unwrap(), Held::Unnamed);
}

#[test]
fn a_failed_probe_passes_its_error_through() {
    let failed = Err(LockError::Unavailable(std::io::Error::other("no disk")));
    assert!(matches!(
        held_after_probe(failed, Some(Pid(1))),
        Err(LockError::Unavailable(_))
    ));
    assert!(matches!(
        held_after_probe(Err(LockError::NoStateDir), None),
        Err(LockError::NoStateDir)
    ));
}

#[test]
fn a_selection_reads_as_its_text_or_says_why_not() {
    assert_eq!(selection_of(None), Selection::Unsupported);
    assert_eq!(selection_of(Some(String::new())), Selection::Empty);
    assert_eq!(
        selection_of(Some("hello".to_owned())),
        Selection::Text("hello".to_owned())
    );
}

#[test]
fn an_injected_event_has_no_source() {
    assert_eq!(source_from_sender(0), None);
    assert_eq!(source_from_sender(42), Some(SourceId(42)));
}

#[test]
fn device_properties_default_when_missing_or_too_wide() {
    let info = DeviceInfo::from_properties(Some(0x05ac), Some(0x10_0000), None, Some(true));
    assert_eq!(info.vendor_id, 0x05ac);
    assert_eq!(info.product_id, 0, "a product id past 16 bits reads as zero");
    assert_eq!(info.product, "");
    assert!(info.built_in);
    let bare = DeviceInfo::from_properties(None, None, Some("Magic Keyboard".to_owned()), None);
    assert_eq!((bare.vendor_id, bare.product_id), (0, 0));
    assert_eq!(bare.product, "Magic Keyboard");
    assert!(!bare.built_in);
}

#[test]
fn a_failed_open_is_reported() {
    assert!(open_outcome(true).is_ok());
    assert!(matches!(open_outcome(false), Err(NavError::Failed)));
}

#[test]
fn a_recorded_pid_is_read_between_whitespace() {
    assert_eq!(recorded_pid(" 42\n"), Some(Pid(42)));
    assert_eq!(recorded_pid("\u{3000}9\u{a0}"), Some(Pid(9)));
    assert_eq!(recorded_pid("+7"), Some(Pid(7)));
    assert_eq!(recorded_pid("4294967295"), Some(Pid(4294967295)));
    assert_eq!(recorded_pid("007"), Some(Pid(7)));
}

#[test]
fn a_pid_file_that_holds_no_number_names_nobody() {
    assert_eq!(recorded_pid(""), None);
    assert_eq!(recorded_pid("  \n"), None);
    assert_eq!(recorded_pid("+"), None);
    assert_eq!(recorded_pid("-1"), None);
    assert_eq!(recorded_pid("12a"), None);
    assert_eq!(recorded_pid("1 2"), None);
    assert_eq!(recorded_pid("4294967296"), None);
}
