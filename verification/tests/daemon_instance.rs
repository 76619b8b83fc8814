use freddie::instance::Instance;
use std::path::PathBuf;

fn instance(slug: &str, display_name: &str) -> Instance {
    Instance::with_paths(
        "testapp",
        slug.to_owned(),
        display_name.to_owned(),
        PathBuf::from(format!("/state/{slug}/{slug}.lock")),
        PathBuf::from("/state/testapp"),
    )
}

#[test]
fn an_instance_keeps_what_it_was_named() {
    let a = instance("testapp-a", "./a.json");
    assert_eq!(a.slug(), "testapp-a");
    assert_eq!(a.display_name(), "./a.json");
    assert_eq!(a.tracing_target(), "testapp");
    assert_eq!(a.log_file_name(), "testapp-a.log");
}

#[test]
fn an_instance_keeps_its_paths() {
    let a = instance("testapp-a", "./a.json");
    assert_eq!(a.lock_file(), &PathBuf::from("/state/testapp-a/testapp-a.lock"));
    assert_eq!(a.log_dir(), &PathBuf::from("/state/testapp"));
    assert_eq!(a.log_file(), PathBuf::from("/state/testapp/testapp-a.log"));
}

#[test]
fn a_replaced_tracing_target_is_kept() {
    let a = instance("testapp-a", "./a.json").with_tracing_target("other".to_owned());
    assert_eq!(a.tracing_target(), "other");
    assert_eq!(a.slug(), "testapp-a");
}

#[test]
fn distinct_slugs_keep_distinct_logs_in_one_directory() {
    let a = instance("testapp-a", "./a.json");
    let b = instance("testapp-b", "./b.json");
    assert_ne!(a.lock_file(), b.lock_file());
    assert_ne!(a.log_file(), b.log_file());
    assert_eq!(a.log_dir(), b.log_dir());
}
