use dynamic_reload::protocol::should_reload;
use dynamic_reload::{Lib, WatchEvent};

fn lib(original: Option<&str>) -> Lib {
    Lib {
        lib: libloading::os::unix::Library::this().into(),
        loaded_path: "shadow/1_libfoo.so".to_string(),
        original_path: original.map(|p| p.to_string()),
    }
}

#[test]
fn same_file_name_matches_whatever_the_directory() {
    assert!(should_reload("/a/b/libfoo.so", &lib(Some("libfoo.so"))));
    assert!(should_reload("libfoo.so", &lib(Some("/x/libfoo.so"))));
    assert!(should_reload("/a/libfoo.so", &lib(Some("/a/libfoo.so"))));
}

#[test]
fn other_file_name_does_not_match() {
    assert!(!should_reload("/a/libbar.so", &lib(Some("/a/libfoo.so"))));
    assert!(!should_reload("/a/libfoo.so/x", &lib(Some("/a/libfoo.so"))));
}

#[test]
fn library_without_source_never_matches() {
    assert!(!should_reload("shadow/1_libfoo.so", &lib(None)));
}

#[test]
fn path_without_file_name_never_matches() {
    assert!(!should_reload("/", &lib(Some("/"))));
    assert!(!should_reload("..", &lib(Some(".."))));
}

#[test]
fn only_writes_and_creations_name_a_changed_path() {
    let p = "a/libfoo.so".to_string();
    assert_eq!(WatchEvent::NoticeWrite(p.clone()).changed_path(), Some(&p));
    assert_eq!(WatchEvent::Write(p.clone()).changed_path(), Some(&p));
    assert_eq!(WatchEvent::Create(p.clone()).changed_path(), Some(&p));
    assert_eq!(WatchEvent::Other.changed_path(), None);
}
