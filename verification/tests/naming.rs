use dynamic_reload::naming::{format_filename, get_dynamiclib_name, get_library_name, to_decimal};
use dynamic_reload::{Error, Platform, PlatformName};

#[test]
fn test_get_library_name_mac() {
    assert_eq!(
        get_library_name("foobar", PlatformName::Yes, Platform::MacOs),
        "libfoobar.dylib"
    );
}

#[test]
fn test_get_library_name() {
    assert_eq!(
        get_library_name("foobar", PlatformName::No, Platform::Unix),
        "foobar"
    );
}

#[test]
fn dynamiclib_name_on_each_platform() {
    assert_eq!(get_dynamiclib_name("test_foo", Platform::Windows), "test_foo.dll");
    assert_eq!(get_dynamiclib_name("test_foo", Platform::MacOs), "libtest_foo.dylib");
    assert_eq!(get_dynamiclib_name("test_foo", Platform::Unix), "libtest_foo.so");
}

#[test]
fn decimal_is_exact() {
    assert_eq!(to_decimal(0), "0");
    assert_eq!(to_decimal(9), "9");
    assert_eq!(to_decimal(10), "10");
    assert_eq!(to_decimal(1700000000123), "1700000000123");
    assert_eq!(to_decimal(u128::MAX), "340282366920938463463374607431768211455");
}

#[test]
fn staged_file_name_is_time_underscore_name() {
    assert_eq!(
        format_filename("target/debug/shadow", "/work/plugins/libfoo.so", 1700000000123),
        Some("target/debug/shadow/1700000000123_libfoo.so".to_string())
    );
    assert_eq!(format_filename("shadow", "libfoo.so", 7), Some("shadow/7_libfoo.so".to_string()));
}

#[test]
fn path_without_file_name_has_no_staged_path() {
    assert_eq!(format_filename("shadow", "/", 1), None);
    assert_eq!(format_filename("shadow", "plugins/..", 1), None);
    assert_eq!(format_filename("shadow", "", 1), None);
}

#[test]
fn errors_in_words() {
    assert_eq!(Error::Find("foo".to_string()).message(), "Unable to find foo");
    assert_eq!(
        Error::Load("bad header".to_string()).message(),
        "Unable to load library: bad header"
    );
    assert_eq!(
        Error::CopyTimeOut("a/libfoo.so".to_string(), "s/1_libfoo.so".to_string()).message(),
        "Unable to copy a/libfoo.so to s/1_libfoo.so"
    );
}
