use test_runner::path::DB_BASE_PATH;
use test_runner::{base_path, BasePath};

#[test]
fn set_variable_is_used_verbatim() {
    assert_eq!(base_path(Some(b"/var/lib/node".to_vec())), BasePath::Permanent(b"/var/lib/node".to_vec()));
    assert_eq!(base_path(Some(b"relative dir/".to_vec())), BasePath::Permanent(b"relative dir/".to_vec()));
}

#[test]
fn set_variable_that_is_not_unicode_is_used_verbatim() {
    let value = vec![b'/', b'd', 0xff, 0xfe, b'/', 0x80];
    assert!(String::from_utf8(value.clone()).is_err());
    assert_eq!(base_path(Some(value.clone())), BasePath::Permanent(value));
}

#[test]
fn set_but_empty_variable_is_still_a_permanent_path() {
    assert_eq!(base_path(Some(Vec::new())), BasePath::Permanent(Vec::new()));
}

#[test]
fn unset_variable_asks_for_a_temporary_directory() {
    assert_eq!(base_path(None), BasePath::Temporary);
}

#[test]
fn unset_variable_asks_for_a_temporary_directory_each_time() {
    let first = base_path(None);
    let second = base_path(None);
    assert_eq!(first, BasePath::Temporary);
    assert_eq!(second, BasePath::Temporary);
}

#[test]
fn variable_name() {
    assert_eq!(DB_BASE_PATH, "DB_BASE_PATH");
}
