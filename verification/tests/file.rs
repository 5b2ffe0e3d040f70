use deploy_dispatcher::error::AppError;
use deploy_dispatcher::file::{
    decimal_text, get_task_file_path, is_plain_name, join, log_file_path,
};

#[test]
fn decimal_text_matches_the_standard_rendering() {
    for n in [0u64, 1, 9, 10, 11, 99, 100, 101, 909, 1000, 65535, 4294967296, u64::MAX - 1, u64::MAX]
    {
        assert_eq!(decimal_text(n), n.to_string());
    }
    assert_eq!(decimal_text(0), "0");
    assert_eq!(decimal_text(7), "7");
    assert_eq!(decimal_text(1203), "1203");
    assert_eq!(decimal_text(u64::MAX), "18446744073709551615");
}

#[test]
fn join_puts_one_separator_between() {
    assert_eq!(join("/srv/app", "file"), "/srv/app/file");
    assert_eq!(join("/srv/app/", "file"), "/srv/app/file");
    assert_eq!(join("/", "file"), "/file");
    assert_eq!(join("", "file"), "file");
    assert_eq!(join("rel", "file"), "rel/file");
}

#[test]
fn join_agrees_with_the_standard_path() {
    for base in ["/srv/app", "/srv/app/", "/", "", "rel", "a/b"] {
        for name in ["file", "12", "access.log"] {
            let expected = std::path::Path::new(base).join(name);
            assert_eq!(join(base, name), expected.to_str().unwrap());
        }
    }
}

#[test]
fn task_directory_is_file_then_id() {
    assert_eq!(get_task_file_path("/srv/app", 1), "/srv/app/file/1");
    assert_eq!(get_task_file_path("/srv/app", 42), "/srv/app/file/42");
    assert_eq!(get_task_file_path("/", 7), "/file/7");
    assert_eq!(get_task_file_path("/srv/app", 0), "/srv/app/file/0");
    assert_eq!(
        get_task_file_path("/srv/app", u64::MAX),
        "/srv/app/file/18446744073709551615"
    );
}

#[test]
fn task_directory_agrees_with_the_standard_path() {
    let root = std::path::Path::new("/var/lib/deploy");
    for id in [1u64, 10, 123456789] {
        let expected = root.join("file").join(id.to_string());
        assert_eq!(get_task_file_path("/var/lib/deploy", id), expected.to_str().unwrap());
    }
}

#[test]
fn plain_names() {
    assert!(is_plain_name("stdout"));
    assert!(is_plain_name("access.log"));
    assert!(is_plain_name("mysql-slow.log"));
    assert!(is_plain_name("..."));
    assert!(is_plain_name(".hidden"));
    assert!(is_plain_name("a..b"));
    assert!(!is_plain_name(""));
    assert!(!is_plain_name("."));
    assert!(!is_plain_name(".."));
    assert!(!is_plain_name("a/b"));
    assert!(!is_plain_name("/etc/passwd"));
    assert!(!is_plain_name("../stdout"));
    assert!(!is_plain_name("dir/"));
}

#[test]
fn log_file_path_stays_in_the_task_directory() {
    assert_eq!(log_file_path("/srv", 3, "stdout").unwrap(), "/srv/file/3/stdout");
    assert_eq!(log_file_path("/srv", 3, "access.log").unwrap(), "/srv/file/3/access.log");
    for bad in ["", ".", "..", "../x", "/abs", "a/b"] {
        assert_eq!(
            log_file_path("/srv", 3, bad).unwrap_err(),
            AppError::InvalidQueryParameter("name".to_string())
        );
    }
}
