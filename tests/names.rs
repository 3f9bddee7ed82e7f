use adba::database::{database_file_name, METADATA_FILE_NAME};
use adba::text::{retain_name_chars, sanitize_name};

#[test]
fn sanitize_strips_and_lowercases() {
    assert_eq!(sanitize_name("My-DB 1!"), "mydb1");
    assert_eq!(sanitize_name("Foo"), "foo");
    assert_eq!(sanitize_name("orders_2024"), "orders_2024");
}

#[test]
fn sanitize_empty_and_all_stripped() {
    assert_eq!(sanitize_name(""), "");
    assert_eq!(sanitize_name("-- !! .."), "");
}

#[test]
fn sanitize_keeps_unicode_letters() {
    assert_eq!(sanitize_name("Ünïcode Ñame"), "ünïcodeñame");
}

#[test]
fn retain_keeps_alphanumerics_and_underscores() {
    assert_eq!(retain_name_chars("a-B_c!9"), "aB_c9");
    assert_eq!(retain_name_chars("../etc/passwd"), "etcpasswd");
}

#[test]
fn file_name_has_db_suffix() {
    assert_eq!(database_file_name("Orders"), "orders.db");
    assert_eq!(database_file_name("!!"), ".db");
    assert_eq!(METADATA_FILE_NAME, "metadata.db");
}

#[test]
fn names_that_sanitize_alike_share_a_file() {
    assert_eq!(database_file_name("Foo"), database_file_name("foo"));
    assert_eq!(database_file_name("my-app"), database_file_name("MyApp"));
    assert_ne!(database_file_name("foo"), database_file_name("bar"));
}
