use rootfs_pipeline::archive::stripped_name;
use rootfs_pipeline::text::{
    file_stem, find_char, format_decimal, format_signed, has_c_extension, join,
};

#[test]
fn decimal_of_small_and_large_numbers() {
    assert_eq!(format_decimal(0), "0");
    assert_eq!(format_decimal(7), "7");
    assert_eq!(format_decimal(10), "10");
    assert_eq!(format_decimal(1024), "1024");
    assert_eq!(format_decimal(90817), "90817");
    assert_eq!(format_decimal(usize::MAX), usize::MAX.to_string());
}

#[test]
fn signed_decimal_keeps_the_sign() {
    assert_eq!(format_signed(0), "0");
    assert_eq!(format_signed(2), "2");
    assert_eq!(format_signed(-1), "-1");
    assert_eq!(format_signed(127), "127");
    assert_eq!(format_signed(i32::MAX), "2147483647");
    assert_eq!(format_signed(i32::MIN), "-2147483648");
}

#[test]
fn join_puts_tail_behind_head() {
    assert_eq!(join("rootfs", "/bin"), "rootfs/bin");
    assert_eq!(join("", "x"), "x");
    assert_eq!(join("x", ""), "x");
}

#[test]
fn find_char_stops_at_the_first() {
    assert_eq!(find_char("a/b/c", '/', 0), 1);
    assert_eq!(find_char("a/b/c", '/', 1), 1);
    assert_eq!(find_char("a/b/c", '/', 2), 3);
    assert_eq!(find_char("a/b/c", '/', 4), 5);
    assert_eq!(find_char("abc", '/', 0), 3);
    assert_eq!(find_char("", '/', 0), 0);
    assert_eq!(find_char("a/b", '/', 9), 3);
    assert_eq!(find_char("é/x", '/', 0), 1);
}

#[test]
fn c_sources_are_told_by_their_ending() {
    assert!(has_c_extension("hello.c"));
    assert!(has_c_extension("a.b.c"));
    assert!(has_c_extension("..c"));
    assert!(!has_c_extension(".c"));
    assert!(!has_c_extension("c"));
    assert!(!has_c_extension("hello.cc"));
    assert!(!has_c_extension("hello.C"));
    assert!(!has_c_extension("hello.h"));
    assert!(!has_c_extension("Makefile"));
    assert!(!has_c_extension(""));
}

#[test]
fn stem_ends_before_the_last_dot() {
    assert_eq!(file_stem("hello.c"), "hello");
    assert_eq!(file_stem("a.b.c"), "a.b");
    assert_eq!(file_stem("x.c.bak"), "x.c");
    assert_eq!(file_stem(".hidden.c"), ".hidden");
    assert_eq!(file_stem("archive.tar.gz"), "archive.tar");
    assert_eq!(file_stem("..c"), ".");
    assert_eq!(file_stem("a."), "a");
}

#[test]
fn a_name_without_an_extension_is_its_own_stem() {
    assert_eq!(file_stem("plain"), "plain");
    assert_eq!(file_stem(""), "");
    assert_eq!(file_stem("."), ".");
    assert_eq!(file_stem(".c"), ".c");
    assert_eq!(file_stem(".profile"), ".profile");
}

#[test]
fn one_stripped_component_is_the_top_directory() {
    assert_eq!(stripped_name("prebuild/bin/busybox", 1), Some("bin/busybox".to_string()));
    assert_eq!(stripped_name("prebuild/etc", 1), Some("etc".to_string()));
    assert_eq!(stripped_name("prebuild/", 1), None);
    assert_eq!(stripped_name("prebuild", 1), None);
}

#[test]
fn stripping_nothing_or_more() {
    assert_eq!(stripped_name("bin/busybox", 0), Some("bin/busybox".to_string()));
    assert_eq!(stripped_name("", 0), None);
    assert_eq!(stripped_name("a/b/c", 2), Some("c".to_string()));
    assert_eq!(stripped_name("a/b/c", 3), None);
    assert_eq!(stripped_name("a/b/", 2), None);
    assert_eq!(stripped_name("a/b", 7), None);
}
