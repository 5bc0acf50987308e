use bsr::clock::utc_date_and_time;
use bsr::path::{components, file_name, is_absolute, join, parent, paths_equal};
use bsr::text::{
    decimal, decimal_i32, decimal_wide, is_blank, lower_hex, parse_i32, parse_size_pair,
    parse_unsigned, same, starts_with, strip_ends, strip_prefix, strip_start, trim, Edge,
};

#[test]
fn numbers_are_written_and_read_in_decimal() {
    for n in [0u64, 7, 10, 909, u64::MAX] {
        assert_eq!(decimal(n), format!("{n}"));
        assert_eq!(parse_unsigned(&decimal(n), u64::MAX), Some(n));
    }
    assert_eq!(decimal_wide(u128::MAX), format!("{}", u128::MAX));
    for n in [0, -1, 42, i32::MIN, i32::MAX] {
        assert_eq!(decimal_i32(n), format!("{n}"));
        assert_eq!(parse_i32(&decimal_i32(n)), Some(n));
    }
    for text in ["", "+", "-5", "5 ", "4294967296", "٣"] {
        assert_eq!(parse_unsigned(text, u32::MAX as u64), text.parse::<u32>().ok().map(u64::from));
    }
    for text in ["+5", "-", "--5", "2147483648", "-2147483648", "1.0"] {
        assert_eq!(parse_i32(text), text.parse::<i32>().ok(), "{text}");
    }
    assert_eq!(parse_unsigned("+12", 12), Some(12));
    assert_eq!(parse_size_pair("640x480"), Some((640, 480)));
    assert_eq!(parse_size_pair("640"), None);
}

#[test]
fn white_space_is_trimmed_as_std_does() {
    for text in ["", "  ", " a b ", "\t\n x\u{a0}", "\u{2003}wide\u{3000}", "\u{200b}zero"] {
        assert_eq!(trim(text), text.trim(), "{text:?}");
        assert_eq!(is_blank(text), text.trim().is_empty());
    }
    assert_eq!(strip_ends("'\"a'b\"", Edge::Quote), "a'b");
    assert_eq!(strip_start("//a/", Edge::Slash), "a/");
}

#[test]
fn prefixes_are_found() {
    assert_eq!(strip_prefix("file:///a", "file://").as_deref(), Some("/a"));
    assert_eq!(strip_prefix("fil", "file"), None);
    assert!(starts_with("C:/x", "C:/") && !starts_with("c:/x", "C:/"));
    assert!(same("é", "é") && !same("é", "e"));
    assert_eq!(lower_hex(&vec![0, 15, 16, 255]), "000f10ff");
}

#[test]
fn paths_behave_as_in_std() {
    for (base, part) in [("/a", "b"), ("/a/", "b"), ("", "b"), ("/a", "/b"), ("/a", ""), ("a", "b/c")] {
        let want = std::path::Path::new(base).join(part);
        assert_eq!(join(base, part), want.to_str().unwrap(), "{base:?} + {part:?}");
    }
    for p in ["/a/b.mp4", "b.mp4", "/", "", "/a/", "a/..", "..", "/a//b/./", "./a", "a/."] {
        let std_path = std::path::Path::new(p);
        assert_eq!(file_name(p).as_deref(), std_path.file_name().and_then(|n| n.to_str()), "{p:?}");
        assert_eq!(
            parent(p).map(|d| std::path::PathBuf::from(d)),
            std_path.parent().map(|d| d.to_path_buf()),
            "{p:?}"
        );
        assert_eq!(is_absolute(p), std_path.is_absolute(), "{p:?}");
    }
    for (a, b) in [("/a/b", "/a//b/"), ("/a/./b", "/a/b"), ("a", "./a"), ("/a", "a"), ("/a/../b", "/b")] {
        assert_eq!(paths_equal(a, b), std::path::Path::new(a) == std::path::Path::new(b), "{a} {b}");
    }
    assert_eq!(components("/a//b/./c"), ["a", "b", "c"]);
}

#[test]
fn the_clock_gives_a_date_and_a_time() {
    let (date, time) = utc_date_and_time();
    let shape = |s: &str| s.chars().map(|c| if c.is_ascii_digit() { '0' } else { c }).collect::<String>();
    assert_eq!((shape(&date).as_str(), shape(&time).as_str()), ("0000-00-00", "00-00-00"));
}
