use mountui::config::bookmarks_path;
use mountui::path::{join_path, paths_equal};
use mountui::text::{
    chars_of, contains_chars, decimal_chars, find_chars, lines_of, parse_unsigned_chars,
    string_of, trim_chars, trim_start_char_chars, truncate, u16_to_string, words_of,
};

fn cs(s: &str) -> Vec<char> {
    s.chars().collect()
}

fn strs(v: Vec<Vec<char>>) -> Vec<String> {
    v.into_iter().map(|w| w.into_iter().collect()).collect()
}

#[test]
fn chars_and_strings_convert() {
    assert_eq!(chars_of("héllo"), cs("héllo"));
    assert_eq!(string_of(&cs("a b")), "a b");
}

#[test]
fn trim_removes_unicode_whitespace_at_both_ends() {
    assert_eq!(trim_chars(&cs("  a b \t\n")), cs("a b"));
    assert_eq!(trim_chars(&cs("\u{3000}x\u{a0}")), cs("x"));
    assert_eq!(trim_chars(&cs("   ")), cs(""));
    assert_eq!(trim_chars(&cs("")), cs(""));
}

#[test]
fn words_split_at_runs_of_whitespace() {
    assert_eq!(
        strs(words_of(&cs("  /dev/sda1 / ext4\trw,relatime 0 0 "))),
        vec!["/dev/sda1", "/", "ext4", "rw,relatime", "0", "0"]
    );
    assert!(words_of(&cs(" \t ")).is_empty());
}

#[test]
fn lines_follow_str_lines() {
    assert_eq!(strs(lines_of(&cs("a\nb\r\nc"))), vec!["a", "b", "c"]);
    assert_eq!(strs(lines_of(&cs("a\n\nb\n"))), vec!["a", "", "b"]);
    assert_eq!(strs(lines_of(&cs("x\r"))), vec!["x\r"]);
    assert!(lines_of(&cs("")).is_empty());
}

#[test]
fn find_and_contains() {
    assert_eq!(find_chars(&cs("dev on /mnt on x"), &cs(" on ")), Some(3));
    assert_eq!(find_chars(&cs("abc"), &cs("d")), None);
    assert!(contains_chars(&cs("fuse.sshfs"), &cs("sshfs")));
    assert!(contains_chars(&cs("abc"), &cs("")));
    assert!(!contains_chars(&cs("ab"), &cs("abc")));
}

#[test]
fn decimal_numbers_are_written_and_read_back() {
    assert_eq!(decimal_chars(0), cs("0"));
    assert_eq!(decimal_chars(65535), cs("65535"));
    assert_eq!(u16_to_string(22), "22");
    assert_eq!(parse_unsigned_chars(&cs("2222"), 65535), Some(2222));
    assert_eq!(parse_unsigned_chars(&cs("+8"), 65535), Some(8));
    assert_eq!(parse_unsigned_chars(&cs("65536"), 65535), None);
    assert_eq!(parse_unsigned_chars(&cs("+"), 65535), None);
    assert_eq!(parse_unsigned_chars(&cs(""), 65535), None);
    assert_eq!(parse_unsigned_chars(&cs("-1"), 65535), None);
    assert_eq!(parse_unsigned_chars(&cs("12a"), 65535), None);
    assert_eq!(
        parse_unsigned_chars(&cs("18446744073709551615"), u64::MAX),
        Some(u64::MAX)
    );
    assert_eq!(parse_unsigned_chars(&cs("18446744073709551616"), u64::MAX), None);
    assert_eq!(parse_unsigned_chars(&cs("00042"), u64::MAX), Some(42));
}

#[test]
fn truncate_keeps_short_texts_and_marks_cut_ones() {
    assert_eq!(truncate("short", 15), "short");
    assert_eq!(truncate("exactly-15-char", 15), "exactly-15-char");
    assert_eq!(truncate("a-very-long-bookmark-name", 10), "a-very-lo\u{2026}");
    assert_eq!(truncate("héllo wörld", 5), "héll\u{2026}");
    assert_eq!(truncate("abc", 0), "\u{2026}");
}

#[test]
fn leading_slashes_are_trimmed() {
    assert_eq!(trim_start_char_chars(&cs("//share/dir"), '/'), cs("share/dir"));
    assert_eq!(trim_start_char_chars(&cs("share"), '/'), cs("share"));
}

#[test]
fn paths_compare_by_components() {
    assert!(paths_equal("/mnt/nas", "/mnt/nas/"));
    assert!(paths_equal("/mnt//nas", "/mnt/./nas"));
    assert!(!paths_equal("/mnt/nas", "mnt/nas"));
    assert!(!paths_equal("./a", "a"));
    assert!(paths_equal("./a", "./a/."));
    assert!(!paths_equal("/mnt/a/..", "/mnt"));
}

#[test]
fn bookmarks_file_lives_in_the_config_dir() {
    assert_eq!(
        bookmarks_path(Some("/home/u/.config/mountui")),
        Some("/home/u/.config/mountui/bookmarks.toml".to_string())
    );
    assert_eq!(bookmarks_path(Some("/cfg/")), Some("/cfg/bookmarks.toml".to_string()));
    assert_eq!(bookmarks_path(None), None);
    assert_eq!(join_path("", "bookmarks.toml"), "bookmarks.toml");
}
