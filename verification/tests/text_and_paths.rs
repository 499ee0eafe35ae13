use live_server::error::ErrorKind;
use live_server::path::{is_name_text, split, ServePath, ServeRoot};
use live_server::text::{
    followed_by, decimal_string, from_char_range, from_chars, has_prefix, repeat_char, same_text,
    text_lt, to_chars,
};

fn root() -> ServeRoot {
    ServeRoot::new("/srv/www").unwrap()
}

fn url_of(request: &str) -> Result<String, ErrorKind> {
    root().resolve(request).map(|p| p.to_url())
}

#[test]
fn chars_round_trip() {
    let chars = to_chars("h\u{e9}llo");
    assert_eq!(chars, vec!['h', '\u{e9}', 'l', 'l', 'o']);
    assert_eq!(from_chars(&chars), "h\u{e9}llo");
    assert_eq!(from_char_range(&chars, 1, 3), "\u{e9}l");
    assert_eq!(from_char_range(&chars, 2, 2), "");
    assert_eq!(to_chars(""), Vec::<char>::new());
}

#[test]
fn same_text_compares_characters() {
    assert!(same_text("", ""));
    assert!(same_text("index.html", "index.html"));
    assert!(!same_text("index.html", "index.htm"));
    assert!(!same_text("index.htm", "index.html"));
    assert!(!same_text("Index.html", "index.html"));
}

#[test]
fn has_prefix_compares_the_beginning() {
    assert!(has_prefix("report.pdf", "report"));
    assert!(has_prefix("report", "report"));
    assert!(has_prefix("report", ""));
    assert!(!has_prefix("repo", "report"));
    assert!(!has_prefix("xreport", "report"));
    assert!(!has_prefix("", "r"));
}

#[test]
fn text_lt_is_the_code_point_order() {
    assert!(text_lt("a", "b"));
    assert!(!text_lt("b", "a"));
    assert!(!text_lt("a", "a"));
    assert!(text_lt("", "a"));
    assert!(!text_lt("a", ""));
    assert!(!text_lt("", ""));
    assert!(text_lt("a", "ab"));
    assert!(text_lt("Z", "a"));
    assert!(text_lt("a10", "a2"));
    assert!(text_lt("z", "\u{e9}"));
    assert!(text_lt("\u{ffff}", "\u{10000}"));
}

#[test]
fn text_lt_agrees_with_the_order_of_strings() {
    let names = ["", "a", "A", "ab", "b", "B", "readme.md", "README", "\u{e9}t\u{e9}", "z", "10", "9"];
    for x in names {
        for y in names {
            assert_eq!(text_lt(x, y), x < y, "{:?} {:?}", x, y);
        }
    }
}

#[test]
fn decimal_numerals() {
    assert_eq!(decimal_string(0), "0");
    assert_eq!(decimal_string(7), "7");
    assert_eq!(decimal_string(10), "10");
    assert_eq!(decimal_string(5437), "5437");
    assert_eq!(decimal_string(1_000_000), "1000000");
    assert_eq!(decimal_string(u64::MAX as u128), "18446744073709551615");
    assert_eq!(decimal_string(u128::MAX), "340282366920938463463374607431768211455");
}

#[test]
fn concat_and_repeat() {
    assert_eq!(followed_by("ab", "cd"), "abcd");
    assert_eq!(followed_by("", ""), "");
    assert_eq!(repeat_char(' ', 3), "   ");
    assert_eq!(repeat_char('x', 0), "");
}

#[test]
fn split_keeps_empty_parts() {
    assert_eq!(split(""), vec![""]);
    assert_eq!(split("a"), vec!["a"]);
    assert_eq!(split("a/b"), vec!["a", "b"]);
    assert_eq!(split("/a//b/"), vec!["", "a", "", "b", ""]);
    assert_eq!(split("/"), vec!["", ""]);
}

#[test]
fn root_must_be_absolute() {
    assert!(ServeRoot::new("srv/www").is_none());
    assert!(ServeRoot::new("").is_none());
    assert_eq!(ServeRoot::new("/srv/www").unwrap().to_text(), "/srv/www");
    assert_eq!(ServeRoot::new("/srv//www/./").unwrap().to_text(), "/srv/www");
    assert_eq!(ServeRoot::new("/srv/www/../data").unwrap().to_text(), "/srv/data");
    assert_eq!(ServeRoot::new("/").unwrap().to_text(), "/");
}

#[test]
fn resolve_the_served_directory_itself() {
    assert_eq!(url_of(""), Ok("/".to_string()));
    assert_eq!(url_of("."), Ok("/".to_string()));
    assert!(root().resolve("").unwrap().is_root());
}

#[test]
fn resolve_a_place_inside() {
    assert_eq!(url_of("a.txt"), Ok("/a.txt".to_string()));
    assert_eq!(url_of("docs/guide/intro.html"), Ok("/docs/guide/intro.html".to_string()));
    assert_eq!(url_of("docs//guide/./intro.html"), Ok("/docs/guide/intro.html".to_string()));
    assert_eq!(url_of("docs/"), Ok("/docs".to_string()));
    assert_eq!(url_of("docs/../a.txt"), Ok("/a.txt".to_string()));
}

#[test]
fn resolve_refuses_a_climb_out() {
    assert_eq!(url_of("../../etc/passwd"), Err(ErrorKind::PermissionDenied));
    assert_eq!(url_of(".."), Err(ErrorKind::PermissionDenied));
    assert_eq!(url_of("docs/../../secret"), Err(ErrorKind::PermissionDenied));
    assert_eq!(url_of("../wwwx/a"), Err(ErrorKind::PermissionDenied));
    assert_eq!(url_of("../../../../../../etc/passwd"), Err(ErrorKind::PermissionDenied));
}

#[test]
fn resolve_refuses_an_absolute_path_outside() {
    assert_eq!(url_of("/etc/passwd"), Err(ErrorKind::PermissionDenied));
    assert_eq!(url_of("/"), Err(ErrorKind::PermissionDenied));
    assert_eq!(url_of("/srv"), Err(ErrorKind::PermissionDenied));
}

#[test]
fn resolve_accepts_a_way_round_that_ends_inside() {
    assert_eq!(url_of("../www/a.txt"), Ok("/a.txt".to_string()));
    assert_eq!(url_of("/srv/www/a.txt"), Ok("/a.txt".to_string()));
    assert_eq!(url_of("/srv/www"), Ok("/".to_string()));
}

#[test]
fn locate_gives_the_absolute_path() {
    let root = root();
    let path = root.resolve("docs/a.txt").unwrap();
    assert_eq!(root.locate(&path), "/srv/www/docs/a.txt");
    assert_eq!(root.locate(&ServePath::root()), "/srv/www");
    let top = ServeRoot::new("/").unwrap();
    assert_eq!(top.locate(&top.resolve("etc/hosts").unwrap()), "/etc/hosts");
}

#[test]
fn paths_have_parents_names_and_children() {
    let root = root();
    let path = root.resolve("docs/guide/intro.html").unwrap();
    assert_eq!(path.file_name(), Some("intro.html"));
    assert_eq!(path.label(), "docs/guide/intro.html");
    assert!(!path.is_root());
    let dir = path.parent().unwrap();
    assert_eq!(dir.to_url(), "/docs/guide");
    assert_eq!(dir.child("other.txt").unwrap().to_url(), "/docs/guide/other.txt");
    assert_eq!(dir.url_with("other.txt"), "/docs/guide/other.txt");
    let top = dir.parent().unwrap().parent().unwrap();
    assert!(top.is_root());
    assert_eq!(top, ServePath::root());
    assert_eq!(top.parent(), None);
    assert_eq!(top.file_name(), None);
    assert_eq!(top.label(), "");
    assert_eq!(top.to_url(), "/");
}

#[test]
fn names_are_what_a_directory_can_hold() {
    assert!(is_name_text("a.txt"));
    assert!(is_name_text("..."));
    assert!(is_name_text(".hidden"));
    assert!(is_name_text("a b"));
    assert!(!is_name_text(""));
    assert!(!is_name_text("."));
    assert!(!is_name_text(".."));
    assert!(!is_name_text("a/b"));
    assert!(!is_name_text("/"));
    assert!(!is_name_text("a/"));
}

#[test]
fn child_must_be_a_name() {
    let dir = root().resolve("docs").unwrap();
    assert_eq!(dir.child(".."), None);
    assert_eq!(dir.child("."), None);
    assert_eq!(dir.child(""), None);
    assert_eq!(dir.child("../secret"), None);
    assert_eq!(dir.child("a/b"), None);
    assert_eq!(dir.child("a").map(|p| p.to_url()), Some("/docs/a".to_string()));
    assert_eq!(dir.url_with("a b"), "/docs/a b");
}

#[test]
fn paths_can_be_copied() {
    let path = root().resolve("docs/a.txt").unwrap();
    assert_eq!(path.clone(), path);
    assert_eq!(root().clone(), root());
}
