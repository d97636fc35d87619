use templo::error::ErrorKind;
use templo::maker::{is_excluded_path, make_template, make_template_with, SourceEntry};
use templo::path_utils::{PathType, TempPath};
use templo::template::{
    check_file_tree, check_template_name, is_safe_path, is_space_char, FileEntry, Template,
    TemplateType,
};

fn file(path: &str, content: &[u8]) -> SourceEntry {
    SourceEntry {
        path: TempPath { buf: path.to_string(), path_type: PathType::File },
        content: content.to_vec(),
    }
}

fn dir(path: &str) -> SourceEntry {
    SourceEntry {
        path: TempPath { buf: path.to_string(), path_type: PathType::Dir },
        content: Vec::new(),
    }
}

fn walked() -> Vec<SourceEntry> {
    vec![file("proj/a.txt", b"alpha"), dir("proj/sub"), file("proj/sub/b.txt", b"beta")]
}

#[test]
fn make_template_snapshots_every_file() {
    let t = make_template(
        "demo".to_string(),
        "proj",
        Some("a demo".to_string()),
        Some(walked()),
        1000,
    )
    .unwrap();
    assert_eq!(t.name(), "demo");
    assert_eq!(t.description(), Some("a demo".to_string()));
    assert_eq!(t.created_at(), 1000);
    assert_eq!(t.updated_at(), None);
    assert_eq!(t.template_type(), TemplateType::Local);
    assert_eq!(t.file_count(), 2);
    assert_eq!(t.files()[0].path, "a.txt");
    assert_eq!(t.files()[0].content, b"alpha".to_vec());
    assert_eq!(t.files()[1].path, "sub/b.txt");
    assert_eq!(t.files()[1].content, b"beta".to_vec());
    assert_eq!(t.file_content("a.txt"), Some(b"alpha".to_vec()));
    assert_eq!(t.file_content("sub/b.txt"), Some(b"beta".to_vec()));
    assert_eq!(t.file_content("sub"), None);
    assert_eq!(t.file_content("proj/a.txt"), None);
}

#[test]
fn make_template_without_description() {
    let t = make_template("demo".to_string(), "proj", None, Some(walked()), 5).unwrap();
    assert_eq!(t.description(), None);
}

#[test]
fn make_template_of_empty_directory() {
    let t = make_template("empty".to_string(), "proj", None, Some(Vec::new()), 5).unwrap();
    assert_eq!(t.file_count(), 0);
}

#[test]
fn make_template_normalizes_separators() {
    let entries = vec![file("proj\\sub\\b.txt", b"x"), file(".\\proj\\c", b"y")];
    let t = make_template("demo".to_string(), "proj", None, Some(vec![
        file("proj\\sub\\b.txt", b"x"),
    ]), 1)
    .unwrap();
    assert_eq!(t.files()[0].path, "sub/b.txt");
    let err = make_template("demo".to_string(), "proj", None, Some(entries), 1).unwrap_err();
    assert_eq!(err.kind, ErrorKind::Other);
}

#[test]
fn make_template_from_current_directory() {
    let entries = vec![file("./a.txt", b"1"), dir("./sub"), file("./sub/b.txt", b"2")];
    let t = make_template("demo".to_string(), ".", None, Some(entries), 1).unwrap();
    assert_eq!(t.files()[0].path, "a.txt");
    assert_eq!(t.files()[1].path, "sub/b.txt");
}

#[test]
fn make_template_rejects_bad_names() {
    for name in ["", "my demo", "my\tdemo", "a/b", "a\\b", "line\nbreak"] {
        let err = make_template(name.to_string(), "proj", None, Some(walked()), 1).unwrap_err();
        assert_eq!(err.kind, ErrorKind::InvalidInput);
    }
}

#[test]
fn make_template_rejects_bad_directory_argument() {
    let err = make_template("demo".to_string(), "proj/", None, Some(walked()), 1).unwrap_err();
    assert_eq!(err.kind, ErrorKind::InvalidInput);
    let err = make_template("demo".to_string(), "a\\proj", None, Some(walked()), 1).unwrap_err();
    assert_eq!(err.kind, ErrorKind::InvalidInput);
}

#[test]
fn make_template_without_directory_is_not_found() {
    let err = make_template("demo".to_string(), "proj", None, None, 1).unwrap_err();
    assert_eq!(err.kind, ErrorKind::NotFound);
}

#[test]
fn name_is_checked_before_the_directory() {
    let err = make_template("".to_string(), "proj", None, None, 1).unwrap_err();
    assert_eq!(err.kind, ErrorKind::InvalidInput);
}

#[test]
fn make_template_fails_on_path_outside_the_directory() {
    let entries = vec![file("proj/a.txt", b"1"), file("other/b.txt", b"2")];
    let err = make_template("demo".to_string(), "proj", None, Some(entries), 1).unwrap_err();
    assert_eq!(err.kind, ErrorKind::Other);
    let entries = vec![dir("elsewhere")];
    let err = make_template("demo".to_string(), "proj", None, Some(entries), 1).unwrap_err();
    assert_eq!(err.kind, ErrorKind::Other);
}

#[test]
fn make_template_fails_on_escaping_paths() {
    for bad in [
        "proj/../secret", "proj/sub/..", "proj//abs", "proj/", "proj/a/", "proj/a//b", "proj/a/b/",
        "proj/a\\",
    ] {
        let entries = vec![file(bad, b"1")];
        let err = make_template("demo".to_string(), "proj", None, Some(entries), 1).unwrap_err();
        assert_eq!(err.kind, ErrorKind::Other);
    }
    let entries = vec![file("proj/..hidden", b"1"), file("proj/a..b/c", b"2"), file("proj/...", b"3")];
    let t = make_template("demo".to_string(), "proj", None, Some(entries), 1).unwrap();
    assert_eq!(t.file_count(), 3);
}

#[test]
fn make_template_fails_on_repeated_paths() {
    let entries = vec![file("proj/a.txt", b"1"), file("proj\\a.txt", b"2")];
    let err = make_template("demo".to_string(), "proj", None, Some(entries), 1).unwrap_err();
    assert_eq!(err.kind, ErrorKind::Other);
}

#[test]
fn excluded_files_are_left_out() {
    let entries = vec![
        file("proj/a.txt", b"1"),
        dir("proj/target"),
        file("proj/target/out.bin", b"2"),
        file("proj/target.txt", b"3"),
        file("proj/sub/target/x", b"4"),
        file("proj/.env", b"5"),
    ];
    let exclude = vec!["target".to_string(), ".env".to_string()];
    let t = make_template_with("demo".to_string(), "proj", None, Some(entries), 1, &exclude).unwrap();
    assert_eq!(t.file_count(), 3);
    assert_eq!(t.files()[0].path, "a.txt");
    assert_eq!(t.files()[1].path, "target.txt");
    assert_eq!(t.files()[2].path, "sub/target/x");
}

#[test]
fn no_patterns_exclude_nothing() {
    let none: Vec<String> = Vec::new();
    let a = make_template_with("demo".to_string(), "proj", None, Some(walked()), 1, &none).unwrap();
    assert_eq!(a.file_count(), 2);
    assert!(!is_excluded_path("a.txt", &none));
    assert!(is_excluded_path("a/b", &vec!["a".to_string()]));
    assert!(is_excluded_path("a", &vec!["x".to_string(), "a".to_string()]));
    assert!(!is_excluded_path("ab", &vec!["a".to_string()]));
}

#[test]
fn template_names() {
    assert!(check_template_name("demo").is_ok());
    assert!(check_template_name("d").is_ok());
    assert!(check_template_name("démo-1_x.y").is_ok());
    assert_eq!(check_template_name("").unwrap_err().kind, ErrorKind::InvalidInput);
    assert_eq!(check_template_name(" ").unwrap_err().kind, ErrorKind::InvalidInput);
    assert_eq!(check_template_name("a b").unwrap_err().kind, ErrorKind::InvalidInput);
    assert_eq!(check_template_name("a/b").unwrap_err().kind, ErrorKind::InvalidInput);
    for space in [
        '\t', '\n', '\u{0B}', '\u{0C}', '\r', ' ', '\u{85}', '\u{A0}', '\u{1680}', '\u{2000}',
        '\u{2003}', '\u{200A}', '\u{2028}', '\u{2029}', '\u{202F}', '\u{205F}', '\u{3000}',
    ] {
        assert!(space.is_whitespace());
        assert!(is_space_char(space));
        let name = format!("a{}b", space);
        assert_eq!(check_template_name(&name).unwrap_err().kind, ErrorKind::InvalidInput);
    }
    for plain in ['a', '_', '-', '\u{200B}', '\u{FEFF}', '\u{1F}', '\u{0E}', '\u{8}', 'é'] {
        assert!(!plain.is_whitespace());
        assert!(!is_space_char(plain));
    }
}

#[test]
fn whitespace_agrees_with_the_standard_library_on_every_character() {
    let mut code: u32 = 0;
    while code <= 0x10FFFF {
        if let Some(c) = char::from_u32(code) {
            assert_eq!(is_space_char(c), c.is_whitespace());
        }
        code += 1;
    }
}

#[test]
fn safe_paths() {
    assert!(is_safe_path("a.txt"));
    assert!(is_safe_path("sub/b.txt"));
    assert!(is_safe_path("a..b"));
    assert!(is_safe_path("..a/b"));
    assert!(is_safe_path("a/b.."));
    assert!(!is_safe_path(""));
    assert!(!is_safe_path("/a"));
    assert!(!is_safe_path(".."));
    assert!(!is_safe_path("../a"));
    assert!(!is_safe_path("a/.."));
    assert!(!is_safe_path("a/../b"));
    assert!(!is_safe_path("a\\b"));
    assert!(!is_safe_path("a/"));
    assert!(!is_safe_path("a/b/"));
    assert!(!is_safe_path("a//b"));
    assert!(!is_safe_path("/"));
    assert!(!is_safe_path("//"));
    assert!(is_safe_path("a/b/c"));
    assert!(is_safe_path("a"));
    assert!(is_safe_path("./a"));
}

#[test]
fn file_trees() {
    let entry = |p: &str| FileEntry { path: p.to_string(), content: vec![1] };
    assert!(check_file_tree(&vec![]));
    assert!(check_file_tree(&vec![entry("a"), entry("b"), entry("c/a")]));
    assert!(!check_file_tree(&vec![entry("a"), entry("b"), entry("a")]));
    assert!(!check_file_tree(&vec![entry("a"), entry("../b")]));
}

#[test]
fn restore_accepts_valid_records_only() {
    let files = vec![FileEntry { path: "a".to_string(), content: vec![7, 8] }];
    let t = Template::restore(
        "demo".to_string(),
        Some("d".to_string()),
        10,
        Some(20),
        files,
        TemplateType::Remote,
    )
    .unwrap();
    assert_eq!(t.name(), "demo");
    assert_eq!(t.created_at(), 10);
    assert_eq!(t.updated_at(), Some(20));
    assert_eq!(t.template_type(), TemplateType::Remote);
    assert_eq!(t.file_content("a"), Some(vec![7, 8]));
    let copy = t.clone();
    assert_eq!(copy.name(), "demo");
    assert_eq!(copy.file_content("a"), Some(vec![7, 8]));
    let err = Template::restore("bad name".to_string(), None, 1, None, vec![], TemplateType::Local)
        .unwrap_err();
    assert_eq!(err.kind, ErrorKind::Other);
    let files = vec![FileEntry { path: "/etc/passwd".to_string(), content: vec![] }];
    let err =
        Template::restore("demo".to_string(), None, 1, None, files, TemplateType::Local).unwrap_err();
    assert_eq!(err.kind, ErrorKind::Other);
}
