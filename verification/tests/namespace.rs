use templo::error::ErrorKind;
use templo::namespace::{get_repo_namespace_obj, resolve};
use templo::path_utils::{
    format_path_namespace, pathbuf_to_string, remove_dir_prefix, valid_directory_path, PathType,
    TempPath,
};

#[test]
fn resolve_without_repository_uses_main() {
    let ns = resolve("foo").unwrap();
    assert_eq!(ns.repo_name, "main");
    assert_eq!(ns.template_name, "foo");
}

#[test]
fn resolve_with_repository() {
    let ns = resolve("team/foo").unwrap();
    assert_eq!(ns.repo_name, "team");
    assert_eq!(ns.template_name, "foo");
}

#[test]
fn resolve_rejects_second_separator() {
    let err = resolve("a/b/c").unwrap_err();
    assert_eq!(err.kind, ErrorKind::InvalidInput);
}

#[test]
fn resolve_rejects_malformed_addresses() {
    assert_eq!(resolve("").unwrap_err().kind, ErrorKind::InvalidInput);
    assert_eq!(resolve("/foo").unwrap_err().kind, ErrorKind::InvalidInput);
    assert_eq!(resolve("team/").unwrap_err().kind, ErrorKind::InvalidInput);
    assert_eq!(resolve("team\\foo").unwrap_err().kind, ErrorKind::InvalidInput);
}

#[test]
fn split_keeps_everything_after_first_separator() {
    let ns = get_repo_namespace_obj("a/b/c");
    assert_eq!(ns.repo_name, "a");
    assert_eq!(ns.template_name, "b/c");
    let ns = get_repo_namespace_obj("plain");
    assert_eq!(ns.repo_name, "main");
    assert_eq!(ns.template_name, "plain");
    let ns = get_repo_namespace_obj("/x");
    assert_eq!(ns.repo_name, "");
    assert_eq!(ns.template_name, "x");
}

#[test]
fn directory_path_validation() {
    assert_eq!(valid_directory_path("templates\\x").unwrap_err().kind, ErrorKind::InvalidInput);
    assert_eq!(valid_directory_path("templates/").unwrap_err().kind, ErrorKind::InvalidInput);
    assert!(valid_directory_path("templates").is_ok());
    assert!(valid_directory_path("").is_ok());
    assert!(valid_directory_path(".").is_ok());
    assert!(valid_directory_path("a/b").is_ok());
    assert_eq!(
        valid_directory_path("x/").unwrap_err().message,
        "Invalid directory path."
    );
}

#[test]
fn dir_prefix_is_removed() {
    let path = TempPath { buf: "proj/sub/b.txt".to_string(), path_type: PathType::File };
    let out = remove_dir_prefix(path, "proj").unwrap();
    assert_eq!(out.buf, "sub/b.txt");
    assert_eq!(out.path_type, PathType::File);
    let path = TempPath { buf: "./a.txt".to_string(), path_type: PathType::File };
    assert_eq!(remove_dir_prefix(path, ".").unwrap().buf, "a.txt");
}

#[test]
fn dir_prefix_must_match() {
    let path = TempPath { buf: "other/a.txt".to_string(), path_type: PathType::File };
    assert_eq!(remove_dir_prefix(path, "proj").unwrap_err().kind, ErrorKind::Other);
    let path = TempPath { buf: "proj".to_string(), path_type: PathType::Dir };
    assert_eq!(remove_dir_prefix(path, "proj").unwrap_err().kind, ErrorKind::Other);
    let path = TempPath { buf: "project/a.txt".to_string(), path_type: PathType::File };
    assert_eq!(remove_dir_prefix(path, "proj").unwrap_err().kind, ErrorKind::Other);
}

#[test]
fn separators_are_normalized() {
    assert_eq!(format_path_namespace("a\\b\\c.txt".to_string()), "a/b/c.txt");
    assert_eq!(format_path_namespace("a/b".to_string()), "a/b");
    assert_eq!(format_path_namespace(String::new()), "");
}

#[test]
fn path_text_is_kept() {
    let path = TempPath { buf: "a/ü/b".to_string(), path_type: PathType::Dir };
    assert_eq!(pathbuf_to_string(path), "a/ü/b");
}
