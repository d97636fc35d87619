use templo::commands::describe;
use templo::error::ErrorKind;
use templo::maker::SourceEntry;
use templo::methods::delete;
use templo::methods::save::Save;
use templo::methods::update::{
    check_flags, current_description, update_template_description, update_template_name, Update,
    UpdateAction,
};
use templo::namespace::resolve;
use templo::path_utils::{PathType, TempPath};
use templo::repository::Repository;

fn file(path: &str, content: &[u8]) -> SourceEntry {
    SourceEntry {
        path: TempPath { buf: path.to_string(), path_type: PathType::File },
        content: content.to_vec(),
    }
}

fn dir(path: &str) -> SourceEntry {
    SourceEntry {
        path: TempPath { buf: path.to_string(), path_type: PathType::Dir },
        content: Vec::new(),
    }
}

fn walked() -> Option<Vec<SourceEntry>> {
    Some(vec![file("proj/a.txt", b"alpha"), dir("proj/sub"), file("proj/sub/b.txt", b"beta")])
}

fn args(list: &[&str]) -> Vec<String> {
    list.iter().map(|s| s.to_string()).collect()
}

fn empty_repo() -> Repository {
    Repository::connect("main".to_string(), Vec::new()).unwrap()
}

#[test]
fn help_texts() {
    assert_eq!(Save::help(), "save [--name] [--repo] [--description] [dir]");
    assert_eq!(Update::help(), "update <repo/template> [--name|--description] [dir]");
}

#[test]
fn save_adds_the_template() {
    let mut repo = empty_repo();
    let out = Save::run(&mut repo, "demo".to_string(), "a demo".to_string(), "proj", walked(), 10);
    assert_eq!(out.unwrap(), "Template was saved successfully.");
    let got = repo.get_template("demo").unwrap();
    assert_eq!(got.description(), Some("a demo".to_string()));
    assert_eq!(got.created_at(), 10);
    assert_eq!(got.updated_at(), None);
    assert_eq!(got.file_content("a.txt"), Some(b"alpha".to_vec()));
    assert_eq!(got.file_content("sub/b.txt"), Some(b"beta".to_vec()));
    assert_eq!(got.file_count(), 2);
}

#[test]
fn save_without_description() {
    let mut repo = empty_repo();
    Save::run(&mut repo, "demo".to_string(), String::new(), "proj", walked(), 10).unwrap();
    assert_eq!(repo.get_template("demo").unwrap().description(), None);
}

#[test]
fn save_failures_leave_the_repository() {
    let mut repo = empty_repo();
    Save::run(&mut repo, "demo".to_string(), "first".to_string(), "proj", walked(), 10).unwrap();
    let err = Save::run(&mut repo, "".to_string(), String::new(), "proj", walked(), 11).unwrap_err();
    assert_eq!(err.kind, ErrorKind::InvalidInput);
    assert_eq!(err.message, "The template name cannot be empty.");
    let err =
        Save::run(&mut repo, "my demo".to_string(), String::new(), "proj", walked(), 11).unwrap_err();
    assert_eq!(err.kind, ErrorKind::InvalidInput);
    assert_eq!(err.message, "The template name cannot have whitespaces.");
    let err = Save::run(&mut repo, "demo".to_string(), "second".to_string(), "proj", None, 11)
        .unwrap_err();
    assert_eq!(err.kind, ErrorKind::AlreadyExists);
    assert_eq!(err.message, "Template \"demo\" already exists in \"main\" repository.");
    let err = Save::run(&mut repo, "other".to_string(), String::new(), "proj", None, 11).unwrap_err();
    assert_eq!(err.kind, ErrorKind::NotFound);
    let err =
        Save::run(&mut repo, "other".to_string(), String::new(), "proj/", walked(), 11).unwrap_err();
    assert_eq!(err.kind, ErrorKind::InvalidInput);
    let err =
        Save::run(&mut repo, "other".to_string(), String::new(), "src", walked(), 11).unwrap_err();
    assert_eq!(err.kind, ErrorKind::Other);
    assert_eq!(repo.list_templates().len(), 1);
    assert_eq!(repo.get_template("demo").unwrap().description(), Some("first".to_string()));
}

#[test]
fn update_plan_reads_flags_and_arguments() {
    let plan = Update::plan(&args(&["team/demo"]), &args(&[])).unwrap();
    assert_eq!(plan.namespace.repo_name, "team");
    assert_eq!(plan.namespace.template_name, "demo");
    assert_eq!(plan.action, UpdateAction::Content);
    assert_eq!(plan.directory, ".");
    let plan = Update::plan(&args(&["demo", "src"]), &args(&[])).unwrap();
    assert_eq!(plan.namespace.repo_name, "main");
    assert_eq!(plan.directory, "src");
    let plan = Update::plan(&args(&["demo"]), &args(&["--name"])).unwrap();
    assert_eq!(plan.action, UpdateAction::Name);
    let plan = Update::plan(&args(&["demo"]), &args(&["--description"])).unwrap();
    assert_eq!(plan.action, UpdateAction::Description);
    let plan = Update::plan(&args(&["demo"]), &args(&["--description", "--name"])).unwrap();
    assert_eq!(plan.action, UpdateAction::Name);
}

#[test]
fn update_plan_failures() {
    assert_eq!(
        Update::plan(&args(&["demo"]), &args(&["--force"])).unwrap_err().kind,
        ErrorKind::InvalidInput
    );
    assert_eq!(
        Update::plan(&args(&["demo"]), &args(&["--name", "-x"])).unwrap_err().kind,
        ErrorKind::InvalidInput
    );
    let err = Update::plan(&args(&[]), &args(&[])).unwrap_err();
    assert_eq!(err.kind, ErrorKind::InvalidInput);
    assert_eq!(err.message, "Template name must be specified.");
    assert_eq!(
        Update::plan(&args(&["a/b/c"]), &args(&[])).unwrap_err().kind,
        ErrorKind::InvalidInput
    );
}

#[test]
fn flags_are_checked_against_the_allowed() {
    let allowed = args(&["--name", "--description"]);
    assert!(check_flags(&args(&[]), &allowed).is_ok());
    assert!(check_flags(&args(&["--name"]), &allowed).is_ok());
    assert!(check_flags(&args(&["--description", "--name", "--name"]), &allowed).is_ok());
    assert_eq!(check_flags(&args(&["--nam"]), &allowed).unwrap_err().kind, ErrorKind::InvalidInput);
    assert_eq!(check_flags(&args(&["--name"]), &args(&[])).unwrap_err().kind, ErrorKind::InvalidInput);
}

#[test]
fn update_replaces_content_and_keeps_the_rest() {
    let mut repo = empty_repo();
    Save::run(&mut repo, "demo".to_string(), "a demo".to_string(), "proj", walked(), 10).unwrap();
    let fresh = Some(vec![file("next/c.txt", b"gamma")]);
    let out = Update::run(&mut repo, "demo", "next", fresh, 20).unwrap();
    assert_eq!(out, "Template \"demo\" was updated.");
    let got = repo.get_template("demo").unwrap();
    assert_eq!(got.created_at(), 10);
    assert_eq!(got.updated_at(), Some(20));
    assert_eq!(got.description(), Some("a demo".to_string()));
    assert_eq!(got.file_count(), 1);
    assert_eq!(got.file_content("c.txt"), Some(b"gamma".to_vec()));
    assert_eq!(got.file_content("a.txt"), None);
}

#[test]
fn update_failures_leave_the_template() {
    let mut repo = empty_repo();
    Save::run(&mut repo, "demo".to_string(), String::new(), "proj", walked(), 10).unwrap();
    assert_eq!(
        Update::run(&mut repo, "other", "proj", walked(), 20).unwrap_err().kind,
        ErrorKind::NotFound
    );
    assert_eq!(
        Update::run(&mut repo, "demo", "proj", None, 20).unwrap_err().kind,
        ErrorKind::NotFound
    );
    assert_eq!(
        Update::run(&mut repo, "demo", "proj\\x", walked(), 20).unwrap_err().kind,
        ErrorKind::InvalidInput
    );
    assert_eq!(
        Update::run(&mut repo, "demo", "elsewhere", walked(), 20).unwrap_err().kind,
        ErrorKind::Other
    );
    let got = repo.get_template("demo").unwrap();
    assert_eq!(got.updated_at(), None);
    assert_eq!(got.file_count(), 2);
}

#[test]
fn rename_through_the_command() {
    let mut repo = empty_repo();
    Save::run(&mut repo, "a".to_string(), "about a".to_string(), "proj", walked(), 10).unwrap();
    Save::run(&mut repo, "c".to_string(), String::new(), "proj", walked(), 11).unwrap();
    let out = update_template_name(&mut repo, "a", "b".to_string()).unwrap();
    assert_eq!(out, "Template \"a\" name was changed to \"b\".");
    let got = repo.get_template("b").unwrap();
    assert_eq!(got.created_at(), 10);
    assert_eq!(got.description(), Some("about a".to_string()));
    assert_eq!(got.file_content("a.txt"), Some(b"alpha".to_vec()));
    assert_eq!(repo.get_template("a").unwrap_err().kind, ErrorKind::NotFound);
    assert_eq!(
        update_template_name(&mut repo, "b", String::new()).unwrap_err().kind,
        ErrorKind::InvalidInput
    );
    assert_eq!(
        update_template_name(&mut repo, "b", "c".to_string()).unwrap_err().kind,
        ErrorKind::AlreadyExists
    );
    assert_eq!(
        update_template_name(&mut repo, "a", "d".to_string()).unwrap_err().kind,
        ErrorKind::NotFound
    );
}

#[test]
fn description_through_the_command() {
    let mut repo = empty_repo();
    Save::run(&mut repo, "demo".to_string(), String::new(), "proj", walked(), 10).unwrap();
    assert_eq!(
        current_description(&repo, "demo").unwrap(),
        "This template not has a description yet."
    );
    let out = update_template_description(&mut repo, "demo", "words".to_string()).unwrap();
    assert_eq!(out, "Template \"demo\" description was updated.");
    assert_eq!(current_description(&repo, "demo").unwrap(), "Current description: words");
    update_template_description(&mut repo, "demo", String::new()).unwrap();
    assert_eq!(repo.get_template("demo").unwrap().description(), None);
    assert_eq!(current_description(&repo, "x").unwrap_err().kind, ErrorKind::NotFound);
    assert_eq!(
        update_template_description(&mut repo, "x", "w".to_string()).unwrap_err().kind,
        ErrorKind::NotFound
    );
}

#[test]
fn delete_targets_are_resolved_first() {
    let found = delete::targets(&args(&["a", "team/b"])).unwrap();
    assert_eq!(found.len(), 2);
    assert_eq!(found[0].repo_name, "main");
    assert_eq!(found[0].template_name, "a");
    assert_eq!(found[1].repo_name, "team");
    assert_eq!(found[1].template_name, "b");
    assert_eq!(delete::targets(&args(&[])).unwrap_err().kind, ErrorKind::InvalidInput);
    assert_eq!(delete::targets(&args(&["a", "b/"])).unwrap_err().kind, ErrorKind::InvalidInput);
}

#[test]
fn delete_run_reports_the_deletion() {
    let mut repo = empty_repo();
    Save::run(&mut repo, "demo".to_string(), String::new(), "proj", walked(), 10).unwrap();
    let elsewhere = resolve("team/demo").unwrap();
    assert_eq!(delete::run(&mut repo, &elsewhere).unwrap_err().kind, ErrorKind::NotFound);
    let missing = resolve("main/other").unwrap();
    assert_eq!(delete::run(&mut repo, &missing).unwrap_err().kind, ErrorKind::NotFound);
    assert!(repo.has_template("demo"));
    let target = resolve("main/demo").unwrap();
    assert_eq!(
        delete::run(&mut repo, &target).unwrap(),
        "Template \"demo\" was deleted from \"main\"."
    );
    assert!(!repo.has_template("demo"));
}

#[test]
fn save_describe_delete_scenario() {
    let mut repo = empty_repo();
    let entries = Some(vec![file("work/a.txt", b"A"), dir("work/sub"), file("work/sub/b.txt", b"B")]);
    Save::run(&mut repo, "demo".to_string(), "my demo".to_string(), "work", entries, 1234).unwrap();
    let text = describe(&args(&["main/demo"]), &repo).unwrap();
    assert_eq!(
        text,
        "Name: demo\nDescription: my demo\nCreated at: 1234\nUpdated at: (never)\nFiles: 2\n"
    );
    let stored = repo.into_templates();
    let mut repo = Repository::connect("main".to_string(), stored).unwrap();
    let targets = delete::targets(&args(&["main/demo"])).unwrap();
    delete::run(&mut repo, &targets[0]).unwrap();
    assert_eq!(repo.get_template("demo").unwrap_err().kind, ErrorKind::NotFound);
    assert_eq!(describe(&args(&["main/demo"]), &repo).unwrap_err().kind, ErrorKind::NotFound);
}

#[test]
fn update_in_the_same_second_is_rejected() {
    let mut repo = empty_repo();
    Save::run(&mut repo, "demo".to_string(), "d".to_string(), "proj", walked(), 10).unwrap();
    let fresh = Some(vec![file("next/c.txt", b"gamma")]);
    let err = Update::run(&mut repo, "demo", "next", fresh, 10).unwrap_err();
    assert_eq!(err.kind, ErrorKind::InvalidInput);
    let fresh = Some(vec![file("next/c.txt", b"gamma")]);
    let err = Update::run(&mut repo, "demo", "next", fresh, 3).unwrap_err();
    assert_eq!(err.kind, ErrorKind::InvalidInput);
    let got = repo.get_template("demo").unwrap();
    assert_eq!(got.updated_at(), None);
    assert_eq!(got.created_at(), 10);
    assert_eq!(got.file_count(), 2);
    assert_eq!(got.file_content("a.txt"), Some(b"alpha".to_vec()));
    let fresh = Some(vec![file("next/c.txt", b"gamma")]);
    Update::run(&mut repo, "demo", "next", fresh, 11).unwrap();
    let got = repo.get_template("demo").unwrap();
    assert_eq!(got.updated_at(), Some(11));
    assert!(got.updated_at().unwrap() > got.created_at());
}

#[test]
fn update_time_is_checked_before_the_directory() {
    let mut repo = empty_repo();
    Save::run(&mut repo, "demo".to_string(), String::new(), "proj", walked(), 10).unwrap();
    assert_eq!(Update::run(&mut repo, "demo", "proj", None, 10).unwrap_err().kind, ErrorKind::InvalidInput);
    assert_eq!(Update::run(&mut repo, "other", "proj", None, 10).unwrap_err().kind, ErrorKind::NotFound);
}

#[test]
fn name_is_checked_before_the_description_is_asked() {
    let mut repo = empty_repo();
    assert!(Save::check_name(&repo, "demo").is_ok());
    Save::run(&mut repo, "demo".to_string(), String::new(), "proj", walked(), 10).unwrap();
    let err = Save::check_name(&repo, "demo").unwrap_err();
    assert_eq!(err.kind, ErrorKind::AlreadyExists);
    assert_eq!(err.message, "Template \"demo\" already exists in \"main\" repository.");
    assert_eq!(Save::check_name(&repo, "").unwrap_err().kind, ErrorKind::InvalidInput);
    assert_eq!(Save::check_name(&repo, "de mo").unwrap_err().kind, ErrorKind::InvalidInput);
    assert!(Save::check_name(&repo, "other").is_ok());
}

#[test]
fn save_rejects_a_file_path_that_ends_in_a_slash() {
    let mut repo = empty_repo();
    let entries = Some(vec![file("proj/a/", b"x")]);
    let err = Save::run(&mut repo, "demo".to_string(), String::new(), "proj", entries, 10).unwrap_err();
    assert_eq!(err.kind, ErrorKind::Other);
    assert!(!repo.has_template("demo"));
}
