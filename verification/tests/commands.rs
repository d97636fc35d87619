use templo::commands::{commands, delete, describe, prottern, templates, WELCOME_STRING};
use templo::error::ErrorKind;
use templo::maker::{make_template, SourceEntry};
use templo::manager::{decimal_string, describe_template, list_names, TemplateManager};
use templo::path_utils::{PathType, TempPath};
use templo::repository::Repository;
use templo::template::{Template, TemplateType};

fn file(path: &str, content: &[u8]) -> SourceEntry {
    SourceEntry {
        path: TempPath { buf: path.to_string(), path_type: PathType::File },
        content: content.to_vec(),
    }
}

fn template(name: &str, description: Option<&str>, created_at: u64) -> Template {
    let entries = vec![file("d/a.txt", b"a"), file("d/sub/b.txt", b"b")];
    make_template(
        name.to_string(),
        "d",
        description.map(|d| d.to_string()),
        Some(entries),
        created_at,
    )
    .unwrap()
}

fn args(list: &[&str]) -> Vec<String> {
    list.iter().map(|s| s.to_string()).collect()
}

#[test]
fn command_table_is_complete() {
    let all = commands();
    assert_eq!(all.len(), 13);
    assert_eq!(all[0].name, "save");
    assert_eq!(all[0].description, "Saves a template from directory.");
    assert_eq!(all[1].name, "create | gen");
    assert_eq!(all[3].name, "repository | repo");
    assert_eq!(all[4].description, "Describes a template.");
    assert_eq!(all[12].name, "explore");
    assert_eq!(all[12].description, "Show all public templates.");
}

#[test]
fn decimal_numerals() {
    assert_eq!(decimal_string(0), "0");
    assert_eq!(decimal_string(7), "7");
    assert_eq!(decimal_string(10), "10");
    assert_eq!(decimal_string(1234567890), "1234567890");
    assert_eq!(decimal_string(u64::MAX), "18446744073709551615");
}

#[test]
fn template_description_text() {
    let t = template("demo", Some("a demo"), 1700000000);
    assert_eq!(
        describe_template(&t),
        "Name: demo\nDescription: a demo\nCreated at: 1700000000\nUpdated at: (never)\nFiles: 2\n"
    );
    let t = template("bare", None, 5).with_dates(5, Some(9));
    assert_eq!(
        describe_template(&t),
        "Name: bare\nDescription: (none)\nCreated at: 5\nUpdated at: 9\nFiles: 2\n"
    );
}

#[test]
fn manager_describes_each_template() {
    let manager = TemplateManager::new(vec![template("a", None, 1), template("b", Some("bee"), 2)]);
    assert_eq!(
        manager.describe_templates(),
        "Name: a\nDescription: (none)\nCreated at: 1\nUpdated at: (never)\nFiles: 2\n\
         Name: b\nDescription: bee\nCreated at: 2\nUpdated at: (never)\nFiles: 2\n"
    );
    assert_eq!(TemplateManager::new(Vec::new()).describe_templates(), "");
}

#[test]
fn all_templates_tags_by_origin() {
    let local = vec![template("a", None, 1).with_type(TemplateType::Remote), template("b", None, 2)];
    let remote = vec![template("c", None, 3)];
    let all = TemplateManager::all_templates(local, remote);
    assert_eq!(all.len(), 3);
    assert_eq!(all[0].name(), "a");
    assert_eq!(all[0].template_type(), TemplateType::Local);
    assert_eq!(all[1].name(), "b");
    assert_eq!(all[1].template_type(), TemplateType::Local);
    assert_eq!(all[2].name(), "c");
    assert_eq!(all[2].template_type(), TemplateType::Remote);
    assert_eq!(all[2].created_at(), 3);
    assert!(TemplateManager::all_templates(Vec::new(), Vec::new()).is_empty());
}

#[test]
fn listing_parts_local_from_remote() {
    let all = TemplateManager::all_templates(
        vec![template("a", None, 1), template("b", None, 2)],
        vec![template("c", None, 3)],
    );
    assert_eq!(list_names(&all, TemplateType::Local), "   | a\n   | b\n");
    assert_eq!(list_names(&all, TemplateType::Remote), "   | c\n");
    assert_eq!(
        templates(Some(all)),
        ">> Local Templates\n   | a\n   | b\n\n>> Remote Templates\n   | c\n"
    );
    assert_eq!(templates(Some(Vec::new())), ">> Local Templates\n\n>> Remote Templates\n");
    assert_eq!(templates(None), "Repository is empty.\n");
}

#[test]
fn welcome_depends_on_repository() {
    let banner = "\n _______________________________________________\n|   __    __  __  _    ___  ____   _  _   __    |\n|   \\ \\/\\/ / ||_ ||   //   ||  || ||\\/|| ||_    |\n|    \\_/\\_/  ||_ ||__ \\\\__ ||__|| ||  || ||_    |\n|                      to                       |\n|._  _  _           Prottern      _     _      _|\n\\_______________________________________________|\n\n";
    assert_eq!(WELCOME_STRING, banner);
    assert_eq!(
        prottern(true),
        format!("{}Type \"prottern help\" for more information.\n", banner)
    );
    assert_eq!(
        prottern(false),
        format!(
            "{}Type \"prottern init\" to create a template repository.\nType \"prottern help\" for more information.\n",
            banner
        )
    );
}

#[test]
fn describe_finds_the_addressed_template() {
    let mut repo = Repository::connect("main".to_string(), Vec::new()).unwrap();
    repo.save_template(template("demo", Some("a demo"), 77)).unwrap();
    let expected = "Name: demo\nDescription: a demo\nCreated at: 77\nUpdated at: (never)\nFiles: 2\n";
    assert_eq!(describe(&args(&["main/demo"]), &repo).unwrap(), expected);
    assert_eq!(describe(&args(&["demo"]), &repo).unwrap(), expected);
    assert_eq!(describe(&args(&["demo", "ignored"]), &repo).unwrap(), expected);
}

#[test]
fn describe_failures() {
    let mut repo = Repository::connect("main".to_string(), Vec::new()).unwrap();
    repo.save_template(template("demo", None, 77)).unwrap();
    assert_eq!(describe(&args(&[]), &repo).unwrap_err().kind, ErrorKind::InvalidInput);
    assert_eq!(describe(&args(&["main/"]), &repo).unwrap_err().kind, ErrorKind::InvalidInput);
    assert_eq!(describe(&args(&["a/b/c"]), &repo).unwrap_err().kind, ErrorKind::InvalidInput);
    assert_eq!(describe(&args(&["main/other"]), &repo).unwrap_err().kind, ErrorKind::NotFound);
    assert_eq!(describe(&args(&["team/demo"]), &repo).unwrap_err().kind, ErrorKind::NotFound);
}

#[test]
fn delete_needs_login_and_name() {
    let mut repo = Repository::connect("main".to_string(), Vec::new()).unwrap();
    repo.save_template(template("demo", None, 1)).unwrap();
    assert_eq!(delete(&args(&["demo"]), false, &mut repo).unwrap_err().kind, ErrorKind::NotFound);
    assert_eq!(delete(&args(&[]), false, &mut repo).unwrap_err().kind, ErrorKind::NotFound);
    assert_eq!(delete(&args(&[]), true, &mut repo).unwrap_err().kind, ErrorKind::InvalidInput);
    assert_eq!(delete(&args(&["other"]), true, &mut repo).unwrap_err().kind, ErrorKind::NotFound);
    assert!(repo.has_template("demo"));
    assert_eq!(delete(&args(&["demo"]), true, &mut repo).unwrap(), "Template was deleted.");
    assert!(!repo.has_template("demo"));
}
