//! What the commands decide, apart from what they read and print.

use vstd::prelude::*;
use crate::error::{invalid_input_error, not_found_error, ErrorKind, StoreError};
use crate::manager::{describe_template, description_of, list_names, listing_of, optional_templates_view};
use crate::namespace::{is_resolvable, repo_part, resolve, template_part};
use crate::repository::{Repository, RepositoryView};
use crate::template::{Template, TemplateType};
use crate::text::{concat, same_text, strings_view};

verus! {

/// A command and what it does, as the help shows it.
#[derive(Debug)]
pub struct CommandInfo {
    pub name: &'static str,
    pub description: &'static str,
}

/// The commands and their descriptions.
pub open spec fn command_table() -> Seq<(Seq<char>, Seq<char>)> {
    seq![
        ("save"@, "Saves a template from directory."@),
        ("create | gen"@, "Creates a project from template."@),
        ("del"@, "Deletes a template."@),
        ("repository | repo"@, "Returns all templates existents on repository."@),
        ("desc"@, "Describes a template."@),
        ("profile"@, "Returns the current user account info."@),
        ("signup"@, "Registers an user account."@),
        ("login"@, "Authenticates an user account"@),
        ("logout"@, "Logoff current user account authenticated"@),
        ("pub"@, "Publishes a template."@),
        ("unpub"@, "Unpublishes a template."@),
        ("get"@, "Installes a public template"@),
        ("explore"@, "Show all public templates."@),
    ]
}

/// The commands, in the order in which the help lists them.
pub fn commands() -> (out: Vec<CommandInfo>)
    ensures
        out@.len() == command_table().len(),
        forall|i: int|
            0 <= i < out@.len() ==> ((#[trigger] out@[i]).name@, out@[i].description@)
                == command_table()[i],
{
    let mut out: Vec<CommandInfo> = Vec::new();
    out.push(CommandInfo { name: "save", description: "Saves a template from directory." });
    out.push(CommandInfo { name: "create | gen", description: "Creates a project from template." });
    out.push(CommandInfo { name: "del", description: "Deletes a template." });
    out.push(
        CommandInfo {
            name: "repository | repo",
            description: "Returns all templates existents on repository.",
        },
    );
    out.push(CommandInfo { name: "desc", description: "Describes a template." });
    out.push(CommandInfo { name: "profile", description: "Returns the current user account info." });
    out.push(CommandInfo { name: "signup", description: "Registers an user account." });
    out.push(CommandInfo { name: "login", description: "Authenticates an user account" });
    out.push(CommandInfo { name: "logout", description: "Logoff current user account authenticated" });
    out.push(CommandInfo { name: "pub", description: "Publishes a template." });
    out.push(CommandInfo { name: "unpub", description: "Unpublishes a template." });
    out.push(CommandInfo { name: "get", description: "Installes a public template" });
    out.push(CommandInfo { name: "explore", description: "Show all public templates." });
    out
}

/// Whether a result that carries text is the outcome that its model gives.
pub open spec fn text_result_is(out: Result<String, StoreError>, outcome: Result<Seq<char>, ErrorKind>) -> bool {
    match outcome {
        Ok(text) => out matches Ok(s) && s@ == text,
        Err(kind) => out matches Err(e) && e.kind == kind,
    }
}

/// Whether a command that changes a repository and reports in text did what
/// its model gives: on success the repository is the new one and the text
/// is `message`; on failure the kind is the model's and the repository is
/// as it was.
pub open spec fn step_is(
    out: Result<String, StoreError>,
    before: RepositoryView,
    after: RepositoryView,
    outcome: Result<RepositoryView, ErrorKind>,
    message: Seq<char>,
) -> bool {
    match outcome {
        Ok(view) => out matches Ok(s) && s@ == message && after == view,
        Err(kind) => out matches Err(e) && e.kind == kind && after == before,
    }
}

/// What describing comes to: `InvalidInput` without an address or with a
/// malformed one, `NotFound` where the address names another repository
/// than the one at hand or a template that is not in it, else the text that
/// describes the template.
pub open spec fn describe_outcome(args: Seq<Seq<char>>, repo: RepositoryView) -> Result<
    Seq<char>,
    ErrorKind,
> {
    if args.len() < 1 || !is_resolvable(args[0]) {
        Err(ErrorKind::InvalidInput)
    } else if repo_part(args[0]) != repo.name {
        Err(ErrorKind::NotFound)
    } else {
        match repo.get(template_part(args[0])) {
            Ok(t) => Ok(description_of(t)),
            Err(kind) => Err(kind),
        }
    }
}

/// Describes the template that the first argument addresses, looked up in
/// the repository that the address names.
pub fn describe(args: &Vec<String>, repo: &Repository) -> (out: Result<String, StoreError>)
    ensures
        text_result_is(out, describe_outcome(strings_view(args@), repo@)),
{
    if args.len() < 1 {
        return Err(invalid_input_error("Invalid template name."));
    }
    let ns = match resolve(args[0].as_str()) {
        Ok(ns) => ns,
        Err(e) => {
            return Err(e);
        },
    };
    if !same_text(ns.repo_name.as_str(), repo.name()) {
        return Err(not_found_error("The template is kept in another repository."));
    }
    match repo.get_template(ns.template_name.as_str()) {
        Ok(template) => Ok(describe_template(&template)),
        Err(e) => Err(e),
    }
}

/// What deleting comes to: `NotFound` where nobody is logged in,
/// `InvalidInput` without a template name, else what deleting the template
/// of that name from the repository comes to.
pub open spec fn delete_outcome(args: Seq<Seq<char>>, user_auth_exists: bool, repo: RepositoryView) -> Result<
    RepositoryView,
    ErrorKind,
> {
    if !user_auth_exists {
        Err(ErrorKind::NotFound)
    } else if args.len() < 1 {
        Err(ErrorKind::InvalidInput)
    } else {
        repo.delete(args[0])
    }
}

/// Deletes the template that the first argument names from the repository,
/// for a user who is logged in.
pub fn delete(args: &Vec<String>, user_auth_exists: bool, repo: &mut Repository) -> (out: Result<
    String,
    StoreError,
>)
    requires
        old(repo).wf(),
    ensures
        step_is(
            out,
            old(repo)@,
            final(repo)@,
            delete_outcome(strings_view(args@), user_auth_exists, old(repo)@),
            "Template was deleted."@,
        ),
        final(repo).wf(),
{
    if !user_auth_exists {
        return Err(not_found_error("This process cannot be runned because You dont has an authenticated user account."));
    }
    if args.len() < 1 {
        return Err(invalid_input_error("Invalid template name."));
    }
    match repo.delete_template(args[0].as_str()) {
        Ok(_) => Ok("Template was deleted.".to_owned()),
        Err(e) => Err(e),
    }
}

/// The listing of all templates, local and remote; `None` stands for a
/// machine without a repository.
pub fn templates(all: Option<Vec<Template>>) -> (out: String)
    ensures
        out@ == listing_of(optional_templates_view(all)),
{
    match all {
        Some(list) => {
            let out = concat(">> Local Templates\n", list_names(&list, TemplateType::Local).as_str());
            let out = concat(out.as_str(), "\n>> Remote Templates\n");
            concat(out.as_str(), list_names(&list, TemplateType::Remote).as_str())
        },
        None => "Repository is empty.\n".to_owned(),
    }
}

/// The greeting.
pub const WELCOME_STRING: &'static str = r#"
 _______________________________________________
|   __    __  __  _    ___  ____   _  _   __    |
|   \ \/\/ / ||_ ||   //   ||  || ||\/|| ||_    |
|    \_/\_/  ||_ ||__ \\__ ||__|| ||  || ||_    |
|                      to                       |
|._  _  _           Prottern      _     _      _|
\_______________________________________________|

"#;

/// The greeting, and below it the hints: how to create a repository, where
/// there is none yet, and how to get help.
pub open spec fn welcome_text(repository_exists: bool) -> Seq<char> {
    if repository_exists {
        WELCOME_STRING@ + "Type \"prottern help\" for more information.\n"@
    } else {
        WELCOME_STRING@ + "Type \"prottern init\" to create a template repository.\n"@
            + "Type \"prottern help\" for more information.\n"@
    }
}

/// What the program shows when it is started without a command.
pub fn prottern(repository_exists: bool) -> (out: String)
    ensures
        out@ == welcome_text(repository_exists),
{
    let out = WELCOME_STRING.to_owned();
    let out = if repository_exists {
        out
    } else {
        concat(out.as_str(), "Type \"prottern init\" to create a template repository.\n")
    };
    concat(out.as_str(), "Type \"prottern help\" for more information.\n")
}

} // verus!
