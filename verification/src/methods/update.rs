//! Updating a template: its name, its description or its content.

use vstd::prelude::*;
use crate::commands::{step_is, text_result_is};
use crate::error::{invalid_input_error, ErrorKind, StoreError};
use crate::maker::{listing_view, make_template, maker_outcome, SourceEntry, SourceEntryView};
use crate::methods::save::typed_description;
use crate::namespace::{is_resolvable, repo_part, resolve, template_part, NamespaceObject};
use crate::repository::{was_updated_at, Repository, RepositoryView};
use crate::text::{concat, contains_text, strings_view};

verus! {

/// The update command.
#[derive(Debug)]
pub struct Update;

/// What an update changes.
#[derive(Clone, Copy, Debug, PartialEq, Eq, Structural)]
pub enum UpdateAction {
    /// The template's name.
    Name,
    /// The template's description.
    Description,
    /// The template's files, from a directory.
    Content,
}

/// What an update command asks for: the template addressed, what to change,
/// and the directory to take new content from.
#[derive(Debug)]
pub struct UpdatePlan {
    pub namespace: NamespaceObject,
    pub action: UpdateAction,
    pub directory: String,
}

/// What an update plan is: the model that the contracts speak of.
pub struct UpdatePlanView {
    pub repo_name: Seq<char>,
    pub template_name: Seq<char>,
    pub action: UpdateAction,
    pub directory: Seq<char>,
}

impl View for UpdatePlan {
    type V = UpdatePlanView;

    open spec fn view(&self) -> UpdatePlanView {
        UpdatePlanView {
            repo_name: self.namespace.repo_name@,
            template_name: self.namespace.template_name@,
            action: self.action,
            directory: self.directory@,
        }
    }
}

/// Whether every flag given is one of those allowed.
pub open spec fn flags_allowed(flags: Seq<Seq<char>>, allowed: Seq<Seq<char>>) -> bool {
    forall|i: int| 0 <= i < flags.len() ==> allowed.contains(#[trigger] flags[i])
}

/// The flags that the update command takes.
pub open spec fn update_flags() -> Seq<Seq<char>> {
    seq!["--name"@, "--description"@]
}

/// What the flags ask to change: the name where `--name` is given, else the
/// description where `--description` is given, else the content.
pub open spec fn action_of(flags: Seq<Seq<char>>) -> UpdateAction {
    if flags.contains("--name"@) {
        UpdateAction::Name
    } else if flags.contains("--description"@) {
        UpdateAction::Description
    } else {
        UpdateAction::Content
    }
}

/// What an update command comes to: `InvalidInput` for a flag that the
/// command does not take, for a missing address and for a malformed one,
/// else the plan. New content comes from the second argument, or from the
/// current directory where there is none.
pub open spec fn plan_outcome(args: Seq<Seq<char>>, flags: Seq<Seq<char>>) -> Result<
    UpdatePlanView,
    ErrorKind,
> {
    if !flags_allowed(flags, update_flags()) || args.len() < 1 || !is_resolvable(args[0]) {
        Err(ErrorKind::InvalidInput)
    } else {
        Ok(
            UpdatePlanView {
                repo_name: repo_part(args[0]),
                template_name: template_part(args[0]),
                action: action_of(flags),
                directory: if args.len() > 1 {
                    args[1]
                } else {
                    "."@
                },
            },
        )
    }
}

/// Accepts the flags where each is one of those allowed; any other flag is
/// `InvalidInput`.
pub fn check_flags(flags: &Vec<String>, allowed: &Vec<String>) -> (out: Result<(), StoreError>)
    ensures
        out is Ok <==> flags_allowed(strings_view(flags@), strings_view(allowed@)),
        out matches Err(e) ==> e.kind == ErrorKind::InvalidInput,
{
    let ghost given = strings_view(flags@);
    let mut i: usize = 0;
    while i < flags.len()
        invariant
            i <= flags.len(),
            given == strings_view(flags@),
            forall|k: int| 0 <= k < i ==> strings_view(allowed@).contains(#[trigger] given[k]),
        decreases flags.len() - i,
    {
        if !contains_text(allowed, flags[i].as_str()) {
            assert(!strings_view(allowed@).contains(given[i as int]));
            return Err(invalid_input_error("Invalid flag."));
        }
        i += 1;
    }
    Ok(())
}

/// The line that reports a new name.
pub open spec fn renamed_message(old_name: Seq<char>, new_name: Seq<char>) -> Seq<char> {
    "Template \""@ + old_name + "\" name was changed to \""@ + new_name + "\"."@
}

/// The line that reports a new description.
pub open spec fn described_message(name: Seq<char>) -> Seq<char> {
    "Template \""@ + name + "\" description was updated."@
}

/// The line that reports new content.
pub open spec fn updated_message(name: Seq<char>) -> Seq<char> {
    "Template \""@ + name + "\" was updated."@
}

/// The line that shows a template's description before a new one is asked
/// for.
pub open spec fn current_description_text(description: Option<Seq<char>>) -> Seq<char> {
    match description {
        Some(text) => "Current description: "@ + text,
        None => "This template not has a description yet."@,
    }
}

/// What showing the current description comes to: `NotFound` where the
/// template is absent, else the line that shows it.
pub open spec fn current_description_outcome(repo: RepositoryView, name: Seq<char>) -> Result<
    Seq<char>,
    ErrorKind,
> {
    match repo.get(name) {
        Ok(t) => Ok(current_description_text(t.description)),
        Err(kind) => Err(kind),
    }
}

/// What updating content comes to: `NotFound` where the template is absent,
/// `InvalidInput` where `now` is not later than the time the template was
/// made, what making the new snapshot fails with where it fails, else the
/// repository in which the template has the new files, its old description,
/// its old creation time, and `now` as the time of its update.
pub open spec fn update_run_outcome(
    repo: RepositoryView,
    name: Seq<char>,
    directory: Seq<char>,
    listing: Option<Seq<SourceEntryView>>,
    now: u64,
) -> Result<RepositoryView, ErrorKind> {
    match repo.get(name) {
        Err(kind) => Err(kind),
        Ok(current) => if now <= current.created_at {
            Err(ErrorKind::InvalidInput)
        } else {
            match maker_outcome(name, directory, current.description, listing, now, Seq::empty()) {
                Err(kind) => Err(kind),
                Ok(made) => repo.update_content(name, made, now),
            }
        },
    }
}

impl Update {
    /// How the command is used.
    pub fn help() -> (out: String)
        ensures
            out@ == "update <repo/template> [--name|--description] [dir]"@,
    {
        "update <repo/template> [--name|--description] [dir]".to_owned()
    }

    /// Reads an update command: which template it addresses and what it is
    /// to change.
    pub fn plan(args: &Vec<String>, flags: &Vec<String>) -> (out: Result<UpdatePlan, StoreError>)
        ensures
            match plan_outcome(strings_view(args@), strings_view(flags@)) {
                Ok(view) => out matches Ok(plan) && plan@ == view,
                Err(kind) => out matches Err(e) && e.kind == kind,
            },
    {
        let mut allowed: Vec<String> = Vec::new();
        allowed.push("--name".to_owned());
        allowed.push("--description".to_owned());
        assert(strings_view(allowed@) =~= update_flags());
        match check_flags(flags, &allowed) {
            Err(e) => {
                return Err(e);
            },
            Ok(_) => {},
        }
        if args.len() < 1 {
            return Err(invalid_input_error("Template name must be specified."));
        }
        let namespace = match resolve(args[0].as_str()) {
            Ok(namespace) => namespace,
            Err(e) => {
                return Err(e);
            },
        };
        let action = if contains_text(flags, "--name") {
            UpdateAction::Name
        } else if contains_text(flags, "--description") {
            UpdateAction::Description
        } else {
            UpdateAction::Content
        };
        let directory = if args.len() > 1 {
            args[1].clone()
        } else {
            ".".to_owned()
        };
        Ok(UpdatePlan { namespace, action, directory })
    }

    /// Replaces the content of the template `template_name` by what the
    /// walk of `directory` found, at the time `now`, which must be later
    /// than the time the template was made: a time that is not later is
    /// `InvalidInput`, and nothing changes.
    pub fn run(
        repo: &mut Repository,
        template_name: &str,
        directory: &str,
        listing: Option<Vec<SourceEntry>>,
        now: u64,
    ) -> (out: Result<String, StoreError>)
        requires
            old(repo).wf(),
        ensures
            step_is(
                out,
                old(repo)@,
                final(repo)@,
                update_run_outcome(old(repo)@, template_name@, directory@, listing_view(listing), now),
                updated_message(template_name@),
            ),
            out is Ok ==> was_updated_at(old(repo)@, final(repo)@, template_name@, now),
            final(repo).wf(),
    {
        let current = match repo.get_template(template_name) {
            Ok(current) => current,
            Err(e) => {
                return Err(e);
            },
        };
        if now <= current.created_at() {
            return Err(
                invalid_input_error("The time of the update is not later than the time of creation."),
            );
        }
        let made = match make_template(
            template_name.to_owned(),
            directory,
            current.description(),
            listing,
            now,
        ) {
            Ok(made) => made,
            Err(e) => {
                return Err(e);
            },
        };
        match repo.update_template_content(template_name, made, now) {
            Ok(_) => {},
            Err(e) => {
                return Err(e);
            },
        }
        let text = concat("Template \"", template_name);
        Ok(concat(text.as_str(), "\" was updated."))
    }
}

/// Renames the template `old_template_name` to what the user typed.
pub fn update_template_name(repo: &mut Repository, old_template_name: &str, new_template_name: String) -> (out:
    Result<String, StoreError>)
    requires
        old(repo).wf(),
    ensures
        step_is(
            out,
            old(repo)@,
            final(repo)@,
            old(repo)@.rename(old_template_name@, new_template_name@),
            renamed_message(old_template_name@, new_template_name@),
        ),
        final(repo).wf(),
{
    let text = concat("Template \"", old_template_name);
    let text = concat(text.as_str(), "\" name was changed to \"");
    let text = concat(text.as_str(), new_template_name.as_str());
    let text = concat(text.as_str(), "\".");
    match repo.update_template_name(old_template_name, new_template_name) {
        Ok(_) => Ok(text),
        Err(e) => Err(e),
    }
}

/// The line that shows the description of the template `template_name`
/// before a new one is asked for.
pub fn current_description(repo: &Repository, template_name: &str) -> (out: Result<String, StoreError>)
    ensures
        text_result_is(out, current_description_outcome(repo@, template_name@)),
{
    let template = match repo.get_template(template_name) {
        Ok(template) => template,
        Err(e) => {
            return Err(e);
        },
    };
    match template.description() {
        Some(text) => Ok(concat("Current description: ", text.as_str())),
        None => Ok("This template not has a description yet.".to_owned()),
    }
}

/// Gives the template `template_name` the description that the user typed,
/// or none where nothing was typed.
pub fn update_template_description(repo: &mut Repository, template_name: &str, new_description: String) -> (out:
    Result<String, StoreError>)
    requires
        old(repo).wf(),
    ensures
        step_is(
            out,
            old(repo)@,
            final(repo)@,
            old(repo)@.update_description(template_name@, typed_description(new_description@)),
            described_message(template_name@),
        ),
        final(repo).wf(),
{
    let description = if new_description.as_str().is_empty() {
        None
    } else {
        Some(new_description)
    };
    match repo.update_template_description(template_name, description) {
        Ok(_) => {},
        Err(e) => {
            return Err(e);
        },
    }
    let text = concat("Template \"", template_name);
    Ok(concat(text.as_str(), "\" description was updated."))
}

} // verus!
