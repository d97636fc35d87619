//! Saving a directory as a new template.

use vstd::prelude::*;
use crate::commands::step_is;
use crate::error::{already_exists_error, ErrorKind, StoreError};
use crate::maker::{listing_view, make_template, maker_outcome, SourceEntry, SourceEntryView};
use crate::repository::{Repository, RepositoryView};
use crate::template::{check_template_name, is_valid_template_name};
use crate::text::concat;

verus! {

/// The save command.
#[derive(Debug)]
pub struct Save;

/// The description that a typed value stands for: none where nothing was
/// typed.
pub open spec fn typed_description(value: Seq<char>) -> Option<Seq<char>> {
    if value.len() == 0 {
        None
    } else {
        Some(value)
    }
}

/// What saving comes to: `InvalidInput` for a malformed name,
/// `AlreadyExists` where the repository has a template of that name, what
/// making the template fails with where it fails, else the repository with
/// the new template.
pub open spec fn save_outcome(
    repo: RepositoryView,
    template_name: Seq<char>,
    description_value: Seq<char>,
    directory: Seq<char>,
    listing: Option<Seq<SourceEntryView>>,
    now: u64,
) -> Result<RepositoryView, ErrorKind> {
    if !is_valid_template_name(template_name) {
        Err(ErrorKind::InvalidInput)
    } else if repo.has(template_name) {
        Err(ErrorKind::AlreadyExists)
    } else {
        match maker_outcome(
            template_name,
            directory,
            typed_description(description_value),
            listing,
            now,
            Seq::empty(),
        ) {
            Ok(made) => repo.save(made),
            Err(kind) => Err(kind),
        }
    }
}

/// Whether a new template may bear the name: `InvalidInput` for a malformed
/// name, `AlreadyExists` where the repository has a template of that name.
pub open spec fn name_outcome(repo: RepositoryView, template_name: Seq<char>) -> Result<(), ErrorKind> {
    if !is_valid_template_name(template_name) {
        Err(ErrorKind::InvalidInput)
    } else if repo.has(template_name) {
        Err(ErrorKind::AlreadyExists)
    } else {
        Ok(())
    }
}

impl Save {
    /// How the command is used.
    pub fn help() -> (out: String)
        ensures
            out@ == "save [--name] [--repo] [--description] [dir]"@,
    {
        "save [--name] [--repo] [--description] [dir]".to_owned()
    }

    /// Checks, before anything else is asked of the user, that a new
    /// template of the repository may bear the name.
    pub fn check_name(repo: &Repository, template_name: &str) -> (out: Result<(), StoreError>)
        ensures
            match name_outcome(repo@, template_name@) {
                Ok(_) => out is Ok,
                Err(kind) => out matches Err(e) && e.kind == kind,
            },
    {
        match check_template_name(template_name) {
            Err(e) => {
                return Err(e);
            },
            Ok(_) => {},
        }
        if repo.has_template(template_name) {
            let text = concat("Template \"", template_name);
            let text = concat(text.as_str(), "\" already exists in \"");
            let text = concat(text.as_str(), repo.name());
            let text = concat(text.as_str(), "\" repository.");
            return Err(already_exists_error(text.as_str()));
        }
        Ok(())
    }

    /// Saves what the walk of `directory` found as the template
    /// `template_name` of the repository, described by `description_value`
    /// unless that is empty.
    pub fn run(
        repo: &mut Repository,
        template_name: String,
        description_value: String,
        directory: &str,
        listing: Option<Vec<SourceEntry>>,
        now: u64,
    ) -> (out: Result<String, StoreError>)
        requires
            old(repo).wf(),
        ensures
            step_is(
                out,
                old(repo)@,
                final(repo)@,
                save_outcome(
                    old(repo)@,
                    template_name@,
                    description_value@,
                    directory@,
                    listing_view(listing),
                    now,
                ),
                "Template was saved successfully."@,
            ),
            final(repo).wf(),
    {
        match Save::check_name(repo, template_name.as_str()) {
            Err(e) => {
                return Err(e);
            },
            Ok(_) => {},
        }
        let description = if description_value.as_str().is_empty() {
            None
        } else {
            Some(description_value)
        };
        let template = match make_template(template_name, directory, description, listing, now) {
            Ok(template) => template,
            Err(e) => {
                return Err(e);
            },
        };
        match repo.save_template(template) {
            Ok(_) => Ok("Template was saved successfully.".to_owned()),
            Err(e) => Err(e),
        }
    }
}

} // verus!
