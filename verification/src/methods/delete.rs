//! Deleting templates by their addresses.

use vstd::prelude::*;
use crate::commands::step_is;
use crate::error::{invalid_input_error, not_found_error, ErrorKind, StoreError};
use crate::namespace::{is_resolvable, repo_part, resolve, template_part, NamespaceObject};
use crate::repository::{Repository, RepositoryView};
use crate::text::{concat, same_text, strings_view};

verus! {

/// What the addresses of a delete command come to: `InvalidInput` where
/// there is none or one of them is malformed, else every address resolved.
pub open spec fn targets_outcome(args: Seq<Seq<char>>) -> Result<
    Seq<(Seq<char>, Seq<char>)>,
    ErrorKind,
> {
    if args.len() < 1 || exists|i: int| 0 <= i < args.len() && !is_resolvable(#[trigger] args[i]) {
        Err(ErrorKind::InvalidInput)
    } else {
        Ok(Seq::new(args.len(), |i: int| (repo_part(args[i]), template_part(args[i]))))
    }
}

/// The resolved addresses as pairs of repository and template.
pub open spec fn namespaces_view(list: Seq<NamespaceObject>) -> Seq<(Seq<char>, Seq<char>)> {
    Seq::new(list.len(), |i: int| (list[i].repo_name@, list[i].template_name@))
}

/// Resolves the addresses of the templates to delete, before any of them is
/// deleted.
pub fn targets(args: &Vec<String>) -> (out: Result<Vec<NamespaceObject>, StoreError>)
    ensures
        match targets_outcome(strings_view(args@)) {
            Ok(list) => out matches Ok(found) && namespaces_view(found@) == list,
            Err(kind) => out matches Err(e) && e.kind == kind,
        },
{
    if args.len() < 1 {
        return Err(invalid_input_error("Invalid template name."));
    }
    let ghost view = strings_view(args@);
    let mut found: Vec<NamespaceObject> = Vec::new();
    let mut i: usize = 0;
    while i < args.len()
        invariant
            i <= args.len(),
            args.len() >= 1,
            view == strings_view(args@),
            found@.len() == i,
            forall|k: int| 0 <= k < i ==> is_resolvable(#[trigger] view[k]),
            forall|k: int|
                0 <= k < i ==> (#[trigger] found@[k]).repo_name@ == repo_part(view[k])
                    && found@[k].template_name@ == template_part(view[k]),
        decreases args.len() - i,
    {
        match resolve(args[i].as_str()) {
            Ok(ns) => {
                found.push(ns);
            },
            Err(e) => {
                assert(!is_resolvable(view[i as int]));
                return Err(e);
            },
        }
        i += 1;
    }
    assert(namespaces_view(found@) =~= Seq::new(
        view.len(),
        |i: int| (repo_part(view[i]), template_part(view[i])),
    ));
    Ok(found)
}

/// What deleting one resolved address comes to: `NotFound` where it names
/// another repository than the one at hand, else what deleting the template
/// from the repository comes to.
pub open spec fn delete_run_outcome(repo: RepositoryView, repo_name: Seq<char>, template_name: Seq<char>) -> Result<
    RepositoryView,
    ErrorKind,
> {
    if repo_name != repo.name {
        Err(ErrorKind::NotFound)
    } else {
        repo.delete(template_name)
    }
}

/// The line that reports a deletion.
pub open spec fn deleted_message(repo_name: Seq<char>, template_name: Seq<char>) -> Seq<char> {
    "Template \""@ + template_name + "\" was deleted from \""@ + repo_name + "\"."@
}

/// Deletes the template that `target` addresses from the repository that
/// it names, and reports it.
pub fn run(repo: &mut Repository, target: &NamespaceObject) -> (out: Result<String, StoreError>)
    requires
        old(repo).wf(),
    ensures
        step_is(
            out,
            old(repo)@,
            final(repo)@,
            delete_run_outcome(old(repo)@, target.repo_name@, target.template_name@),
            deleted_message(target.repo_name@, target.template_name@),
        ),
        final(repo).wf(),
{
    if !same_text(target.repo_name.as_str(), repo.name()) {
        return Err(not_found_error("The template is kept in another repository."));
    }
    match repo.delete_template(target.template_name.as_str()) {
        Ok(_) => {},
        Err(e) => {
            return Err(e);
        },
    }
    let text = concat("Template \"", target.template_name.as_str());
    let text = concat(text.as_str(), "\" was deleted from \"");
    let text = concat(text.as_str(), target.repo_name.as_str());
    Ok(concat(text.as_str(), "\"."))
}

} // verus!
