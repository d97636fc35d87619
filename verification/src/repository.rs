//! A repository: a named collection of local templates with unique names.

use vstd::prelude::*;
use crate::error::{
    already_exists_error,
    invalid_input_error,
    not_found_error,
    other_error,
    ErrorKind,
    StoreError,
};
use crate::template::{check_template_name, is_valid_template_name, text_view, Template, TemplateType, TemplateView};
use crate::text::concat;

verus! {

/// The templates as models.
pub open spec fn templates_view(templates: Seq<Template>) -> Seq<TemplateView> {
    Seq::new(templates.len(), |i: int| templates[i]@)
}

/// The name a repository goes by: the one given, or `main` where none is.
pub open spec fn effective_repo_name(name: Seq<char>) -> Seq<char> {
    if name.len() == 0 {
        "main"@
    } else {
        name
    }
}

/// No name occurs twice.
pub open spec fn distinct_names(templates: Seq<TemplateView>) -> bool {
    forall|i: int, j: int| 0 <= i < j < templates.len() ==> templates[i].name != templates[j].name
}

/// Each template, owned by a repository on this machine.
pub open spec fn all_local(templates: Seq<TemplateView>) -> Seq<TemplateView> {
    Seq::new(templates.len(), |i: int| templates[i].as_local())
}

/// What a repository is: the model that the contracts speak of.
pub struct RepositoryView {
    pub name: Seq<char>,
    pub templates: Seq<TemplateView>,
}

impl RepositoryView {
    /// Every template is valid and local, and no name occurs twice.
    pub open spec fn wf(self) -> bool {
        &&& forall|i: int|
            0 <= i < self.templates.len() ==> (#[trigger] self.templates[i]).wf()
                && self.templates[i].template_type == TemplateType::Local
        &&& distinct_names(self.templates)
    }

    /// Whether `i` is the first index at which a template is named `name`.
    pub open spec fn is_index(self, name: Seq<char>, i: int) -> bool {
        &&& 0 <= i < self.templates.len()
        &&& self.templates[i].name == name
        &&& forall|k: int| 0 <= k < i ==> (#[trigger] self.templates[k]).name != name
    }

    /// Whether a template is named `name`.
    pub open spec fn has(self, name: Seq<char>) -> bool {
        exists|i: int| 0 <= i < self.templates.len() && (#[trigger] self.templates[i]).name == name
    }

    /// The first index at which a template is named `name`, where there is
    /// one.
    pub open spec fn index_of(self, name: Seq<char>) -> int {
        choose|i: int| self.is_index(name, i)
    }

    /// The repository with the template at index `i` replaced.
    pub open spec fn with_template(self, i: int, t: TemplateView) -> RepositoryView {
        RepositoryView { templates: self.templates.update(i, t), ..self }
    }

    /// Looking a template up: the one of that name, or `NotFound`.
    pub open spec fn get(self, name: Seq<char>) -> Result<TemplateView, ErrorKind> {
        if self.has(name) {
            Ok(self.templates[self.index_of(name)])
        } else {
            Err(ErrorKind::NotFound)
        }
    }

    /// Saving a template: `AlreadyExists` where the name is taken, else the
    /// template joins the collection as a local one.
    pub open spec fn save(self, t: TemplateView) -> Result<RepositoryView, ErrorKind> {
        if self.has(t.name) {
            Err(ErrorKind::AlreadyExists)
        } else {
            Ok(RepositoryView { templates: self.templates.push(t.as_local()), ..self })
        }
    }

    /// Deleting a template: `NotFound` where no template has the name, else
    /// the collection without it.
    pub open spec fn delete(self, name: Seq<char>) -> Result<RepositoryView, ErrorKind> {
        if self.has(name) {
            Ok(RepositoryView { templates: self.templates.remove(self.index_of(name)), ..self })
        } else {
            Err(ErrorKind::NotFound)
        }
    }

    /// Renaming a template: `InvalidInput` where the new name is malformed,
    /// `NotFound` where the old name is absent, `AlreadyExists` where the
    /// new name is taken, else the same template under the new name.
    pub open spec fn rename(self, old_name: Seq<char>, new_name: Seq<char>) -> Result<
        RepositoryView,
        ErrorKind,
    > {
        if !is_valid_template_name(new_name) {
            Err(ErrorKind::InvalidInput)
        } else if !self.has(old_name) {
            Err(ErrorKind::NotFound)
        } else if self.has(new_name) {
            Err(ErrorKind::AlreadyExists)
        } else {
            let i = self.index_of(old_name);
            Ok(self.with_template(i, TemplateView { name: new_name, ..self.templates[i] }))
        }
    }

    /// Updating a template's content: `NotFound` where the name is absent,
    /// `InvalidInput` where `now` is not later than the time the template
    /// was made, else the template takes the files and the description of
    /// `source`, keeps its name and its creation time, and was updated at
    /// `now`.
    pub open spec fn update_content(self, name: Seq<char>, source: TemplateView, now: u64) -> Result<
        RepositoryView,
        ErrorKind,
    > {
        if !self.has(name) {
            Err(ErrorKind::NotFound)
        } else if now <= self.templates[self.index_of(name)].created_at {
            Err(ErrorKind::InvalidInput)
        } else {
            let i = self.index_of(name);
            Ok(
                self.with_template(
                    i,
                    TemplateView {
                        description: source.description,
                        files: source.files,
                        updated_at: Some(now),
                        ..self.templates[i]
                    },
                ),
            )
        }
    }

    /// Updating a template's description: `NotFound` where the name is
    /// absent, else the same template with the new description, or none.
    pub open spec fn update_description(
        self,
        name: Seq<char>,
        description: Option<Seq<char>>,
    ) -> Result<RepositoryView, ErrorKind> {
        if !self.has(name) {
            Err(ErrorKind::NotFound)
        } else {
            let i = self.index_of(name);
            Ok(self.with_template(i, TemplateView { description, ..self.templates[i] }))
        }
    }
}

/// What opening a repository on stored templates comes to: `Other` where a
/// name occurs twice, since such a storage unit is corrupt; else the
/// repository that holds them, each as a local template.
pub open spec fn connect_outcome(name: Seq<char>, stored: Seq<TemplateView>) -> Result<
    RepositoryView,
    ErrorKind,
> {
    if distinct_names(stored) {
        Ok(RepositoryView { name: effective_repo_name(name), templates: all_local(stored) })
    } else {
        Err(ErrorKind::Other)
    }
}

/// The first index that holds a name is the index of that name.
pub proof fn lemma_index(view: RepositoryView, name: Seq<char>, i: int)
    requires
        view.is_index(name, i),
    ensures
        view.has(name),
        view.index_of(name) == i,
{
    let k = view.index_of(name);
    assert(view.is_index(name, k));
    if k < i {
        assert(view.templates[k].name != name);
    }
    if i < k {
        assert(view.templates[i].name != name);
    }
}

/// Whether a mutating operation did what its model gives: on success the
/// repository is the new one; on failure the kind is the model's and the
/// repository is as it was.
pub open spec fn change_is(
    out: Result<(), StoreError>,
    before: RepositoryView,
    after: RepositoryView,
    outcome: Result<RepositoryView, ErrorKind>,
) -> bool {
    match outcome {
        Ok(view) => out is Ok && after == view,
        Err(kind) => out matches Err(e) && e.kind == kind && after == before,
    }
}

/// Whether the template `name` of `after` is that of `before` after an
/// update at `now`: made at the same time, updated at `now`, and `now`
/// strictly later than the time it was made.
pub open spec fn was_updated_at(before: RepositoryView, after: RepositoryView, name: Seq<char>, now: u64) -> bool {
    match (before.get(name), after.get(name)) {
        (Ok(b), Ok(t)) => t.created_at == b.created_at && t.updated_at == Some(now) && now
            > b.created_at,
        _ => false,
    }
}

/// A repository opened on its stored templates.
#[derive(Debug)]
pub struct Repository {
    name: String,
    templates: Vec<Template>,
}

impl View for Repository {
    type V = RepositoryView;

    closed spec fn view(&self) -> RepositoryView {
        RepositoryView { name: self.name@, templates: templates_view(self.templates@) }
    }
}

impl Repository {
    /// Every template is valid and local, and no name occurs twice.
    pub open spec fn wf(&self) -> bool {
        self@.wf()
    }

    /// The first index at which a template is named `name`, if any.
    fn position(&self, name: &str) -> (out: Option<usize>)
        ensures
            match out {
                Some(i) => self@.is_index(name@, i as int),
                None => !self@.has(name@),
            },
    {
        let wanted = name.to_owned();
        let mut i: usize = 0;
        while i < self.templates.len()
            invariant
                i <= self.templates.len(),
                wanted@ == name@,
                forall|k: int| 0 <= k < i ==> (#[trigger] self@.templates[k]).name != name@,
            decreases self.templates.len() - i,
        {
            if self.templates[i].is_named(&wanted) {
                return Some(i);
            }
            i += 1;
        }
        None
    }

    /// The failure for a template that is not in this repository.
    fn missing(&self, name: &str) -> (out: StoreError)
        ensures
            out.kind == ErrorKind::NotFound,
    {
        let text = concat("Not is possible to find \"", name);
        let text = concat(text.as_str(), "\" in \"");
        let text = concat(text.as_str(), self.name.as_str());
        let text = concat(text.as_str(), "\" repository.");
        not_found_error(text.as_str())
    }

    /// The failure for a name that is taken in this repository.
    fn taken(&self, name: &str) -> (out: StoreError)
        ensures
            out.kind == ErrorKind::AlreadyExists,
    {
        let text = concat("Template \"", name);
        let text = concat(text.as_str(), "\" already exists in \"");
        let text = concat(text.as_str(), self.name.as_str());
        let text = concat(text.as_str(), "\" repository.");
        already_exists_error(text.as_str())
    }

    /// The name that the repository `repository_name` goes by: `main` where
    /// the name is empty.
    pub fn effective_name(repository_name: &str) -> (out: String)
        ensures
            out@ == effective_repo_name(repository_name@),
    {
        if repository_name.is_empty() {
            "main".to_owned()
        } else {
            repository_name.to_owned()
        }
    }

    /// Opens the repository `repository_name` on the templates that its
    /// storage unit held; a new repository holds none. An empty name stands
    /// for `main`. Two stored templates of one name make the unit corrupt,
    /// which is an `Other` failure.
    pub fn connect(repository_name: String, stored: Vec<Template>) -> (out: Result<
        Repository,
        StoreError,
    >)
        requires
            forall|i: int| 0 <= i < stored.len() ==> (#[trigger] stored[i]).wf(),
        ensures
            match connect_outcome(repository_name@, templates_view(stored@)) {
                Ok(view) => out matches Ok(repo) && repo@ == view && repo.wf(),
                Err(kind) => out matches Err(e) && e.kind == kind,
            },
    {
        let name = Repository::effective_name(repository_name.as_str());
        let mut repo = Repository { name, templates: Vec::new() };
        let ghost all = templates_view(stored@);
        let mut i: usize = 0;
        while i < stored.len()
            invariant
                i <= stored.len(),
                all == templates_view(stored@),
                forall|k: int| 0 <= k < stored.len() ==> (#[trigger] stored[k]).wf(),
                repo@.name == effective_repo_name(repository_name@),
                repo@.templates == all_local(all.take(i as int)),
                repo.wf(),
                distinct_names(all.take(i as int)),
            decreases stored.len() - i,
        {
            let template = stored[i].clone();
            let ghost before = repo@;
            match repo.position(template.name()) {
                Some(k) => {
                    assert(all[k as int].name == all[i as int].name);
                    return Err(other_error("The repository holds two templates of one name."));
                },
                None => {},
            }
            proof {
                let next = all.take(i + 1);
                assert forall|a: int, b: int| 0 <= a < b < next.len() implies (#[trigger] next[a]).name
                    != (#[trigger] next[b]).name by {
                    if b < i {
                        assert(all.take(i as int)[a].name != all.take(i as int)[b].name);
                    } else {
                        assert(before.templates[a].name == all[a].name);
                    }
                }
            }
            repo.templates.push(template.with_type(TemplateType::Local));
            assert(repo@.templates =~= before.templates.push(all[i as int].as_local()));
            assert(before.templates.push(all[i as int].as_local()) =~= all_local(
                all.take(i + 1),
            ));
            i += 1;
        }
        assert(all.take(i as int) =~= all);
        Ok(repo)
    }

    /// The repository's name.
    pub fn name(&self) -> (out: &str)
        ensures
            out@ == self@.name,
    {
        self.name.as_str()
    }

    /// Whether the repository holds a template named `name`.
    pub fn has_template(&self, name: &str) -> (out: bool)
        ensures
            out == self@.has(name@),
    {
        self.position(name).is_some()
    }

    /// The template named `name`, or `NotFound` where there is none.
    pub fn get_template(&self, name: &str) -> (out: Result<Template, StoreError>)
        ensures
            match self@.get(name@) {
                Ok(view) => out matches Ok(t) && t@ == view,
                Err(kind) => out matches Err(e) && e.kind == kind,
            },
            self.wf() ==> (out matches Ok(t) ==> t.wf()),
    {
        match self.position(name) {
            Some(i) => {
                proof {
                    lemma_index(self@, name@, i as int);
                }
                Ok(self.templates[i].clone())
            },
            None => Err(self.missing(name)),
        }
    }

    /// The templates of the repository, in the order in which they were
    /// saved. All of them are local.
    pub fn list_templates(&self) -> (out: Vec<Template>)
        ensures
            templates_view(out@) == self@.templates,
            self.wf() ==> forall|i: int|
                0 <= i < out@.len() ==> (#[trigger] out@[i]).wf() && out@[i]@.template_type
                    == TemplateType::Local,
    {
        let mut out: Vec<Template> = Vec::new();
        let mut i: usize = 0;
        while i < self.templates.len()
            invariant
                i <= self.templates.len(),
                out@.len() == i,
                forall|k: int| 0 <= k < i ==> out@[k]@ == self.templates@[k]@,
            decreases self.templates.len() - i,
        {
            out.push(self.templates[i].clone());
            i += 1;
        }
        assert(templates_view(out@) =~= self@.templates);
        assert forall|i: int| 0 <= i < out@.len() && self.wf() implies (#[trigger] out@[i]).wf()
            && out@[i]@.template_type == TemplateType::Local by {
            assert(self@.templates[i].wf());
        }
        out
    }

    /// Hands the templates over, for writing them to the storage unit.
    pub fn into_templates(self) -> (out: Vec<Template>)
        ensures
            templates_view(out@) == self@.templates,
    {
        self.templates
    }

    /// Adds a template. Where its name is taken, the repository stays as it
    /// is and the failure is `AlreadyExists`.
    pub fn save_template(&mut self, template: Template) -> (out: Result<(), StoreError>)
        requires
            old(self).wf(),
            template.wf(),
        ensures
            change_is(out, old(self)@, final(self)@, old(self)@.save(template@)),
            old(self)@.has(template@.name) ==> final(self)@ == old(self)@ && (out matches Err(e)
                && e.kind == ErrorKind::AlreadyExists),
            final(self).wf(),
    {
        if self.position(template.name()).is_some() {
            return Err(self.taken(template.name()));
        }
        let ghost before = self@;
        self.templates.push(template.with_type(TemplateType::Local));
        assert(self@.templates =~= before.templates.push(template@.as_local()));
        Ok(())
    }

    /// Removes the template named `name`. Where there is none, the
    /// repository stays as it is and the failure is `NotFound`.
    pub fn delete_template(&mut self, name: &str) -> (out: Result<(), StoreError>)
        requires
            old(self).wf(),
        ensures
            change_is(out, old(self)@, final(self)@, old(self)@.delete(name@)),
            !old(self)@.has(name@) ==> final(self)@ == old(self)@ && (out matches Err(e) && e.kind
                == ErrorKind::NotFound),
            final(self).wf(),
    {
        let i = match self.position(name) {
            Some(i) => i,
            None => {
                return Err(self.missing(name));
            },
        };
        let ghost before = self@;
        proof {
            lemma_index(before, name@, i as int);
        }
        self.templates.remove(i);
        assert(self@.templates =~= before.templates.remove(i as int));
        Ok(())
    }

    /// Puts `template` in the place of the one at index `i`.
    fn replace_at(&mut self, i: usize, template: Template)
        requires
            i < old(self)@.templates.len(),
        ensures
            final(self)@ == old(self)@.with_template(i as int, template@),
    {
        let ghost before = self@;
        self.templates.remove(i);
        self.templates.insert(i, template);
        assert(self@.templates =~= before.templates.update(i as int, template@));
    }

    /// Gives the template `old_name` the name `new_name`; nothing else of it
    /// changes. A failure leaves the repository as it is.
    pub fn update_template_name(&mut self, old_name: &str, new_name: String) -> (out: Result<
        (),
        StoreError,
    >)
        requires
            old(self).wf(),
        ensures
            change_is(out, old(self)@, final(self)@, old(self)@.rename(old_name@, new_name@)),
            final(self).wf(),
    {
        match check_template_name(new_name.as_str()) {
            Err(e) => {
                return Err(e);
            },
            Ok(_) => {},
        }
        let i = match self.position(old_name) {
            Some(i) => i,
            None => {
                return Err(self.missing(old_name));
            },
        };
        if self.position(new_name.as_str()).is_some() {
            return Err(self.taken(new_name.as_str()));
        }
        proof {
            lemma_index(self@, old_name@, i as int);
        }
        let renamed = self.templates[i].clone().with_name(new_name);
        self.replace_at(i, renamed);
        Ok(())
    }

    /// Gives the template `name` the files and the description of
    /// `new_template`. Its name and its creation time stay, and `now`
    /// becomes the time of its last update, which is always later than the
    /// time it was made: a `now` that is not later is `InvalidInput`. Where
    /// no template is named `name` the failure is `NotFound`. A failure
    /// leaves the repository as it is.
    pub fn update_template_content(&mut self, name: &str, new_template: Template, now: u64) -> (out:
        Result<(), StoreError>)
        requires
            old(self).wf(),
            new_template.wf(),
        ensures
            change_is(
                out,
                old(self)@,
                final(self)@,
                old(self)@.update_content(name@, new_template@, now),
            ),
            out is Ok ==> was_updated_at(old(self)@, final(self)@, name@, now),
            final(self).wf(),
    {
        let i = match self.position(name) {
            Some(i) => i,
            None => {
                return Err(self.missing(name));
            },
        };
        proof {
            lemma_index(self@, name@, i as int);
        }
        let current = &self.templates[i];
        if now <= current.created_at() {
            return Err(
                invalid_input_error("The time of the update is not later than the time of creation."),
            );
        }
        let updated = new_template.with_name(current.name().to_owned()).with_dates(
            current.created_at(),
            Some(now),
        ).with_type(TemplateType::Local);
        let ghost before = self@;
        self.replace_at(i, updated);
        proof {
            let after = self@;
            assert forall|k: int| 0 <= k < i implies (#[trigger] after.templates[k]).name != name@ by {
                assert(after.templates[k] == before.templates[k]);
            }
            lemma_index(after, name@, i as int);
        }
        Ok(())
    }

    /// Gives the template `name` a new description, or none. Where no
    /// template is named `name`, the repository stays as it is and the
    /// failure is `NotFound`.
    pub fn update_template_description(&mut self, name: &str, new_description: Option<String>) -> (out:
        Result<(), StoreError>)
        requires
            old(self).wf(),
        ensures
            change_is(
                out,
                old(self)@,
                final(self)@,
                old(self)@.update_description(name@, text_view(new_description)),
            ),
            final(self).wf(),
    {
        let i = match self.position(name) {
            Some(i) => i,
            None => {
                return Err(self.missing(name));
            },
        };
        proof {
            lemma_index(self@, name@, i as int);
        }
        let updated = self.templates[i].clone().with_description(new_description);
        self.replace_at(i, updated);
        Ok(())
    }
}

} // verus!
