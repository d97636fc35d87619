//! The read side: local and remote templates in one list, and the text that
//! presents them.

use vstd::prelude::*;
use crate::repository::templates_view;
use crate::template::{Template, TemplateType, TemplateView};
use crate::text::concat;

verus! {

/// The character of a decimal digit.
pub open spec fn digit_char(d: nat) -> char {
    ((d + 48) as u8) as char
}

/// The decimal numeral of `n`, without leading zeros.
pub open spec fn decimal(n: nat) -> Seq<char>
    decreases n,
{
    if n < 10 {
        seq![digit_char(n)]
    } else {
        decimal(n / 10).push(digit_char(n % 10))
    }
}

/// The decimal numeral of `n`.
pub fn decimal_string(n: u64) -> (out: String)
    ensures
        out@ == decimal(n as nat),
    decreases n,
{
    if n < 10 {
        let mut out = String::new();
        out.push((n as u8 + 48) as char);
        assert(out@ =~= seq![digit_char(n as nat)]);
        out
    } else {
        let mut out = decimal_string(n / 10);
        out.push(((n % 10) as u8 + 48) as char);
        out
    }
}

/// The text of an optional description.
pub open spec fn description_text(description: Option<Seq<char>>) -> Seq<char> {
    match description {
        Some(text) => text,
        None => "(none)"@,
    }
}

/// The text of an optional time.
pub open spec fn time_text(time: Option<u64>) -> Seq<char> {
    match time {
        Some(t) => decimal(t as nat),
        None => "(never)"@,
    }
}

/// The text that describes a template: its name, its description, when it
/// was made and last updated, and how many files it holds, a line each.
pub open spec fn description_of(t: TemplateView) -> Seq<char> {
    "Name: "@ + t.name + "\nDescription: "@ + description_text(t.description) + "\nCreated at: "@
        + decimal(t.created_at as nat) + "\nUpdated at: "@ + time_text(t.updated_at) + "\nFiles: "@
        + decimal(t.files.len()) + "\n"@
}

/// The text that describes the templates, one after the other.
pub open spec fn descriptions_of(templates: Seq<TemplateView>) -> Seq<char>
    decreases templates.len(),
{
    if templates.len() == 0 {
        Seq::empty()
    } else {
        descriptions_of(templates.drop_last()) + description_of(templates.last())
    }
}

/// The lines that list the names of the templates of one type, in order.
pub open spec fn names_of_type(templates: Seq<TemplateView>, template_type: TemplateType) -> Seq<char>
    decreases templates.len(),
{
    if templates.len() == 0 {
        Seq::empty()
    } else {
        let rest = names_of_type(templates.drop_last(), template_type);
        let t = templates.last();
        if t.template_type == template_type {
            rest + "   | "@ + t.name + "\n"@
        } else {
            rest
        }
    }
}

/// The listing of all templates: the local ones under one heading, the
/// remote ones under another; or a note where there is no repository to
/// list.
pub open spec fn listing_of(templates: Option<Seq<TemplateView>>) -> Seq<char> {
    match templates {
        Some(all) => ">> Local Templates\n"@ + names_of_type(all, TemplateType::Local)
            + "\n>> Remote Templates\n"@ + names_of_type(all, TemplateType::Remote),
        None => "Repository is empty.\n"@,
    }
}

/// Each template, offered by a remote index.
pub open spec fn all_remote(templates: Seq<TemplateView>) -> Seq<TemplateView> {
    Seq::new(templates.len(), |i: int| templates[i].as_remote())
}

/// The templates of an optional list as models.
pub open spec fn optional_templates_view(templates: Option<Vec<Template>>) -> Option<Seq<TemplateView>> {
    match templates {
        Some(all) => Some(templates_view(all@)),
        None => None,
    }
}

/// The text that describes one template.
pub fn describe_template(template: &Template) -> (out: String)
    ensures
        out@ == description_of(template@),
{
    let out = concat("Name: ", template.name());
    let out = concat(out.as_str(), "\nDescription: ");
    let out = match template.description() {
        Some(text) => concat(out.as_str(), text.as_str()),
        None => concat(out.as_str(), "(none)"),
    };
    let out = concat(out.as_str(), "\nCreated at: ");
    let out = concat(out.as_str(), decimal_string(template.created_at()).as_str());
    let out = concat(out.as_str(), "\nUpdated at: ");
    let out = match template.updated_at() {
        Some(t) => concat(out.as_str(), decimal_string(t).as_str()),
        None => concat(out.as_str(), "(never)"),
    };
    let out = concat(out.as_str(), "\nFiles: ");
    let out = concat(out.as_str(), decimal_string(template.file_count() as u64).as_str());
    concat(out.as_str(), "\n")
}

/// The lines that list the names of the templates of one type.
pub fn list_names(templates: &Vec<Template>, template_type: TemplateType) -> (out: String)
    ensures
        out@ == names_of_type(templates_view(templates@), template_type),
{
    let ghost all = templates_view(templates@);
    let mut out = String::new();
    let mut i: usize = 0;
    assert(all.take(0) =~= Seq::<TemplateView>::empty());
    while i < templates.len()
        invariant
            i <= templates.len(),
            all == templates_view(templates@),
            out@ == names_of_type(all.take(i as int), template_type),
        decreases templates.len() - i,
    {
        proof {
            assert(all.take(i + 1).drop_last() =~= all.take(i as int));
            assert(all.take(i + 1).last() == all[i as int]);
        }
        if templates[i].template_type() == template_type {
            out = concat(out.as_str(), "   | ");
            out = concat(out.as_str(), templates[i].name());
            out = concat(out.as_str(), "\n");
        }
        i += 1;
    }
    assert(all.take(i as int) =~= all);
    out
}

/// Presents a list of templates.
#[derive(Debug)]
pub struct TemplateManager {
    templates: Vec<Template>,
}

impl View for TemplateManager {
    type V = Seq<TemplateView>;

    closed spec fn view(&self) -> Seq<TemplateView> {
        templates_view(self.templates@)
    }
}

impl TemplateManager {
    /// A manager of the given templates.
    pub fn new(templates: Vec<Template>) -> (out: TemplateManager)
        ensures
            out@ == templates_view(templates@),
    {
        TemplateManager { templates }
    }

    /// One list of the local templates, each tagged as local, followed by
    /// the remote ones, each tagged as remote.
    pub fn all_templates(local: Vec<Template>, remote: Vec<Template>) -> (out: Vec<Template>)
        ensures
            templates_view(out@) == crate::repository::all_local(templates_view(local@)) + all_remote(
                templates_view(remote@),
            ),
    {
        let ghost locals = templates_view(local@);
        let ghost remotes = templates_view(remote@);
        let mut out: Vec<Template> = Vec::new();
        let mut i: usize = 0;
        while i < local.len()
            invariant
                i <= local.len(),
                locals == templates_view(local@),
                out@.len() == i,
                forall|k: int| 0 <= k < i ==> (#[trigger] out@[k])@ == locals[k].as_local(),
            decreases local.len() - i,
        {
            out.push(local[i].clone().with_type(TemplateType::Local));
            i += 1;
        }
        let mut j: usize = 0;
        while j < remote.len()
            invariant
                j <= remote.len(),
                locals == templates_view(local@),
                remotes == templates_view(remote@),
                out@.len() == local.len() + j,
                forall|k: int| 0 <= k < local.len() ==> (#[trigger] out@[k])@ == locals[k].as_local(),
                forall|k: int|
                    local.len() <= k < local.len() + j ==> (#[trigger] out@[k])@ == remotes[k
                        - local.len()].as_remote(),
            decreases remote.len() - j,
        {
            out.push(remote[j].clone().with_type(TemplateType::Remote));
            j += 1;
        }
        assert(templates_view(out@) =~= crate::repository::all_local(locals) + all_remote(remotes));
        out
    }

    /// The text that describes the templates, one after the other.
    pub fn describe_templates(&self) -> (out: String)
        ensures
            out@ == descriptions_of(self@),
    {
        let ghost all = self@;
        let mut out = String::new();
        let mut i: usize = 0;
        assert(all.take(0) =~= Seq::<TemplateView>::empty());
        while i < self.templates.len()
            invariant
                i <= self.templates.len(),
                all == self@,
                out@ == descriptions_of(all.take(i as int)),
            decreases self.templates.len() - i,
        {
            proof {
                assert(all.take(i + 1).drop_last() =~= all.take(i as int));
                assert(all.take(i + 1).last() == all[i as int]);
            }
            out = concat(out.as_str(), describe_template(&self.templates[i]).as_str());
            i += 1;
        }
        assert(all.take(i as int) =~= all);
        out
    }
}

} // verus!
