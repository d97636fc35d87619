//! Template addresses of the form `template` or `repository/template`.

use vstd::prelude::*;
use crate::error::{invalid_input_error, ErrorKind, StoreError};
use crate::path_utils::is_valid_directory_path;
use crate::text::{chars_of, contains_char, find_char, string_of_range};

verus! {

/// A resolved address: the repository and the template in it.
#[derive(Debug)]
pub struct NamespaceObject {
    pub repo_name: String,
    pub template_name: String,
}

/// The name of the repository that an address without one refers to.
pub open spec fn default_repo_name() -> Seq<char> {
    "main"@
}

/// The index of the first forward slash of `s`, where it has one.
pub open spec fn first_slash(s: Seq<char>) -> int {
    choose|i: int| 0 <= i < s.len() && s[i] == '/' && forall|j: int| 0 <= j < i ==> s[j] != '/'
}

/// The repository part of an address: what stands before its first slash,
/// or the default repository where it has none.
pub open spec fn repo_part(s: Seq<char>) -> Seq<char> {
    if s.contains('/') {
        s.subrange(0, first_slash(s))
    } else {
        default_repo_name()
    }
}

/// The template part of an address: what stands after its first slash, or
/// all of it where it has none.
pub open spec fn template_part(s: Seq<char>) -> Seq<char> {
    if s.contains('/') {
        s.subrange(first_slash(s) + 1, s.len() as int)
    } else {
        s
    }
}

/// An address is well formed when it passes the rule on path-like strings,
/// both of its parts are non-empty, and its template part holds no slash.
pub open spec fn is_resolvable(s: Seq<char>) -> bool {
    &&& is_valid_directory_path(s)
    &&& repo_part(s).len() > 0
    &&& template_part(s).len() > 0
    &&& !template_part(s).contains('/')
}

/// Any index that holds the first slash is `first_slash`.
pub proof fn lemma_first_slash(s: Seq<char>, i: int)
    requires
        0 <= i < s.len(),
        s[i] == '/',
        forall|j: int| 0 <= j < i ==> s[j] != '/',
    ensures
        first_slash(s) == i,
        s.contains('/'),
{
    let k = first_slash(s);
    assert(0 <= k < s.len() && s[k] == '/' && forall|j: int| 0 <= j < k ==> s[j] != '/');
}

/// Splits an address at its first forward slash. Without a slash the
/// repository is the default one. Nothing is rejected here.
pub fn get_repo_namespace_obj(input: &str) -> (out: NamespaceObject)
    ensures
        out.repo_name@ == repo_part(input@),
        out.template_name@ == template_part(input@),
{
    let chars = chars_of(input);
    match find_char(&chars, '/') {
        Some(i) => {
            proof {
                lemma_first_slash(chars@, i as int);
            }
            NamespaceObject {
                repo_name: string_of_range(&chars, 0, i),
                template_name: string_of_range(&chars, i + 1, chars.len()),
            }
        },
        None => {
            let template_name = string_of_range(&chars, 0, chars.len());
            assert(chars@.subrange(0, chars@.len() as int) =~= chars@);
            NamespaceObject { repo_name: "main".to_owned(), template_name }
        },
    }
}

/// Resolves an address a user typed. Template names hold no slash, so an
/// address with a second slash is rejected, as is one with a backslash, a
/// trailing slash or an empty part: each is `InvalidInput`.
pub fn resolve(input: &str) -> (out: Result<NamespaceObject, StoreError>)
    ensures
        out is Ok <==> is_resolvable(input@),
        out matches Ok(ns) ==> ns.repo_name@ == repo_part(input@) && ns.template_name@
            == template_part(input@),
        out matches Err(e) ==> e.kind == ErrorKind::InvalidInput,
{
    let chars = chars_of(input);
    if contains_char(&chars, '\\') || (chars.len() > 0 && chars[chars.len() - 1] == '/') {
        return Err(invalid_input_error("Invalid template name."));
    }
    let ns = get_repo_namespace_obj(input);
    let repo = chars_of(ns.repo_name.as_str());
    let template = chars_of(ns.template_name.as_str());
    if repo.len() == 0 || template.len() == 0 || contains_char(&template, '/') {
        return Err(invalid_input_error("Invalid template name."));
    }
    Ok(ns)
}

/// Whether a repository name or a template name can be part of an address:
/// it is non-empty and holds no separator of either kind.
pub open spec fn is_address_part(s: Seq<char>) -> bool {
    s.len() > 0 && !s.contains('/') && !s.contains('\\')
}

/// An address without a repository names a template of the default
/// repository.
pub proof fn law_resolve_plain(template: Seq<char>)
    requires
        is_address_part(template),
    ensures
        is_resolvable(template),
        repo_part(template) == default_repo_name(),
        template_part(template) == template,
{
    reveal_strlit("main");
    assert(template.last() == template[template.len() - 1]);
}

/// An address made of a repository, a slash and a template resolves to that
/// repository and that template.
pub proof fn law_resolve_qualified(repo: Seq<char>, template: Seq<char>)
    requires
        is_address_part(repo),
        is_address_part(template),
    ensures
        is_resolvable(repo.push('/') + template),
        repo_part(repo.push('/') + template) == repo,
        template_part(repo.push('/') + template) == template,
{
    let s = repo.push('/') + template;
    let n = repo.len() as int;
    assert(s[n] == '/');
    assert forall|j: int| 0 <= j < n implies s[j] != '/' by {
        assert(s[j] == repo[j]);
    }
    lemma_first_slash(s, n);
    assert(s.subrange(0, n) =~= repo);
    assert(s.subrange(n + 1, s.len() as int) =~= template);
    assert forall|i: int| 0 <= i < s.len() implies s[i] != '\\' by {
        if i < n {
            assert(s[i] == repo[i]);
        } else if i > n {
            assert(s[i] == template[i - n - 1]);
        }
    }
    assert(s.last() == template[template.len() - 1]);
}

/// An address with a second slash is not resolved: template names hold no
/// slash.
pub proof fn law_resolve_rejects_nested(repo: Seq<char>, rest: Seq<char>)
    requires
        !repo.contains('/'),
        rest.contains('/'),
    ensures
        !is_resolvable(repo.push('/') + rest),
{
    let s = repo.push('/') + rest;
    let n = repo.len() as int;
    assert(s[n] == '/');
    assert forall|j: int| 0 <= j < n implies s[j] != '/' by {
        assert(s[j] == repo[j]);
    }
    lemma_first_slash(s, n);
    assert(s.subrange(n + 1, s.len() as int) =~= rest);
}

} // verus!
