//! Templates: a named snapshot of a directory's files with its metadata.

use vstd::prelude::*;
use crate::error::{invalid_input_error, other_error, ErrorKind, StoreError};
use crate::text::{chars_of, contains_char};

verus! {

/// Where a template lives.
#[derive(Clone, Copy, Debug, PartialEq, Eq, Structural)]
pub enum TemplateType {
    /// Owned by a repository on this machine.
    Local,
    /// Offered by a remote index.
    Remote,
}

/// One file of a snapshot: its path relative to the snapshot root, and its
/// bytes.
#[derive(Debug)]
pub struct FileEntry {
    pub path: String,
    pub content: Vec<u8>,
}

impl View for FileEntry {
    type V = (Seq<char>, Seq<u8>);

    open spec fn view(&self) -> (Seq<char>, Seq<u8>) {
        (self.path@, self.content@)
    }
}

/// The files of a snapshot as pairs of path and content.
pub open spec fn files_view(files: Seq<FileEntry>) -> Seq<(Seq<char>, Seq<u8>)> {
    Seq::new(files.len(), |i: int| files[i]@)
}

/// The characters that count as whitespace in a name: those with the
/// Unicode property White_Space.
pub open spec fn is_space(c: char) -> bool {
    ||| ('\t' <= c && c <= '\r')
    ||| c == ' '
    ||| c == '\u{85}'
    ||| c == '\u{A0}'
    ||| c == '\u{1680}'
    ||| ('\u{2000}' <= c && c <= '\u{200A}')
    ||| c == '\u{2028}'
    ||| c == '\u{2029}'
    ||| c == '\u{202F}'
    ||| c == '\u{205F}'
    ||| c == '\u{3000}'
}

/// A template name is non-empty and holds neither whitespace nor a path
/// separator.
pub open spec fn is_valid_template_name(s: Seq<char>) -> bool {
    &&& s.len() > 0
    &&& forall|i: int| 0 <= i < s.len() ==> !is_space(#[trigger] s[i]) && s[i] != '/' && s[i] != '\\'
}

/// Whether a `..` segment of `p` starts at index `i`.
pub open spec fn parent_segment_at(p: Seq<char>, i: int) -> bool {
    &&& 0 <= i
    &&& i + 2 <= p.len()
    &&& p[i] == '.'
    &&& p[i + 1] == '.'
    &&& (i == 0 || p[i - 1] == '/')
    &&& (i + 2 == p.len() || p[i + 2] == '/')
}

/// Whether some segment of `p` is `..`.
pub open spec fn has_parent_segment(p: Seq<char>) -> bool {
    exists|i: int| parent_segment_at(p, i)
}

/// Whether two slashes of `p` stand side by side at index `i`, with an
/// empty segment between them.
pub open spec fn doubled_slash_at(p: Seq<char>, i: int) -> bool {
    0 <= i && i + 1 < p.len() && p[i] == '/' && p[i + 1] == '/'
}

/// Whether some segment inside `p` is empty.
pub open spec fn has_doubled_slash(p: Seq<char>) -> bool {
    exists|i: int| doubled_slash_at(p, i)
}

/// A stored path is non-empty, uses forward slashes only, neither starts
/// nor ends with one, and has no empty segment and no `..` segment: it
/// names a file, and cannot leave the snapshot root.
pub open spec fn is_safe_relative_path(p: Seq<char>) -> bool {
    &&& p.len() > 0
    &&& p[0] != '/'
    &&& p.last() != '/'
    &&& !p.contains('\\')
    &&& !has_doubled_slash(p)
    &&& !has_parent_segment(p)
}

/// No path occurs twice.
pub open spec fn distinct_paths(files: Seq<(Seq<char>, Seq<u8>)>) -> bool {
    forall|i: int, j: int| 0 <= i < j < files.len() ==> files[i].0 != files[j].0
}

/// Every path is safe and none occurs twice.
pub open spec fn is_valid_file_tree(files: Seq<(Seq<char>, Seq<u8>)>) -> bool {
    &&& forall|i: int| 0 <= i < files.len() ==> is_safe_relative_path(#[trigger] files[i].0)
    &&& distinct_paths(files)
}

/// What a template is: the model that the contracts speak of.
pub struct TemplateView {
    pub name: Seq<char>,
    pub description: Option<Seq<char>>,
    /// Seconds since the epoch at which the template was first made.
    pub created_at: u64,
    /// Seconds since the epoch of the last content update, if there was one.
    pub updated_at: Option<u64>,
    /// The files, in the order in which the snapshot found them.
    pub files: Seq<(Seq<char>, Seq<u8>)>,
    pub template_type: TemplateType,
}

impl TemplateView {
    /// The name is valid and the file tree is valid.
    pub open spec fn wf(self) -> bool {
        is_valid_template_name(self.name) && is_valid_file_tree(self.files)
    }

    /// Whether a file is stored under `path`.
    pub open spec fn has_file(self, path: Seq<char>) -> bool {
        exists|i: int| 0 <= i < self.files.len() && #[trigger] self.files[i].0 == path
    }

    /// Whether `i` is the first index at which a file is stored under `path`.
    pub open spec fn is_file_index(self, path: Seq<char>, i: int) -> bool {
        &&& 0 <= i < self.files.len()
        &&& self.files[i].0 == path
        &&& forall|k: int| 0 <= k < i ==> #[trigger] self.files[k].0 != path
    }

    /// The first index at which a file is stored under `path`, where there
    /// is one.
    pub open spec fn file_index(self, path: Seq<char>) -> int {
        choose|i: int| self.is_file_index(path, i)
    }

    /// The mapping from relative path to content.
    pub open spec fn file_tree(self) -> Map<Seq<char>, Seq<u8>> {
        Map::new(|p: Seq<char>| self.has_file(p), |p: Seq<char>| self.files[self.file_index(p)].1)
    }

    /// The same template, owned by a repository on this machine.
    pub open spec fn as_local(self) -> TemplateView {
        TemplateView { template_type: TemplateType::Local, ..self }
    }

    /// The same template, offered by a remote index.
    pub open spec fn as_remote(self) -> TemplateView {
        TemplateView { template_type: TemplateType::Remote, ..self }
    }
}

/// Whether `c` counts as whitespace in a name.
pub fn is_space_char(c: char) -> (out: bool)
    ensures
        out == is_space(c),
{
    ('\t' <= c && c <= '\r') || c == ' ' || c == '\u{85}' || c == '\u{A0}' || c == '\u{1680}' || (
    '\u{2000}' <= c && c <= '\u{200A}') || c == '\u{2028}' || c == '\u{2029}' || c == '\u{202F}'
        || c == '\u{205F}' || c == '\u{3000}'
}

/// Accepts a template name, or rejects it as `InvalidInput` when it is
/// empty or holds whitespace or a path separator.
pub fn check_template_name(name: &str) -> (out: Result<(), StoreError>)
    ensures
        out is Ok <==> is_valid_template_name(name@),
        out matches Err(e) ==> e.kind == ErrorKind::InvalidInput,
{
    let chars = chars_of(name);
    if chars.len() == 0 {
        return Err(invalid_input_error("The template name cannot be empty."));
    }
    let mut i: usize = 0;
    while i < chars.len()
        invariant
            i <= chars.len(),
            chars@ == name@,
            forall|j: int| 0 <= j < i ==> !is_space(#[trigger] chars@[j]) && chars@[j] != '/'
                && chars@[j] != '\\',
        decreases chars.len() - i,
    {
        let c = chars[i];
        if is_space_char(c) {
            return Err(invalid_input_error("The template name cannot have whitespaces."));
        }
        if c == '/' || c == '\\' {
            return Err(invalid_input_error("The template name cannot have path separators."));
        }
        i += 1;
    }
    Ok(())
}

/// Whether some segment of the path is `..`.
pub fn contains_parent_segment(p: &Vec<char>) -> (out: bool)
    ensures
        out == has_parent_segment(p@),
{
    if p.len() < 2 {
        assert(forall|i: int| !parent_segment_at(p@, i));
        return false;
    }
    let last: usize = p.len() - 2;
    let mut i: usize = 0;
    while i <= last
        invariant
            p.len() >= 2,
            last == p.len() - 2,
            i <= last + 1,
            forall|j: int| 0 <= j < i ==> !parent_segment_at(p@, j),
        decreases last + 1 - i,
    {
        if p[i] == '.' && p[i + 1] == '.' && (i == 0 || p[i - 1] == '/') && (i + 2 == p.len()
            || p[i + 2] == '/') {
            assert(parent_segment_at(p@, i as int));
            return true;
        }
        i += 1;
    }
    assert(forall|j: int| !parent_segment_at(p@, j));
    false
}

/// Whether some segment inside the path is empty.
pub fn contains_doubled_slash(p: &Vec<char>) -> (out: bool)
    ensures
        out == has_doubled_slash(p@),
{
    let mut i: usize = 1;
    while i < p.len()
        invariant
            1 <= i,
            forall|j: int| 0 <= j < i - 1 ==> !doubled_slash_at(p@, j),
        decreases p.len() - i,
    {
        if p[i - 1] == '/' && p[i] == '/' {
            assert(doubled_slash_at(p@, i - 1));
            return true;
        }
        i += 1;
    }
    assert(forall|j: int| !doubled_slash_at(p@, j));
    false
}

/// Whether a path may be stored in a snapshot.
pub fn is_safe_path(path: &str) -> (out: bool)
    ensures
        out == is_safe_relative_path(path@),
{
    let p = chars_of(path);
    p.len() > 0 && p[0] != '/' && p[p.len() - 1] != '/' && !contains_char(&p, '\\')
        && !contains_doubled_slash(&p) && !contains_parent_segment(&p)
}

/// Whether the files form a valid file tree.
pub fn check_file_tree(files: &Vec<FileEntry>) -> (out: bool)
    ensures
        out == is_valid_file_tree(files_view(files@)),
{
    let ghost view = files_view(files@);
    let mut i: usize = 0;
    while i < files.len()
        invariant
            i <= files.len(),
            view == files_view(files@),
            forall|k: int| 0 <= k < i ==> is_safe_relative_path(#[trigger] view[k].0),
            forall|k: int, l: int| 0 <= k < l < i ==> view[k].0 != view[l].0,
        decreases files.len() - i,
    {
        if !is_safe_path(files[i].path.as_str()) {
            assert(!is_safe_relative_path(view[i as int].0));
            return false;
        }
        let mut j: usize = 0;
        while j < i
            invariant
                j <= i < files.len(),
                view == files_view(files@),
                forall|k: int| 0 <= k < j ==> view[k].0 != view[i as int].0,
            decreases i - j,
        {
            if files[j].path == files[i].path {
                assert(view[j as int].0 == view[i as int].0);
                return false;
            }
            j += 1;
        }
        i += 1;
    }
    true
}

/// A copy of the bytes.
pub fn copy_bytes(bytes: &Vec<u8>) -> (out: Vec<u8>)
    ensures
        out@ == bytes@,
{
    let mut out: Vec<u8> = Vec::new();
    let mut i: usize = 0;
    while i < bytes.len()
        invariant
            i <= bytes.len(),
            out@ == bytes@.subrange(0, i as int),
        decreases bytes.len() - i,
    {
        out.push(bytes[i]);
        i += 1;
        assert(out@ =~= bytes@.subrange(0, i as int));
    }
    assert(bytes@.subrange(0, bytes@.len() as int) =~= bytes@);
    out
}

/// A copy of the optional text.
pub fn copy_text(text: &Option<String>) -> (out: Option<String>)
    ensures
        text_view(out) == text_view(*text),
{
    match text {
        Some(s) => Some(s.clone()),
        None => None,
    }
}

/// The characters of an optional text.
pub open spec fn text_view(text: Option<String>) -> Option<Seq<char>> {
    match text {
        Some(s) => Some(s@),
        None => None,
    }
}

impl Clone for FileEntry {
    fn clone(&self) -> (out: FileEntry)
        ensures
            out@ == self@,
    {
        FileEntry { path: self.path.clone(), content: copy_bytes(&self.content) }
    }
}

/// A copy of the files.
pub fn copy_files(files: &Vec<FileEntry>) -> (out: Vec<FileEntry>)
    ensures
        files_view(out@) == files_view(files@),
{
    let mut out: Vec<FileEntry> = Vec::new();
    let mut i: usize = 0;
    while i < files.len()
        invariant
            i <= files.len(),
            out@.len() == i,
            forall|k: int| 0 <= k < i ==> out@[k]@ == files@[k]@,
        decreases files.len() - i,
    {
        out.push(files[i].clone());
        i += 1;
    }
    assert(files_view(out@) =~= files_view(files@));
    out
}

/// A named snapshot of a directory. Its name and its file tree are valid
/// from the moment it is made.
#[derive(Debug)]
pub struct Template {
    name: String,
    description: Option<String>,
    created_at: u64,
    updated_at: Option<u64>,
    files: Vec<FileEntry>,
    template_type: TemplateType,
}

impl View for Template {
    type V = TemplateView;

    closed spec fn view(&self) -> TemplateView {
        TemplateView {
            name: self.name@,
            description: text_view(self.description),
            created_at: self.created_at,
            updated_at: self.updated_at,
            files: files_view(self.files@),
            template_type: self.template_type,
        }
    }
}

impl Clone for Template {
    fn clone(&self) -> (out: Template)
        ensures
            out@ == self@,
    {
        Template {
            name: self.name.clone(),
            description: copy_text(&self.description),
            created_at: self.created_at,
            updated_at: self.updated_at,
            files: copy_files(&self.files),
            template_type: self.template_type,
        }
    }
}

impl Template {
    /// The name is valid and the file tree is valid.
    pub open spec fn wf(&self) -> bool {
        self@.wf()
    }

    /// Builds a template from its parts, as they come out of storage. A
    /// record with an invalid name or an invalid file tree is corrupt, which
    /// is an `Other` failure.
    pub fn restore(
        name: String,
        description: Option<String>,
        created_at: u64,
        updated_at: Option<u64>,
        files: Vec<FileEntry>,
        template_type: TemplateType,
    ) -> (out: Result<Template, StoreError>)
        ensures
            out is Ok <==> is_valid_template_name(name@) && is_valid_file_tree(files_view(files@)),
            out matches Ok(t) ==> t@ == (TemplateView {
                name: name@,
                description: text_view(description),
                created_at,
                updated_at,
                files: files_view(files@),
                template_type,
            }) && t.wf(),
            out matches Err(e) ==> e.kind == ErrorKind::Other,
    {
        if check_template_name(name.as_str()).is_err() {
            return Err(other_error("The stored template has an invalid name."));
        }
        if !check_file_tree(&files) {
            return Err(other_error("The stored template has an invalid file tree."));
        }
        Ok(Template { name, description, created_at, updated_at, files, template_type })
    }

    /// The template's name.
    pub fn name(&self) -> (out: &str)
        ensures
            out@ == self@.name,
    {
        self.name.as_str()
    }

    /// The template's description, if it has one.
    pub fn description(&self) -> (out: Option<String>)
        ensures
            text_view(out) == self@.description,
    {
        copy_text(&self.description)
    }

    /// When the template was first made.
    pub fn created_at(&self) -> (out: u64)
        ensures
            out == self@.created_at,
    {
        self.created_at
    }

    /// When the template's content was last updated, if it ever was.
    pub fn updated_at(&self) -> (out: Option<u64>)
        ensures
            out == self@.updated_at,
    {
        self.updated_at
    }

    /// Where the template lives.
    pub fn template_type(&self) -> (out: TemplateType)
        ensures
            out == self@.template_type,
    {
        self.template_type
    }

    /// The files of the snapshot, in the order in which it found them.
    pub fn files(&self) -> (out: &Vec<FileEntry>)
        ensures
            files_view(out@) == self@.files,
    {
        &self.files
    }

    /// The number of files in the snapshot.
    pub fn file_count(&self) -> (out: usize)
        ensures
            out == self@.files.len(),
    {
        self.files.len()
    }

    /// The content stored under `path`, if a file is stored there.
    pub fn file_content(&self, path: &str) -> (out: Option<Vec<u8>>)
        ensures
            out is Some <==> self@.file_tree().dom().contains(path@),
            out matches Some(bytes) ==> bytes@ == self@.file_tree()[path@],
    {
        let ghost view = self@;
        let wanted = path.to_owned();
        let mut i: usize = 0;
        while i < self.files.len()
            invariant
                i <= self.files.len(),
                wanted@ == path@,
                view == self@,
                forall|k: int| 0 <= k < i ==> #[trigger] view.files[k].0 != path@,
            decreases self.files.len() - i,
        {
            if self.files[i].path == wanted {
                proof {
                    lemma_first_match(view, path@, i as int);
                }
                return Some(copy_bytes(&self.files[i].content));
            }
            i += 1;
        }
        assert(!view.has_file(path@));
        None
    }

    /// Whether the template bears the name `name`.
    pub fn is_named(&self, name: &String) -> (out: bool)
        ensures
            out == (self@.name == name@),
    {
        self.name == *name
    }

    /// The same template under another type.
    pub fn with_type(self, template_type: TemplateType) -> (out: Template)
        ensures
            out@ == (TemplateView { template_type, ..self@ }),
    {
        Template { template_type, ..self }
    }

    /// The same template under another name, which must be valid.
    pub(crate) fn with_name(self, name: String) -> (out: Template)
        requires
            is_valid_template_name(name@),
        ensures
            out@ == (TemplateView { name: name@, ..self@ }),
    {
        Template { name, ..self }
    }

    /// The same template with another description, or with none.
    pub fn with_description(self, description: Option<String>) -> (out: Template)
        ensures
            out@ == (TemplateView { description: text_view(description), ..self@ }),
    {
        Template { description, ..self }
    }

    /// The same template with other timestamps.
    pub fn with_dates(self, created_at: u64, updated_at: Option<u64>) -> (out: Template)
        ensures
            out@ == (TemplateView { created_at, updated_at, ..self@ }),
    {
        Template { created_at, updated_at, ..self }
    }
}

/// The content a path maps to is that of the first entry stored under it.
pub proof fn lemma_first_match(view: TemplateView, path: Seq<char>, i: int)
    requires
        view.is_file_index(path, i),
    ensures
        view.has_file(path),
        view.file_index(path) == i,
        view.file_tree().dom().contains(path),
        view.file_tree()[path] == view.files[i].1,
{
    let k = view.file_index(path);
    assert(view.is_file_index(path, k));
    if k < i {
        assert(view.files[k].0 != path);
    }
    if i < k {
        assert(view.files[i].0 != path);
    }
}

} // verus!
