//! Turns what a walk of a source directory found into a template.

use vstd::prelude::*;
use crate::error::{not_found_error, other_error, ErrorKind, StoreError};
use crate::path_utils::{
    dir_prefix,
    format_path_namespace,
    is_valid_directory_path,
    remove_dir_prefix,
    valid_directory_path,
    PathType,
    TempPath,
};
use crate::template::{
    check_template_name,
    copy_bytes,
    files_view,
    is_valid_file_tree,
    is_valid_template_name,
    text_view,
    FileEntry,
    Template,
    TemplateType,
    TemplateView,
};
use crate::text::{chars_of, replaced, same_chars, starts_with, strings_view};

verus! {

/// One entry that the walk of a source directory found: its path, which
/// starts with the directory walked, what it leads to, and for a file its
/// bytes.
#[derive(Debug)]
pub struct SourceEntry {
    pub path: TempPath,
    pub content: Vec<u8>,
}

/// What a walked entry is: the model that the contracts speak of.
pub struct SourceEntryView {
    pub path: Seq<char>,
    pub path_type: PathType,
    pub content: Seq<u8>,
}

impl View for SourceEntry {
    type V = SourceEntryView;

    open spec fn view(&self) -> SourceEntryView {
        SourceEntryView {
            path: self.path.buf@,
            path_type: self.path.path_type,
            content: self.content@,
        }
    }
}

/// The entries of a walk as models.
pub open spec fn entries_view(entries: Seq<SourceEntry>) -> Seq<SourceEntryView> {
    Seq::new(entries.len(), |i: int| entries[i]@)
}

/// What a walk handed over, as models; `None` where the directory could not
/// be read.
pub open spec fn listing_view(listing: Option<Vec<SourceEntry>>) -> Option<Seq<SourceEntryView>> {
    match listing {
        Some(entries) => Some(entries_view(entries@)),
        None => None,
    }
}

/// A walked path with its separators turned into forward slashes.
pub open spec fn normalized(path: Seq<char>) -> Seq<char> {
    replaced(path, '\\', '/')
}

/// Whether a walked path lies under the directory walked.
pub open spec fn lies_under(path: Seq<char>, directory: Seq<char>) -> bool {
    dir_prefix(directory).is_prefix_of(normalized(path))
}

/// A walked path relative to the directory walked.
pub open spec fn relative_path(path: Seq<char>, directory: Seq<char>) -> Seq<char> {
    normalized(path).subrange(dir_prefix(directory).len() as int, normalized(path).len() as int)
}

/// A pattern excludes the path that equals it and every path below it.
pub open spec fn matches_pattern(path: Seq<char>, pattern: Seq<char>) -> bool {
    path == pattern || dir_prefix(pattern).is_prefix_of(path)
}

/// Whether one of the patterns excludes the path.
pub open spec fn is_excluded(path: Seq<char>, patterns: Seq<Seq<char>>) -> bool {
    exists|k: int| 0 <= k < patterns.len() && matches_pattern(path, #[trigger] patterns[k])
}

/// Whether an entry goes into the snapshot: only files do, and only those
/// that no pattern excludes.
pub open spec fn is_kept(e: SourceEntryView, directory: Seq<char>, patterns: Seq<Seq<char>>) -> bool {
    e.path_type == PathType::File && !is_excluded(relative_path(e.path, directory), patterns)
}

/// The file that an entry contributes to the snapshot: its relative path
/// and its content.
pub open spec fn file_of(e: SourceEntryView, directory: Seq<char>) -> (Seq<char>, Seq<u8>) {
    (relative_path(e.path, directory), e.content)
}

/// Whether `file` is what the entry at index `i` contributes to the
/// snapshot.
pub open spec fn comes_from(
    file: (Seq<char>, Seq<u8>),
    entries: Seq<SourceEntryView>,
    directory: Seq<char>,
    patterns: Seq<Seq<char>>,
    i: int,
) -> bool {
    0 <= i < entries.len() && is_kept(entries[i], directory, patterns) && file == file_of(
        entries[i],
        directory,
    )
}

/// The index of an entry that contributes `file` to the snapshot, where
/// there is one.
pub open spec fn source_index(
    file: (Seq<char>, Seq<u8>),
    entries: Seq<SourceEntryView>,
    directory: Seq<char>,
    patterns: Seq<Seq<char>>,
) -> int {
    choose|i: int| comes_from(file, entries, directory, patterns, i)
}

/// The files of the snapshot: the entries that are kept, in the order of the
/// walk, each under its relative path.
pub open spec fn snapshot(
    entries: Seq<SourceEntryView>,
    directory: Seq<char>,
    patterns: Seq<Seq<char>>,
) -> Seq<(Seq<char>, Seq<u8>)>
    decreases entries.len(),
{
    if entries.len() == 0 {
        Seq::empty()
    } else {
        let rest = snapshot(entries.drop_last(), directory, patterns);
        let e = entries.last();
        if is_kept(e, directory, patterns) {
            rest.push(file_of(e, directory))
        } else {
            rest
        }
    }
}

/// Whether every entry lies under the directory walked.
pub open spec fn all_under(entries: Seq<SourceEntryView>, directory: Seq<char>) -> bool {
    forall|i: int| 0 <= i < entries.len() ==> lies_under(#[trigger] entries[i].path, directory)
}

/// What making a template comes to. A malformed name or directory argument
/// is `InvalidInput`; a directory that could not be read is `NotFound`; an
/// entry outside the directory walked, or a file tree that is not valid, is
/// `Other`. Otherwise the template is local, was made at `now`, was never
/// updated, and holds the snapshot.
pub open spec fn maker_outcome(
    name: Seq<char>,
    directory: Seq<char>,
    description: Option<Seq<char>>,
    listing: Option<Seq<SourceEntryView>>,
    now: u64,
    patterns: Seq<Seq<char>>,
) -> Result<TemplateView, ErrorKind> {
    if !is_valid_template_name(name) || !is_valid_directory_path(directory) {
        Err(ErrorKind::InvalidInput)
    } else {
        match listing {
            None => Err(ErrorKind::NotFound),
            Some(entries) => {
                if !all_under(entries, directory) || !is_valid_file_tree(
                    snapshot(entries, directory, patterns),
                ) {
                    Err(ErrorKind::Other)
                } else {
                    Ok(
                        TemplateView {
                            name,
                            description,
                            created_at: now,
                            updated_at: None,
                            files: snapshot(entries, directory, patterns),
                            template_type: TemplateType::Local,
                        },
                    )
                }
            },
        }
    }
}

/// Whether the result of an operation is the outcome that its model gives:
/// the same value on success, the same kind of failure otherwise.
pub open spec fn template_result_is(
    out: Result<Template, StoreError>,
    outcome: Result<TemplateView, ErrorKind>,
) -> bool {
    match outcome {
        Ok(view) => out matches Ok(t) && t@ == view && t.wf(),
        Err(kind) => out matches Err(e) && e.kind == kind,
    }
}

/// Whether one of the patterns excludes the path.
pub fn is_excluded_path(path: &str, patterns: &Vec<String>) -> (out: bool)
    ensures
        out == is_excluded(path@, strings_view(patterns@)),
{
    let chars = chars_of(path);
    let ghost view = strings_view(patterns@);
    let mut k: usize = 0;
    while k < patterns.len()
        invariant
            k <= patterns.len(),
            chars@ == path@,
            view == strings_view(patterns@),
            forall|j: int| 0 <= j < k ==> !matches_pattern(path@, #[trigger] view[j]),
        decreases patterns.len() - k,
    {
        let mut pattern = chars_of(patterns[k].as_str());
        if same_chars(&chars, &pattern) {
            assert(matches_pattern(path@, view[k as int]));
            return true;
        }
        pattern.push('/');
        if starts_with(&chars, &pattern) {
            assert(matches_pattern(path@, view[k as int]));
            return true;
        }
        k += 1;
    }
    false
}

/// Makes a template named `name` from what the walk of `directory` found,
/// leaving out the files that `exclude` names.
pub fn make_template_with(
    name: String,
    directory: &str,
    description: Option<String>,
    listing: Option<Vec<SourceEntry>>,
    now: u64,
    exclude: &Vec<String>,
) -> (out: Result<Template, StoreError>)
    ensures
        template_result_is(
            out,
            maker_outcome(
                name@,
                directory@,
                text_view(description),
                listing_view(listing),
                now,
                strings_view(exclude@),
            ),
        ),
{
    match check_template_name(name.as_str()) {
        Err(e) => {
            return Err(e);
        },
        Ok(_) => {},
    }
    match valid_directory_path(directory) {
        Err(e) => {
            return Err(e);
        },
        Ok(_) => {},
    }
    let ghost listed = listing_view(listing);
    let entries = match listing {
        Some(entries) => entries,
        None => {
            return Err(not_found_error("The directory does not exist or cannot be read."));
        },
    };
    let ghost all = entries_view(entries@);
    let ghost patterns = strings_view(exclude@);
    let mut files: Vec<FileEntry> = Vec::new();
    let mut i: usize = 0;
    while i < entries.len()
        invariant
            i <= entries.len(),
            all == entries_view(entries@),
            listed == Some(all),
            listed == listing_view(listing),
            is_valid_template_name(name@),
            is_valid_directory_path(directory@),
            patterns == strings_view(exclude@),
            files_view(files@) == snapshot(all.take(i as int), directory@, patterns),
            forall|k: int| 0 <= k < i ==> lies_under(#[trigger] all[k].path, directory@),
        decreases entries.len() - i,
    {
        let entry = &entries[i];
        let walked = TempPath {
            buf: format_path_namespace(entry.path.buf.clone()),
            path_type: entry.path.path_type,
        };
        let relative = match remove_dir_prefix(walked, directory) {
            Ok(relative) => relative,
            Err(_) => {
                assert(!lies_under(all[i as int].path, directory@));
                return Err(other_error("A path of the snapshot lies outside the directory."));
            },
        };
        proof {
            assert(all.take(i as int + 1).drop_last() =~= all.take(i as int));
            assert(all.take(i as int + 1).last() == all[i as int]);
            assert(relative.buf@ == relative_path(all[i as int].path, directory@));
        }
        let ghost before = files_view(files@);
        let mut keep = false;
        match relative.path_type {
            PathType::File => {
                keep = !is_excluded_path(relative.buf.as_str(), exclude);
            },
            PathType::Dir => {},
        }
        if keep {
            files.push(FileEntry { path: relative.buf, content: copy_bytes(&entry.content) });
            assert(files_view(files@) =~= before.push(
                (relative_path(all[i as int].path, directory@), all[i as int].content),
            ));
        }
        i += 1;
    }
    assert(all.take(i as int) =~= all);
    match Template::restore(name, description, now, None, files, TemplateType::Local) {
        Ok(template) => Ok(template),
        Err(_) => Err(other_error("The snapshot does not form a valid file tree.")),
    }
}

/// Makes a template named `name` from what the walk of `directory` found,
/// with every file of it.
pub fn make_template(
    name: String,
    directory: &str,
    description: Option<String>,
    listing: Option<Vec<SourceEntry>>,
    now: u64,
) -> (out: Result<Template, StoreError>)
    ensures
        template_result_is(
            out,
            maker_outcome(
                name@,
                directory@,
                text_view(description),
                listing_view(listing),
                now,
                Seq::empty(),
            ),
        ),
{
    let none: Vec<String> = Vec::new();
    assert(strings_view(none@) =~= Seq::<Seq<char>>::empty());
    make_template_with(name, directory, description, listing, now, &none)
}

} // verus!
