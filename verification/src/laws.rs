//! What holds of the repository operations taken together.

use vstd::prelude::*;
use crate::error::ErrorKind;
use crate::maker::{comes_from, file_of, source_index, is_kept, maker_outcome, relative_path, snapshot, SourceEntryView};
use crate::repository::{lemma_index, RepositoryView};
use crate::template::{lemma_first_match, TemplateView};

verus! {

/// In a repository without repeated names, the index that holds a name is
/// the index of that name.
pub proof fn lemma_unique_index(repo: RepositoryView, name: Seq<char>, j: int)
    requires
        repo.wf(),
        0 <= j < repo.templates.len(),
        repo.templates[j].name == name,
    ensures
        repo.has(name),
        repo.index_of(name) == j,
        repo.get(name) == Ok::<TemplateView, ErrorKind>(repo.templates[j]),
{
    assert forall|k: int| 0 <= k < j implies (#[trigger] repo.templates[k]).name != name by {
        assert(repo.templates[k].name != repo.templates[j].name);
    }
    lemma_index(repo, name, j);
}

/// A name that the repository has stands at its index.
pub proof fn lemma_has_index(repo: RepositoryView, name: Seq<char>)
    requires
        repo.wf(),
        repo.has(name),
    ensures
        0 <= repo.index_of(name) < repo.templates.len(),
        repo.templates[repo.index_of(name)].name == name,
{
    let j = choose|j: int| 0 <= j < repo.templates.len() && (#[trigger] repo.templates[j]).name == name;
    lemma_unique_index(repo, name, j);
}

/// The snapshot holds exactly the entries that are kept: each of its files
/// is what such an entry contributes, and each such entry contributes one
/// of its files.
pub proof fn lemma_snapshot_members(
    entries: Seq<SourceEntryView>,
    directory: Seq<char>,
    patterns: Seq<Seq<char>>,
)
    ensures
        forall|k: int|
            #![trigger snapshot(entries, directory, patterns)[k]]
            0 <= k < snapshot(entries, directory, patterns).len() ==> comes_from(
                snapshot(entries, directory, patterns)[k],
                entries,
                directory,
                patterns,
                source_index(snapshot(entries, directory, patterns)[k], entries, directory, patterns),
            ),
        forall|i: int|
            0 <= i < entries.len() && is_kept(#[trigger] entries[i], directory, patterns)
                ==> snapshot(entries, directory, patterns).contains(file_of(entries[i], directory)),
    decreases entries.len(),
{
    let all = snapshot(entries, directory, patterns);
    if entries.len() > 0 {
        let front = entries.drop_last();
        let rest = snapshot(front, directory, patterns);
        let e = entries.last();
        lemma_snapshot_members(front, directory, patterns);
        assert forall|k: int| #![trigger all[k]] 0 <= k < all.len() implies comes_from(
            all[k],
            entries,
            directory,
            patterns,
            source_index(all[k], entries, directory, patterns),
        ) by {
            if k < rest.len() {
                assert(all[k] == rest[k]);
                let i = source_index(rest[k], front, directory, patterns);
                assert(entries[i] == front[i]);
                assert(comes_from(all[k], entries, directory, patterns, i));
            } else {
                assert(comes_from(all[k], entries, directory, patterns, entries.len() - 1));
            }
        }
        assert forall|i: int|
            0 <= i < entries.len() && is_kept(#[trigger] entries[i], directory, patterns) implies all.contains(
            file_of(entries[i], directory),
        ) by {
            if i < front.len() {
                assert(entries[i] == front[i]);
                let file = file_of(front[i], directory);
                assert(rest.contains(file));
                let k = choose|k: int| 0 <= k < rest.len() && rest[k] == file;
                assert(all[k] == file);
            } else {
                assert(all[all.len() - 1] == file_of(e, directory));
            }
        }
    } else {
        assert(all.len() == 0);
    }
}

/// Round-trip fidelity. A template made from the walk of a directory, saved
/// in a repository that has no template of its name and then looked up by
/// that name, is the template that was made. Its files are the snapshot of
/// the walk, so its file tree maps the relative path of every file found to
/// that file's content, and holds no other path.
pub proof fn law_make_save_get(
    repo: RepositoryView,
    name: Seq<char>,
    directory: Seq<char>,
    description: Option<Seq<char>>,
    entries: Seq<SourceEntryView>,
    now: u64,
)
    requires
        repo.wf(),
        !repo.has(name),
        maker_outcome(name, directory, description, Some(entries), now, Seq::empty()) is Ok,
    ensures
        ({
            let made = maker_outcome(name, directory, description, Some(entries), now, Seq::empty())->Ok_0;
            let saved = repo.save(made);
            &&& saved is Ok
            &&& saved->Ok_0.wf()
            &&& saved->Ok_0.get(name) == Ok::<TemplateView, ErrorKind>(made)
            &&& made.files == snapshot(entries, directory, Seq::empty())
            &&& forall|i: int|
                0 <= i < entries.len() && is_kept(#[trigger] entries[i], directory, Seq::empty()) ==> {
                    let path = relative_path(entries[i].path, directory);
                    made.file_tree().dom().contains(path) && made.file_tree()[path]
                        == entries[i].content
                }
            &&& forall|path: Seq<char>| #[trigger]
                made.file_tree().dom().contains(path) ==> exists|i: int|
                    comes_from(
                        (path, made.file_tree()[path]),
                        entries,
                        directory,
                        Seq::empty(),
                        i,
                    )
        }),
{
    let none = Seq::<Seq<char>>::empty();
    let made = maker_outcome(name, directory, description, Some(entries), now, none)->Ok_0;
    let saved = repo.save(made)->Ok_0;
    assert(made.as_local() == made);
    let last = repo.templates.len() as int;
    assert(saved.templates[last] == made);
    assert forall|i: int, j: int| 0 <= i < j < saved.templates.len() implies saved.templates[i].name
        != saved.templates[j].name by {
        if j == last {
            assert(repo.templates[i].name != name);
        }
    }
    lemma_unique_index(saved, name, last);
    lemma_snapshot_members(entries, directory, none);
    assert forall|i: int|
        0 <= i < entries.len() && is_kept(#[trigger] entries[i], directory, none) implies {
        let path = relative_path(entries[i].path, directory);
        made.file_tree().dom().contains(path) && made.file_tree()[path] == entries[i].content
    } by {
        let file = file_of(entries[i], directory);
        assert(made.files.contains(file));
        let k = choose|k: int| 0 <= k < made.files.len() && made.files[k] == file;
        lemma_file_at(made, k);
    }
    assert forall|path: Seq<char>| #[trigger] made.file_tree().dom().contains(path) implies exists|
        i: int,
    | comes_from((path, made.file_tree()[path]), entries, directory, none, i) by {
        let k = choose|k: int| 0 <= k < made.files.len() && #[trigger] made.files[k].0 == path;
        lemma_file_at(made, k);
        let i = source_index(made.files[k], entries, directory, none);
        assert(comes_from((path, made.file_tree()[path]), entries, directory, none, i));
    }
}

/// In a valid template, the file tree maps the path of each file to the
/// content of that file.
pub proof fn lemma_file_at(template: TemplateView, k: int)
    requires
        template.wf(),
        0 <= k < template.files.len(),
    ensures
        template.file_tree().dom().contains(template.files[k].0),
        template.file_tree()[template.files[k].0] == template.files[k].1,
{
    let path = template.files[k].0;
    assert forall|j: int| 0 <= j < k implies #[trigger] template.files[j].0 != path by {
        assert(template.files[j].0 != template.files[k].0);
    }
    lemma_first_match(template, path, k);
}

/// Rename. After a template was renamed from `a` to `b`, looking up `b`
/// gives the template that `a` named, with its content, its description and
/// its timestamps, and looking up `a` fails with `NotFound`.
pub proof fn law_rename_then_get(repo: RepositoryView, a: Seq<char>, b: Seq<char>)
    requires
        repo.wf(),
        repo.rename(a, b) is Ok,
    ensures
        ({
            let renamed = repo.rename(a, b)->Ok_0;
            let before = repo.get(a)->Ok_0;
            &&& repo.get(a) is Ok
            &&& renamed.wf()
            &&& renamed.get(b) == Ok::<TemplateView, ErrorKind>(TemplateView { name: b, ..before })
            &&& renamed.get(a) == Err::<TemplateView, ErrorKind>(ErrorKind::NotFound)
        }),
{
    let renamed = repo.rename(a, b)->Ok_0;
    let i = repo.index_of(a);
    lemma_has_index(repo, a);
    assert(renamed.templates[i].name == b);
    assert forall|k: int, l: int| 0 <= k < l < renamed.templates.len() implies renamed.templates[k].name
        != renamed.templates[l].name by {
        assert(repo.templates[k].name != repo.templates[l].name);
        if k != i {
            assert(repo.templates[k].name != b);
        }
        if l != i {
            assert(repo.templates[l].name != b);
        }
    }
    assert forall|k: int| 0 <= k < renamed.templates.len() implies (#[trigger] renamed.templates[k]).wf()
        && renamed.templates[k].template_type == crate::template::TemplateType::Local by {
        assert(repo.templates[k].wf());
    }
    lemma_unique_index(renamed, b, i);
    assert forall|k: int| 0 <= k < renamed.templates.len() implies (#[trigger] renamed.templates[k]).name
        != a by {
        if k != i {
            assert(repo.templates[k].name != repo.templates[i].name);
        }
    }
}

/// Content update. Whatever the time handed in, an update of content that
/// succeeds keeps the time the template was made and sets the time of its
/// update to `now`, which is strictly later; the template then has the
/// files and the description of the source. The update fails with
/// `NotFound` exactly where the name is absent, and with `InvalidInput`
/// exactly where the name is present and `now` is not later than the time
/// the template was made.
pub proof fn law_update_keeps_creation(
    repo: RepositoryView,
    name: Seq<char>,
    source: TemplateView,
    now: u64,
)
    requires
        repo.wf(),
        source.wf(),
    ensures
        match repo.update_content(name, source, now) {
            Ok(updated) => {
                &&& updated.wf()
                &&& repo.get(name) matches Ok(before)
                &&& updated.get(name) matches Ok(t)
                &&& t.created_at == before.created_at
                &&& t.updated_at == Some(now)
                &&& now > before.created_at
                &&& t.files == source.files
                &&& t.description == source.description
                &&& t.name == name
            },
            Err(kind) => {
                &&& kind == ErrorKind::NotFound <==> !repo.has(name)
                &&& kind == ErrorKind::InvalidInput <==> (repo.get(name) matches Ok(before) && now
                    <= before.created_at)
            },
        },
{
    if repo.has(name) {
        let i = repo.index_of(name);
        lemma_has_index(repo, name);
        if now > repo.templates[i].created_at {
            let updated = repo.update_content(name, source, now)->Ok_0;
            assert forall|k: int, l: int| 0 <= k < l < updated.templates.len() implies updated.templates[k].name
                != updated.templates[l].name by {
                assert(repo.templates[k].name != repo.templates[l].name);
            }
            assert forall|k: int| 0 <= k < updated.templates.len() implies (#[trigger] updated.templates[k]).wf()
                && updated.templates[k].template_type == crate::template::TemplateType::Local by {
                assert(repo.templates[k].wf());
            }
            lemma_unique_index(updated, name, i);
        }
    }
}

/// Deletion. After a template was deleted, looking it up fails with
/// `NotFound`, and every other name is looked up as before.
pub proof fn law_delete_then_get(repo: RepositoryView, name: Seq<char>, other: Seq<char>)
    requires
        repo.wf(),
        repo.has(name),
        other != name,
    ensures
        ({
            let deleted = repo.delete(name);
            &&& deleted is Ok
            &&& deleted->Ok_0.wf()
            &&& deleted->Ok_0.get(name) == Err::<TemplateView, ErrorKind>(ErrorKind::NotFound)
            &&& deleted->Ok_0.get(other) == repo.get(other)
        }),
{
    let i = repo.index_of(name);
    lemma_has_index(repo, name);
    let deleted = repo.delete(name)->Ok_0;
    assert forall|k: int| 0 <= k < deleted.templates.len() implies #[trigger] deleted.templates[k]
        == repo.templates[if k < i { k } else { k + 1 }] by {}
    assert forall|k: int, l: int| 0 <= k < l < deleted.templates.len() implies deleted.templates[k].name
        != deleted.templates[l].name by {
        let k2 = if k < i { k } else { k + 1 };
        let l2 = if l < i { l } else { l + 1 };
        assert(repo.templates[k2].name != repo.templates[l2].name);
    }
    assert forall|k: int| 0 <= k < deleted.templates.len() implies (#[trigger] deleted.templates[k]).wf()
        && deleted.templates[k].template_type == crate::template::TemplateType::Local by {
        let k2 = if k < i { k } else { k + 1 };
        assert(repo.templates[k2].wf());
    }
    assert forall|k: int| 0 <= k < deleted.templates.len() implies (#[trigger] deleted.templates[k]).name
        != name by {
        let k2 = if k < i { k } else { k + 1 };
        assert(repo.templates[k2].name != repo.templates[i].name);
    }
    if repo.has(other) {
        let j = repo.index_of(other);
        lemma_has_index(repo, other);
        let j2 = if j < i { j } else { j - 1 };
        assert(deleted.templates[j2] == repo.templates[j]);
        lemma_unique_index(deleted, other, j2);
    } else {
        assert forall|k: int| 0 <= k < deleted.templates.len() implies (#[trigger] deleted.templates[k]).name
            != other by {
            let k2 = if k < i { k } else { k + 1 };
            assert(repo.templates[k2].name != other);
        }
    }
}

} // verus!
