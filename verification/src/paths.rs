//! Where the application keeps its data: the application folder under the
//! user's home directory, and the repositories in it.

use vstd::prelude::*;
use crate::error::{not_found_error, other_error, ErrorKind, StoreError};
use crate::template::text_view;
use crate::text::{chars_of, concat};

verus! {

/// The platforms the application can run on. Only Windows has a rule for
/// where the application keeps its data.
#[derive(Clone, Copy, Debug, PartialEq, Eq, Structural)]
pub enum Platform {
    Windows,
    Posix,
}

/// The character that parts the segments of a path on a platform.
pub open spec fn separator_of(platform: Platform) -> char {
    match platform {
        Platform::Windows => '\\',
        Platform::Posix => '/',
    }
}

/// `base` with `segment` below it: the platform's separator parts the two
/// unless `base` is empty or already ends with a separator. A forward slash
/// is a separator on every platform.
pub open spec fn joined(base: Seq<char>, segment: Seq<char>, platform: Platform) -> Seq<char> {
    if base.len() == 0 || base.last() == separator_of(platform) || base.last() == '/' {
        base + segment
    } else {
        base.push(separator_of(platform)) + segment
    }
}

/// The application folder of the user whose home directory is `home`, on
/// Windows.
pub open spec fn app_local_path_of(home: Seq<char>) -> Seq<char> {
    joined(
        joined(joined(home, "AppData"@, Platform::Windows), "Local"@, Platform::Windows),
        "Templo"@,
        Platform::Windows,
    )
}

/// The directory that holds the repositories, under the application folder.
pub open spec fn root_repos_path_of(app_root: Seq<char>, platform: Platform) -> Seq<char> {
    joined(app_root, "Repositories"@, platform)
}

/// The storage unit of the repository `repo_name`.
pub open spec fn repo_path_of(app_root: Seq<char>, repo_name: Seq<char>, platform: Platform) -> Seq<
    char,
> {
    joined(root_repos_path_of(app_root, platform), repo_name, platform)
}

/// The registry of remote repositories, under the application folder.
pub open spec fn remote_registry_path_of(app_root: Seq<char>, platform: Platform) -> Seq<char> {
    joined(app_root, "remote-repos-registry.json"@, platform)
}

/// Where the application folder is: `NotFound` without a home directory,
/// `Other` on a platform without a rule, else the folder under `home`.
pub open spec fn app_local_outcome(home: Option<Seq<char>>, platform: Platform) -> Result<
    Seq<char>,
    ErrorKind,
> {
    match home {
        None => Err(ErrorKind::NotFound),
        Some(h) => if platform == Platform::Windows {
            Ok(app_local_path_of(h))
        } else {
            Err(ErrorKind::Other)
        },
    }
}

/// Where the repositories are, for a home directory and a platform.
pub open spec fn root_repos_outcome(home: Option<Seq<char>>, platform: Platform) -> Result<
    Seq<char>,
    ErrorKind,
> {
    match app_local_outcome(home, platform) {
        Ok(root) => Ok(root_repos_path_of(root, platform)),
        Err(kind) => Err(kind),
    }
}

/// Where the repository `repo_name` is, for a home directory and a
/// platform.
pub open spec fn repo_outcome(
    home: Option<Seq<char>>,
    platform: Platform,
    repo_name: Seq<char>,
) -> Result<Seq<char>, ErrorKind> {
    match app_local_outcome(home, platform) {
        Ok(root) => Ok(repo_path_of(root, repo_name, platform)),
        Err(kind) => Err(kind),
    }
}

/// Where the registry of remote repositories is, for a home directory and a
/// platform.
pub open spec fn remote_registry_outcome(home: Option<Seq<char>>, platform: Platform) -> Result<
    Seq<char>,
    ErrorKind,
> {
    match app_local_outcome(home, platform) {
        Ok(root) => Ok(remote_registry_path_of(root, platform)),
        Err(kind) => Err(kind),
    }
}

/// Whether a path result is the outcome that its model gives.
pub open spec fn path_result_is(out: Result<String, StoreError>, outcome: Result<Seq<char>, ErrorKind>) -> bool {
    match outcome {
        Ok(path) => out matches Ok(p) && p@ == path,
        Err(kind) => out matches Err(e) && e.kind == kind,
    }
}

/// `home::home_dir` reports the current user's home directory from the
/// environment, or nothing where it cannot be determined. Nothing is
/// claimed of it: it differs from user to user. A home directory whose
/// name is not Unicode text counts as undetermined.
#[verifier::external_body]
fn home_directory() -> (out: Option<String>) {
    home::home_dir().and_then(|path| path.into_os_string().into_string().ok())
}

/// The character that parts the segments of a path on the platform.
pub fn separator(platform: Platform) -> (out: char)
    ensures
        out == separator_of(platform),
{
    match platform {
        Platform::Windows => '\\',
        Platform::Posix => '/',
    }
}

/// `base` with `segment` below it.
pub fn join_path(base: &str, segment: &str, platform: Platform) -> (out: String)
    ensures
        out@ == joined(base@, segment@, platform),
{
    let chars = chars_of(base);
    let sep = separator(platform);
    if chars.len() == 0 || chars[chars.len() - 1] == sep || chars[chars.len() - 1] == '/' {
        concat(base, segment)
    } else {
        let mut parted = base.to_owned();
        parted.push(sep);
        concat(parted.as_str(), segment)
    }
}

/// The application folder, given the home directory and the platform.
pub fn app_local_path_from(home: Option<String>, platform: Platform) -> (out: Result<
    String,
    StoreError,
>)
    ensures
        path_result_is(out, app_local_outcome(text_view(home), platform)),
{
    let home = match home {
        Some(home) => home,
        None => {
            return Err(not_found_error("Not is possible to get your home folder."));
        },
    };
    match platform {
        Platform::Windows => {
            let path = join_path(home.as_str(), "AppData", platform);
            let path = join_path(path.as_str(), "Local", platform);
            Ok(join_path(path.as_str(), "Templo", platform))
        },
        Platform::Posix => Err(other_error("Invalid OS target.")),
    }
}

/// The directory that holds the repositories, under `app_root`.
pub fn root_repos_path_in(app_root: &str, platform: Platform) -> (out: String)
    ensures
        out@ == root_repos_path_of(app_root@, platform),
{
    join_path(app_root, "Repositories", platform)
}

/// The storage unit of the repository `repo_name`, under `app_root`.
pub fn repo_path_in(app_root: &str, repo_name: &str, platform: Platform) -> (out: String)
    ensures
        out@ == repo_path_of(app_root@, repo_name@, platform),
{
    let root = root_repos_path_in(app_root, platform);
    join_path(root.as_str(), repo_name, platform)
}

/// The registry of remote repositories, under `app_root`.
pub fn remote_repo_reg_file_path_in(app_root: &str, platform: Platform) -> (out: String)
    ensures
        out@ == remote_registry_path_of(app_root@, platform),
{
    join_path(app_root, "remote-repos-registry.json", platform)
}

/// The application folder of the current user. Whatever the home directory
/// turns out to be, the result is what `app_local_outcome` gives for it.
pub fn get_app_local_path(platform: Platform) -> (out: Result<String, StoreError>)
    ensures
        exists|home: Option<Seq<char>>| path_result_is(out, #[trigger] app_local_outcome(home, platform)),
{
    let home = home_directory();
    let ghost found = text_view(home);
    let out = app_local_path_from(home, platform);
    assert(path_result_is(out, app_local_outcome(found, platform)));
    out
}

/// The directory that holds the current user's repositories.
pub fn get_root_repos_path(platform: Platform) -> (out: Result<String, StoreError>)
    ensures
        exists|home: Option<Seq<char>>| path_result_is(out, #[trigger] root_repos_outcome(home, platform)),
{
    let home = home_directory();
    let ghost found = text_view(home);
    let out = match app_local_path_from(home, platform) {
        Ok(root) => Ok(root_repos_path_in(root.as_str(), platform)),
        Err(e) => Err(e),
    };
    assert(path_result_is(out, root_repos_outcome(found, platform)));
    out
}

/// The storage unit of the current user's repository `repo_name`.
pub fn get_repo_path(repo_name: &str, platform: Platform) -> (out: Result<String, StoreError>)
    ensures
        exists|home: Option<Seq<char>>| path_result_is(out, #[trigger] repo_outcome(home, platform, repo_name@)),
{
    let home = home_directory();
    let ghost found = text_view(home);
    let out = match app_local_path_from(home, platform) {
        Ok(root) => Ok(repo_path_in(root.as_str(), repo_name, platform)),
        Err(e) => Err(e),
    };
    assert(path_result_is(out, repo_outcome(found, platform, repo_name@)));
    out
}

/// The current user's registry of remote repositories.
pub fn get_remote_repo_reg_file_path(platform: Platform) -> (out: Result<String, StoreError>)
    ensures
        exists|home: Option<Seq<char>>| path_result_is(out, #[trigger] remote_registry_outcome(home, platform)),
{
    let home = home_directory();
    let ghost found = text_view(home);
    let out = match app_local_path_from(home, platform) {
        Ok(root) => Ok(remote_repo_reg_file_path_in(root.as_str(), platform)),
        Err(e) => Err(e),
    };
    assert(path_result_is(out, remote_registry_outcome(found, platform)));
    out
}

} // verus!
