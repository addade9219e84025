//! Where a project's settings file lives.
use vstd::prelude::*;
use directories::ProjectDirs;
use std::path::Path;

verus! {

/// The platform could not name a configuration directory for the project
/// (no home directory, an unsupported platform).
#[derive(Debug, Clone, Copy, PartialEq, Eq, Structural)]
pub struct PathResolutionError;

/// The name of the settings file of `project`: the project name followed by
/// the settings extension.
pub open spec fn spec_settings_file_name(project: Seq<char>) -> Seq<char> {
    project + ".toml"@
}

/// The settings file name of `project`, as in `"My Game.toml"`.
pub fn settings_file_name(project: &str) -> (r: String)
    ensures
        r@ == spec_settings_file_name(project@),
{
    let mut name = project.to_owned();
    proof { reveal_strlit(".toml"); }
    name.append(".toml");
    name
}

/// The outcome of looking up a configuration directory: the directory
/// found, or `PathResolutionError` where none was.
pub fn resolved_directory(found: Option<String>) -> (r: Result<String, PathResolutionError>)
    ensures
        found matches Some(d) ==> r matches Ok(e) && e@ == d@,
        found is None ==> r == Err::<String, PathResolutionError>(PathResolutionError),
{
    match found {
        Some(directory) => Ok(directory),
        None => Err(PathResolutionError),
    }
}

/// The path that joining `name` onto the directory `dir` gives.
pub uninterp spec fn joined_path(dir: Seq<char>, name: Seq<char>) -> Seq<char>;

/// Relies on `directories::ProjectDirs::from` and `ProjectDirs::config_dir`:
/// the platform's configuration directory for the project, or `None` where
/// the platform names none (no home directory). Which directory it is depends
/// on the environment (the home directory and the XDG variables); a named one
/// is never empty, being the project's part joined onto a base directory.
#[verifier::external_body]
pub(crate) fn project_config_dir(domain: &str, company: &str, project: &str) -> (r: Option<String>)
    ensures
        r matches Some(d) ==> d@.len() > 0,
{
    match ProjectDirs::from(domain, company, project) {
        Some(dirs) => Some(dirs.config_dir().to_string_lossy().into_owned()),
        None => None,
    }
}

/// Relies on `std::path::Path::join`: the path of `name` inside `dir`,
/// which depends on the two strings alone.
#[verifier::external_body]
pub(crate) fn join_path(dir: &str, name: &str) -> (r: String)
    ensures
        r@ == joined_path(dir@, name@),
{
    Path::new(dir).join(name).to_string_lossy().into_owned()
}

} // verus!
