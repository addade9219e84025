//! Loading a settings value, and the steps of writing one.
use vstd::prelude::*;
use crate::persist::PersistJob;

verus! {

/// What was found at a settings file: nothing, a file that could not be
/// read, text that the codec could not decode, or a decoded value.
pub enum StoredSettings<S> {
    Missing,
    Unreadable,
    Undecodable,
    Decoded(S),
}

/// Why a write of settings failed.
#[derive(Debug, Clone, Copy, PartialEq, Eq, Structural)]
pub enum PersistError {
    DirectoryCreateFailed,
    EncodeFailed,
    WriteFailed,
}

/// The side of a settings file that a write fills first, next to the file
/// itself; renaming it over the file completes the write, so that the file
/// is never seen half written.
pub open spec fn spec_temp_path(path: Seq<char>) -> Seq<char> {
    path + ".tmp"@
}

/// The temporary file beside `path`.
pub fn temp_path(path: &str) -> (r: String)
    ensures
        r@ == spec_temp_path(path@),
{
    let mut temp = path.to_owned();
    proof { reveal_strlit(".tmp"); }
    temp.append(".tmp");
    temp
}

/// What the host reports back after each step of a write.
pub enum PersistEvent {
    /// The write was asked for.
    Started,
    /// The directory was created, or already existed (`true`), or not.
    DirectoryCreated(bool),
    /// The codec's text for the current value, or `None` where it failed.
    Encoded(Option<String>),
    /// The text was written to the temporary file, or not.
    Written(bool),
    /// The temporary file was renamed over the settings file, or not.
    Renamed(bool),
}

/// What the host is to do next in a write.
pub enum PersistAction {
    CreateDirectory(String),
    Encode,
    Write { path: String, text: String },
    Rename { from: String, to: String },
    Finish(Result<(), PersistError>),
}

/// The next step of the write `job` after `event`: create the directory,
/// encode the current value, write the text beside the file, rename it over
/// the file; the first step that fails ends the write with its error.
pub fn next_action(job: &PersistJob, event: PersistEvent) -> (r: PersistAction)
    ensures
        match event {
            PersistEvent::Started => r matches PersistAction::CreateDirectory(d)
                && d@ == job.directory@,
            PersistEvent::DirectoryCreated(true) => r is Encode,
            PersistEvent::DirectoryCreated(false) => r == PersistAction::Finish(
                Err(PersistError::DirectoryCreateFailed),
            ),
            PersistEvent::Encoded(Some(text)) => r matches PersistAction::Write { path, text: t }
                && path@ == spec_temp_path(job.path@) && t@ == text@,
            PersistEvent::Encoded(None) => r == PersistAction::Finish(
                Err(PersistError::EncodeFailed),
            ),
            PersistEvent::Written(true) => r matches PersistAction::Rename { from, to }
                && from@ == spec_temp_path(job.path@) && to@ == job.path@,
            PersistEvent::Written(false) => r == PersistAction::Finish(
                Err(PersistError::WriteFailed),
            ),
            PersistEvent::Renamed(true) => r == PersistAction::Finish(Ok(())),
            PersistEvent::Renamed(false) => r == PersistAction::Finish(
                Err(PersistError::WriteFailed),
            ),
        },
{
    match event {
        PersistEvent::Started => PersistAction::CreateDirectory(job.directory.clone()),
        PersistEvent::DirectoryCreated(created) => {
            if created {
                PersistAction::Encode
            } else {
                PersistAction::Finish(Err(PersistError::DirectoryCreateFailed))
            }
        },
        PersistEvent::Encoded(encoded) => match encoded {
            Some(text) => PersistAction::Write { path: temp_path(job.path.as_str()), text },
            None => PersistAction::Finish(Err(PersistError::EncodeFailed)),
        },
        PersistEvent::Written(written) => {
            if written {
                PersistAction::Rename {
                    from: temp_path(job.path.as_str()),
                    to: job.path.clone(),
                }
            } else {
                PersistAction::Finish(Err(PersistError::WriteFailed))
            }
        },
        PersistEvent::Renamed(renamed) => {
            if renamed {
                PersistAction::Finish(Ok(()))
            } else {
                PersistAction::Finish(Err(PersistError::WriteFailed))
            }
        },
    }
}

} // verus!
