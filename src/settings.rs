//! The plugin value that names one settings type's project, and the
//! resolved location of its file.
use vstd::prelude::*;
use core::marker::PhantomData;
use crate::store::StoredSettings;
use crate::paths::{
    PathResolutionError, join_path, joined_path, project_config_dir, resolved_directory,
    settings_file_name,
    spec_settings_file_name,
};

verus! {

/// What a settings type must offer: a deep copy and a default value.
/// Encoding and decoding are the host's codec and stay outside.
pub trait Settingable: Clone + Default {}

impl<S: Clone + Default> Settingable for S {}

/// A request to persist every registered settings type.
#[derive(Debug, Clone, Copy, PartialEq, Eq, Structural)]
pub struct PersistSettings;

/// A request to persist the settings type `S` alone.
pub struct PersistSetting<S: Settingable>(pub PhantomData<S>);

impl<S: Settingable> Default for PersistSetting<S> {
    fn default() -> (r: Self)
        ensures
            r.0 == PhantomData::<S>,
    {
        PersistSetting(PhantomData)
    }
}

/// Where the settings type `S` is kept: its configuration directory and the
/// settings file inside it. Resolved once, when the type is registered.
pub struct SettingsConfig<S: Settingable> {
    directory: String,
    path: String,
    settings: PhantomData<S>,
}

impl<S: Settingable> SettingsConfig<S> {
    /// The configuration directory.
    pub closed spec fn spec_directory(&self) -> Seq<char> {
        self.directory@
    }

    /// The settings file's path.
    pub closed spec fn spec_path(&self) -> Seq<char> {
        self.path@
    }

    /// The configuration directory, created before each write.
    pub fn directory(&self) -> (r: &str)
        ensures
            r@ == self.spec_directory(),
    {
        self.directory.as_str()
    }

    /// The settings file.
    pub fn path(&self) -> (r: &str)
        ensures
            r@ == self.spec_path(),
    {
        self.path.as_str()
    }
}

/// Registers one settings type under a project of a company.
pub struct SettingsPlugin<S: Settingable> {
    domain: String,
    company: String,
    project: String,
    settings: PhantomData<S>,
}

impl<S: Settingable> SettingsPlugin<S> {
    /// The organisation domain the project is filed under.
    pub closed spec fn spec_domain(&self) -> Seq<char> {
        self.domain@
    }

    /// The company that owns the project.
    pub closed spec fn spec_company(&self) -> Seq<char> {
        self.company@
    }

    /// The project, which also names the settings file.
    pub closed spec fn spec_project(&self) -> Seq<char> {
        self.project@
    }

    /// A plugin for `project` of `company`, filed under the domain `com`.
    pub fn new(company: &str, project: &str) -> (r: Self)
        ensures
            r.spec_domain() == "com"@,
            r.spec_company() == company@,
            r.spec_project() == project@,
    {
        proof { reveal_strlit("com"); }
        SettingsPlugin {
            domain: "com".to_owned(),
            company: company.to_owned(),
            project: project.to_owned(),
            settings: PhantomData,
        }
    }

    /// The settings file's path inside the configuration directory `directory`.
    pub open spec fn spec_path_in(&self, directory: Seq<char>) -> Seq<char> {
        joined_path(directory, spec_settings_file_name(self.spec_project()))
    }

    /// The platform's configuration directory for this project; an error
    /// where the platform names none. Which directory that is depends on the
    /// environment (the home directory and the XDG variables).
    /// The lookup itself neither creates nor touches the directory.
    pub fn settings_directory(&self) -> (r: Result<String, PathResolutionError>)
        ensures
            r matches Ok(d) ==> d@.len() > 0,
    {
        resolved_directory(self.lookup_directory())
    }

    /// The platform's answer for this project's configuration directory.
    fn lookup_directory(&self) -> (r: Option<String>)
        ensures
            r matches Some(d) ==> d@.len() > 0,
    {
        project_config_dir(self.domain.as_str(), self.company.as_str(), self.project.as_str())
    }

    /// The settings file `<project>.toml` inside `directory`.
    pub fn path_in(&self, directory: &str) -> (r: String)
        ensures
            r@ == self.spec_path_in(directory@),
    {
        let name = settings_file_name(self.project.as_str());
        join_path(directory, name.as_str())
    }

    /// The settings file inside the directory that a lookup `found`, or
    /// `PathResolutionError` where it found none.
    pub fn path_from(&self, found: Option<String>) -> (r: Result<String, PathResolutionError>)
        ensures
            found matches Some(d) ==> r matches Ok(p) && p@ == self.spec_path_in(d@),
            found is None ==> r == Err::<String, PathResolutionError>(PathResolutionError),
    {
        match resolved_directory(found) {
            Ok(directory) => Ok(self.path_in(directory.as_str())),
            Err(e) => Err(e),
        }
    }

    /// The settings file inside the platform's configuration directory;
    /// `PathResolutionError` exactly where the platform names none
    /// (see `path_from`).
    pub fn path(&self) -> (r: Result<String, PathResolutionError>)
        ensures
            r matches Ok(p) ==> exists|d: Seq<char>| d.len() > 0 && p@ == self.spec_path_in(d),
    {
        self.path_from(self.lookup_directory())
    }

    /// Where this settings type is kept when its configuration directory is
    /// `directory`.
    pub fn config_in(&self, directory: String) -> (r: SettingsConfig<S>)
        ensures
            r.spec_directory() == directory@,
            r.spec_path() == self.spec_path_in(directory@),
    {
        let path = self.path_in(directory.as_str());
        SettingsConfig { directory, path, settings: PhantomData }
    }

    /// Where this settings type is kept, given the directory that a lookup
    /// `found`; `PathResolutionError` where it found none.
    pub fn config_from(&self, found: Option<String>) -> (r: Result<SettingsConfig<S>, PathResolutionError>)
        ensures
            found matches Some(d) ==> r matches Ok(c) && c.spec_directory() == d@
                && c.spec_path() == self.spec_path_in(d@),
            found is None ==> r is Err,
    {
        match resolved_directory(found) {
            Ok(directory) => Ok(self.config_in(directory)),
            Err(e) => Err(e),
        }
    }

    /// Resolves where this settings type is kept: the directory is looked up
    /// once, and the file is the settings file inside it;
    /// `PathResolutionError` exactly where the platform names no directory
    /// (see `config_from`).
    pub fn config(&self) -> (r: Result<SettingsConfig<S>, PathResolutionError>)
        ensures
            r matches Ok(c) ==> c.spec_directory().len() > 0
                && c.spec_path() == self.spec_path_in(c.spec_directory()),
    {
        self.config_from(self.lookup_directory())
    }

    /// The stored value, where the settings file held one that decoded;
    /// `None` for a missing, unreadable or undecodable file.
    pub fn load(&self, stored: StoredSettings<S>) -> (r: Option<S>)
        ensures
            stored matches StoredSettings::Decoded(s) ==> r == Some(s),
            !(stored is Decoded) ==> r is None,
    {
        match stored {
            StoredSettings::Decoded(s) => Some(s),
            _ => None,
        }
    }

    /// The value the type starts with: the stored value where the settings
    /// file held one that decoded, and the type's default otherwise. A load
    /// never fails.
    pub fn resource(&self, stored: StoredSettings<S>) -> (r: S)
        ensures
            stored matches StoredSettings::Decoded(s) ==> r == s,
            !(stored is Decoded) ==> call_ensures(S::default, (), r),
    {
        match self.load(stored) {
            Some(s) => s,
            None => S::default(),
        }
    }
}

} // verus!
