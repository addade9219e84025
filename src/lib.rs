//! Persistence of typed application settings: each settings type is loaded
//! from a per-project configuration file at start-up (falling back to its
//! default value) and written back whenever the host signals it.
pub mod paths;
pub mod persist;
pub mod settings;
pub mod store;

pub use persist::{PersistController, PersistJob, PersistRequest, Registration, RegistrationView};
pub use store::{PersistAction, PersistError, PersistEvent, StoredSettings, next_action, temp_path};
pub use paths::{PathResolutionError, resolved_directory, settings_file_name};
pub use settings::{PersistSetting, PersistSettings, Settingable, SettingsConfig, SettingsPlugin};
