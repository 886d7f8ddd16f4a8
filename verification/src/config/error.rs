//! Errors of configuration handling.
use vstd::prelude::*;

verus! {

#[verifier::external_type_specification]
#[verifier::external_body]
pub struct ExJsonError(serde_json::Error);

#[verifier::external_type_specification]
#[verifier::external_body]
pub struct ExPatchError(json_patch::PatchError);

#[verifier::external_type_specification]
#[verifier::external_body]
pub struct ExIoError(std::io::Error);

/// What went wrong while loading, checking, patching, saving or restoring a
/// configuration.
#[derive(Debug)]
pub enum ConfigError {
    FileNotFound { path: String },
    InvalidJson { source: serde_json::Error },
    PatchFailed { source: json_patch::PatchError },
    ValidationFailed { field: String, message: String },
    IoError { source: std::io::Error },
    BackupFailed { message: String },
    RestoreFailed { message: String },
}

/// [`ConfigError`] with its texts as character sequences; the errors of the
/// JSON, patch and I/O layers are kept as they are.
pub enum ConfigErrorView {
    FileNotFound { path: Seq<char> },
    InvalidJson { source: serde_json::Error },
    PatchFailed { source: json_patch::PatchError },
    ValidationFailed { field: Seq<char>, message: Seq<char> },
    IoError { source: std::io::Error },
    BackupFailed { message: Seq<char> },
    RestoreFailed { message: Seq<char> },
}

impl View for ConfigError {
    type V = ConfigErrorView;

    open spec fn view(&self) -> ConfigErrorView {
        match self {
            ConfigError::FileNotFound { path } => ConfigErrorView::FileNotFound { path: path@ },
            ConfigError::InvalidJson { source } => ConfigErrorView::InvalidJson { source: *source },
            ConfigError::PatchFailed { source } => ConfigErrorView::PatchFailed { source: *source },
            ConfigError::ValidationFailed { field, message } => ConfigErrorView::ValidationFailed {
                field: field@,
                message: message@,
            },
            ConfigError::IoError { source } => ConfigErrorView::IoError { source: *source },
            ConfigError::BackupFailed { message } => ConfigErrorView::BackupFailed {
                message: message@,
            },
            ConfigError::RestoreFailed { message } => ConfigErrorView::RestoreFailed {
                message: message@,
            },
        }
    }
}

pub type ConfigResult<T> = Result<T, ConfigError>;

/// The outcome of a configuration check, with the error by its view.
pub type ConfigCheck = Result<(), ConfigErrorView>;

/// The view of a check's result.
pub open spec fn config_checked(r: ConfigResult<()>) -> ConfigCheck {
    match r {
        Ok(()) => Ok(()),
        Err(e) => Err(e@),
    }
}

/// The first failure of two checks made in turn.
pub open spec fn and_then(first: ConfigCheck, second: ConfigCheck) -> ConfigCheck {
    match first {
        Ok(()) => second,
        Err(e) => Err(e),
    }
}

/// A validation failure of `field` with `message`.
pub open spec fn failed(field: Seq<char>, message: Seq<char>) -> ConfigCheck {
    Err(ConfigErrorView::ValidationFailed { field, message })
}

/// A validation failure of `field` with `message`.
pub fn validation_failed(field: &str, message: &str) -> (e: ConfigError)
    ensures
        e@ == (ConfigErrorView::ValidationFailed { field: field@, message: message@ }),
{
    ConfigError::ValidationFailed { field: field.to_owned(), message: message.to_owned() }
}

} // verus!
