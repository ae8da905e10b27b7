//! The ways in which a deployment ends without having done its work.

use crate::platform::BuildProfile;
use crate::text::{concatenate, decimal, decimal_text};
use vstd::prelude::*;
use vstd::string::*;

verus! {

/// The stage of a run at which an error arises.
#[derive(Clone, Copy, Debug, PartialEq, Eq, Structural)]
pub enum ErrorKind {
    /// The project cannot be read as one that has executables.
    Configuration,
    /// No usable destination directory can be determined.
    Resolution,
    /// The destination was settled, but copies into it failed.
    Copy,
}

/// Why a deployment was given up.
#[derive(Clone, Debug, PartialEq, Eq)]
pub enum DeployError {
    /// The project directory holds no manifest.
    ManifestMissing,
    /// The manifest exists but could not be read.
    ManifestUnreadable,
    /// The manifest is not valid TOML.
    ManifestInvalid,
    /// The manifests name no package and no binary target.
    NoPackagesFound,
    /// Candidates are known, but none of them has been built for the profile.
    NoBuiltExecutables(BuildProfile),
    /// The variable that overrides the destination is set to nothing.
    EmptyOverrideVariable,
    /// The default destination lies in the home directory, which is unknown.
    HomeNotSet,
    /// Something other than a directory occupies the destination path.
    DestinationNotADirectory { path: String },
    /// The destination directory is missing and could not be created.
    DestinationCreateFailed { path: String },
    /// Some executables could not be copied; `copied` others were.
    CopiesFailed { copied: usize, failed: usize },
}

/// The mathematical content of a [`DeployError`].
pub enum ErrorModel {
    ManifestMissing,
    ManifestUnreadable,
    ManifestInvalid,
    NoPackagesFound,
    NoBuiltExecutables(BuildProfile),
    EmptyOverrideVariable,
    HomeNotSet,
    DestinationNotADirectory { path: Seq<char> },
    DestinationCreateFailed { path: Seq<char> },
    CopiesFailed { copied: usize, failed: usize },
}

impl ErrorModel {
    /// The stage this error belongs to.
    pub open spec fn stage(self) -> ErrorKind {
        match self {
            ErrorModel::ManifestMissing
            | ErrorModel::ManifestUnreadable
            | ErrorModel::ManifestInvalid
            | ErrorModel::NoPackagesFound
            | ErrorModel::NoBuiltExecutables(_) => ErrorKind::Configuration,
            ErrorModel::EmptyOverrideVariable
            | ErrorModel::HomeNotSet
            | ErrorModel::DestinationNotADirectory { .. }
            | ErrorModel::DestinationCreateFailed { .. } => ErrorKind::Resolution,
            ErrorModel::CopiesFailed { .. } => ErrorKind::Copy,
        }
    }
}

impl View for DeployError {
    type V = ErrorModel;

    open spec fn view(&self) -> ErrorModel {
        match self {
            DeployError::ManifestMissing => ErrorModel::ManifestMissing,
            DeployError::ManifestUnreadable => ErrorModel::ManifestUnreadable,
            DeployError::ManifestInvalid => ErrorModel::ManifestInvalid,
            DeployError::NoPackagesFound => ErrorModel::NoPackagesFound,
            DeployError::NoBuiltExecutables(profile) => ErrorModel::NoBuiltExecutables(*profile),
            DeployError::EmptyOverrideVariable => ErrorModel::EmptyOverrideVariable,
            DeployError::HomeNotSet => ErrorModel::HomeNotSet,
            DeployError::DestinationNotADirectory { path } => ErrorModel::DestinationNotADirectory {
                path: path@,
            },
            DeployError::DestinationCreateFailed { path } => ErrorModel::DestinationCreateFailed {
                path: path@,
            },
            DeployError::CopiesFailed { copied, failed } => ErrorModel::CopiesFailed {
                copied: *copied,
                failed: *failed,
            },
        }
    }
}

/// The name of the environment variable that overrides the default
/// destination.
pub const TARGET_DIR_VARIABLE: &'static str = "MD_TARGET_DIR";

/// The message for a profile without artifacts.
pub open spec fn no_built_executables_text(profile: BuildProfile) -> Seq<char> {
    "No built "@ + profile.name() + " executables found. Have you run '"@
        + profile.build_command() + "'?"@
}

/// That nothing has been built is another error than that nothing could
/// have been: the two are different values, and both are errors of
/// configuration.
pub proof fn lemma_nothing_built_differs(profile: BuildProfile)
    ensures
        DeployError::NoBuiltExecutables(profile) != DeployError::NoPackagesFound,
        DeployError::NoBuiltExecutables(profile).stage() == ErrorKind::Configuration,
        DeployError::NoPackagesFound.stage() == ErrorKind::Configuration,
{
}

/// The sum of two counts, or the largest count there is where the sum is
/// larger still.
pub open spec fn capped_sum(left: usize, right: usize) -> nat {
    if left + right <= usize::MAX {
        (left + right) as nat
    } else {
        usize::MAX as nat
    }
}

/// The message for a run in which `failed` copies failed and `copied`
/// succeeded.
pub open spec fn copies_failed_text(copied: usize, failed: usize) -> Seq<char> {
    if copied > 0 {
        "Failed to copy "@ + decimal_text(failed as nat) + " of "@ + decimal_text(
            capped_sum(copied, failed),
        ) + " executables (copied "@ + decimal_text(copied as nat) + " successfully)"@
    } else {
        "Failed to copy "@ + decimal_text(failed as nat) + " executable(s)"@
    }
}

impl DeployError {
    /// The stage this error belongs to.
    pub open spec fn stage(self) -> ErrorKind {
        self@.stage()
    }

    /// The message shown to the user.
    pub open spec fn text(self) -> Seq<char> {
        match self {
            DeployError::ManifestMissing =>
                "No Cargo.toml found. Please run this tool in a Rust project directory"@,
            DeployError::ManifestUnreadable => "Failed to read Cargo.toml"@,
            DeployError::ManifestInvalid => "Failed to parse Cargo.toml"@,
            DeployError::NoPackagesFound => "No packages or bins found in Cargo.toml"@,
            DeployError::NoBuiltExecutables(profile) => no_built_executables_text(profile),
            DeployError::EmptyOverrideVariable => TARGET_DIR_VARIABLE@ + " is set but empty"@,
            DeployError::HomeNotSet => "HOME is not set; cannot determine ~/.local/bin"@,
            DeployError::DestinationNotADirectory { path } => "Target path "@ + path@
                + " exists but is not a directory"@,
            DeployError::DestinationCreateFailed { path } =>
                "Failed to create target directory "@ + path@,
            DeployError::CopiesFailed { copied, failed } => copies_failed_text(copied, failed),
        }
    }

    /// The stage this error belongs to.
    pub fn kind(&self) -> (kind: ErrorKind)
        ensures
            kind == self.stage(),
    {
        match self {
            DeployError::ManifestMissing => ErrorKind::Configuration,
            DeployError::ManifestUnreadable => ErrorKind::Configuration,
            DeployError::ManifestInvalid => ErrorKind::Configuration,
            DeployError::NoPackagesFound => ErrorKind::Configuration,
            DeployError::NoBuiltExecutables(_) => ErrorKind::Configuration,
            DeployError::EmptyOverrideVariable => ErrorKind::Resolution,
            DeployError::HomeNotSet => ErrorKind::Resolution,
            DeployError::DestinationNotADirectory { .. } => ErrorKind::Resolution,
            DeployError::DestinationCreateFailed { .. } => ErrorKind::Resolution,
            DeployError::CopiesFailed { .. } => ErrorKind::Copy,
        }
    }

    /// The message shown to the user.
    pub fn message(&self) -> (message: String)
        ensures
            message@ == self.text(),
    {
        match self {
            DeployError::ManifestMissing => {
                "No Cargo.toml found. Please run this tool in a Rust project directory".to_string()
            },
            DeployError::ManifestUnreadable => "Failed to read Cargo.toml".to_string(),
            DeployError::ManifestInvalid => "Failed to parse Cargo.toml".to_string(),
            DeployError::NoPackagesFound => "No packages or bins found in Cargo.toml".to_string(),
            DeployError::NoBuiltExecutables(profile) => {
                let mut message = concatenate("No built ", profile.dir_name());
                message.append(" executables found. Have you run '");
                message.append(profile.build_hint());
                message.append("'?");
                message
            },
            DeployError::EmptyOverrideVariable => concatenate(
                TARGET_DIR_VARIABLE,
                " is set but empty",
            ),
            DeployError::HomeNotSet => "HOME is not set; cannot determine ~/.local/bin".to_string(),
            DeployError::DestinationNotADirectory { path } => {
                let mut message = concatenate("Target path ", path.as_str());
                message.append(" exists but is not a directory");
                message
            },
            DeployError::DestinationCreateFailed { path } => concatenate(
                "Failed to create target directory ",
                path.as_str(),
            ),
            DeployError::CopiesFailed { copied, failed } => copies_failed_message(*copied, *failed),
        }
    }
}

/// The message for a run in which `failed` copies failed and `copied`
/// succeeded.
pub fn copies_failed_message(copied: usize, failed: usize) -> (message: String)
    ensures
        message@ == copies_failed_text(copied, failed),
{
    let failed_text = decimal(failed);
    let mut message = concatenate("Failed to copy ", failed_text.as_str());
    if copied > 0 {
        let total = match copied.checked_add(failed) {
            Some(sum) => decimal(sum),
            None => decimal(usize::MAX),
        };
        let copied_text = decimal(copied);
        message.append(" of ");
        message.append(total.as_str());
        message.append(" executables (copied ");
        message.append(copied_text.as_str());
        message.append(" successfully)");
    } else {
        message.append(" executable(s)");
    }
    message
}

} // verus!
