//! Where the executables go. The destination is settled from what the caller
//! was told on the command line and what it found in the environment; nothing
//! here looks at the environment itself.

use crate::error::DeployError;
use crate::paths::{join, path_join, resolve_against, resolved_against};
use crate::platform::Platform;
use vstd::prelude::*;
use vstd::string::*;

verus! {

/// What the host's environment says about destinations.
#[derive(Clone, Debug, PartialEq, Eq)]
pub struct Environment {
    /// The platform the deployment runs on.
    pub platform: Platform,
    /// The value of `HOME`, where it is set.
    pub home: Option<String>,
    /// The value of the variable that overrides the default destination,
    /// where it is set.
    pub target_dir: Option<String>,
}

/// The mathematical content of an [`Environment`].
pub struct EnvironmentModel {
    pub platform: Platform,
    pub home: Option<Seq<char>>,
    pub target_dir: Option<Seq<char>>,
}

impl View for Environment {
    type V = EnvironmentModel;

    open spec fn view(&self) -> EnvironmentModel {
        EnvironmentModel {
            platform: self.platform,
            home: optional_text(self.home),
            target_dir: optional_text(self.target_dir),
        }
    }
}

/// The directory a deployment copies into.
#[derive(Clone, Debug, PartialEq, Eq)]
pub struct DeploymentTarget {
    /// The destination directory.
    pub dir: String,
    /// Whether `dir` was asked for explicitly.
    pub override_used: bool,
    /// The directory that would have been used without an explicit request,
    /// where one can be determined.
    pub default_dir: Option<String>,
}

/// The mathematical content of a [`DeploymentTarget`].
pub struct TargetModel {
    pub dir: Seq<char>,
    pub override_used: bool,
    pub default_dir: Option<Seq<char>>,
}

/// The characters of an optional string.
pub open spec fn optional_text(text: Option<String>) -> Option<Seq<char>> {
    match text {
        Some(characters) => Some(characters@),
        None => None,
    }
}

impl View for DeploymentTarget {
    type V = TargetModel;

    open spec fn view(&self) -> TargetModel {
        TargetModel {
            dir: self.dir@,
            override_used: self.override_used,
            default_dir: optional_text(self.default_dir),
        }
    }
}

/// The default destination on Windows.
pub const WINDOWS_DEFAULT_DIR: &'static str = "c:\\\\apps";

/// The destination that the platform itself suggests: a fixed directory on
/// Windows, `.local/bin` below the home directory elsewhere.
pub open spec fn platform_dir(
    platform: Platform,
    home: Option<Seq<char>>,
) -> Result<Seq<char>, DeployError> {
    match platform {
        Platform::Windows => Ok(WINDOWS_DEFAULT_DIR@),
        Platform::Unix => match home {
            Some(dir) => Ok(path_join(path_join(dir, ".local"@), "bin"@)),
            None => Err(DeployError::HomeNotSet),
        },
    }
}

/// The destination used when none is asked for explicitly: the value of the
/// override variable where it is set, which must then not be empty, and the
/// platform's suggestion otherwise.
pub open spec fn default_dir(
    platform: Platform,
    home: Option<Seq<char>>,
    variable: Option<Seq<char>>,
) -> Result<Seq<char>, DeployError> {
    match variable {
        Some(dir) => if dir.len() == 0 {
            Err(DeployError::EmptyOverrideVariable)
        } else {
            Ok(dir)
        },
        None => platform_dir(platform, home),
    }
}

/// The destination of a deployment. An explicit request wins, read relative
/// to the project directory unless it is absolute, and is never refused; without
/// one the default is used, and its error is the error of the resolution.
pub open spec fn destination(
    project_dir: Seq<char>,
    requested: Option<Seq<char>>,
    platform: Platform,
    home: Option<Seq<char>>,
    variable: Option<Seq<char>>,
) -> Result<TargetModel, DeployError> {
    match requested {
        Some(path) => Ok(
            TargetModel {
                dir: resolved_against(project_dir, path),
                override_used: true,
                default_dir: match default_dir(platform, home, variable) {
                    Ok(dir) => Some(dir),
                    Err(_) => None,
                },
            },
        ),
        None => match default_dir(platform, home, variable) {
            Ok(dir) => Ok(TargetModel { dir, override_used: false, default_dir: Some(dir) }),
            Err(error) => Err(error),
        },
    }
}

/// The destination used when none is asked for explicitly.
pub fn default_target_dir(environment: &Environment) -> (dir: Result<String, DeployError>)
    ensures
        match dir {
            Ok(path) => default_dir(
                environment.platform,
                optional_text(environment.home),
                optional_text(environment.target_dir),
            ) == Ok::<Seq<char>, DeployError>(path@),
            Err(error) => default_dir(
                environment.platform,
                optional_text(environment.home),
                optional_text(environment.target_dir),
            ) == Err::<Seq<char>, DeployError>(error),
        },
{
    match &environment.target_dir {
        Some(dir) => {
            if dir.as_str().is_empty() {
                Err(DeployError::EmptyOverrideVariable)
            } else {
                Ok(dir.clone())
            }
        },
        None => match environment.platform {
            Platform::Windows => Ok(WINDOWS_DEFAULT_DIR.to_string()),
            Platform::Unix => match &environment.home {
                Some(home) => {
                    let local = join(home.as_str(), ".local");
                    Ok(join(local.as_str(), "bin"))
                },
                None => Err(DeployError::HomeNotSet),
            },
        },
    }
}

/// Settles the destination of a deployment from the explicit request, if
/// any, and the environment.
pub fn resolve_destination(
    project_dir: &str,
    requested: Option<&str>,
    environment: &Environment,
) -> (target: Result<DeploymentTarget, DeployError>)
    ensures
        match target {
            Ok(found) => destination(
                project_dir@,
                match requested {
                    Some(path) => Some(path@),
                    None => None,
                },
                environment.platform,
                optional_text(environment.home),
                optional_text(environment.target_dir),
            ) == Ok::<TargetModel, DeployError>(found@),
            Err(error) => destination(
                project_dir@,
                match requested {
                    Some(path) => Some(path@),
                    None => None,
                },
                environment.platform,
                optional_text(environment.home),
                optional_text(environment.target_dir),
            ) == Err::<TargetModel, DeployError>(error),
        },
{
    match requested {
        Some(path) => {
            let default_dir = match default_target_dir(environment) {
                Ok(dir) => Some(dir),
                Err(_) => None,
            };
            Ok(
                DeploymentTarget {
                    dir: resolve_against(project_dir, path),
                    override_used: true,
                    default_dir,
                },
            )
        },
        None => match default_target_dir(environment) {
            Ok(dir) => Ok(
                DeploymentTarget { dir: dir.clone(), override_used: false, default_dir: Some(dir) },
            ),
            Err(error) => Err(error),
        },
    }
}

/// An explicit request settles the destination whatever the environment
/// holds: neither the override variable nor the platform's suggestion is looked
/// at, a relative request is read from the project directory, and an absolute
/// one is taken as it is.
pub proof fn lemma_request_wins(
    project_dir: Seq<char>,
    path: Seq<char>,
    platform: Platform,
    home: Option<Seq<char>>,
    variable: Option<Seq<char>>,
)
    ensures
        match destination(project_dir, Some(path), platform, home, variable) {
            Ok(target) => target.override_used && target.dir == resolved_against(
                project_dir,
                path,
            ),
            Err(_) => false,
        },
{
}

/// Without an explicit request a set override variable settles the
/// destination whatever the platform and the home directory are: its value is
/// the destination, and an empty value is an error.
pub proof fn lemma_variable_before_platform(
    project_dir: Seq<char>,
    dir: Seq<char>,
    platform: Platform,
    home: Option<Seq<char>>,
)
    ensures
        match destination(project_dir, None, platform, home, Some(dir)) {
            Ok(target) => dir.len() > 0 && target.dir == dir && !target.override_used,
            Err(error) => dir.len() == 0 && error == DeployError::EmptyOverrideVariable,
        },
{
}

/// Without an explicit request and without the override variable the
/// platform's suggestion is the destination, and its error the error.
pub proof fn lemma_platform_last(
    project_dir: Seq<char>,
    platform: Platform,
    home: Option<Seq<char>>,
)
    ensures
        match destination(project_dir, None, platform, home, None) {
            Ok(target) => platform_dir(platform, home) == Ok::<Seq<char>, DeployError>(
                target.dir,
            ) && !target.override_used,
            Err(error) => platform_dir(platform, home) == Err::<Seq<char>, DeployError>(error),
        },
{
}

/// What the caller found at the destination path.
#[derive(Clone, Copy, Debug, PartialEq, Eq, Structural)]
pub enum PathKind {
    /// Nothing is there.
    Missing,
    /// A directory is there.
    Directory,
    /// Something is there that is not a directory.
    Other,
}

/// What remains to be done before copies can go to the destination.
#[derive(Clone, Copy, Debug, PartialEq, Eq, Structural)]
pub enum Preparation {
    /// The directory exists.
    Ready,
    /// The directory and its missing parents have to be created.
    Create,
}

/// Decides what has to happen to the destination `dir`, given what is there
/// now. Whether the destination was asked for explicitly plays no part: a file
/// in the place of the default directory is refused like any other.
pub fn prepare_destination(dir: &str, found: PathKind) -> (step: Result<Preparation, DeployError>)
    ensures
        match found {
            PathKind::Missing => step == Ok::<Preparation, DeployError>(Preparation::Create),
            PathKind::Directory => step == Ok::<Preparation, DeployError>(Preparation::Ready),
            PathKind::Other => match step {
                Err(DeployError::DestinationNotADirectory { path }) => path@ == dir@,
                _ => false,
            },
        },
{
    match found {
        PathKind::Missing => Ok(Preparation::Create),
        PathKind::Directory => Ok(Preparation::Ready),
        PathKind::Other => Err(DeployError::DestinationNotADirectory { path: dir.to_string() }),
    }
}

/// Turns the outcome of creating the destination `dir` into the outcome of
/// the resolution.
pub fn confirm_created(dir: &str, created: bool) -> (outcome: Result<(), DeployError>)
    ensures
        match outcome {
            Ok(_) => created,
            Err(DeployError::DestinationCreateFailed { path }) => !created && path@ == dir@,
            Err(_) => false,
        },
{
    if created {
        Ok(())
    } else {
        Err(DeployError::DestinationCreateFailed { path: dir.to_string() })
    }
}

} // verus!
