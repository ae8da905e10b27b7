//! The two things that differ between builds and hosts: which profile's
//! artifacts are deployed, and how the host names an executable.

use vstd::prelude::*;
use vstd::string::*;

verus! {

/// The profile whose artifacts are deployed.
#[derive(Clone, Copy, Debug, PartialEq, Eq, Structural)]
pub enum BuildProfile {
    Release,
    Debug,
}

impl Default for BuildProfile {
    fn default() -> (profile: BuildProfile)
        ensures
            profile == BuildProfile::Release,
    {
        BuildProfile::Release
    }
}

impl BuildProfile {
    /// The name of the profile, which is also the name of its directory
    /// below `target`.
    pub open spec fn name(self) -> Seq<char> {
        match self {
            BuildProfile::Release => "release"@,
            BuildProfile::Debug => "debug"@,
        }
    }

    /// The command that produces this profile's artifacts.
    pub open spec fn build_command(self) -> Seq<char> {
        match self {
            BuildProfile::Release => "cargo build --release"@,
            BuildProfile::Debug => "cargo build"@,
        }
    }

    /// The directory below `target` that holds this profile's artifacts.
    pub fn dir_name(self) -> (name: &'static str)
        ensures
            name@ == self.name(),
    {
        match self {
            BuildProfile::Release => "release",
            BuildProfile::Debug => "debug",
        }
    }

    /// The build command to suggest when this profile has no artifacts.
    pub fn build_hint(self) -> (command: &'static str)
        ensures
            command@ == self.build_command(),
    {
        match self {
            BuildProfile::Release => "cargo build --release",
            BuildProfile::Debug => "cargo build",
        }
    }
}

/// The family of operating systems a deployment runs on.
#[derive(Clone, Copy, Debug, PartialEq, Eq, Structural)]
pub enum Platform {
    Unix,
    Windows,
}

/// The file name under which `platform` stores the executable `base`.
pub open spec fn exe_file_name(platform: Platform, base: Seq<char>) -> Seq<char> {
    match platform {
        Platform::Unix => base,
        Platform::Windows => base + ".exe"@,
    }
}

/// What `std::path::is_separator` answers for `character`: whether the
/// platform the crate is compiled for accepts it between the components of
/// a path. A compiled program gets the same answer wherever it runs; which
/// characters a platform accepts is the standard library's to say, and is
/// not spelled out here.
pub uninterp spec fn path_separates(character: char) -> bool;

impl Platform {
    /// The platform this program runs on. Hosts that accept the backslash
    /// between path components count as Windows, all others as Unix.
    pub fn host() -> (platform: Platform)
        ensures
            platform == host_platform(),
    {
        Platform::accepting(is_separator('\\'))
    }

    /// The platform of a host, told by whether the backslash separates the
    /// components of a path there: Windows where it does, Unix where it does
    /// not.
    pub fn accepting(backslash: bool) -> (platform: Platform)
        ensures
            platform == platform_accepting(backslash),
    {
        if backslash {
            Platform::Windows
        } else {
            Platform::Unix
        }
    }
}

/// The platform of a host on which the backslash does, or does not,
/// separate the components of a path.
pub open spec fn platform_accepting(backslash: bool) -> Platform {
    if backslash {
        Platform::Windows
    } else {
        Platform::Unix
    }
}

/// The platform this program runs on: the one that the standard library's
/// answer about the backslash tells.
pub open spec fn host_platform() -> Platform {
    platform_accepting(path_separates('\\'))
}

/// `std::path::is_separator`: whether `character` separates the components
/// of a path on the platform the crate is compiled for.
#[verifier::external_body]
fn is_separator(character: char) -> (answer: bool)
    ensures
        answer == path_separates(character),
{
    std::path::is_separator(character)
}

/// The file name of the executable `base` on `platform`.
pub fn exe_filename_on(platform: Platform, base: &str) -> (name: String)
    ensures
        name@ == exe_file_name(platform, base@),
{
    let mut name = base.to_string();
    match platform {
        Platform::Unix => {},
        Platform::Windows => {
            name.append(".exe");
        },
    }
    name
}

/// The file name of the executable `base` on the host.
pub fn exe_filename(base: &str) -> (name: String)
    ensures
        name@ == exe_file_name(host_platform(), base@),
{
    exe_filename_on(Platform::host(), base)
}

} // verus!
