//! Where things lie in a project: the manifest, the manifests of workspace
//! members, the artifacts of a profile, and the marks of a Tauri application.

use crate::options::ProjectType;
use crate::paths::{join, path_join};
use crate::platform::BuildProfile;
use crate::text::texts;
use vstd::prelude::*;
use vstd::string::*;

verus! {

/// The file name of a manifest.
pub const MANIFEST_FILE: &'static str = "Cargo.toml";

/// The file name of a Tauri configuration.
pub const TAURI_CONFIG_FILE: &'static str = "tauri.conf.json";

/// The directory below which Cargo places its artifacts.
pub const ARTIFACTS_DIR: &'static str = "target";

/// The directory, below the project directory, in which a Tauri
/// application keeps its package.
pub const TAURI_DIR: &'static str = "src-tauri";

/// The layout of a project: the one asked for, and otherwise Tauri exactly
/// when the project has both a package in `src-tauri` and a Tauri
/// configuration.
pub open spec fn layout_of(
    requested: Option<ProjectType>,
    has_tauri_manifest: bool,
    has_tauri_config: bool,
) -> ProjectType {
    match requested {
        Some(layout) => layout,
        None => if has_tauri_manifest && has_tauri_config {
            ProjectType::Tauri
        } else {
            ProjectType::Standard
        },
    }
}

/// Settles the layout of a project from what was asked for and what the
/// project directory holds.
pub fn detect_project_type(
    requested: Option<ProjectType>,
    has_tauri_manifest: bool,
    has_tauri_config: bool,
) -> (layout: ProjectType)
    ensures
        layout == layout_of(requested, has_tauri_manifest, has_tauri_config),
{
    match requested {
        Some(layout) => layout,
        None => {
            if has_tauri_manifest && has_tauri_config {
                ProjectType::Tauri
            } else {
                ProjectType::Standard
            }
        },
    }
}

/// The directory that holds the package of a project with the given
/// layout: the project directory itself, or its `src-tauri` directory.
pub open spec fn base_of(project_dir: Seq<char>, layout: ProjectType) -> Seq<char> {
    match layout {
        ProjectType::Standard => project_dir,
        ProjectType::Tauri => path_join(project_dir, TAURI_DIR@),
    }
}

/// The directory that holds the package of a project, and below which its
/// artifacts lie.
pub fn base_dir(project_dir: &str, layout: ProjectType) -> (base: String)
    ensures
        base@ == base_of(project_dir@, layout),
{
    match layout {
        ProjectType::Standard => project_dir.to_string(),
        ProjectType::Tauri => join(project_dir, TAURI_DIR),
    }
}

/// The manifest of the package in `dir`.
pub fn manifest_path(dir: &str) -> (path: String)
    ensures
        path@ == path_join(dir@, MANIFEST_FILE@),
{
    join(dir, MANIFEST_FILE)
}

/// The manifests of the workspace members `members`, whose paths are
/// relative to `base`.
pub open spec fn member_manifests(base: Seq<char>, members: Seq<Seq<char>>) -> Seq<Seq<char>> {
    members.map_values(|member: Seq<char>| path_join(path_join(base, member), MANIFEST_FILE@))
}

/// The paths of the manifests of the workspace members, in the order of the
/// members.
pub fn member_manifest_paths(base: &str, members: &Vec<String>) -> (paths: Vec<String>)
    ensures
        texts(paths@) == member_manifests(base@, texts(members@)),
{
    let mut paths: Vec<String> = Vec::new();
    let mut index: usize = 0;
    while index < members.len()
        invariant
            index <= members.len(),
            paths@.len() == index,
            texts(paths@) == member_manifests(base@, texts(members@)).take(index as int),
        decreases members.len() - index,
    {
        let dir = join(base, members[index].as_str());
        paths.push(manifest_path(dir.as_str()));
        index += 1;
    }
    paths
}

/// The directory that holds the artifacts of `profile`.
pub fn artifact_dir(base: &str, profile: BuildProfile) -> (dir: String)
    ensures
        dir@ == path_join(path_join(base@, ARTIFACTS_DIR@), profile.name()),
{
    let target = join(base, ARTIFACTS_DIR);
    join(target.as_str(), profile.dir_name())
}

/// The places in which a Tauri configuration is looked for: the project
/// directory, then its `src-tauri` directory.
pub fn tauri_config_paths(project_dir: &str) -> (paths: Vec<String>)
    ensures
        texts(paths@) == seq![
            path_join(project_dir@, TAURI_CONFIG_FILE@),
            path_join(path_join(project_dir@, TAURI_DIR@), TAURI_CONFIG_FILE@),
        ],
{
    let mut paths: Vec<String> = Vec::new();
    paths.push(join(project_dir, TAURI_CONFIG_FILE));
    let inner = join(project_dir, TAURI_DIR);
    paths.push(join(inner.as_str(), TAURI_CONFIG_FILE));
    paths
}

} // verus!
