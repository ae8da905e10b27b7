//! From manifests to the executables that are there to deploy: the candidate
//! names of a project, and which of them the artifact directory holds.

use crate::error::{DeployError, ErrorKind};
use crate::manifest::{
    candidate_names, decode_toml, manifest_bin_names, toml_decoded, toml_tree, TomlNode,
};
use crate::platform::{exe_file_name, exe_filename_on, BuildProfile, Platform};
use crate::text::{contains, texts};
use vstd::prelude::*;
use vstd::string::*;

verus! {

/// `base` followed by the names of `more` that are not already there, each
/// once, in the order in which they first occur.
pub open spec fn merged(base: Seq<Seq<char>>, more: Seq<Seq<char>>) -> Seq<Seq<char>>
    decreases more.len(),
{
    if more.len() == 0 {
        base
    } else {
        let earlier = merged(base, more.drop_last());
        if earlier.contains(more.last()) {
            earlier
        } else {
            earlier.push(more.last())
        }
    }
}

/// The texts of the member manifests that could be read; a member whose
/// manifest could not be read is `None`.
pub open spec fn optional_texts(items: Seq<Option<String>>) -> Seq<Option<Seq<char>>> {
    items.map_values(
        |item: Option<String>|
            match item {
                Some(text) => Some(text@),
                None => None,
            },
    )
}

/// The candidate names of one workspace member: those of its manifest where
/// the manifest could be read and decodes, none otherwise.
pub open spec fn member_names(manifest: Option<Seq<char>>) -> Seq<Seq<char>> {
    match manifest {
        Some(text) => match toml_decoded(text) {
            Some(tree) => candidate_names(tree),
            None => Seq::empty(),
        },
        None => Seq::empty(),
    }
}

/// `base` extended by the candidate names of every member in turn.
pub open spec fn merged_members(
    base: Seq<Seq<char>>,
    members: Seq<Option<Seq<char>>>,
) -> Seq<Seq<char>>
    decreases members.len(),
{
    if members.len() == 0 {
        base
    } else {
        merged(merged_members(base, members.drop_last()), member_names(members.last()))
    }
}

/// The candidate names of a project: those of the root manifest, the extra
/// names supplied from outside, and those of every workspace member, each
/// name once.
pub open spec fn all_candidates(
    root: TomlNode,
    extra: Seq<Seq<char>>,
    members: Seq<Option<Seq<char>>>,
) -> Seq<Seq<char>> {
    merged_members(merged(merged(Seq::empty(), candidate_names(root)), extra), members)
}

/// The candidates whose executable is among `files`, in the order of the
/// candidates.
pub open spec fn built_names(
    candidates: Seq<Seq<char>>,
    files: Seq<Seq<char>>,
    platform: Platform,
) -> Seq<Seq<char>>
    decreases candidates.len(),
{
    if candidates.len() == 0 {
        Seq::empty()
    } else {
        let earlier = built_names(candidates.drop_last(), files, platform);
        if files.contains(exe_file_name(platform, candidates.last())) {
            earlier.push(candidates.last())
        } else {
            earlier
        }
    }
}

/// Merging keeps what is there, adds nothing but the new names, and never
/// adds a name twice.
pub proof fn lemma_merged(base: Seq<Seq<char>>, more: Seq<Seq<char>>)
    ensures
        base.is_prefix_of(merged(base, more)),
        forall|name: Seq<char>| #[trigger]
            merged(base, more).contains(name) <==> base.contains(name) || more.contains(name),
        base.no_duplicates() ==> merged(base, more).no_duplicates(),
    decreases more.len(),
{
    if more.len() > 0 {
        let front = more.drop_last();
        let earlier = merged(base, front);
        lemma_merged(base, front);
        assert forall|name: Seq<char>| #[trigger]
            merged(base, more).contains(name) <==> base.contains(name) || more.contains(
                name,
            ) by {
            if more.contains(name) {
                let i = choose|i: int| 0 <= i < more.len() && more[i] == name;
                if i < front.len() {
                    assert(front[i] == name);
                }
            }
            if !earlier.contains(more.last()) {
                let longer = earlier.push(more.last());
                assert(longer[earlier.len() as int] == more.last());
                if earlier.contains(name) {
                    let i = choose|i: int| 0 <= i < earlier.len() && earlier[i] == name;
                    assert(longer[i] == name);
                }
            }
        }
    }
}

/// Tells whether the manifest of some member gives `name`.
pub open spec fn in_some_member(members: Seq<Option<Seq<char>>>, name: Seq<char>) -> bool {
    exists|i: int| 0 <= i < members.len() && member_names(#[trigger] members[i]).contains(name)
}

proof fn lemma_merged_members(base: Seq<Seq<char>>, members: Seq<Option<Seq<char>>>)
    ensures
        forall|name: Seq<char>| #[trigger]
            merged_members(base, members).contains(name) <==> base.contains(name)
                || in_some_member(members, name),
        base.no_duplicates() ==> merged_members(base, members).no_duplicates(),
    decreases members.len(),
{
    if members.len() > 0 {
        let front = members.drop_last();
        let last = members.last();
        let earlier = merged_members(base, front);
        lemma_merged_members(base, front);
        lemma_merged(earlier, member_names(last));
        assert forall|name: Seq<char>| #[trigger]
            merged_members(base, members).contains(name) <==> base.contains(name)
                || in_some_member(members, name) by {
            if in_some_member(members, name) {
                let i = choose|i: int|
                    0 <= i < members.len() && member_names(#[trigger] members[i]).contains(name);
                if i < front.len() {
                    assert(front[i] == members[i]);
                }
            }
        }
    }
}

/// The candidates of a project hold no name twice, and hold exactly the
/// names that the root manifest, the extra names or a readable member
/// manifest give.
pub proof fn lemma_all_candidates(
    root: TomlNode,
    extra: Seq<Seq<char>>,
    members: Seq<Option<Seq<char>>>,
)
    ensures
        all_candidates(root, extra, members).no_duplicates(),
        forall|name: Seq<char>| #[trigger]
            all_candidates(root, extra, members).contains(name) <==> candidate_names(
                root,
            ).contains(name) || extra.contains(name) || in_some_member(members, name),
{
    let none = Seq::<Seq<char>>::empty();
    let first = merged(none, candidate_names(root));
    let start = merged(first, extra);
    lemma_merged(none, candidate_names(root));
    lemma_merged(first, extra);
    lemma_merged_members(start, members);
}

/// A project has no candidates exactly when the root manifest gives no
/// name, no extra name is supplied and no member manifest gives one. That is
/// the case, in particular, for a root manifest with neither a package nor
/// binary targets in a project without extra names and without members. The
/// error for it is one of configuration.
pub proof fn lemma_no_candidates(
    root: TomlNode,
    extra: Seq<Seq<char>>,
    members: Seq<Option<Seq<char>>>,
)
    ensures
        all_candidates(root, extra, members).len() == 0 <==> {
            &&& candidate_names(root).len() == 0
            &&& extra.len() == 0
            &&& forall|i: int|
                0 <= i < members.len() ==> member_names(#[trigger] members[i]).len() == 0
        },
        root.get("package"@) is None && root.get("bin"@) is None ==> candidate_names(root).len()
            == 0,
        DeployError::NoPackagesFound.stage() == ErrorKind::Configuration,
{
    let all = all_candidates(root, extra, members);
    lemma_all_candidates(root, extra, members);
    if all.len() > 0 {
        let name = all[0];
        assert(all.contains(name));
    } else {
        if candidate_names(root).len() > 0 {
            assert(all.contains(candidate_names(root)[0]));
        }
        if extra.len() > 0 {
            assert(all.contains(extra[0]));
        }
        assert forall|i: int| 0 <= i < members.len() implies member_names(
            #[trigger] members[i],
        ).len() == 0 by {
            let names = member_names(members[i]);
            if names.len() > 0 {
                assert(all.contains(names[0]));
            }
        }
    }
}

/// A candidate is among the built names exactly when the artifact directory
/// holds its executable; the built names keep the order of the candidates and
/// repeat none that was not repeated.
pub proof fn lemma_built_names(
    candidates: Seq<Seq<char>>,
    files: Seq<Seq<char>>,
    platform: Platform,
)
    ensures
        forall|name: Seq<char>| #[trigger]
            built_names(candidates, files, platform).contains(name) <==> candidates.contains(
                name,
            ) && files.contains(exe_file_name(platform, name)),
        built_names(candidates, files, platform).len() <= candidates.len(),
        candidates.no_duplicates() ==> built_names(candidates, files, platform).no_duplicates(),
    decreases candidates.len(),
{
    if candidates.len() > 0 {
        let front = candidates.drop_last();
        let last = candidates.last();
        let earlier = built_names(front, files, platform);
        lemma_built_names(front, files, platform);
        assert forall|name: Seq<char>| #[trigger]
            built_names(candidates, files, platform).contains(name) <==> candidates.contains(
                name,
            ) && files.contains(exe_file_name(platform, name)) by {
            if candidates.contains(name) {
                let i = choose|i: int| 0 <= i < candidates.len() && candidates[i] == name;
                if i < front.len() {
                    assert(front[i] == name);
                }
            }
            if files.contains(exe_file_name(platform, last)) {
                let longer = earlier.push(last);
                assert(longer[earlier.len() as int] == last);
                if earlier.contains(name) {
                    let i = choose|i: int| 0 <= i < earlier.len() && earlier[i] == name;
                    assert(longer[i] == name);
                }
            }
        }
        if candidates.no_duplicates() {
            assert(earlier.contains(last) ==> front.contains(last));
        }
    }
}

/// Adds to `names` every name of `more` that it does not hold yet.
pub fn merge_names(names: &mut Vec<String>, more: &Vec<String>)
    ensures
        texts(final(names)@) == merged(texts(old(names)@), texts(more@)),
{
    let mut index: usize = 0;
    while index < more.len()
        invariant
            index <= more.len(),
            texts(names@) == merged(texts(old(names)@), texts(more@).take(index as int)),
        decreases more.len() - index,
    {
        let ghost done = texts(more@).take(index as int);
        let ghost next = texts(more@).take(index + 1);
        assert(next.drop_last() =~= done);
        if !contains(names, more[index].as_str()) {
            names.push(more[index].clone());
        }
        index += 1;
    }
    assert(texts(more@).take(more.len() as int) =~= texts(more@));
}

/// Gathers the candidate names of a project: those of the root manifest,
/// the `extra` names, and those of every workspace member whose manifest text
/// is given and decodes. Members that are `None` or do not decode are passed
/// over. A project without any candidate is refused.
pub fn collect_candidates(
    root: &toml::Value,
    extra: &Vec<String>,
    member_manifests: &Vec<Option<String>>,
) -> (candidates: Result<Vec<String>, DeployError>)
    ensures
        match candidates {
            Ok(names) => {
                &&& texts(names@) == all_candidates(
                    toml_tree(*root),
                    texts(extra@),
                    optional_texts(member_manifests@),
                )
                &&& names@.len() > 0
                &&& texts(names@).no_duplicates()
            },
            Err(error) => {
                &&& error == DeployError::NoPackagesFound
                &&& all_candidates(
                    toml_tree(*root),
                    texts(extra@),
                    optional_texts(member_manifests@),
                ).len() == 0
            },
        },
{
    let mut names: Vec<String> = Vec::new();
    assert(texts(names@) =~= Seq::<Seq<char>>::empty());
    let root_names = manifest_bin_names(root);
    merge_names(&mut names, &root_names);
    merge_names(&mut names, extra);
    let ghost start = texts(names@);
    let ghost members = optional_texts(member_manifests@);
    let mut index: usize = 0;
    while index < member_manifests.len()
        invariant
            index <= member_manifests.len(),
            members == optional_texts(member_manifests@),
            texts(names@) == merged_members(start, members.take(index as int)),
        decreases member_manifests.len() - index,
    {
        let ghost done = members.take(index as int);
        let ghost next = members.take(index + 1);
        assert(next.drop_last() =~= done);
        match &member_manifests[index] {
            Some(text) => match decode_toml(text.as_str()) {
                Some(manifest) => {
                    let member = manifest_bin_names(&manifest);
                    merge_names(&mut names, &member);
                },
                None => {},
            },
            None => {},
        }
        index += 1;
    }
    assert(members.take(member_manifests.len() as int) =~= members);
    proof {
        lemma_all_candidates(toml_tree(*root), texts(extra@), members);
    }
    if names.len() == 0 {
        Err(DeployError::NoPackagesFound)
    } else {
        Ok(names)
    }
}

/// A candidate, the file name of its executable, and whether the artifact
/// directory holds that file. Only artifacts that exist are deployed.
#[derive(Clone, Debug, PartialEq, Eq)]
pub struct ResolvedArtifact {
    /// The candidate name.
    pub name: String,
    /// The file name of the executable on the platform.
    pub file_name: String,
    /// Whether the artifact directory holds the file.
    pub exists: bool,
}

/// The mathematical content of a [`ResolvedArtifact`].
pub struct ArtifactModel {
    pub name: Seq<char>,
    pub file_name: Seq<char>,
    pub exists: bool,
}

impl View for ResolvedArtifact {
    type V = ArtifactModel;

    open spec fn view(&self) -> ArtifactModel {
        ArtifactModel { name: self.name@, file_name: self.file_name@, exists: self.exists }
    }
}

/// The contents of a list of artifacts.
pub open spec fn artifacts(items: Seq<ResolvedArtifact>) -> Seq<ArtifactModel> {
    items.map_values(|item: ResolvedArtifact| item@)
}

/// The artifact of the candidate `name`, given the file names found in the
/// artifact directory.
pub open spec fn artifact_of(
    name: Seq<char>,
    files: Seq<Seq<char>>,
    platform: Platform,
) -> ArtifactModel {
    ArtifactModel {
        name,
        file_name: exe_file_name(platform, name),
        exists: files.contains(exe_file_name(platform, name)),
    }
}

/// The artifacts of `candidates`, one for each and in their order.
pub open spec fn resolved(
    candidates: Seq<Seq<char>>,
    files: Seq<Seq<char>>,
    platform: Platform,
) -> Seq<ArtifactModel> {
    candidates.map_values(|name: Seq<char>| artifact_of(name, files, platform))
}

/// The names of the artifacts that exist, in order.
pub open spec fn existing_names(items: Seq<ArtifactModel>) -> Seq<Seq<char>>
    decreases items.len(),
{
    if items.len() == 0 {
        Seq::empty()
    } else if items.last().exists {
        existing_names(items.drop_last()).push(items.last().name)
    } else {
        existing_names(items.drop_last())
    }
}

/// The names of the resolved artifacts that exist are the built names.
pub proof fn lemma_existing_are_built(
    candidates: Seq<Seq<char>>,
    files: Seq<Seq<char>>,
    platform: Platform,
)
    ensures
        existing_names(resolved(candidates, files, platform)) == built_names(
            candidates,
            files,
            platform,
        ),
    decreases candidates.len(),
{
    if candidates.len() > 0 {
        lemma_existing_are_built(candidates.drop_last(), files, platform);
        assert(resolved(candidates, files, platform).drop_last() =~= resolved(
            candidates.drop_last(),
            files,
            platform,
        ));
    }
}

/// Pairs every candidate with the file name of its executable on
/// `platform` and with whether that file is among `files`, the file names found
/// in the artifact directory.
pub fn resolve_artifacts(
    candidates: &Vec<String>,
    files: &Vec<String>,
    platform: Platform,
) -> (found: Vec<ResolvedArtifact>)
    ensures
        artifacts(found@) == resolved(texts(candidates@), texts(files@), platform),
{
    let mut found: Vec<ResolvedArtifact> = Vec::new();
    let mut index: usize = 0;
    while index < candidates.len()
        invariant
            index <= candidates.len(),
            found@.len() == index,
            artifacts(found@) == resolved(texts(candidates@), texts(files@), platform).take(
                index as int,
            ),
        decreases candidates.len() - index,
    {
        let file_name = exe_filename_on(platform, candidates[index].as_str());
        let exists = contains(files, file_name.as_str());
        found.push(ResolvedArtifact { name: candidates[index].clone(), file_name, exists });
        index += 1;
    }
    found
}

/// The names of the artifacts that exist, in order.
pub fn built_executables(found: &Vec<ResolvedArtifact>) -> (built: Vec<String>)
    ensures
        texts(built@) == existing_names(artifacts(found@)),
{
    let mut built: Vec<String> = Vec::new();
    let mut index: usize = 0;
    while index < found.len()
        invariant
            index <= found.len(),
            texts(built@) == existing_names(artifacts(found@).take(index as int)),
        decreases found.len() - index,
    {
        let ghost done = artifacts(found@).take(index as int);
        let ghost next = artifacts(found@).take(index + 1);
        assert(next.drop_last() =~= done);
        if found[index].exists {
            built.push(found[index].name.clone());
        }
        index += 1;
    }
    assert(artifacts(found@).take(found.len() as int) =~= artifacts(found@));
    built
}

/// The candidates that have been built: those whose executable, under the
/// name `platform` gives it, is among `files`, the file names found in the
/// artifact directory. Candidates without such a file are left out.
pub fn find_built_executables(
    candidates: &Vec<String>,
    files: &Vec<String>,
    platform: Platform,
) -> (built: Vec<String>)
    ensures
        texts(built@) == built_names(texts(candidates@), texts(files@), platform),
        forall|name: Seq<char>| #[trigger]
            texts(built@).contains(name) <==> texts(candidates@).contains(name) && texts(
                files@,
            ).contains(exe_file_name(platform, name)),
{
    let found = resolve_artifacts(candidates, files, platform);
    proof {
        lemma_existing_are_built(texts(candidates@), texts(files@), platform);
        lemma_built_names(texts(candidates@), texts(files@), platform);
    }
    built_executables(&found)
}

/// The executables of a project that have been built, from its decoded root
/// manifest, the extra names, the texts of the member manifests and the file
/// names found in the artifact directory. A project without any candidate is
/// refused; one whose candidates have not been built yields an empty list.
pub fn discover_built_executables(
    root: &toml::Value,
    extra: &Vec<String>,
    member_manifests: &Vec<Option<String>>,
    files: &Vec<String>,
    platform: Platform,
) -> (built: Result<Vec<String>, DeployError>)
    ensures
        match built {
            Ok(names) => {
                &&& all_candidates(
                    toml_tree(*root),
                    texts(extra@),
                    optional_texts(member_manifests@),
                ).len() > 0
                &&& texts(names@) == built_names(
                    all_candidates(
                        toml_tree(*root),
                        texts(extra@),
                        optional_texts(member_manifests@),
                    ),
                    texts(files@),
                    platform,
                )
            },
            Err(error) => {
                &&& error == DeployError::NoPackagesFound
                &&& all_candidates(
                    toml_tree(*root),
                    texts(extra@),
                    optional_texts(member_manifests@),
                ).len() == 0
            },
        },
{
    match collect_candidates(root, extra, member_manifests) {
        Ok(candidates) => Ok(find_built_executables(&candidates, files, platform)),
        Err(error) => Err(error),
    }
}

/// Accepts a list of built executables unless it is empty.
pub fn require_built(
    built: Vec<String>,
    profile: BuildProfile,
) -> (checked: Result<Vec<String>, DeployError>)
    ensures
        match checked {
            Ok(names) => names == built && built@.len() > 0,
            Err(error) => error == DeployError::NoBuiltExecutables(profile) && built@.len() == 0,
        },
{
    if built.len() == 0 {
        Err(DeployError::NoBuiltExecutables(profile))
    } else {
        Ok(built)
    }
}

} // verus!
