//! What a decoded Cargo manifest says about the executables of a package and
//! about the members of a workspace.
//!
//! Decoding is the `toml` crate's work. A decoded value is opaque to the
//! proofs; what they know of it is its shape, [`TomlNode`], which the
//! accessors of `toml::Value` reveal one layer at a time.

use crate::error::DeployError;
use crate::paths::{file_stem, path_file_stem};
use crate::text::{contains, texts};
use vstd::prelude::*;
use vstd::string::*;

verus! {

/// `toml::Value`, made known so that decoded manifests can be passed on.
/// Nothing is claimed of a value here; what the proofs know of one they know
/// from the accessors below.
#[verifier::external_type_specification]
#[verifier::external_body]
pub struct ExTomlValue(toml::Value);

/// The shape of a TOML value, as far as manifests are read: strings, arrays
/// and tables are told apart, every other value counts as a scalar.
pub enum TomlNode {
    Text(Seq<char>),
    Array(Seq<TomlNode>),
    Table(Map<Seq<char>, TomlNode>),
    Scalar,
}

/// The shape of a decoded value.
pub uninterp spec fn toml_tree(value: toml::Value) -> TomlNode;

/// The shape of the document that `toml::from_str` decodes `text` to, where
/// it accepts the text.
pub uninterp spec fn toml_decoded(text: Seq<char>) -> Option<TomlNode>;

impl TomlNode {
    /// The entry under `key`, where this node is a table that has one.
    pub open spec fn get(self, key: Seq<char>) -> Option<TomlNode> {
        match self {
            TomlNode::Table(entries) => if entries.contains_key(key) {
                Some(entries[key])
            } else {
                None
            },
            _ => None,
        }
    }

    /// The characters of this node, where it is a string.
    pub open spec fn as_text(self) -> Option<Seq<char>> {
        match self {
            TomlNode::Text(text) => Some(text),
            _ => None,
        }
    }

    /// The elements of this node, where it is an array.
    pub open spec fn as_items(self) -> Option<Seq<TomlNode>> {
        match self {
            TomlNode::Array(items) => Some(items),
            _ => None,
        }
    }

    /// The string stored under `key`, where this node is a table that holds
    /// a string there.
    pub open spec fn text_at(self, key: Seq<char>) -> Option<Seq<char>> {
        match self.get(key) {
            Some(entry) => entry.as_text(),
            None => None,
        }
    }

    /// The array stored under `key`, where this node is a table that holds
    /// an array there.
    pub open spec fn items_at(self, key: Seq<char>) -> Option<Seq<TomlNode>> {
        match self.get(key) {
            Some(entry) => entry.as_items(),
            None => None,
        }
    }
}

/// The shapes of the values in a decoded array, in order.
pub open spec fn trees(values: Seq<toml::Value>) -> Seq<TomlNode> {
    values.map_values(|value: toml::Value| toml_tree(value))
}

/// `toml::from_str` at type `toml::Value`, with the error dropped: a value
/// comes back exactly for the texts that the decoder accepts, and its shape is
/// the one the text decodes to.
#[verifier::external_body]
pub(crate) fn decode_toml(text: &str) -> (decoded: Option<toml::Value>)
    ensures
        match decoded {
            Some(value) => toml_decoded(text@) == Some(toml_tree(value)),
            None => toml_decoded(text@) is None,
        },
{
    toml::from_str::<toml::Value>(text).ok()
}

/// `toml::Value::get` with a string index: the entry under `key` where
/// `value` is a table that has one, nothing for a missing key and for every
/// value that is not a table.
#[verifier::external_body]
pub(crate) fn value_get<'a>(value: &'a toml::Value, key: &str) -> (entry: Option<&'a toml::Value>)
    ensures
        match entry {
            Some(found) => toml_tree(*value).get(key@) == Some(toml_tree(*found)),
            None => toml_tree(*value).get(key@) is None,
        },
{
    value.get(key)
}

/// `toml::Value::as_str`: the characters of a string value, nothing for any
/// other value.
#[verifier::external_body]
pub(crate) fn value_as_str<'a>(value: &'a toml::Value) -> (text: Option<&'a str>)
    ensures
        match text {
            Some(characters) => toml_tree(*value).as_text() == Some(characters@),
            None => toml_tree(*value).as_text() is None,
        },
{
    value.as_str()
}

/// `toml::Value::as_array`: the elements of an array value, nothing for any
/// other value.
#[verifier::external_body]
pub(crate) fn value_as_array<'a>(value: &'a toml::Value) -> (items: Option<&'a Vec<toml::Value>>)
    ensures
        match items {
            Some(elements) => toml_tree(*value).as_items() == Some(trees(elements@)),
            None => toml_tree(*value).as_items() is None,
        },
{
    value.as_array()
}

/// The name a `[[bin]]` entry gives its executable: its `name` where that is
/// a string, else the file stem of its `path` where that is a string and has
/// a stem, else none.
pub open spec fn bin_target_name(entry: TomlNode) -> Option<Seq<char>> {
    match entry.text_at("name"@) {
        Some(name) => Some(name),
        None => match entry.text_at("path"@) {
            Some(path) => path_file_stem(path),
            None => None,
        },
    }
}

/// The names that a list of `[[bin]]` entries gives, in the order of the
/// entries; an entry without a name contributes nothing.
pub open spec fn declared_names(entries: Seq<TomlNode>) -> Seq<Seq<char>>
    decreases entries.len(),
{
    if entries.len() == 0 {
        Seq::empty()
    } else {
        match bin_target_name(entries.last()) {
            Some(name) => declared_names(entries.drop_last()).push(name),
            None => declared_names(entries.drop_last()),
        }
    }
}

/// The name of the package a manifest describes, where it describes one.
pub open spec fn package_name(manifest: TomlNode) -> Option<Seq<char>> {
    match manifest.get("package"@) {
        Some(package) => package.text_at("name"@),
        None => None,
    }
}

/// The names a manifest's `bin` array declares.
pub open spec fn explicit_names(manifest: TomlNode) -> Seq<Seq<char>> {
    match manifest.items_at("bin"@) {
        Some(entries) => declared_names(entries),
        None => Seq::empty(),
    }
}

/// The candidate names of a manifest: those of its `[[bin]]` entries,
/// followed by the package name unless an entry has already given it.
pub open spec fn candidate_names(manifest: TomlNode) -> Seq<Seq<char>> {
    let declared = explicit_names(manifest);
    match package_name(manifest) {
        Some(name) => if declared.contains(name) {
            declared
        } else {
            declared.push(name)
        },
        None => declared,
    }
}

/// A manifest that declares no binary targets has its package name, where
/// it has one, as its sole candidate. In every manifest the declared names
/// come first, at most one name follows them, and the package name is among
/// the candidates.
pub proof fn lemma_package_alone(manifest: TomlNode)
    ensures
        manifest.items_at("bin"@) is None ==> candidate_names(manifest) == match package_name(
            manifest,
        ) {
            Some(name) => seq![name],
            None => Seq::empty(),
        },
        explicit_names(manifest).is_prefix_of(candidate_names(manifest)),
        candidate_names(manifest).len() <= explicit_names(manifest).len() + 1,
        package_name(manifest) matches Some(name) ==> candidate_names(manifest).contains(name),
{
    let declared = explicit_names(manifest);
    match package_name(manifest) {
        Some(name) => {
            if !declared.contains(name) {
                assert(declared.push(name)[declared.len() as int] == name);
            }
        },
        None => {},
    }
}

/// The strings among `items`, in order.
pub open spec fn text_items(items: Seq<TomlNode>) -> Seq<Seq<char>>
    decreases items.len(),
{
    if items.len() == 0 {
        Seq::empty()
    } else {
        match items.last().as_text() {
            Some(text) => text_items(items.drop_last()).push(text),
            None => text_items(items.drop_last()),
        }
    }
}

/// The member paths a manifest's `[workspace]` table lists: the strings of
/// its `members` array, as written.
pub open spec fn member_paths(manifest: TomlNode) -> Seq<Seq<char>> {
    match manifest.get("workspace"@) {
        Some(workspace) => match workspace.items_at("members"@) {
            Some(items) => text_items(items),
            None => Seq::empty(),
        },
        None => Seq::empty(),
    }
}

/// What the caller found in the place of a manifest.
#[derive(Clone, Debug, PartialEq, Eq)]
pub enum ManifestFile {
    /// No file is there.
    Missing,
    /// A file is there, but it could not be read as text.
    Unreadable,
    /// The text of the file.
    Text(String),
}

/// Decodes the text of a manifest.
pub fn decode_manifest(text: &str) -> (decoded: Result<toml::Value, DeployError>)
    ensures
        match decoded {
            Ok(manifest) => toml_decoded(text@) == Some(toml_tree(manifest)),
            Err(error) => toml_decoded(text@) is None && error == DeployError::ManifestInvalid,
        },
{
    match decode_toml(text) {
        Some(manifest) => Ok(manifest),
        None => Err(DeployError::ManifestInvalid),
    }
}

/// Opens the root manifest of a project from what was found in its place.
/// A missing file, an unreadable file and a text that is not TOML each have
/// their own error.
pub fn open_manifest(file: &ManifestFile) -> (opened: Result<toml::Value, DeployError>)
    ensures
        match file {
            ManifestFile::Missing => opened == Err::<toml::Value, DeployError>(
                DeployError::ManifestMissing,
            ),
            ManifestFile::Unreadable => opened == Err::<toml::Value, DeployError>(
                DeployError::ManifestUnreadable,
            ),
            ManifestFile::Text(text) => match opened {
                Ok(manifest) => toml_decoded(text@) == Some(toml_tree(manifest)),
                Err(error) => toml_decoded(text@) is None && error
                    == DeployError::ManifestInvalid,
            },
        },
{
    match file {
        ManifestFile::Missing => Err(DeployError::ManifestMissing),
        ManifestFile::Unreadable => Err(DeployError::ManifestUnreadable),
        ManifestFile::Text(text) => decode_manifest(text.as_str()),
    }
}

fn string_at<'a>(value: &'a toml::Value, key: &str) -> (text: Option<&'a str>)
    ensures
        match text {
            Some(characters) => toml_tree(*value).text_at(key@) == Some(characters@),
            None => toml_tree(*value).text_at(key@) is None,
        },
{
    match value_get(value, key) {
        Some(entry) => value_as_str(entry),
        None => None,
    }
}

fn array_at<'a>(value: &'a toml::Value, key: &str) -> (items: Option<&'a Vec<toml::Value>>)
    ensures
        match items {
            Some(elements) => toml_tree(*value).items_at(key@) == Some(trees(elements@)),
            None => toml_tree(*value).items_at(key@) is None,
        },
{
    match value_get(value, key) {
        Some(entry) => value_as_array(entry),
        None => None,
    }
}

/// The name that one `[[bin]]` entry gives its executable.
pub fn bin_name(entry: &toml::Value) -> (name: Option<String>)
    ensures
        match name {
            Some(text) => bin_target_name(toml_tree(*entry)) == Some(text@),
            None => bin_target_name(toml_tree(*entry)) is None,
        },
{
    match string_at(entry, "name") {
        Some(name) => Some(name.to_string()),
        None => match string_at(entry, "path") {
            Some(path) => file_stem(path),
            None => None,
        },
    }
}

/// The candidate executable names of a manifest: the name of every
/// `[[bin]]` entry that has one, then the package name unless it is among
/// them already. A manifest without these fields has no candidates; that is
/// no error.
pub fn manifest_bin_names(manifest: &toml::Value) -> (names: Vec<String>)
    ensures
        texts(names@) == candidate_names(toml_tree(*manifest)),
{
    let mut names: Vec<String> = Vec::new();
    match array_at(manifest, "bin") {
        Some(entries) => {
            let mut index: usize = 0;
            while index < entries.len()
                invariant
                    index <= entries.len(),
                    texts(names@) == declared_names(trees(entries@).take(index as int)),
                decreases entries.len() - index,
            {
                let ghost done = trees(entries@).take(index as int);
                let ghost next = trees(entries@).take(index + 1);
                assert(next.drop_last() =~= done);
                match bin_name(&entries[index]) {
                    Some(name) => {
                        names.push(name);
                    },
                    None => {},
                }
                index += 1;
            }
            assert(trees(entries@).take(entries.len() as int) =~= trees(entries@));
        },
        None => {},
    }
    match value_get(manifest, "package") {
        Some(package) => match string_at(package, "name") {
            Some(name) => {
                if !contains(&names, name) {
                    names.push(name.to_string());
                }
            },
            None => {},
        },
        None => {},
    }
    names
}

/// The member paths of a workspace manifest, as written. Entries of the
/// `members` array that are not strings are passed over, and a manifest
/// without a workspace has no members.
pub fn workspace_members(manifest: &toml::Value) -> (members: Vec<String>)
    ensures
        texts(members@) == member_paths(toml_tree(*manifest)),
{
    let mut members: Vec<String> = Vec::new();
    match value_get(manifest, "workspace") {
        Some(workspace) => match array_at(workspace, "members") {
            Some(items) => {
                let mut index: usize = 0;
                while index < items.len()
                    invariant
                        index <= items.len(),
                        texts(members@) == text_items(trees(items@).take(index as int)),
                    decreases items.len() - index,
                {
                    let ghost done = trees(items@).take(index as int);
                    let ghost next = trees(items@).take(index + 1);
                    assert(next.drop_last() =~= done);
                    match value_as_str(&items[index]) {
                        Some(path) => {
                            members.push(path.to_string());
                        },
                        None => {},
                    }
                    index += 1;
                }
                assert(trees(items@).take(items.len() as int) =~= trees(items@));
            },
            None => {},
        },
        None => {},
    }
    members
}

} // verus!
