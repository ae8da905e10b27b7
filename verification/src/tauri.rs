//! What the configuration of a Tauri application adds to a project: the
//! product name, under which the application's executable may be built
//! instead of the package name.
//!
//! The configuration is JSON and decoding it is the `serde_json` crate's
//! work. As with manifests, the proofs know a decoded value by its shape.

use crate::options::ProjectType;
use crate::text::texts;
use vstd::prelude::*;
use vstd::string::*;

verus! {

/// `serde_json::Value`, made known so that decoded configurations can be
/// passed on. Nothing is claimed of a value here; what the proofs know of one
/// they know from the accessors below.
#[verifier::external_type_specification]
#[verifier::external_body]
pub struct ExJsonValue(serde_json::Value);

/// The shape of a JSON value, as far as configurations are read: strings
/// and objects are told apart, every other value counts as a scalar.
pub enum JsonNode {
    Text(Seq<char>),
    Object(Map<Seq<char>, JsonNode>),
    Scalar,
}

/// The shape of a decoded value.
pub uninterp spec fn json_tree(value: serde_json::Value) -> JsonNode;

/// The shape of the value that `serde_json::from_str` decodes `text` to,
/// where it accepts the text.
pub uninterp spec fn json_decoded(text: Seq<char>) -> Option<JsonNode>;

impl JsonNode {
    /// The member under `key`, where this node is an object that has one.
    pub open spec fn get(self, key: Seq<char>) -> Option<JsonNode> {
        match self {
            JsonNode::Object(members) => if members.contains_key(key) {
                Some(members[key])
            } else {
                None
            },
            _ => None,
        }
    }

    /// The characters of this node, where it is a string.
    pub open spec fn as_text(self) -> Option<Seq<char>> {
        match self {
            JsonNode::Text(text) => Some(text),
            _ => None,
        }
    }
}

/// `serde_json::from_str` at type `serde_json::Value`, with the error
/// dropped: a value comes back exactly for the texts that the decoder accepts,
/// and its shape is the one the text decodes to.
#[verifier::external_body]
pub(crate) fn decode_json(text: &str) -> (decoded: Option<serde_json::Value>)
    ensures
        match decoded {
            Some(value) => json_decoded(text@) == Some(json_tree(value)),
            None => json_decoded(text@) is None,
        },
{
    serde_json::from_str::<serde_json::Value>(text).ok()
}

/// `serde_json::Value::get` with a string index: the member under `key`
/// where `value` is an object that has one, nothing for a missing key and for
/// every value that is not an object.
#[verifier::external_body]
pub(crate) fn json_get<'a>(
    value: &'a serde_json::Value,
    key: &str,
) -> (member: Option<&'a serde_json::Value>)
    ensures
        match member {
            Some(found) => json_tree(*value).get(key@) == Some(json_tree(*found)),
            None => json_tree(*value).get(key@) is None,
        },
{
    value.get(key)
}

/// `serde_json::Value::as_str`: the characters of a string value, nothing
/// for any other value.
#[verifier::external_body]
pub(crate) fn json_as_str<'a>(value: &'a serde_json::Value) -> (text: Option<&'a str>)
    ensures
        match text {
            Some(characters) => json_tree(*value).as_text() == Some(characters@),
            None => json_tree(*value).as_text() is None,
        },
{
    value.as_str()
}

/// The key under which a Tauri configuration names its product.
pub const PRODUCT_NAME_KEY: &'static str = "productName";

/// The product name in a configuration of the given shape: the string
/// under `productName`, where there is one.
pub open spec fn product_of(config: JsonNode) -> Option<Seq<char>> {
    match config.get(PRODUCT_NAME_KEY@) {
        Some(name) => name.as_text(),
        None => None,
    }
}

/// The extra candidate names that the text of a configuration gives: its
/// product name, or nothing where the text is not JSON or names no product.
pub open spec fn product_names(text: Seq<char>) -> Seq<Seq<char>> {
    match json_decoded(text) {
        Some(config) => match product_of(config) {
            Some(name) => seq![name],
            None => Seq::empty(),
        },
        None => Seq::empty(),
    }
}

/// The product name that a decoded configuration gives.
pub fn product_name(config: &serde_json::Value) -> (name: Option<String>)
    ensures
        match name {
            Some(text) => product_of(json_tree(*config)) == Some(text@),
            None => product_of(json_tree(*config)) is None,
        },
{
    match json_get(config, PRODUCT_NAME_KEY) {
        Some(member) => match json_as_str(member) {
            Some(text) => Some(text.to_string()),
            None => None,
        },
        None => None,
    }
}

/// The extra candidate names that the text of a Tauri configuration gives.
/// A configuration that cannot be decoded gives none; that is no error.
pub fn extra_names(config_text: &str) -> (names: Vec<String>)
    ensures
        texts(names@) == product_names(config_text@),
{
    let mut names: Vec<String> = Vec::new();
    match decode_json(config_text) {
        Some(config) => match product_name(&config) {
            Some(name) => {
                names.push(name);
            },
            None => {},
        },
        None => {},
    }
    names
}

/// The extra candidate names of a project with the given layout, whose
/// Tauri configuration, where one was found and read, has the given text: the
/// names the configuration gives for a Tauri application, none otherwise.
pub open spec fn packaging_extras(
    layout: ProjectType,
    config: Option<Seq<char>>,
) -> Seq<Seq<char>> {
    match (layout, config) {
        (ProjectType::Tauri, Some(text)) => product_names(text),
        _ => Seq::empty(),
    }
}

/// The extra candidate names of a project. Only a Tauri application has
/// any, and only where its configuration could be read.
pub fn packaging_names(layout: ProjectType, config_text: Option<&str>) -> (names: Vec<String>)
    ensures
        texts(names@) == packaging_extras(
            layout,
            match config_text {
                Some(text) => Some(text@),
                None => None,
            },
        ),
{
    match layout {
        ProjectType::Tauri => match config_text {
            Some(text) => extra_names(text),
            None => {
                let names: Vec<String> = Vec::new();
                names
            },
        },
        ProjectType::Standard => {
            let names: Vec<String> = Vec::new();
            names
        },
    }
}

} // verus!
