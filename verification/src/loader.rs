//! Parsing YAML text into a configuration document tree.

use vstd::prelude::*;

use crate::node::ConfigNode;

verus! {

/// The parse of YAML text: `Some` of the documents the text holds, in
/// order and mirrored into [`ConfigNode`], when the text is valid YAML;
/// `None` when it is not.
pub uninterp spec fn yaml_documents(text: Seq<char>) -> Option<Seq<ConfigNode>>;

/// The error of a failed document load.
#[derive(Debug)]
pub enum YamlError {
    /// The text was not valid YAML; holds the parser's message.
    Parse(String),
    /// The text was valid YAML but held no document.
    NoDocument,
}

/// Relies on yaml_rust2::Yaml being an ordinary owned value; the type is
/// opaque here and only ever carried into [`yaml_to_node`].
#[verifier::external_type_specification]
#[verifier::external_body]
pub struct ExYaml(yaml_rust2::Yaml);

/// Relies on yaml_rust2::Yaml: each variant of the parser's node type is
/// mirrored, field for field and in order, into the library's node type.
#[verifier::external_body]
fn yaml_to_node(y: &yaml_rust2::Yaml) -> ConfigNode {
    match y {
        yaml_rust2::Yaml::Real(s) => ConfigNode::Real(s.clone()),
        yaml_rust2::Yaml::Integer(i) => ConfigNode::Integer(*i),
        yaml_rust2::Yaml::String(s) => ConfigNode::Str(s.clone()),
        yaml_rust2::Yaml::Boolean(b) => ConfigNode::Boolean(*b),
        yaml_rust2::Yaml::Array(a) => ConfigNode::Array(a.iter().map(yaml_to_node).collect()),
        yaml_rust2::Yaml::Hash(h) => ConfigNode::Hash(
            h.iter().map(|(k, v)| (yaml_to_node(k), yaml_to_node(v))).collect(),
        ),
        yaml_rust2::Yaml::Alias(a) => ConfigNode::Alias(*a),
        yaml_rust2::Yaml::Null => ConfigNode::Null,
        yaml_rust2::Yaml::BadValue => ConfigNode::BadValue,
    }
}

/// Relies on yaml_rust2::YamlLoader::load_from_str: parsing succeeds if and
/// only if every document in the text parses, and the parse is a function of
/// the text alone; on success each document is handed back mirrored into the
/// library's node type.
#[verifier::external_body]
fn parse_documents(text: &str) -> (r: Result<Vec<ConfigNode>, String>)
    ensures
        r is Ok <==> yaml_documents(text@) is Some,
        r matches Ok(docs) ==> Some(docs@) == yaml_documents(text@),
{
    match yaml_rust2::YamlLoader::load_from_str(text) {
        Ok(docs) => Ok(docs.iter().map(yaml_to_node).collect()),
        Err(e) => Err(format!("{e}")),
    }
}

/// Loads a YAML configuration from text.
///
/// Returns the first document the text holds; `Parse` when the text is not
/// valid YAML, `NoDocument` when it holds no document at all.
pub fn get_yaml_from_string(file_content: &str) -> (r: Result<ConfigNode, YamlError>)
    ensures
        r is Ok <==> (yaml_documents(file_content@) matches Some(docs) && docs.len() > 0),
        r matches Ok(doc) ==> doc == yaml_documents(file_content@).unwrap()[0],
        r matches Err(e) ==> (e is Parse <==> yaml_documents(file_content@) is None),
        r matches Err(e) ==> (e is NoDocument <==> (yaml_documents(file_content@) matches Some(
            docs,
        ) && docs.len() == 0)),
{
    match parse_documents(file_content) {
        Err(e) => Err(YamlError::Parse(e)),
        Ok(mut docs) => {
            if docs.len() == 0 {
                Err(YamlError::NoDocument)
            } else {
                Ok(docs.remove(0))
            }
        },
    }
}

} // verus!
