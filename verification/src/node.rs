//! The configuration document tree and its basic inspection methods.

use vstd::prelude::*;

verus! {

/// One position in a parsed YAML document, tagged with its value kind.
///
/// A document is read-only once built: every function here borrows a node and
/// returns either a borrowed child or a plain value, so two reads of the same
/// node always see the same tree.
#[derive(Debug)]
pub enum ConfigNode {
    /// A floating-point scalar, kept as its source text.
    Real(String),
    /// An integer scalar.
    Integer(i64),
    /// A string scalar.
    Str(String),
    /// A boolean scalar.
    Boolean(bool),
    /// A sequence of nodes, in source order.
    Array(Vec<ConfigNode>),
    /// A mapping, as key/value pairs in source order.
    Hash(Vec<(ConfigNode, ConfigNode)>),
    /// An alias to the anchor with the given id.
    Alias(usize),
    /// An explicit null scalar.
    Null,
    /// A marker for a failed parse or lookup.
    BadValue,
}

/// The integer held by a node: `Some` exactly on the `Integer` variant.
pub open spec fn spec_as_i64(n: ConfigNode) -> Option<i64> {
    match n {
        ConfigNode::Integer(i) => Some(i),
        _ => None,
    }
}

/// The boolean held by a node: `Some` exactly on the `Boolean` variant.
pub open spec fn spec_as_bool(n: ConfigNode) -> Option<bool> {
    match n {
        ConfigNode::Boolean(b) => Some(b),
        _ => None,
    }
}

/// The string held by a node: `Some` exactly on the `Str` variant.
pub open spec fn spec_as_str(n: ConfigNode) -> Option<Seq<char>> {
    match n {
        ConfigNode::Str(s) => Some(s@),
        _ => None,
    }
}

/// Whether a mapping key is the string `key`.
pub open spec fn is_key_match(k: ConfigNode, key: Seq<char>) -> bool {
    k matches ConfigNode::Str(s) && s@ == key
}

/// The value under the first entry of `entries` whose key is the string
/// `key`, or `None` if no entry has that key.
pub open spec fn spec_lookup(entries: Seq<(ConfigNode, ConfigNode)>, key: Seq<char>) -> Option<
    ConfigNode,
>
    decreases entries.len(),
{
    if entries.len() == 0 {
        None
    } else if is_key_match(entries[0].0, key) {
        Some(entries[0].1)
    } else {
        spec_lookup(entries.skip(1), key)
    }
}

/// The child of `n` under the string key `key`: a lookup in the `Hash`
/// variant, `None` on every other variant.
pub open spec fn spec_get(n: ConfigNode, key: Seq<char>) -> Option<ConfigNode> {
    match n {
        ConfigNode::Hash(entries) => spec_lookup(entries@, key),
        _ => None,
    }
}

/// Character-for-character equality of two string slices.
fn str_eq(a: &str, b: &str) -> (r: bool)
    ensures
        r == (a@ == b@),
{
    let a_len = a.unicode_len();
    let b_len = b.unicode_len();
    if a_len != b_len {
        return false;
    }
    let mut i: usize = 0;
    while i < a_len
        invariant
            a_len == a@.len(),
            b_len == b@.len(),
            a_len == b_len,
            i <= a_len,
            forall|j: int| 0 <= j < i ==> a@[j] == b@[j],
        decreases a_len - i,
    {
        if a.get_char(i) != b.get_char(i) {
            return false;
        }
        i = i + 1;
    }
    assert(a@ =~= b@);
    true
}

impl ConfigNode {
    /// The node's integer value, when it is an integer scalar.
    pub fn as_i64(&self) -> (r: Option<i64>)
        ensures
            r == spec_as_i64(*self),
    {
        match self {
            ConfigNode::Integer(i) => Some(*i),
            _ => None,
        }
    }

    /// The node's boolean value, when it is a boolean scalar.
    pub fn as_bool(&self) -> (r: Option<bool>)
        ensures
            r == spec_as_bool(*self),
    {
        match self {
            ConfigNode::Boolean(b) => Some(*b),
            _ => None,
        }
    }

    /// The node's string value, when it is a string scalar.
    pub fn as_str(&self) -> (r: Option<&str>)
        ensures
            match r {
                Some(s) => spec_as_str(*self) == Some(s@),
                None => spec_as_str(*self) is None,
            },
    {
        match self {
            ConfigNode::Str(s) => Some(s.as_str()),
            _ => None,
        }
    }

    /// Whether the node is the failed-parse/lookup marker.
    pub fn is_badvalue(&self) -> (r: bool)
        ensures
            r == (*self is BadValue),
    {
        matches!(self, ConfigNode::BadValue)
    }

    /// The child under the string key `key`, when the node is a mapping with
    /// such an entry.
    pub fn get<'a>(&'a self, key: &str) -> (r: Option<&'a ConfigNode>)
        ensures
            match r {
                Some(v) => spec_get(*self, key@) == Some(*v),
                None => spec_get(*self, key@) is None,
            },
    {
        match self {
            ConfigNode::Hash(entries) => {
                let n = entries.len();
                let mut i: usize = 0;
                proof {
                    assert(entries@.skip(0) =~= entries@);
                }
                while i < n
                    invariant
                        n == entries@.len(),
                        i <= n,
                        spec_lookup(entries@, key@) == spec_lookup(
                            entries@.skip(i as int),
                            key@,
                        ),
                        *self matches ConfigNode::Hash(e) && e@ == entries@,
                    decreases n - i,
                {
                    let pair = &entries[i];
                    proof {
                        assert(entries@.skip(i as int)[0] == entries@[i as int]);
                        assert(entries@.skip(i as int).skip(1) =~= entries@.skip(i as int + 1));
                    }
                    match &pair.0 {
                        ConfigNode::Str(s) => {
                            if str_eq(s.as_str(), key) {
                                return Some(&pair.1);
                            }
                        },
                        _ => {},
                    }
                    i = i + 1;
                }
                None
            },
            _ => None,
        }
    }
}

} // verus!
