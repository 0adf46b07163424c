//! Typed accessors: read a scalar out of an optional node, with a default.

use vstd::prelude::*;

use crate::node::ConfigNode;
use crate::node::spec_as_bool;
use crate::node::spec_as_i64;

verus! {

/// The 64-bit working value of an integer accessor call: the node's integer
/// value when the node is present and an integer, the default (widened to 64
/// bits) otherwise.
pub open spec fn spec_working_i64(node: Option<&ConfigNode>, default: i64) -> i64 {
    match node {
        Some(n) => match spec_as_i64(*n) {
            Some(i) => i,
            None => default,
        },
        None => default,
    }
}

/// A 64-bit value clamped into the `u32` range: negative values become 0,
/// values above `u32::MAX` become `u32::MAX`.
pub open spec fn spec_clamp_u32(r: i64) -> u32 {
    if r < 0 {
        0u32
    } else if r > u32::MAX {
        u32::MAX
    } else {
        r as u32
    }
}

/// A 64-bit value clamped into the `i32` range: values above `i32::MAX`
/// become `i32::MAX`, values below `i32::MIN` become `i32::MIN`.
pub open spec fn spec_clamp_i32(r: i64) -> i32 {
    if r > i32::MAX {
        i32::MAX
    } else if r < i32::MIN {
        i32::MIN
    } else {
        r as i32
    }
}

/// A 64-bit value clamped into the `usize` range: negative values become 0,
/// values above `usize::MAX` become `usize::MAX`.
pub open spec fn spec_clamp_usize(r: i64) -> usize {
    if r < 0 {
        0usize
    } else if r > usize::MAX {
        usize::MAX
    } else {
        r as usize
    }
}

/// The boolean an accessor call yields: the node's boolean value when the
/// node is present and boolean, the default otherwise.
pub open spec fn spec_get_bool(node: Option<&ConfigNode>, default: bool) -> bool {
    match node {
        Some(n) => match spec_as_bool(*n) {
            Some(b) => b,
            None => default,
        },
        None => default,
    }
}

/// Retrieves a boolean from an optional YAML node.
///
/// If the node is absent or not a boolean, returns the default.
pub fn get_bool(yaml_val: Option<&ConfigNode>, default_val: bool) -> (r: bool)
    ensures
        r == spec_get_bool(yaml_val, default_val),
{
    match yaml_val {
        Some(n) => match n.as_bool() {
            Some(b) => b,
            None => default_val,
        },
        None => default_val,
    }
}

/// Retrieves an unsigned integer (u32) from an optional YAML node.
///
/// The node's integer value (or, if the node is absent or not an integer,
/// the default) is clamped into the `u32` range: never wraparound, never
/// silent truncation.
pub fn get_u32(yaml_val: Option<&ConfigNode>, default_val: u32) -> (r: u32)
    ensures
        r == spec_clamp_u32(spec_working_i64(yaml_val, default_val as i64)),
{
    let r: i64 = match yaml_val {
        Some(n) => match n.as_i64() {
            Some(i) => i,
            None => default_val as i64,
        },
        None => default_val as i64,
    };
    if r < 0 {
        0
    } else if r > u32::MAX as i64 {
        u32::MAX
    } else {
        r as u32
    }
}

/// Retrieves a signed integer (i32) from an optional YAML node.
///
/// The node's integer value (or, if the node is absent or not an integer,
/// the default) is clamped into the `i32` range.
pub fn get_i32(yaml_val: Option<&ConfigNode>, default_val: i32) -> (r: i32)
    ensures
        r == spec_clamp_i32(spec_working_i64(yaml_val, default_val as i64)),
{
    let r: i64 = match yaml_val {
        Some(n) => match n.as_i64() {
            Some(i) => i,
            None => default_val as i64,
        },
        None => default_val as i64,
    };
    if r > i32::MAX as i64 {
        i32::MAX
    } else if r < i32::MIN as i64 {
        i32::MIN
    } else {
        r as i32
    }
}

/// Retrieves an unsigned integer (usize) from an optional YAML node.
///
/// The node's integer value (or, if the node is absent or not an integer,
/// the default widened to 64 bits) is clamped into the `usize` range.
pub fn get_usize(yaml_val: Option<&ConfigNode>, default_val: usize) -> (r: usize)
    ensures
        r == spec_clamp_usize(spec_working_i64(yaml_val, default_val as i64)),
{
    let r: i64 = match yaml_val {
        Some(n) => match n.as_i64() {
            Some(i) => i,
            None => default_val as i64,
        },
        None => default_val as i64,
    };
    if r < 0 {
        0
    } else if (r as u64) > (usize::MAX as u64) {
        usize::MAX
    } else {
        r as usize
    }
}

/// The string scalars among `elems`, in order; every other element is
/// skipped.
pub open spec fn spec_string_items(elems: Seq<ConfigNode>) -> Seq<Seq<char>>
    decreases elems.len(),
{
    if elems.len() == 0 {
        Seq::empty()
    } else {
        spec_string_items(elems.drop_last()) + (match elems.last() {
            ConfigNode::Str(s) => seq![s@],
            _ => Seq::empty(),
        })
    }
}

/// Converts a YAML sequence node into a vector of strings.
///
/// A `Str` element contributes its string, in source order; an element of
/// any other kind is skipped. A node that is not a sequence at all yields an
/// empty vector.
pub fn convert_yaml_to_vec_string(yaml: &ConfigNode) -> (r: Vec<String>)
    ensures
        *yaml matches ConfigNode::Array(elems) ==> r@.map_values(|s: String| s@)
            == spec_string_items(elems@),
        !(*yaml is Array) ==> r@ == Seq::<String>::empty(),
{
    match yaml {
        ConfigNode::Array(elems) => {
            let n = elems.len();
            let mut out: Vec<String> = Vec::new();
            let mut i: usize = 0;
            proof {
                assert(elems@.take(0) =~= Seq::<ConfigNode>::empty());
                assert(out@.map_values(|s: String| s@) =~= Seq::<Seq<char>>::empty());
            }
            while i < n
                invariant
                    n == elems@.len(),
                    i <= n,
                    out@.map_values(|s: String| s@) == spec_string_items(elems@.take(i as int)),
                decreases n - i,
            {
                let ghost prev = out@;
                match &elems[i] {
                    ConfigNode::Str(s) => {
                        out.push(s.clone());
                        proof {
                            assert(out@.map_values(|s: String| s@) =~= prev.map_values(
                                |s: String| s@,
                            ) + seq![elems@[i as int]->Str_0@]);
                        }
                    },
                    _ => {},
                }
                proof {
                    assert(elems@.take(i as int + 1).drop_last() =~= elems@.take(i as int));
                    assert(elems@.take(i as int + 1).last() == elems@[i as int]);
                }
                i = i + 1;
            }
            proof {
                assert(elems@.take(n as int) =~= elems@);
            }
            out
        },
        _ => Vec::new(),
    }
}

/// An accessor call on an absent node, or on a node that does not hold the
/// kind of scalar the accessor reads, yields exactly the supplied default.
///
/// For the usize accessor this is stated for defaults representable in 64
/// signed bits: a larger default is itself sent through the 64-bit working
/// path and clamped like any other out-of-range value.
pub proof fn lemma_default_on_absent_or_mismatched(
    node: Option<&ConfigNode>,
    db: bool,
    du: u32,
    di: i32,
    dz: usize,
)
    requires
        dz <= i64::MAX,
    ensures
        (match node {
            Some(n) => spec_as_bool(*n) is None,
            None => true,
        }) ==> spec_get_bool(node, db) == db,
        (match node {
            Some(n) => spec_as_i64(*n) is None,
            None => true,
        }) ==> {
            &&& spec_clamp_u32(spec_working_i64(node, du as i64)) == du
            &&& spec_clamp_i32(spec_working_i64(node, di as i64)) == di
            &&& spec_clamp_usize(spec_working_i64(node, dz as i64)) == dz
        },
{
}

/// The u32 accessor clamps a present 64-bit integer value `r` into the u32
/// range: 0 below it, `u32::MAX` above it, `r` itself inside it, whatever
/// the default.
pub proof fn lemma_u32_clamping(r: i64, d: u32)
    ensures
        ({
            let v = spec_clamp_u32(spec_working_i64(Some(&ConfigNode::Integer(r)), d as i64));
            &&& r < 0 ==> v == 0
            &&& r > u32::MAX ==> v == u32::MAX
            &&& 0 <= r <= u32::MAX ==> v == r
        }),
{
}

/// The i32 accessor clamps a present 64-bit integer value `r` into the i32
/// range: `i32::MIN` below it, `i32::MAX` above it, `r` itself inside it,
/// whatever the default.
pub proof fn lemma_i32_clamping(r: i64, d: i32)
    ensures
        ({
            let v = spec_clamp_i32(spec_working_i64(Some(&ConfigNode::Integer(r)), d as i64));
            &&& r < i32::MIN ==> v == i32::MIN
            &&& r > i32::MAX ==> v == i32::MAX
            &&& i32::MIN <= r <= i32::MAX ==> v == r
        }),
{
}

/// The usize accessor clamps a present 64-bit integer value `r` into the
/// usize range: 0 below it, `usize::MAX` above it, `r` itself inside it,
/// whatever the default.
pub proof fn lemma_usize_clamping(r: i64, d: usize)
    ensures
        ({
            let v = spec_clamp_usize(spec_working_i64(Some(&ConfigNode::Integer(r)), d as i64));
            &&& r < 0 ==> v == 0
            &&& r > usize::MAX ==> v == usize::MAX
            &&& 0 <= r <= usize::MAX ==> v == r
        }),
{
}

/// Two accessor calls on the same node and default yield identical results:
/// each accessor's contract equates its result with a function of the
/// arguments alone, so no call mutates anything the next call could see.
pub proof fn lemma_accessors_deterministic(
    node: Option<&ConfigNode>,
    db: bool,
    du: u32,
    di: i32,
    dz: usize,
    rb1: bool,
    rb2: bool,
    ru1: u32,
    ru2: u32,
    ri1: i32,
    ri2: i32,
    rz1: usize,
    rz2: usize,
)
    requires
        rb1 == spec_get_bool(node, db),
        rb2 == spec_get_bool(node, db),
        ru1 == spec_clamp_u32(spec_working_i64(node, du as i64)),
        ru2 == spec_clamp_u32(spec_working_i64(node, du as i64)),
        ri1 == spec_clamp_i32(spec_working_i64(node, di as i64)),
        ri2 == spec_clamp_i32(spec_working_i64(node, di as i64)),
        rz1 == spec_clamp_usize(spec_working_i64(node, dz as i64)),
        rz2 == spec_clamp_usize(spec_working_i64(node, dz as i64)),
    ensures
        rb1 == rb2,
        ru1 == ru2,
        ri1 == ri2,
        rz1 == rz2,
{
}

/// Two sequence extractions from the same node yield the same strings:
/// the extractor's contract equates the result, string for string, with a
/// function of the node alone.
pub proof fn lemma_convert_deterministic(yaml: &ConfigNode, r1: Seq<String>, r2: Seq<String>)
    requires
        *yaml matches ConfigNode::Array(elems) ==> r1.map_values(|s: String| s@)
            == spec_string_items(elems@),
        *yaml matches ConfigNode::Array(elems) ==> r2.map_values(|s: String| s@)
            == spec_string_items(elems@),
        !(*yaml is Array) ==> r1 == Seq::<String>::empty(),
        !(*yaml is Array) ==> r2 == Seq::<String>::empty(),
    ensures
        r1.map_values(|s: String| s@) == r2.map_values(|s: String| s@),
{
    if !(*yaml is Array) {
        assert(r1 == r2);
    }
}

} // verus!
