//! JSON documents, built and read with `serde_json`.
//!
//! A document is seen as what stands at each JSON pointer into it.
use vstd::prelude::*;
use vstd::string::*;

use crate::text::{begins, dec};

verus! {

/// What stands at one place of a document. A number is held as the text that is written for
/// it, an array with its length.
pub ghost enum JsonNode {
    Null,
    Bool(bool),
    Number(Seq<char>),
    Text(Seq<char>),
    Array(nat),
    Object,
}

/// What stands at each JSON pointer into a document; the empty pointer leads to the whole.
pub type JsonNodes = Map<Seq<char>, JsonNode>;

#[verifier::external_type_specification]
#[verifier::external_body]
pub struct ExJsonValue(serde_json::Value);

#[verifier::external_type_specification]
#[verifier::external_body]
#[verifier::reject_recursive_types(K)]
#[verifier::reject_recursive_types(V)]
pub struct ExJsonMap<K, V>(serde_json::Map<K, V>);

#[verifier::external_type_specification]
#[verifier::external_body]
pub struct ExJsonError(serde_json::Error);

/// What stands at each pointer into a value: `Value::pointer` leads there.
pub uninterp spec fn value_nodes(v: serde_json::Value) -> Map<Seq<char>, JsonNode>;

/// What stands at each pointer into the object made of a map.
pub uninterp spec fn object_nodes(m: serde_json::Map<String, serde_json::Value>) -> Map<
    Seq<char>,
    JsonNode,
>;

/// The text that `serde_json::to_string` writes for a document.
pub uninterp spec fn json_text(nodes: Map<Seq<char>, JsonNode>) -> Seq<char>;

/// The document that `serde_json::from_str` reads from a text; none where the text is not JSON.
pub uninterp spec fn json_read(text: Seq<char>) -> Option<Map<Seq<char>, JsonNode>>;

/// A member name that needs no escape in a pointer.
pub open spec fn plain_key(key: Seq<char>) -> bool {
    !key.contains('/') && !key.contains('~')
}

/// The pointer to the member `key` of the whole document.
pub open spec fn pointer_to(key: Seq<char>) -> Seq<char> {
    "/"@ + key
}

/// An object without members.
pub open spec fn empty_object() -> JsonNodes {
    Map::empty().insert(Seq::empty(), JsonNode::Object)
}

/// `outer` with the document `inner` as its member `key`.
pub open spec fn grafted(outer: JsonNodes, key: Seq<char>, inner: JsonNodes) -> JsonNodes {
    let at = pointer_to(key);
    Map::new(
        |p: Seq<char>|
            outer.dom().contains(p) || (begins(p, at) && inner.dom().contains(
                p.skip(at.len() as int),
            )),
        |p: Seq<char>|
            if begins(p, at) && inner.dom().contains(p.skip(at.len() as int)) {
                inner[p.skip(at.len() as int)]
            } else {
                outer[p]
            },
    )
}

/// `serde_json::Map::new`: an object without members.
#[verifier::external_body]
pub(crate) fn json_object() -> (r: serde_json::Map<String, serde_json::Value>)
    ensures
        object_nodes(r) == empty_object(),
{
    serde_json::Map::new()
}

/// `serde_json::Map::insert` with a string. The member is new.
#[verifier::external_body]
pub(crate) fn put_text(m: &mut serde_json::Map<String, serde_json::Value>, key: &str, text: &str)
    requires
        plain_key(key@),
        !object_nodes(*old(m)).dom().contains(pointer_to(key@)),
    ensures
        object_nodes(*final(m)) == object_nodes(*old(m)).insert(
            pointer_to(key@),
            JsonNode::Text(text@),
        ),
{
    m.insert(key.to_string(), serde_json::Value::String(text.to_string()));
}

/// `serde_json::Map::insert` with an unsigned number, which is written in decimal. The member
/// is new.
#[verifier::external_body]
pub(crate) fn put_number(m: &mut serde_json::Map<String, serde_json::Value>, key: &str, n: u64)
    requires
        plain_key(key@),
        !object_nodes(*old(m)).dom().contains(pointer_to(key@)),
    ensures
        object_nodes(*final(m)) == object_nodes(*old(m)).insert(
            pointer_to(key@),
            JsonNode::Number(dec(n as nat)),
        ),
{
    m.insert(key.to_string(), serde_json::Value::from(n));
}

/// `serde_json::Map::insert` with an object. The member is new.
#[verifier::external_body]
pub(crate) fn put_object(
    m: &mut serde_json::Map<String, serde_json::Value>,
    key: &str,
    inner: serde_json::Map<String, serde_json::Value>,
)
    requires
        plain_key(key@),
        !object_nodes(*old(m)).dom().contains(pointer_to(key@)),
    ensures
        object_nodes(*final(m)) == grafted(object_nodes(*old(m)), key@, object_nodes(inner)),
{
    m.insert(key.to_string(), serde_json::Value::Object(inner));
}

/// No pointer into the document is longer than `depth`, and all its numbers are unsigned
/// integers.
pub open spec fn within(nodes: JsonNodes, depth: nat) -> bool {
    forall|p: Seq<char>| #[trigger]
        nodes.dom().contains(p) ==> p.len() <= depth && (nodes[p] matches JsonNode::Number(t) ==> (
        exists|n: u64| t == #[trigger] dec(n as nat)))
}

/// Nothing lies deep inside the document, and all its numbers are unsigned integers.
pub open spec fn reads_back(nodes: JsonNodes) -> bool {
    within(nodes, 100)
}

/// A string at a short pointer keeps a document shallow.
pub proof fn lemma_text_within(nodes: JsonNodes, pointer: Seq<char>, t: Seq<char>, depth: nat)
    requires
        within(nodes, depth),
        pointer.len() <= depth,
    ensures
        within(nodes.insert(pointer, JsonNode::Text(t)), depth),
{
}

/// An unsigned number at a short pointer keeps a document shallow.
pub proof fn lemma_number_within(nodes: JsonNodes, pointer: Seq<char>, n: u64, depth: nat)
    requires
        within(nodes, depth),
        pointer.len() <= depth,
    ensures
        within(nodes.insert(pointer, JsonNode::Number(dec(n as nat))), depth),
{
}

/// A shallow member keeps a document shallow.
pub proof fn lemma_graft_within(outer: JsonNodes, key: Seq<char>, inner: JsonNodes, depth: nat)
    requires
        within(outer, depth),
        exists|d: nat| #[trigger] within(inner, d) && pointer_to(key).len() + d <= depth,
    ensures
        within(grafted(outer, key, inner), depth),
{
    let at = pointer_to(key);
    let g = grafted(outer, key, inner);
    assert forall|p: Seq<char>| #[trigger] g.dom().contains(p) implies p.len() <= depth && (
    g[p] matches JsonNode::Number(t) ==> (exists|n: u64| t == #[trigger] dec(n as nat))) by {
        if begins(p, at) && inner.dom().contains(p.skip(at.len() as int)) {
            assert(p.skip(at.len() as int).len() == p.len() - at.len());
        } else {
            assert(outer.dom().contains(p));
        }
    }
}

/// An object in one line: it is in braces, and no line break stands in it.
pub open spec fn one_line(s: Seq<char>) -> bool {
    &&& s.len() >= 2 && s[0] == '{' && s.last() == '}'
    &&& forall|i: int| 0 <= i < s.len() ==> #[trigger] s[i] != '\n'
}

/// `serde_json::to_string` on an object. The text depends on what stands in the object alone. It
/// is one line: braces stand around it, nothing but what is needed stands between its parts, and
/// a line break inside a string is escaped. Reading it gives the object back, if it holds no fractions, which may be rounded, and is
/// not nested deeper than the reader goes. The call succeeds: the members have
/// string names, and nothing in a value refuses to be written.
#[verifier::external_body]
pub(crate) fn json_render(m: serde_json::Map<String, serde_json::Value>) -> (r: Result<
    String,
    serde_json::Error,
>)
    ensures
        match r {
            Ok(s) => s@ == json_text(object_nodes(m)) && one_line(s@) && (reads_back(
                object_nodes(m),
            ) ==> json_read(s@) == Some(object_nodes(m))),
            Err(_) => false,
        },
{
    serde_json::to_string(&serde_json::Value::Object(m))
}

/// `serde_json::from_str`: the document that a text holds, or an error where it holds none.
#[verifier::external_body]
pub(crate) fn json_parse(text: &str) -> (r: Result<serde_json::Value, serde_json::Error>)
    ensures
        match r {
            Ok(v) => json_read(text@) == Some(value_nodes(v)),
            Err(_) => json_read(text@) is None,
        },
{
    serde_json::from_str(text)
}

/// The string at a pointer.
pub open spec fn text_at(nodes: JsonNodes, pointer: Seq<char>) -> Option<Seq<char>> {
    if nodes.dom().contains(pointer) {
        match nodes[pointer] {
            JsonNode::Text(t) => Some(t),
            _ => None,
        }
    } else {
        None
    }
}

/// The unsigned number of at most 64 bits at a pointer.
pub open spec fn number_is_at(nodes: JsonNodes, pointer: Seq<char>, n: u64) -> bool {
    nodes.dom().contains(pointer) && nodes[pointer] == JsonNode::Number(dec(n as nat))
}

/// `Value::pointer`, then `Value::as_str`: the string at a pointer, if one stands there.
#[verifier::external_body]
pub(crate) fn json_text_at(v: &serde_json::Value, pointer: &str) -> (r: Option<String>)
    ensures
        match r {
            Some(s) => text_at(value_nodes(*v), pointer@) == Some(s@),
            None => text_at(value_nodes(*v), pointer@) is None,
        },
{
    v.pointer(pointer).and_then(|x| x.as_str()).map(|s| s.to_string())
}

/// `Value::pointer`, then `Value::as_u64`: the unsigned number at a pointer, if one of at
/// most 64 bits stands there.
#[verifier::external_body]
pub(crate) fn json_u64_at(v: &serde_json::Value, pointer: &str) -> (r: Option<u64>)
    ensures
        match r {
            Some(n) => number_is_at(value_nodes(*v), pointer@, n),
            None => forall|n: u64| !number_is_at(value_nodes(*v), pointer@, n),
        },
{
    v.pointer(pointer).and_then(|x| x.as_u64())
}

/// `Value::pointer`: does anything stand at a pointer?
#[verifier::external_body]
pub(crate) fn json_has(v: &serde_json::Value, pointer: &str) -> (r: bool)
    ensures
        r == value_nodes(*v).dom().contains(pointer@),
{
    v.pointer(pointer).is_some()
}

proof fn lemma_last_digit(n: nat)
    ensures
        dec(n).len() > 0,
        dec(n).last() == crate::text::digit(n % 10),
        n < 10 <==> dec(n).len() == 1,
    decreases n,
{
    if n >= 10 {
        lemma_last_digit(n / 10);
    }
}

/// Different numbers have different decimal texts.
pub proof fn decimal_is_unique(a: nat, b: nat)
    requires
        dec(a) == dec(b),
    ensures
        a == b,
    decreases a,
{
    lemma_last_digit(a);
    lemma_last_digit(b);
    if a >= 10 {
        assert(dec(a).drop_last() =~= dec(a / 10));
        assert(dec(b).drop_last() =~= dec(b / 10));
        decimal_is_unique(a / 10, b / 10);
    }
}

} // verus!
