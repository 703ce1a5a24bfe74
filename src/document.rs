//! The configuration document as seen through serde_json: parsing, reading and
//! setting one boolean member, and rendering back to text.
use vstd::prelude::*;

verus! {

#[verifier::external_type_specification]
#[verifier::external_body]
pub struct ExJsonValue(serde_json::Value);

#[verifier::external_type_specification]
#[verifier::external_body]
pub struct ExJsonError(serde_json::Error);

/// The top-level members of a JSON value: each key mapped to the compact JSON
/// text of its value. Empty when the value is not an object.
pub uninterp spec fn value_members(v: serde_json::Value) -> Map<Seq<char>, Seq<char>>;

/// The keys of a JSON value's top-level members, in the order in which the
/// value holds them. Empty when the value is not an object.
pub uninterp spec fn value_keys(v: serde_json::Value) -> Seq<Seq<char>>;

/// Whether a JSON value is an object.
pub uninterp spec fn value_is_object(v: serde_json::Value) -> bool;

/// How deeply arrays and objects nest in a JSON value: 0 for a scalar, one
/// more than its deepest element for an array or an object.
pub uninterp spec fn value_depth(v: serde_json::Value) -> nat;

/// The deepest nesting of arrays and objects that serde_json's parser accepts
/// is one less than this.
pub open spec fn depth_limit() -> nat {
    128
}

/// Whether serde_json's `from_str` accepts a text as a JSON value. Besides
/// well-formed syntax this asks for nesting below `depth_limit()` and numbers
/// within the range of `f64`.
pub uninterp spec fn text_is_json(s: Seq<char>) -> bool;

/// The keys of the top-level members of the JSON value written in a text, in
/// order, as for `value_keys`.
pub uninterp spec fn text_keys(s: Seq<char>) -> Seq<Seq<char>>;

/// The top-level members of the JSON document written in a text, as for
/// `value_members`.
pub uninterp spec fn text_members(s: Seq<char>) -> Map<Seq<char>, Seq<char>>;

/// Whether the JSON document written in a text is an object.
pub uninterp spec fn text_is_object(s: Seq<char>) -> bool;

/// Compact JSON text of a boolean.
pub open spec fn bool_text(b: bool) -> Seq<char> {
    if b {
        seq!['t', 'r', 'u', 'e']
    } else {
        seq!['f', 'a', 'l', 's', 'e']
    }
}

/// The key order after setting the member `key`: unchanged where the key is
/// present, the key added last otherwise.
pub open spec fn keys_with(keys: Seq<Seq<char>>, key: Seq<char>) -> Seq<Seq<char>> {
    if keys.contains(key) {
        keys
    } else {
        keys.push(key)
    }
}

/// Whether the member `key` of a member map is the boolean `true`.
pub open spec fn member_true(members: Map<Seq<char>, Seq<char>>, key: Seq<char>) -> bool {
    members.contains_key(key) && members[key] == bool_text(true)
}

/// Relies on serde_json::from_str: it succeeds exactly on the texts that it
/// accepts, the value holds the members that the text writes, in order, and
/// its parser refuses nesting at `depth_limit()` levels.
#[verifier::external_body]
fn parse_value(s: &str) -> (r: Result<serde_json::Value, serde_json::Error>)
    ensures
        r.is_ok() == text_is_json(s@),
        r matches Ok(v) ==> {
            &&& value_members(v) == text_members(s@)
            &&& value_keys(v) == text_keys(s@)
            &&& value_is_object(v) == text_is_object(s@)
            &&& value_depth(v) < depth_limit()
        },
{
    serde_json::from_str(s)
}

/// Relies on serde_json::Value::is_object.
#[verifier::external_body]
fn is_object(v: &serde_json::Value) -> (r: bool)
    ensures
        r == value_is_object(*v),
{
    v.is_object()
}

/// Relies on `Index<&str>` of serde_json::Value and its `PartialEq<bool>`: a
/// missing member, or any member of a non-object, reads as null, which is not
/// `true`.
#[verifier::external_body]
fn member_is_true(v: &serde_json::Value, key: &str) -> (r: bool)
    ensures
        r == member_true(value_members(*v), key@),
{
    v[key] == true
}

/// Relies on `IndexMut<&str>` of serde_json::Value on an object: the member
/// `key` is replaced in place, or added after the others (the map keeps
/// insertion order), and no other member changes. A boolean nests no deeper
/// than the member it replaces.
#[verifier::external_body]
fn set_member_bool(v: &mut serde_json::Value, key: &str, b: bool)
    requires
        value_is_object(*old(v)),
    ensures
        value_is_object(*final(v)),
        value_members(*final(v)) == value_members(*old(v)).insert(key@, bool_text(b)),
        value_keys(*final(v)) == keys_with(value_keys(*old(v)), key@),
        value_depth(*final(v)) <= value_depth(*old(v)),
{
    v[key] = serde_json::Value::Bool(b);
}

/// Relies on serde_json::to_string_pretty: writing a value into memory does
/// not fail, and what it writes of a value nested below `depth_limit()` parses
/// back to a value with the same members in the same order.
#[verifier::external_body]
fn render_pretty(v: &serde_json::Value) -> (r: Result<String, serde_json::Error>)
    requires
        value_depth(*v) < depth_limit(),
    ensures
        r is Ok,
        r matches Ok(s) ==> {
            &&& text_is_json(s@)
            &&& text_members(s@) == value_members(*v)
            &&& text_keys(s@) == value_keys(*v)
            &&& text_is_object(s@) == value_is_object(*v)
        },
{
    serde_json::to_string_pretty(v)
}

/// Why a document could not be read or rewritten.
#[derive(Clone, Copy, Debug, PartialEq, Eq, Structural)]
pub enum DocumentError {
    /// The text is not well-formed JSON.
    Malformed,
    /// The document is well-formed but is not an object.
    NotAnObject,
    /// The rewritten document could not be rendered as text; the contract of
    /// `with_flag` shows that this does not happen.
    Unrenderable,
}

/// Whether the document written in `text` has the boolean member `key` set to
/// `true`. A malformed document is an error; a document that is not an object
/// has no members.
pub fn flag_is_set(text: &str, key: &str) -> (r: Result<bool, DocumentError>)
    ensures
        r == (if text_is_json(text@) {
            Ok(member_true(text_members(text@), key@))
        } else {
            Err(DocumentError::Malformed)
        }),
{
    match parse_value(text) {
        Ok(v) => Ok(member_is_true(&v, key)),
        Err(_) => Err(DocumentError::Malformed),
    }
}

/// Rewrites the document written in `text` with the boolean member `key` set to
/// `b`, every other member kept.
pub fn with_flag(text: &str, key: &str, b: bool) -> (r: Result<String, DocumentError>)
    ensures
        r is Ok <==> text_is_json(text@) && text_is_object(text@),
        !text_is_json(text@) <==> r == Err::<String, DocumentError>(DocumentError::Malformed),
        text_is_json(text@) && !text_is_object(text@) <==> r == Err::<String, DocumentError>(
            DocumentError::NotAnObject,
        ),
        r matches Ok(out) ==> text_is_json(out@) && text_is_object(out@) && text_members(out@)
            == text_members(text@).insert(key@, bool_text(b)) && text_keys(out@) == keys_with(
            text_keys(text@),
            key@,
        ),
{
    match parse_value(text) {
        Ok(mut v) => {
            if !is_object(&v) {
                return Err(DocumentError::NotAnObject);
            }
            set_member_bool(&mut v, key, b);
            match render_pretty(&v) {
                Ok(out) => Ok(out),
                Err(_) => Err(DocumentError::Unrenderable),
            }
        },
        Err(_) => Err(DocumentError::Malformed),
    }
}

} // verus!
