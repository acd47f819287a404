//! The pattern resolver: from an untrusted configuration payload to a
//! compiled match predicate.
//!
//! The payload is expected to be a JSON document whose `pattern` member holds
//! the regular expression to filter by. Resolution is a pure function of the
//! payload text, and each of the four ways it can go wrong is reported as its
//! own [`ConfigError`] kind, exactly one of which fits any rejected payload.

use crate::errors::ConfigError;
use crate::pattern::Pattern;
use crate::pattern::regex_valid;
use vstd::prelude::*;

verus! {

/// Whether `payload` parses as a JSON document, that is, whether
/// `serde_json::from_str::<Value>` accepts it.
pub uninterp spec fn json_wf(payload: Seq<char>) -> bool;

/// Whether the JSON document parsed from `payload` has a member named `key`
/// (false whenever the document is not an object, which has no members).
pub uninterp spec fn json_member_present(payload: Seq<char>, key: Seq<char>) -> bool;

/// The string content of member `key` of the JSON document parsed from
/// `payload`, or `None` when that member is not a JSON string.
pub uninterp spec fn json_member_str(payload: Seq<char>, key: Seq<char>) -> Option<Seq<char>>;

/// What looking one string member up in a configuration payload can find.
enum MemberLookup {
    /// The payload is not well-formed JSON.
    NoDocument,
    /// The document has no such member.
    Absent,
    /// The member is there but is not a string.
    NotString,
    /// The member is the string carried here.
    Text(String),
}

/// Relies on `serde_json::from_str::<Value>`, `Value::get` and
/// `Value::as_str`: whether a payload parses, whether the parsed document has
/// a given member, and that member's string content are each functions of the
/// payload and the key alone.
#[verifier::external_body]
fn lookup_string_member(payload: &str, key: &str) -> (r: MemberLookup)
    ensures
        (r is NoDocument) <==> !json_wf(payload@),
        json_wf(payload@) ==> ((r is Absent) <==> !json_member_present(payload@, key@)),
        (json_wf(payload@) && json_member_present(payload@, key@)) ==> (match json_member_str(
            payload@,
            key@,
        ) {
            Some(s) => r matches MemberLookup::Text(t) && t@ == s,
            None => r is NotString,
        }),
{
    match serde_json::from_str::<serde_json::Value>(payload) {
        Err(_) => MemberLookup::NoDocument,
        Ok(document) => match document.get(key) {
            None => MemberLookup::Absent,
            Some(member) => match member.as_str() {
                None => MemberLookup::NotString,
                Some(text) => MemberLookup::Text(text.to_string()),
            },
        },
    }
}

/// The member of the configuration object that holds the pattern text.
pub open spec fn pattern_key() -> Seq<char> {
    "pattern"@
}

/// What resolving `payload` must come to: the pattern text to compile, or the
/// one error kind that fits the payload. Checked in this order: the payload
/// must parse, the `pattern` member must be present, it must be a string, and
/// that string must be a valid regular expression.
pub open spec fn resolved_config(payload: Seq<char>) -> Result<Seq<char>, ConfigError> {
    if !json_wf(payload) {
        Err(ConfigError::ConfigParse)
    } else if !json_member_present(payload, pattern_key()) {
        Err(ConfigError::MissingField)
    } else {
        match json_member_str(payload, pattern_key()) {
            None => Err(ConfigError::TypeMismatch),
            Some(text) => if regex_valid(text) {
                Ok(text)
            } else {
                Err(ConfigError::InvalidPattern)
            },
        }
    }
}

/// Resolve a configuration payload into a compiled match predicate, or fail
/// with the error kind [`resolved_config`] assigns to the payload. No default
/// pattern is ever substituted.
pub fn parse_options(options_str: &str) -> (r: Result<Pattern, ConfigError>)
    ensures
        r is Ok <==> resolved_config(options_str@) is Ok,
        r is Ok ==> r->Ok_0.src() == resolved_config(options_str@)->Ok_0,
        r is Err ==> r->Err_0 == resolved_config(options_str@)->Err_0,
{
    match lookup_string_member(options_str, "pattern") {
        MemberLookup::NoDocument => Err(ConfigError::ConfigParse),
        MemberLookup::Absent => Err(ConfigError::MissingField),
        MemberLookup::NotString => Err(ConfigError::TypeMismatch),
        MemberLookup::Text(text) => Pattern::compile(text.as_str()),
    }
}

} // verus!
