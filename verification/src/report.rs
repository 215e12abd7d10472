//! What the `railway` tool reports about the current directory.

use vstd::prelude::*;
use vstd::string::StringExecFns;

verus! {

/// `serde_json::Value`, carried through as it is. Trusted: nothing is known of
/// what a value holds but what the names below say of it.
#[verifier::external_type_specification]
#[verifier::external_body]
pub struct ExJsonValue(serde_json::Value);

/// The JSON value that a text denotes, or `None` where the text is no JSON
/// document.
pub uninterp spec fn json_document(text: Seq<char>) -> Option<serde_json::Value>;

/// Whether a JSON value is an object.
pub uninterp spec fn json_is_object(value: serde_json::Value) -> bool;

/// Whether a JSON value is `null`.
pub uninterp spec fn json_is_null(value: serde_json::Value) -> bool;

/// The characters of a JSON string, or `None` for a value of another kind.
pub uninterp spec fn json_text(value: serde_json::Value) -> Option<Seq<char>>;

/// The member that a JSON object holds under a key, or `None` where the value
/// is no object or holds no such key.
pub uninterp spec fn json_member(value: serde_json::Value, key: Seq<char>) -> Option<
    serde_json::Value,
>;

/// `serde_json::from_str` at the type `serde_json::Value`. Trusted: the result
/// is a function of the text alone, named `json_document`; a text that the
/// parser rejects gives `None`.
#[verifier::external_body]
fn parse_document(text: &str) -> (r: Option<serde_json::Value>)
    ensures
        r == json_document(text@),
{
    serde_json::from_str::<serde_json::Value>(text).ok()
}

/// `serde_json::Value::is_object`. Trusted: the result is a function of the
/// value alone, named `json_is_object`.
#[verifier::external_body]
fn is_object(value: &serde_json::Value) -> (r: bool)
    ensures
        r == json_is_object(*value),
{
    value.is_object()
}

/// `serde_json::Value::is_null`. Trusted: the result is a function of the
/// value alone, named `json_is_null`.
#[verifier::external_body]
fn is_null(value: &serde_json::Value) -> (r: bool)
    ensures
        r == json_is_null(*value),
{
    value.is_null()
}

/// `serde_json::Value::as_str`. Trusted: the result holds the characters named
/// `json_text`, and is `None` exactly where that name is.
#[verifier::external_body]
fn as_text(value: &serde_json::Value) -> (r: Option<&str>)
    ensures
        r is Some == json_text(*value) is Some,
        r matches Some(s) ==> json_text(*value) == Some(s@),
{
    value.as_str()
}

/// `serde_json::Value::get` with a string key. Trusted: the result is the
/// member named `json_member`, and is `None` exactly where that name is.
#[verifier::external_body]
fn member<'a>(value: &'a serde_json::Value, key: &str) -> (r: Option<&'a serde_json::Value>)
    ensures
        r is Some == json_member(*value, key@) is Some,
        r matches Some(m) ==> json_member(*value, key@) == Some(*m),
{
    value.get(key)
}

/// The project that the tool found bound to the current directory. Either
/// part may be missing: the tool reports what it knows.
#[derive(Clone, Debug, PartialEq, Eq)]
pub struct RailwayStarshipOutput {
    /// The project's name.
    pub name: Option<String>,
    /// The name of the environment in use.
    pub environment_name: Option<String>,
}

/// What a `RailwayStarshipOutput` holds, as plain values.
pub struct ReportView {
    pub name: Option<Seq<char>>,
    pub environment_name: Option<Seq<char>>,
}

impl View for RailwayStarshipOutput {
    type V = ReportView;

    open spec fn view(&self) -> ReportView {
        ReportView {
            name: match self.name {
                Some(s) => Some(s@),
                None => None,
            },
            environment_name: match self.environment_name {
                Some(s) => Some(s@),
                None => None,
            },
        }
    }
}

/// The key under which the tool reports the project's name.
pub open spec fn name_key() -> Seq<char> {
    "name"@
}

/// The key under which the tool reports the environment's name.
pub open spec fn environment_key() -> Seq<char> {
    "environmentName"@
}

/// What an optional text member of an object decodes to: `Some(None)` where
/// the key is missing or holds `null`, `Some(Some(..))` where it holds a
/// string, and `None` where it holds anything else.
pub open spec fn optional_text(object: serde_json::Value, key: Seq<char>) -> Option<
    Option<Seq<char>>,
> {
    match json_member(object, key) {
        None => Some(None),
        Some(m) => if json_is_null(m) {
            Some(None)
        } else {
            match json_text(m) {
                Some(s) => Some(Some(s)),
                None => None,
            }
        },
    }
}

/// What a JSON value decodes to: a report where it is an object whose two
/// members are strings, `null` or missing; `None` otherwise.
pub open spec fn report_of_value(value: serde_json::Value) -> Option<ReportView> {
    if !json_is_object(value) {
        None
    } else {
        match (optional_text(value, name_key()), optional_text(value, environment_key())) {
            (Some(name), Some(environment_name)) => Some(ReportView { name, environment_name }),
            _ => None,
        }
    }
}

/// What the tool's output decodes to: `None` where it is no JSON document or
/// not of the shape of a report.
pub open spec fn report_of_text(text: Seq<char>) -> Option<ReportView> {
    match json_document(text) {
        None => None,
        Some(value) => report_of_value(value),
    }
}

/// Reads an optional text member of a JSON object.
fn read_optional_text(object: &serde_json::Value, key: &str) -> (r: Option<Option<String>>)
    ensures
        match optional_text(*object, key@) {
            None => r is None,
            Some(None) => r == Some(None::<String>),
            Some(Some(s)) => r matches Some(Some(t)) && t@ == s,
        },
{
    match member(object, key) {
        None => Some(None),
        Some(m) => {
            if is_null(m) {
                Some(None)
            } else {
                match as_text(m) {
                    Some(s) => Some(Some(String::from_str(s))),
                    None => None,
                }
            }
        },
    }
}

impl RailwayStarshipOutput {
    /// Decodes a JSON value into a report.
    pub fn from_value(value: &serde_json::Value) -> (r: Option<RailwayStarshipOutput>)
        ensures
            r is Some == report_of_value(*value) is Some,
            r matches Some(report) ==> report_of_value(*value) == Some(report@),
    {
        if !is_object(value) {
            return None;
        }
        let name = match read_optional_text(value, "name") {
            Some(name) => name,
            None => { return None; },
        };
        let environment_name = match read_optional_text(value, "environmentName") {
            Some(environment_name) => environment_name,
            None => { return None; },
        };
        Some(RailwayStarshipOutput { name, environment_name })
    }

    /// Decodes the tool's output. Output that is no JSON document, or no
    /// object with text members, gives `None`.
    pub fn decode(text: &str) -> (r: Option<RailwayStarshipOutput>)
        ensures
            r is Some == report_of_text(text@) is Some,
            r matches Some(report) ==> report_of_text(text@) == Some(report@),
    {
        match parse_document(text) {
            None => None,
            Some(value) => RailwayStarshipOutput::from_value(&value),
        }
    }
}

} // verus!
