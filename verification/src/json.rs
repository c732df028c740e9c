//! JSON reading and writing, done by `serde_json`.
//!
//! The verifier does not look inside `serde_json`. What it is told of the
//! two calls made here is their determinism: the same text gives the same
//! result. That result is named by [`json_object`] and [`json_quoted`], and
//! everything else is proved from those names.

use vstd::prelude::*;

verus! {

/// `serde_json::Error`, carried from a failed call to the code that maps it
/// to an error of this library.
#[verifier::external_type_specification]
#[verifier::external_body]
pub struct ExJsonError(serde_json::Error);

/// One member of a JSON object: its key and, where its value is a JSON
/// string, that string. For a value of any other kind `text` is `None`.
#[derive(Clone, Debug, PartialEq, Eq)]
pub struct Member {
    pub key: String,
    pub text: Option<String>,
}

impl View for Member {
    type V = (Seq<char>, Option<Seq<char>>);

    open spec fn view(&self) -> (Seq<char>, Option<Seq<char>>) {
        (
            self.key@,
            match self.text {
                Some(text) => Some(text@),
                None => None,
            },
        )
    }
}

/// The members of a list, as mathematical values.
pub open spec fn members_view(members: Seq<Member>) -> Seq<(Seq<char>, Option<Seq<char>>)> {
    members.map_values(|m: Member| m@)
}

/// What `serde_json::from_str` makes of `text` when it is asked for a
/// `serde_json::Map<String, serde_json::Value>`: `None` where it fails, and
/// otherwise the members of the object that it read, in the order in which
/// the map yields them.
pub uninterp spec fn json_object(text: Seq<char>) -> Option<Seq<(Seq<char>, Option<Seq<char>>)>>;

/// What `serde_json::to_string` makes of the string `text`: the JSON string
/// literal that stands for it, quotes included, or `None` where the call
/// fails.
pub uninterp spec fn json_quoted(text: Seq<char>) -> Option<Seq<char>>;

/// `serde_json::from_str`, asked for a `Map<String, Value>`. It succeeds
/// when the whole of `text` is one JSON object. The members are handed over
/// as [`Member`]s, which keep the keys and the string values. The contract
/// only names the outcome.
#[verifier::external_body]
pub(crate) fn read_object(text: &str) -> (r: Result<Vec<Member>, serde_json::Error>)
    ensures
        match r {
            Ok(members) => json_object(text@) == Some(members_view(members@)),
            Err(_) => json_object(text@) is None,
        },
{
    let object = serde_json::from_str::<serde_json::Map<String, serde_json::Value>>(text)?;
    Ok(object.into_iter().map(|(key, value)| match value {
        serde_json::Value::String(text) => Member { key, text: Some(text) },
        _ => Member { key, text: None },
    }).collect())
}

/// `serde_json::to_string`, given a string: it writes the JSON string
/// literal for `text`. The contract only names the outcome.
#[verifier::external_body]
pub(crate) fn quote(text: &str) -> (r: Result<String, serde_json::Error>)
    ensures
        match r {
            Ok(quoted) => json_quoted(text@) == Some(quoted@),
            Err(_) => json_quoted(text@) is None,
        },
{
    serde_json::to_string(text)
}

} // verus!
