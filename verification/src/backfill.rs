//! The scrollback backfill's response handling.
//!
//! Once at startup the client fetches recent scrollback from the `/raw`
//! control endpoint to prime the local terminal.  The fetch is best-effort:
//! a network failure, a malformed response or a missing `output` field all
//! degrade to fetching nothing.  An empty field is no failure: it is
//! returned as it is, and the caller simply has nothing to render.

use vstd::prelude::*;

verus! {

/// What the structured parse of a backfill response body yields: its string
/// field `output`, or nothing when the body is no JSON object with such a
/// field.  A function of the body alone.
pub uninterp spec fn output_field_of(body: Seq<char>) -> Option<Seq<char>>;

/// Relies on `serde_json::from_str` and the accessors of
/// `serde_json::Value`: parses the body as a JSON object and takes its
/// string field `output`.  The outcome depends on the body alone.
#[verifier::external_body]
fn parse_output_field(body: &str) -> (r: Option<String>)
    ensures
        match r {
            Some(s) => output_field_of(body@) == Some(s@),
            None => output_field_of(body@) is None,
        },
{
    let value: serde_json::Value = serde_json::from_str(body).ok()?;
    Some(value.get("output")?.as_str()?.to_string())
}

/// The fetched scrollback text: the `output` field of the fetched response
/// body, exactly as the server sent it, empty included, whenever the fetch
/// succeeded and the field is there; nothing on every failure (no body, a
/// malformed body, no string `output` field).
pub fn backfill_text(body: Option<String>) -> (r: Option<String>)
    ensures
        match body {
            Some(b) => match output_field_of(b@) {
                Some(o) => (r matches Some(t) && t@ == o),
                None => r is None,
            },
            None => r is None,
        },
{
    match body {
        Some(b) => parse_output_field(b.as_str()),
        None => None,
    }
}

} // verus!
