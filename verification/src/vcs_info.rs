//! Snapshot metadata: the `.cargo_vcs_info.json` file that `cargo publish`
//! embeds in a packaged crate, fixing the revision at packaging time.

use vstd::prelude::*;

verus! {

/// The revision that a snapshot-metadata text designates: the `git.sha1`
/// field, when the text parses as a JSON object carrying one; nothing
/// otherwise.
pub uninterp spec fn vcs_sha1_of(text: Seq<char>) -> Option<Seq<char>>;

/// Relies on `serde_json::from_str::<Value>`, `Value::get` and
/// `Value::as_str`: whether a JSON document parses, and which string its
/// `git.sha1` field holds, depend on the document text alone.
#[verifier::external_body]
pub(crate) fn parse_vcs_sha1(text: &str) -> (r: Option<String>)
    ensures
        match r {
            Some(sha) => vcs_sha1_of(text@) == Some(sha@),
            None => vcs_sha1_of(text@) is None,
        },
{
    let value: serde_json::Value = match serde_json::from_str(text) {
        Ok(v) => v,
        Err(_) => return None,
    };
    match value.get("git").and_then(|g| g.get("sha1")).and_then(|s| s.as_str()) {
        Some(sha) => Some(sha.to_string()),
        None => None,
    }
}

} // verus!
