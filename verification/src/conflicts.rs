//! Unresolved sync conflicts: the losing version of a concurrent edit, as
//! the sync screen lists it until the user restores or dismisses it.

use crate::text::{chars_of, char_prefix, concatenated, push_char, push_str};
use vstd::prelude::*;

verus! {

/// A conflict the sync kept: which entity, and the losing version as the
/// JSON snapshot it was stored as.
#[derive(Debug)]
pub struct SyncConflict {
    pub id: i64,
    pub entity_kind: String,
    pub entity_id: String,
    pub losing_snapshot_json: String,
}

/// The text of the string field `key` at the top of the JSON document
/// `json`, as serde_json reads it; `None` when the text is no JSON, the
/// field is missing, or it holds no string.
pub uninterp spec fn json_text_field(json: Seq<char>, key: Seq<char>) -> Option<Seq<char>>;

/// Reads one top-level string field of a JSON text with
/// `serde_json::from_str::<serde_json::Value>`, then `Value::get` and
/// `Value::as_str`.
///
/// Trusted: the result is the named `json_text_field(json, key)`, a
/// function of the two texts alone; what serde_json accepts as JSON is left
/// to it.
#[verifier::external_body]
fn snapshot_field(json: &str, key: &str) -> (r: Option<String>)
    ensures
        crate::text::opt_text(r) == json_text_field(json@, key@),
{
    serde_json::from_str::<serde_json::Value>(json).ok()?.get(key)?.as_str().map(|s| s.to_string())
}

/// The text a conflict previews: its content, else its name, else its
/// text content, else the raw snapshot.
pub open spec fn preview_source(json: Seq<char>) -> Seq<char> {
    match json_text_field(json, "content"@) {
        Some(t) => t,
        None => match json_text_field(json, "name"@) {
            Some(t) => t,
            None => match json_text_field(json, "content_text"@) {
                Some(t) => t,
                None => json,
            },
        },
    }
}

/// At most 120 characters, with an ellipsis when some were cut.
pub open spec fn clipped(t: Seq<char>) -> Seq<char> {
    if t.len() > 120 {
        t.take(120).push('…')
    } else {
        t
    }
}

/// Cuts a text to 120 characters and marks the cut.
pub fn clip(text: &str) -> (r: String)
    ensures
        r@ == clipped(text@),
{
    let mut p = char_prefix(text, 120);
    if chars_of(text).len() > 120 {
        push_char(&mut p, '…');
    }
    p
}

/// The preview of a conflict's losing version.
pub fn preview(c: &SyncConflict) -> (r: String)
    ensures
        r@ == clipped(preview_source(c.losing_snapshot_json@)),
{
    let json = c.losing_snapshot_json.as_str();
    let text = match snapshot_field(json, "content") {
        Some(t) => t,
        None => match snapshot_field(json, "name") {
            Some(t) => t,
            None => match snapshot_field(json, "content_text") {
                Some(t) => t,
                None => String::from_str(json),
            },
        },
    };
    clip(text.as_str())
}

/// A conflict's title: the snapshot's title when it has a non-empty one,
/// else the entity's kind and id.
pub open spec fn label_spec(c: SyncConflict) -> Seq<char> {
    match json_text_field(c.losing_snapshot_json@, "title"@) {
        Some(t) => if t.len() > 0 {
            t
        } else {
            c.entity_kind@ + " "@ + c.entity_id@
        },
        None => c.entity_kind@ + " "@ + c.entity_id@,
    }
}

/// The title line of a conflict.
pub fn label(c: &SyncConflict) -> (r: String)
    ensures
        r@ == label_spec(*c),
{
    if let Some(t) = snapshot_field(c.losing_snapshot_json.as_str(), "title") {
        if !t.as_str().is_empty() {
            return t;
        }
    }
    let mut out = concatenated(c.entity_kind.as_str(), " ");
    push_str(&mut out, c.entity_id.as_str());
    out
}

/// Only a note's conflict can come back as a new note; anything can be
/// dismissed.
pub fn can_restore(c: &SyncConflict) -> (r: bool)
    ensures
        r == (c.entity_kind@ == "note"@),
{
    crate::text::same_text(c.entity_kind.as_str(), "note")
}

/// The list reloads whenever the count of unresolved conflicts changes.
pub fn conflicts_changed(last: usize, count: usize) -> (r: bool)
    ensures
        r == (last != count),
{
    last != count
}

} // verus!
