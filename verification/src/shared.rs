//! The read-only view of a shared note or thread.

use crate::spaces::ShareError;
use crate::text::{byte_prefix, same_text, trimmed};
use vstd::prelude::*;
use vstd::string::StringSliceAdditionalSpecFns;
use vstd::utf8::is_char_boundary;

verus! {

/// Where opening a shared link stands.
#[derive(Debug)]
pub enum Load<T> {
    Loading,
    /// The link no longer exists.
    NotFound,
    /// Opening failed for another reason, told in words.
    Failed(String),
    Ready(T),
}

/// The view once the service answered: a missing share is "not found",
/// any other failure is shown with its message.
pub fn load_outcome<T>(outcome: Result<T, ShareError>, message: String) -> (r: Load<T>)
    ensures
        match outcome {
            Ok(t) => r == Load::Ready(t),
            Err(e) => if e is Gone { r is NotFound } else { r == Load::<T>::Failed(message) },
        },
{
    match outcome {
        Ok(t) => Load::Ready(t),
        Err(ShareError::Gone) => Load::NotFound,
        Err(_) => Load::Failed(message),
    }
}

/// The day a shared note was written: the first ten bytes of its stamp
/// when they end on a character boundary, else nothing.
pub fn shared_date(created_at: &str) -> (r: &str)
    ensures
        is_char_boundary(created_at.spec_bytes(), 10) ==> r.spec_bytes() =~= created_at.spec_bytes().subrange(0, 10),
        !is_char_boundary(created_at.spec_bytes(), 10) ==> r@.len() == 0,
{
    match byte_prefix(created_at, 10) {
        Some(p) => p,
        None => {
            proof {
                reveal_strlit("");
            }
            ""
        },
    }
}

/// Only a thread can be added to.
pub fn can_append(kind: &str) -> (r: bool)
    ensures
        r == (kind@ == "thread"@),
{
    same_text(kind, "thread")
}

/// Whether the note `id` is the one being edited.
pub fn is_editing(editing: &Option<(String, String)>, id: &str) -> (r: bool)
    ensures
        r == (match editing {
            Some((e, _)) => e@ == id@,
            None => false,
        }),
{
    match editing {
        Some((e, _)) => same_text(e.as_str(), id),
        None => false,
    }
}

/// The send button works when a text is typed and nothing is being sent.
pub fn can_send(busy: bool, text: &str) -> (r: bool)
    ensures
        r == (!busy && trimmed(text@).len() > 0),
{
    !busy && crate::text::has_text(text)
}

} // verus!
