//! Importing a document into a note: what is accepted, how long its text
//! extraction may take, and the note it lands in.

use crate::text::chars_of;
use vstd::prelude::*;

verus! {

/// A document read from the device: its file name and its text.
#[derive(Debug)]
pub struct ImportedFile {
    pub filename: String,
    pub content: String,
}

/// One mebibyte.
pub const MIB: u64 = 1_048_576;

/// The largest document accepted: 20 MiB.
pub const MAX_IMPORT_BYTES: u64 = 20_971_520;

/// A document is accepted up to 20 MiB; a larger one is refused with its
/// size in whole MiB.
pub fn check_import_size(file_size: u64) -> (r: Result<(), u64>)
    ensures
        file_size <= MAX_IMPORT_BYTES ==> r is Ok,
        file_size > MAX_IMPORT_BYTES ==> r == Err::<(), u64>(file_size / MIB),
{
    if file_size > MAX_IMPORT_BYTES {
        Err(file_size / MIB)
    } else {
        Ok(())
    }
}

/// The time a text extraction is given: a minute, and thirty seconds more
/// per MiB.
pub fn extraction_timeout_secs(file_size: u64) -> (r: u64)
    ensures
        r == 60 + (file_size / MIB) * 30,
{
    proof {
        assert(file_size / MIB <= u64::MAX / MIB) by (nonlinear_arith)
            requires
                MIB > 0,
        ;
    }
    60 + (file_size / MIB) * 30
}

/// The minutes an extraction was given, for the message when it ran out.
pub fn timeout_minutes(secs: u64) -> (r: u64)
    ensures
        r == secs / 60,
{
    secs / 60
}

/// `c` in ASCII lower case (other characters unchanged).
pub open spec fn ascii_lower(c: char) -> char {
    if 'A' <= c <= 'Z' {
        ((c as u32) + 32) as char
    } else {
        c
    }
}

/// Whether two texts are equal ignoring ASCII case, as std's
/// `eq_ignore_ascii_case` compares them.
pub open spec fn same_ignoring_ascii_case(a: Seq<char>, b: Seq<char>) -> bool {
    a.len() == b.len() && forall|i: int| 0 <= i < a.len() ==> ascii_lower(#[trigger] a[i]) == ascii_lower(b[i])
}

fn lower_ascii(c: char) -> (r: char)
    ensures
        r == ascii_lower(c),
{
    if 'A' <= c && c <= 'Z' {
        let code: u8 = (c as u8) + 32;
        code as char
    } else {
        c
    }
}

/// Whether two texts are equal ignoring ASCII case.
pub fn eq_ignore_ascii_case(a: &str, b: &str) -> (r: bool)
    ensures
        r == same_ignoring_ascii_case(a@, b@),
{
    let x = chars_of(a);
    let y = chars_of(b);
    if x.len() != y.len() {
        return false;
    }
    let mut i: usize = 0;
    while i < x.len()
        invariant
            x@ == a@,
            y@ == b@,
            x@.len() == y@.len(),
            i <= x@.len(),
            forall|j: int| 0 <= j < i ==> ascii_lower(#[trigger] x@[j]) == ascii_lower(y@[j]),
        decreases x@.len() - i,
    {
        if lower_ascii(x[i]) != lower_ascii(y[i]) {
            return false;
        }
        i += 1;
    }
    true
}

/// A PDF is read with the PDF reader; anything else as text.
pub fn is_pdf(extension: &Option<String>) -> (r: bool)
    ensures
        r == (match extension {
            Some(e) => same_ignoring_ascii_case(e@, "pdf"@),
            None => false,
        }),
{
    match extension {
        Some(e) => eq_ignore_ascii_case(e.as_str(), "pdf"),
        None => false,
    }
}

/// The name a document is kept under: its file name, or "document" when
/// it has none that reads as text.
pub fn document_name(file_name: Option<String>) -> (r: String)
    ensures
        r@ == (match file_name {
            Some(n) => n@,
            None => "document"@,
        }),
{
    match file_name {
        Some(n) => n,
        None => String::from_str("document"),
    }
}

/// The title a new note is created with from the editor: none when the
/// title field is empty.
pub fn new_note_title(title: String) -> (r: Option<String>)
    ensures
        match r {
            Some(t) => t == title && title@.len() > 0,
            None => title@.len() == 0,
        },
{
    if title.as_str().is_empty() {
        None
    } else {
        Some(title)
    }
}

} // verus!

verus! {

/// How the text extraction of a document ended.
#[derive(Debug)]
pub enum Extraction {
    /// The reader finished: the text, or its own error message.
    Done(Result<String, String>),
    /// The reading task stopped before it finished (it panicked or was
    /// cancelled).
    Interrupted,
    /// The reading did not finish within the time it was given.
    TimedOut,
}

/// Why a document could not be imported.
#[derive(Debug)]
pub enum ImportFailure {
    /// The reader's own message.
    Reader(String),
    /// The reading task stopped: shown as "extraction interrupted".
    Interrupted,
    /// The reading ran out of time: shown as "too complex", with the whole
    /// minutes it was given.
    TooComplex(u64),
}

/// The imported document from how its extraction ended: the text under the
/// file's name, or the failure (a timeout reports the minutes of
/// `timeout_secs`).
pub fn import_outcome(filename: String, extraction: Extraction, timeout_secs: u64) -> (r: Result<ImportedFile, ImportFailure>)
    ensures
        match extraction {
            Extraction::Done(Ok(text)) => r == Ok::<ImportedFile, ImportFailure>(
                ImportedFile { filename, content: text },
            ),
            Extraction::Done(Err(e)) => r == Err::<ImportedFile, ImportFailure>(ImportFailure::Reader(e)),
            Extraction::Interrupted => r == Err::<ImportedFile, ImportFailure>(ImportFailure::Interrupted),
            Extraction::TimedOut => r == Err::<ImportedFile, ImportFailure>(
                ImportFailure::TooComplex(timeout_secs / 60),
            ),
        },
{
    match extraction {
        Extraction::Done(Ok(text)) => Ok(ImportedFile { filename, content: text }),
        Extraction::Done(Err(e)) => Err(ImportFailure::Reader(e)),
        Extraction::Interrupted => Err(ImportFailure::Interrupted),
        Extraction::TimedOut => Err(ImportFailure::TooComplex(timeout_minutes(timeout_secs))),
    }
}

/// The message key of a failure that has one (a reader's error is shown
/// as the reader wrote it).
pub fn import_failure_key(f: &ImportFailure) -> (r: Option<&'static str>)
    ensures
        match *f {
            ImportFailure::Reader(_) => r is None,
            ImportFailure::Interrupted => r matches Some(k) && k@ == "note-extract-interrupted"@,
            ImportFailure::TooComplex(_) => r matches Some(k) && k@ == "note-file-too-complex"@,
        },
{
    match f {
        ImportFailure::Reader(_) => None,
        ImportFailure::Interrupted => Some("note-extract-interrupted"),
        ImportFailure::TooComplex(_) => Some("note-file-too-complex"),
    }
}

} // verus!
