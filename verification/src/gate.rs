//! The write gate: append, upload, and existence checks are only served
//! while write mode is enabled, and each answers a small JSON payload
//! with a status and a message. Appended text is HTML-escaped and led by
//! a line break. The file I/O itself is the caller's job; this module
//! decides and formats.

use vstd::prelude::*;
use crate::numeric::dec_digits;
use crate::numeric::u8_to_decimal;

verus! {

/// The JSON payload the write operations answer with: a numeric status
/// and a message.
pub open spec fn result_json(status: int, msg: Seq<char>) -> Seq<char> {
    "{\"status\":"@ + dec_digits(status) + ", \"message\":\""@ + msg + "\"}"@
}

/// Renders the `{status, message}` payload.
pub fn return_result(status: u8, msg: &str) -> (r: String)
    ensures
        r@ == result_json(status as int, msg@),
{
    let mut r = String::from_str("{\"status\":");
    let digits = u8_to_decimal(status);
    r.append(digits.as_str());
    r.append(", \"message\":\"");
    r.append(msg);
    r.append("\"}");
    proof {
        assert(r@ =~= result_json(status as int, msg@));
    }
    r
}

/// The entity one character becomes: the six HTML-significant ASCII
/// characters turn into entities, every other character stands
/// unchanged.
pub open spec fn escaped_char(c: char) -> Seq<char> {
    if c == '"' {
        "&quot;"@
    } else if c == '&' {
        "&amp;"@
    } else if c == '\'' {
        "&#x27;"@
    } else if c == '/' {
        "&#x2f;"@
    } else if c == '<' {
        "&lt;"@
    } else if c == '>' {
        "&gt;"@
    } else {
        seq![c]
    }
}

/// The HTML-escaped form of a text: each character replaced by its
/// entity.
pub open spec fn html_escaped(s: Seq<char>) -> Seq<char>
    decreases s.len(),
{
    if s.len() == 0 {
        Seq::empty()
    } else {
        escaped_char(s[0]) + html_escaped(s.skip(1))
    }
}

/// Relies on v_htmlescape::escape: it maps each byte through a fixed
/// table that escapes exactly the six characters of `escaped_char` and
/// passes every other byte through, which on characters is
/// `html_escaped`.
#[verifier::external_body]
fn escape_html(s: &str) -> (r: String)
    ensures
        r@ == html_escaped(s@),
{
    v_htmlescape::escape(s).to_string()
}

/// The text an append really writes: a line break, then the HTML-escaped
/// content.
pub fn build_append_record(content: &str) -> (r: String)
    ensures
        r@ == "\r\n"@ + html_escaped(content@),
{
    let mut r = String::from_str("\r\n");
    let escaped = escape_html(content);
    r.append(escaped.as_str());
    r
}

/// How an append ended; the caller performs the file I/O and reports
/// which step failed.
#[derive(Clone, Copy, Debug, PartialEq, Eq, Structural)]
pub enum AppendOutcome {
    /// Write mode is off; nothing was attempted.
    Disabled,
    /// The target could not be opened for appending.
    OpenFailed,
    /// Writing the record failed.
    WriteFailed,
    /// The record was written.
    Done,
}

/// The payload answered for each append outcome.
pub open spec fn append_response_spec(outcome: AppendOutcome) -> Seq<char> {
    match outcome {
        AppendOutcome::Disabled => result_json(0, "write not supported"@),
        AppendOutcome::OpenFailed => result_json(0, "failed to open file"@),
        AppendOutcome::WriteFailed => result_json(0, "failed to write file"@),
        AppendOutcome::Done => result_json(1, ""@),
    }
}

/// Answers an append request for the outcome the caller reports.
pub fn append_response(outcome: AppendOutcome) -> (r: String)
    ensures
        r@ == append_response_spec(outcome),
{
    match outcome {
        AppendOutcome::Disabled => return_result(0, "write not supported"),
        AppendOutcome::OpenFailed => return_result(0, "failed to open file"),
        AppendOutcome::WriteFailed => return_result(0, "failed to write file"),
        AppendOutcome::Done => return_result(1, ""),
    }
}

/// How an upload ended; the caller spools the multipart body to disk and
/// reports which step failed.
#[derive(Clone, Copy, Debug, PartialEq, Eq, Structural)]
pub enum UploadOutcome {
    /// Write mode is off; nothing was attempted.
    Disabled,
    /// The multipart body carried no usable boundary or entry.
    BadFormat,
    /// Saving the payload failed or stayed partial.
    SaveFailed,
    /// The payload was saved whole.
    Done,
}

/// The payload answered for each upload outcome: a malformed body and a
/// failed or partial save alike get the one generic write-error result.
pub open spec fn upload_response_spec(outcome: UploadOutcome) -> Seq<char> {
    match outcome {
        UploadOutcome::Disabled => result_json(0, "write not supported"@),
        UploadOutcome::BadFormat => result_json(0, "write error"@),
        UploadOutcome::SaveFailed => result_json(0, "write error"@),
        UploadOutcome::Done => result_json(1, ""@),
    }
}

/// Answers an upload request for the outcome the caller reports.
pub fn upload_response(outcome: UploadOutcome) -> (r: String)
    ensures
        r@ == upload_response_spec(outcome),
{
    match outcome {
        UploadOutcome::Disabled => return_result(0, "write not supported"),
        UploadOutcome::BadFormat => return_result(0, "write error"),
        UploadOutcome::SaveFailed => return_result(0, "write error"),
        UploadOutcome::Done => return_result(1, ""),
    }
}

/// The payload of an existence check: gated on write mode like the other
/// mutation operations, then status 1 exactly when the file exists.
pub open spec fn file_exist_response_spec(write_enabled: bool, exists: bool) -> Seq<char> {
    if !write_enabled {
        result_json(0, "write not supported"@)
    } else if exists {
        result_json(1, ""@)
    } else {
        result_json(0, ""@)
    }
}

/// Answers an existence check; the caller reports whether the resolved
/// path exists.
pub fn file_exist_response(write_enabled: bool, exists: bool) -> (r: String)
    ensures
        r@ == file_exist_response_spec(write_enabled, exists),
{
    if !write_enabled {
        return_result(0, "write not supported")
    } else if exists {
        return_result(1, "")
    } else {
        return_result(0, "")
    }
}

} // verus!
