//! ANSI escape stripping and timestamp prefixing for log lines.
//!
//! Reading the stream, timestamping and writing are the caller's part; the
//! text of each log line is computed here.

use vstd::prelude::*;

use crate::text::{chars_of, lemma_rfind_char, owned, push_str, rfind_char, rsplit_once, rsplit_once_of, string_from};

verus! {

/// The final frame of a line overwritten with carriage returns: the text
/// after the last `'\r'`, or the whole line when there is none.
pub open spec fn final_frame(line: Seq<char>) -> Seq<char> {
    match rsplit_once(line, '\r') {
        Some((_, last)) => last,
        None => line,
    }
}

/// Collapsing overwrite sequences is idempotent: the final frame holds no
/// carriage return, so collapsing it again leaves it as it is.
pub proof fn law_final_frame_idempotent(line: Seq<char>)
    ensures
        final_frame(final_frame(line)) == final_frame(line),
        !final_frame(line).contains('\r'),
{
    lemma_rfind_char(line, '\r');
    let f = final_frame(line);
    match rfind_char(line, '\r') {
        Some(i) => {
            assert forall|j: int| 0 <= j < f.len() implies f[j] != '\r' by {
                assert(f[j] == line[i + 1 + j]);
            }
        },
        None => {},
    }
    lemma_rfind_char(f, '\r');
    if rfind_char(f, '\r') is Some {
        let k = rfind_char(f, '\r')->Some_0;
        assert(f[k] == '\r');
    }
    assert(rfind_char(f, '\r') is None);
}

/// What `strip_ansi_escapes::strip` leaves of the UTF-8 bytes of `s`.
pub uninterp spec fn ansi_stripped_bytes(s: Seq<char>) -> Seq<u8>;

/// What `String::from_utf8_lossy` reads from the bytes `b`: their text, with
/// every invalid sequence replaced by U+FFFD.
pub uninterp spec fn utf8_lossy(b: Seq<u8>) -> Seq<char>;

/// The text of `s` with its ANSI escape sequences removed.
pub open spec fn ansi_stripped(s: Seq<char>) -> Seq<char> {
    utf8_lossy(ansi_stripped_bytes(s))
}

/// `strip_ansi_escapes::strip` on the string's bytes; the contract names
/// its result.
#[verifier::external_body]
fn strip_escape_bytes(input: &str) -> (r: Vec<u8>)
    ensures
        r@ == ansi_stripped_bytes(input@),
{
    strip_ansi_escapes::strip(input)
}

/// `String::from_utf8_lossy` (std) on bytes; the contract names its result.
#[verifier::external_body]
fn text_from_bytes_lossy(bytes: &[u8]) -> (r: String)
    ensures
        r@ == utf8_lossy(bytes@),
{
    String::from_utf8_lossy(bytes).into_owned()
}

/// Strip ANSI escape sequences from a string.
pub fn strip_ansi(input: &str) -> (r: String)
    ensures
        r@ == ansi_stripped(input@),
{
    let bytes = strip_escape_bytes(input);
    text_from_bytes_lossy(bytes.as_slice())
}

/// Collapse carriage-return overwrite sequences, keeping only the final
/// frame (what a terminal shows of a progress bar such as scp's).
pub fn sanitize_line(line: &str) -> (r: String)
    ensures
        r@ == final_frame(line@),
{
    let v = chars_of(line);
    match rsplit_once_of(v.as_slice(), '\r') {
        Some((_, last)) => string_from(last.as_slice()),
        None => owned(line),
    }
}

/// The log text of one input line: `"[<timestamp>] "` followed by the final
/// frame of the line with ANSI escapes stripped.
pub open spec fn log_line_text(timestamp: Seq<char>, line: Seq<char>) -> Seq<char> {
    "["@ + timestamp + "] "@ + ansi_stripped(final_frame(line))
}

/// Build the log text of one input line. The frame is collapsed before
/// stripping, since the stripper would remove the carriage returns.
pub fn log_line(timestamp: &str, line: &str) -> (r: String)
    ensures
        r@ == log_line_text(timestamp@, line@),
{
    let frame = sanitize_line(line);
    let stripped = strip_ansi(frame.as_str());
    let mut r = owned("[");
    push_str(&mut r, timestamp);
    push_str(&mut r, "] ");
    push_str(&mut r, stripped.as_str());
    r
}

} // verus!
