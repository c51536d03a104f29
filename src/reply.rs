//! What the worker's bytes mean: its readiness line and its reply payloads.

use vstd::prelude::*;
use crate::error::TranscribeError;

verus! {

/// The text that `String::from_utf8_lossy` makes of some bytes.
pub uninterp spec fn lossy_text(b: Seq<u8>) -> Seq<char>;

/// The text that `str::trim` leaves of a string.
pub uninterp spec fn trimmed(s: Seq<char>) -> Seq<char>;

/// Every byte is ASCII.
pub open spec fn all_ascii(b: Seq<u8>) -> bool {
    forall|i: int| 0 <= i < b.len() ==> b[i] < 128
}

/// ASCII bytes read as the characters they encode.
pub open spec fn ascii_chars(b: Seq<u8>) -> Seq<char> {
    b.map_values(|x: u8| x as char)
}

/// The bytes of `ERROR:`, which open a reply that reports a failure.
pub open spec fn error_marker() -> Seq<u8> {
    seq![69u8, 82u8, 82u8, 79u8, 82u8, 58u8]
}

/// The payload opens with the error marker.
pub open spec fn reports_error(b: Seq<u8>) -> bool {
    b.len() >= 6 && b.subrange(0, 6) == error_marker()
}

/// Relies on `String::from_utf8_lossy`: valid UTF-8, ASCII among it, is kept
/// as it is; anything else depends on the bytes alone.
#[verifier::external_body]
fn utf8_lossy(b: &[u8]) -> (r: String)
    ensures
        r@ == lossy_text(b@),
        all_ascii(b@) ==> r@ == ascii_chars(b@),
{
    String::from_utf8_lossy(b).into_owned()
}

/// Relies on `str::trim`: leading and trailing whitespace removed.
#[verifier::external_body]
fn trim_text(s: &str) -> (r: String)
    ensures
        r@ == trimmed(s@),
{
    s.trim().to_string()
}

/// The text is exactly the readiness signal `ready`.
pub fn is_ready(text: &String) -> (r: bool)
    ensures
        r == (text@ == "ready"@),
{
    let expected = "ready".to_owned();
    *text == expected
}

/// Checks the worker's first line: it must read `ready` once trimmed.
/// Otherwise the worker is not ready, and the trimmed line says why.
pub fn check_handshake(line: &str) -> (r: Result<(), TranscribeError>)
    ensures
        r is Ok <==> trimmed(line@) == "ready"@,
        r is Err ==> (r matches Err(TranscribeError::NotReady(t)) && t@ == trimmed(line@)),
{
    let t = trim_text(line);
    if is_ready(&t) {
        Ok(())
    } else {
        Err(TranscribeError::NotReady(t))
    }
}

/// The bytes of `b` from index `k` on.
fn bytes_from(b: &[u8], k: usize) -> (r: Vec<u8>)
    requires
        k <= b@.len(),
    ensures
        r@ == b@.subrange(k as int, b@.len() as int),
{
    let mut out: Vec<u8> = Vec::new();
    let mut i: usize = k;
    while i < b.len()
        invariant
            k <= i <= b@.len(),
            out@ =~= b@.subrange(k as int, i as int),
        decreases b@.len() - i,
    {
        out.push(b[i]);
        i = i + 1;
        assert(out@ =~= b@.subrange(k as int, i as int));
    }
    out
}

/// The payload opens with the bytes of `ERROR:`.
pub fn has_error_marker(b: &[u8]) -> (r: bool)
    ensures
        r == reports_error(b@),
{
    if b.len() < 6 {
        return false;
    }
    let r = b[0] == 69 && b[1] == 82 && b[2] == 82 && b[3] == 79 && b[4] == 82 && b[5] == 58;
    assert(r == (b@.subrange(0, 6) =~= error_marker()));
    r
}

/// What reading the reply payload `p` yields: `r` is exactly the outcome that
/// `interpret_reply` gives for `p`.
pub open spec fn reading_of(p: Seq<u8>, r: Result<String, TranscribeError>) -> bool {
    if reports_error(p) {
        r matches Err(TranscribeError::WorkerReported(m)) && m@ == lossy_text(
            p.subrange(6, p.len() as int),
        ) && (all_ascii(p) ==> m@ == ascii_chars(p.subrange(6, p.len() as int)))
    } else {
        r matches Ok(t) && t@ == trimmed(lossy_text(p))
    }
}

/// Reads a reply payload. One that opens with `ERROR:` is a failure that the
/// worker reports, with the text after the marker; any other is the
/// transcription, as text with its outer whitespace trimmed.
pub fn interpret_reply(payload: &[u8]) -> (r: Result<String, TranscribeError>)
    ensures
        reports_error(payload@) ==> (r matches Err(TranscribeError::WorkerReported(m)) && m@
            == lossy_text(payload@.subrange(6, payload@.len() as int))),
        reports_error(payload@) && all_ascii(payload@) ==> (r matches Err(
            TranscribeError::WorkerReported(m),
        ) && m@ == ascii_chars(payload@.subrange(6, payload@.len() as int))),
        !reports_error(payload@) ==> (r matches Ok(t) && t@ == trimmed(lossy_text(payload@))),
        reading_of(payload@, r),
{
    if has_error_marker(payload) {
        let rest = bytes_from(payload, 6);
        let message = utf8_lossy(rest.as_slice());
        Err(TranscribeError::WorkerReported(message))
    } else {
        let text = utf8_lossy(payload);
        Ok(trim_text(text.as_str()))
    }
}

} // verus!
