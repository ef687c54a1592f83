//! The two-phase query of a device's serial number.
//!
//! The first native query, made with no buffer, reports the length that the
//! serial number needs and the status "too small". The second, made with a
//! buffer of that length, fills it and reports success. The bytes are then
//! decoded as UTF-8 text, with the NUL terminator stripped.

use vstd::prelude::*;
use vstd::utf8::{decode_utf8, encode_utf8, valid_utf8, decode_utf8_encode_utf8};
use crate::status::{BUFFER_RESULT_SUCCEEDED, BUFFER_RESULT_TOO_SMALL};
use crate::KinectError;

verus! {

/// The bytes with the NUL bytes at their start removed.
pub open spec fn trim_leading_nul(b: Seq<u8>) -> Seq<u8>
    decreases b.len(),
{
    if b.len() > 0 && b[0] == 0 {
        trim_leading_nul(b.drop_first())
    } else {
        b
    }
}

/// The bytes with the NUL bytes at their end removed.
pub open spec fn trim_trailing_nul(b: Seq<u8>) -> Seq<u8>
    decreases b.len(),
{
    if b.len() > 0 && b.last() == 0 {
        trim_trailing_nul(b.drop_last())
    } else {
        b
    }
}

/// The bytes with the NUL bytes at both ends removed.
pub open spec fn trim_nul(b: Seq<u8>) -> Seq<u8> {
    trim_trailing_nul(trim_leading_nul(b))
}

/// No NUL byte stands between two bytes that are not NUL: the NUL bytes of
/// `b`, if any, only pad it at its ends.
pub open spec fn nul_only_at_ends(b: Seq<u8>) -> bool {
    forall|i: int, j: int, k: int|
        0 <= i < j < k < b.len() && #[trigger] b[i] != 0 && #[trigger] b[k] != 0 ==> #[trigger] b[j] != 0
}

/// The text that a filled serial-number buffer holds, if its bytes are valid
/// UTF-8 once the NUL bytes at its ends are removed.
pub open spec fn serial_text(buffer: Seq<u8>) -> Option<Seq<char>> {
    if valid_utf8(trim_nul(buffer)) {
        Some(decode_utf8(trim_nul(buffer)))
    } else {
        None
    }
}

/// Relies on `String::from_utf8`: it succeeds exactly when the bytes are valid
/// UTF-8, and the string then holds the characters that they encode.
#[verifier::external_body]
fn string_from_utf8(bytes: Vec<u8>) -> (r: Option<String>)
    ensures
        r is Some <==> valid_utf8(bytes@),
        r is Some ==> r->Some_0@ == decode_utf8(bytes@),
{
    String::from_utf8(bytes).ok()
}

/// A copy of `b` without the NUL bytes at its ends.
pub fn strip_nul(b: &Vec<u8>) -> (r: Vec<u8>)
    ensures
        r@ == trim_nul(b@),
{
    let n = b.len();
    let mut start: usize = 0;
    assert(b@.subrange(0, n as int) =~= b@);
    while start < n && b[start] == 0
        invariant
            start <= n,
            n == b@.len(),
            trim_leading_nul(b@.subrange(start as int, n as int)) == trim_leading_nul(b@),
        decreases n - start,
    {
        assert(b@.subrange(start as int, n as int).drop_first() =~= b@.subrange(
            start + 1,
            n as int,
        ));
        start = start + 1;
    }
    assert(trim_leading_nul(b@.subrange(start as int, n as int)) == b@.subrange(
        start as int,
        n as int,
    ));
    let mut end: usize = n;
    while end > start && b[end - 1] == 0
        invariant
            start <= end <= n,
            n == b@.len(),
            trim_trailing_nul(b@.subrange(start as int, end as int)) == trim_nul(b@),
        decreases end,
    {
        assert(b@.subrange(start as int, end as int).drop_last() =~= b@.subrange(
            start as int,
            end - 1,
        ));
        end = end - 1;
    }
    assert(trim_trailing_nul(b@.subrange(start as int, end as int)) == b@.subrange(
        start as int,
        end as int,
    ));
    let mut r: Vec<u8> = Vec::new();
    let mut i: usize = start;
    while i < end
        invariant
            start <= i <= end <= n,
            n == b@.len(),
            r@ == b@.subrange(start as int, i as int),
        decreases end - i,
    {
        r.push(b[i]);
        assert(r@ =~= b@.subrange(start as int, i + 1));
        i = i + 1;
    }
    r
}

/// The first phase of the query: the status and the length that the query
/// with no buffer reported. It must report "too small"; the length is then
/// the size of the buffer to hand to the second phase.
pub fn serial_length_result(status: u32, length: usize) -> (r: Result<usize, KinectError>)
    ensures
        status == BUFFER_RESULT_TOO_SMALL ==> r == Ok::<usize, KinectError>(length),
        status != BUFFER_RESULT_TOO_SMALL ==> r == Err::<usize, _>(
            KinectError::UnableToGetSerialNumber,
        ),
{
    if status != BUFFER_RESULT_TOO_SMALL {
        return Err(KinectError::UnableToGetSerialNumber);
    }
    Ok(length)
}

/// The second phase of the query: the status and the buffer that the query
/// filled. It must report success, and the bytes without their NUL padding
/// must be valid UTF-8; the serial number is the text they encode.
pub fn serial_number_result(status: u32, buffer: &Vec<u8>) -> (r: Result<String, KinectError>)
    ensures
        status != BUFFER_RESULT_SUCCEEDED ==> r is Err,
        status == BUFFER_RESULT_SUCCEEDED ==> (r is Ok <==> serial_text(buffer@) is Some),
        r is Ok ==> r->Ok_0@ == serial_text(buffer@)->Some_0,
        r is Err ==> r->Err_0 == KinectError::UnableToGetSerialNumber,
{
    if status != BUFFER_RESULT_SUCCEEDED {
        return Err(KinectError::UnableToGetSerialNumber);
    }
    match string_from_utf8(strip_nul(buffer)) {
        Some(s) => Ok(s),
        None => Err(KinectError::UnableToGetSerialNumber),
    }
}

proof fn lemma_trim_leading_nul(b: Seq<u8>)
    ensures
        trim_leading_nul(b).len() <= b.len(),
        trim_leading_nul(b) == b.subrange(b.len() - trim_leading_nul(b).len(), b.len() as int),
        trim_leading_nul(b).len() > 0 ==> trim_leading_nul(b)[0] != 0,
        forall|j: int| 0 <= j < b.len() - trim_leading_nul(b).len() ==> b[j] == 0,
    decreases b.len(),
{
    if b.len() > 0 && b[0] == 0 {
        lemma_trim_leading_nul(b.drop_first());
        assert forall|j: int| 0 <= j < b.len() - trim_leading_nul(b).len() implies b[j] == 0 by {
            if j > 0 {
                assert(b[j] == b.drop_first()[j - 1]);
            }
        }
    } else {
        assert(b.subrange(0, b.len() as int) =~= b);
    }
}

proof fn lemma_trim_trailing_nul(b: Seq<u8>)
    ensures
        trim_trailing_nul(b).len() <= b.len(),
        trim_trailing_nul(b) == b.subrange(0, trim_trailing_nul(b).len() as int),
        trim_trailing_nul(b).len() > 0 ==> trim_trailing_nul(b).last() != 0,
        forall|j: int| trim_trailing_nul(b).len() <= j < b.len() ==> b[j] == 0,
    decreases b.len(),
{
    if b.len() > 0 && b.last() == 0 {
        lemma_trim_trailing_nul(b.drop_last());
        assert forall|j: int| trim_trailing_nul(b).len() <= j < b.len() implies b[j] == 0 by {
            if j < b.len() - 1 {
                assert(b[j] == b.drop_last()[j]);
            }
        }
    } else {
        assert(b.subrange(0, b.len() as int) =~= b);
    }
}

/// Against a native layer that reports a length of `n` in the first phase
/// and fills a buffer of that length in the second, a serial number that
/// comes back is at most `n` bytes of UTF-8, neither begins nor ends with a
/// NUL byte, and holds no NUL byte at all where the buffer's NUL bytes only
/// pad it at its ends.
pub proof fn lemma_serial_number_bounded(n: usize, buffer: Seq<u8>, text: Seq<char>)
    requires
        buffer.len() == n,
        serial_text(buffer) == Some(text),
    ensures
        encode_utf8(text).len() <= n,
        encode_utf8(text).len() > 0 ==> encode_utf8(text)[0] != 0 && encode_utf8(text).last()
            != 0,
        nul_only_at_ends(buffer) ==> forall|j: int|
            0 <= j < encode_utf8(text).len() ==> encode_utf8(text)[j] != 0,
{
    let lead = trim_leading_nul(buffer);
    let t = trim_nul(buffer);
    lemma_trim_leading_nul(buffer);
    lemma_trim_trailing_nul(lead);
    decode_utf8_encode_utf8(t);
    assert(encode_utf8(text) == t);
    let s = buffer.len() - lead.len();
    assert(t =~= buffer.subrange(s, s + t.len()));
    if t.len() > 0 {
        assert(t[0] == lead[0]);
    }
    if nul_only_at_ends(buffer) {
        assert forall|j: int| 0 <= j < t.len() implies t[j] != 0 by {
            assert(t[j] == buffer[s + j]);
            assert(buffer[s] != 0);
            assert(buffer[s + t.len() - 1] != 0);
            if 0 < j < t.len() - 1 {
                assert(buffer[s + j] != 0);
            }
        }
    }
}

} // verus!
