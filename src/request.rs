//! Request-line classification: token gating and routing by substring.
use vstd::prelude::*;

verus! {

/// `pat` occurs in `hay` starting at byte offset `i`.
pub open spec fn occurs_at(hay: Seq<u8>, pat: Seq<u8>, i: int) -> bool {
    0 <= i && i + pat.len() <= hay.len() && hay.subrange(i, i + pat.len()) == pat
}

/// `pat` occurs somewhere in `hay` as a contiguous run of bytes.
pub open spec fn has_substring(hay: Seq<u8>, pat: Seq<u8>) -> bool {
    exists|i: int| #[trigger] occurs_at(hay, pat, i)
}

/// Whether `pat` appears at byte offset `i` of `hay`.
fn matches_at(hay: &[u8], pat: &[u8], i: usize) -> (r: bool)
    requires
        i + pat@.len() <= hay@.len(),
    ensures
        r == occurs_at(hay@, pat@, i as int),
{
    let n: usize = hay.len();
    let mut j: usize = 0;
    while j < pat.len()
        invariant
            n == hay@.len(),
            i + pat@.len() <= hay@.len(),
            j <= pat@.len(),
            forall|k: int| 0 <= k < j ==> hay@[i + k] == pat@[k],
        decreases pat@.len() - j,
    {
        if hay[i + j] != pat[j] {
            assert(hay@.subrange(i as int, i + pat@.len())[j as int] != pat@[j as int]);
            return false;
        }
        j = j + 1;
    }
    assert(hay@.subrange(i as int, i + pat@.len()) =~= pat@);
    true
}

/// Whether the bytes of `pat` occur anywhere in the bytes of `hay`; the empty
/// pattern occurs in every line.
pub fn contains_bytes(hay: &[u8], pat: &[u8]) -> (r: bool)
    ensures
        r == has_substring(hay@, pat@),
{
    if pat.len() > hay.len() {
        return false;
    }
    let last: usize = hay.len() - pat.len();
    let mut i: usize = 0;
    loop
        invariant
            last + pat@.len() == hay@.len(),
            i <= last,
            forall|k: int| 0 <= k < i ==> !occurs_at(hay@, pat@, k),
        decreases last - i,
    {
        if matches_at(hay, pat, i) {
            return true;
        }
        if i == last {
            return false;
        }
        i = i + 1;
    }
}

/// The bytes of the word `stream`.
pub open spec fn stream_word() -> Seq<u8> {
    seq![115u8, 116u8, 114u8, 101u8, 97u8, 109u8]
}

/// The bytes of the word `mjpg`.
pub open spec fn mjpg_word() -> Seq<u8> {
    seq![109u8, 106u8, 112u8, 103u8]
}

/// What a connection does with its request line.
#[derive(Clone, Copy, Debug, PartialEq, Eq, Structural)]
pub enum RequestClass {
    /// A token is configured and the line does not carry it.
    Unauthorized,
    /// One JPEG image, then the connection closes.
    Snapshot,
    /// An endless multipart MJPEG stream.
    Stream,
}

/// The line carries the token; an empty token is carried by every line.
pub open spec fn authorized(line: Seq<u8>, token: Seq<u8>) -> bool {
    has_substring(line, token)
}

/// The line asks for a stream: it holds `stream` or `mjpg` anywhere.
pub open spec fn asks_for_stream(line: Seq<u8>) -> bool {
    has_substring(line, stream_word()) || has_substring(line, mjpg_word())
}

/// The class of a request line under a configured token.
pub open spec fn class_of(line: Seq<u8>, token: Seq<u8>) -> RequestClass {
    if !authorized(line, token) {
        RequestClass::Unauthorized
    } else if asks_for_stream(line) {
        RequestClass::Stream
    } else {
        RequestClass::Snapshot
    }
}

/// Whether the request line carries the configured token.
pub fn is_authorized(line: &[u8], token: &[u8]) -> (r: bool)
    ensures
        r == authorized(line@, token@),
{
    contains_bytes(line, token)
}

/// Whether the request line selects the streaming branch.
pub fn wants_stream(line: &[u8]) -> (r: bool)
    ensures
        r == asks_for_stream(line@),
{
    let stream: [u8; 6] = [115u8, 116u8, 114u8, 101u8, 97u8, 109u8];
    let mjpg: [u8; 4] = [109u8, 106u8, 112u8, 103u8];
    assert(stream@ =~= stream_word());
    assert(mjpg@ =~= mjpg_word());
    contains_bytes(line, stream.as_slice()) || contains_bytes(line, mjpg.as_slice())
}

/// Classifies a request line: the token gate first, then routing by substring.
pub fn classify(line: &[u8], token: &[u8]) -> (r: RequestClass)
    ensures
        r == class_of(line@, token@),
{
    if !is_authorized(line, token) {
        RequestClass::Unauthorized
    } else if wants_stream(line) {
        RequestClass::Stream
    } else {
        RequestClass::Snapshot
    }
}

/// The empty pattern occurs in every line.
pub proof fn lemma_empty_pattern_occurs(hay: Seq<u8>)
    ensures
        has_substring(hay, Seq::<u8>::empty()),
{
    assert(hay.subrange(0, 0) =~= Seq::<u8>::empty());
    assert(occurs_at(hay, Seq::<u8>::empty(), 0));
}

/// Routing: a line that passes the token gate is streamed exactly when it
/// holds `stream` or `mjpg`, and answered with a snapshot otherwise, whatever
/// text surrounds those words.
pub proof fn lemma_routing_by_substring(line: Seq<u8>, token: Seq<u8>)
    requires
        authorized(line, token),
    ensures
        asks_for_stream(line) ==> class_of(line, token) == RequestClass::Stream,
        !asks_for_stream(line) ==> class_of(line, token) == RequestClass::Snapshot,
{
}

/// Token gate: with a non-empty token, a line that lacks it is refused
/// whatever it asks for; with an empty token no line is ever refused.
pub proof fn lemma_token_gate(line: Seq<u8>, token: Seq<u8>)
    ensures
        token.len() > 0 && !has_substring(line, token) ==> class_of(line, token)
            == RequestClass::Unauthorized,
        token.len() == 0 ==> class_of(line, token) != RequestClass::Unauthorized,
{
    if token.len() == 0 {
        assert(token =~= Seq::<u8>::empty());
        lemma_empty_pattern_occurs(line);
    }
}

} // verus!
