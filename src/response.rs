//! Byte-exact HTTP framing of the three responses and of each multipart part.
use vstd::prelude::*;
use vstd::string::StringSliceAdditionalSpecFns;

verus! {

/// Status line and headers of a snapshot, up to the length value.
pub const SNAPSHOT_HEAD: &'static str = "HTTP/1.1 200 OK\r\nContent-Type: image/jpeg\r\nContent-Length: ";

/// The same, in the older form that leaves out the colon after `Content-Length`.
pub const LEGACY_SNAPSHOT_HEAD: &'static str = "HTTP/1.1 200 OK\r\nContent-Type: image/jpeg\r\nContent-Length ";

/// Status line and headers that open a multipart stream.
pub const STREAM_PREAMBLE: &'static str = "HTTP/1.1 200 OK\r\nContent-Type: multipart/x-mixed-replace; boundary=frame\r\n\r\n";

/// Boundary and headers of one multipart part, up to the length value.
pub const PART_HEAD: &'static str = "--frame\r\nContent-Type: image/jpeg\r\nContent-Length: ";

/// The whole answer to a request that lacks the configured token.
pub const UNAUTHORIZED_RESPONSE: &'static str = "HTTP/1.1 401 Unauthorized\r\nContent-Type: text/html;\r\n\r\n<h1>401 Unathorized:</h1><p>Through a series of highly sophisticated and complex algorithms, this system has determined that you are not presently authorized to use this system function. It could be that you simply mistyped a password, or, it could be that you are some sort of interplanetary alien-being that has no hands and, thus, cannot type. If I were a gambler, I would bet that a cat (an orange tabby named Sierra or Harley) somehow jumped onto your keyboard and forgot some of the more important pointers from those typing lessons you paid for. Based on the actual error encountered, I would guess that the feline in question simply forgot to place one or both paws on the appropriate home keys before starting. Then again, I suppose it could have been a keyboard error caused by some form of cosmic radiation; this would fit nicely with my interplanetary alien-being theory. If you think this might be the cause, perhaps you could create some sort of underground bunker to help shield yourself from it. I don't know that it will work, but, you will probably feel better if you try something.</p><p><small>(Copied from 'the internet')</small></p>\r\n";

/// CR LF.
pub open spec fn line_break() -> Seq<u8> {
    seq![13u8, 10u8]
}

/// CR LF CR LF: the end of a header line and the blank line after it.
pub open spec fn header_end() -> Seq<u8> {
    seq![13u8, 10u8, 13u8, 10u8]
}

/// Decimal notation of `n` in ASCII digits, without leading zeros.
pub open spec fn decimal(n: nat) -> Seq<u8>
    decreases n,
{
    if n < 10 {
        seq![(48 + n) as u8]
    } else {
        decimal(n / 10).push((48 + n % 10) as u8)
    }
}

/// Every byte is an ASCII digit.
pub open spec fn all_digits(s: Seq<u8>) -> bool {
    forall|i: int| 0 <= i < s.len() ==> 48 <= #[trigger] s[i] <= 57
}

/// The number that a run of ASCII digits reads as.
pub open spec fn digits_value(s: Seq<u8>) -> int
    decreases s.len(),
{
    if s.len() == 0 {
        0
    } else {
        digits_value(s.drop_last()) * 10 + (s.last() - 48)
    }
}

/// The head of a snapshot response, with or without the colon.
pub open spec fn snapshot_head(strict: bool) -> Seq<u8> {
    if strict {
        SNAPSHOT_HEAD.spec_bytes()
    } else {
        LEGACY_SNAPSHOT_HEAD.spec_bytes()
    }
}

/// The full snapshot response for one encoded image.
pub open spec fn snapshot_bytes(jpeg: Seq<u8>, strict: bool) -> Seq<u8> {
    snapshot_head(strict) + decimal(jpeg.len()) + header_end() + jpeg + line_break()
}

/// One multipart part carrying one encoded image.
pub open spec fn part_bytes(jpeg: Seq<u8>) -> Seq<u8> {
    PART_HEAD.spec_bytes() + decimal(jpeg.len()) + header_end() + jpeg + line_break()
}

/// `r` is a head of `head_len` bytes, a decimal length of `digits_len` digits,
/// a blank line, exactly that many payload bytes, and a closing line break.
pub open spec fn declares_its_payload(r: Seq<u8>, head_len: int, digits_len: int) -> bool {
    let stop = head_len + digits_len;
    let body = stop + 4;
    &&& 0 <= head_len
    &&& 0 < digits_len
    &&& body <= r.len()
    &&& all_digits(r.subrange(head_len, stop))
    &&& r.subrange(stop, body) == header_end()
    &&& body + digits_value(r.subrange(head_len, stop)) + 2 == r.len()
    &&& r.subrange(r.len() - 2, r.len() as int) == line_break()
}

/// Decimal notation is non-empty, made of digits, and reads back as `n`.
pub proof fn lemma_decimal_reads_back(n: nat)
    ensures
        decimal(n).len() > 0,
        all_digits(decimal(n)),
        digits_value(decimal(n)) == n,
    decreases n,
{
    if n >= 10 {
        lemma_decimal_reads_back(n / 10);
        let d = decimal(n);
        assert(d.drop_last() =~= decimal(n / 10));
        assert(d.last() == 48 + n % 10);
        assert(digits_value(d) == digits_value(d.drop_last()) * 10 + (d.last() - 48));
        assert(digits_value(d) == (n / 10) * 10 + n % 10);
        assert((n / 10) * 10 + n % 10 == n) by (nonlinear_arith);
        assert forall|i: int| 0 <= i < d.len() implies 48 <= #[trigger] d[i] <= 57 by {
            if i < d.len() - 1 {
                assert(d[i] == decimal(n / 10)[i]);
            }
        }
    } else {
        assert(decimal(n).drop_last() =~= Seq::<u8>::empty());
        let d = decimal(n);
        assert(d.last() == 48 + n);
        assert(digits_value(d) == digits_value(d.drop_last()) * 10 + (d.last() - 48));
        assert(digits_value(d.drop_last()) == 0);
    }
}

/// Appends `src` to `out`.
pub(crate) fn append_bytes(out: &mut Vec<u8>, src: &[u8])
    ensures
        final(out)@ == old(out)@ + src@,
{
    let mut i: usize = 0;
    while i < src.len()
        invariant
            i <= src@.len(),
            out@ == old(out)@ + src@.subrange(0, i as int),
        decreases src@.len() - i,
    {
        out.push(src[i]);
        i = i + 1;
        assert(out@ =~= old(out)@ + src@.subrange(0, i as int));
    }
    assert(src@.subrange(0, i as int) =~= src@);
}

/// Appends the decimal notation of `n` to `out`.
fn append_decimal(out: &mut Vec<u8>, n: usize)
    ensures
        final(out)@ == old(out)@ + decimal(n as nat),
    decreases n,
{
    if n < 10 {
        out.push(48u8 + n as u8);
        assert(out@ =~= old(out)@ + decimal(n as nat));
    } else {
        append_decimal(out, n / 10);
        out.push(48u8 + (n % 10) as u8);
        assert(out@ =~= old(out)@ + decimal(n as nat));
    }
}

/// Appends a length line's value, the blank line, the payload and a line break.
fn append_sized_payload(out: &mut Vec<u8>, jpeg: &[u8])
    ensures
        final(out)@ == old(out)@ + decimal(jpeg@.len()) + header_end() + jpeg@ + line_break(),
{
    let end: [u8; 4] = [13u8, 10u8, 13u8, 10u8];
    let brk: [u8; 2] = [13u8, 10u8];
    assert(end@ =~= header_end());
    assert(brk@ =~= line_break());
    append_decimal(out, jpeg.len());
    append_bytes(out, end.as_slice());
    append_bytes(out, jpeg);
    append_bytes(out, brk.as_slice());
}

/// The answer to a request that lacks the configured token: status 401, an
/// HTML content type, and a fixed HTML body.
pub fn unauthorized_response() -> (r: Vec<u8>)
    ensures
        r@ == UNAUTHORIZED_RESPONSE.spec_bytes(),
{
    let mut out: Vec<u8> = Vec::new();
    append_bytes(&mut out, UNAUTHORIZED_RESPONSE.as_bytes());
    assert(out@ =~= UNAUTHORIZED_RESPONSE.spec_bytes());
    out
}

/// The status line and headers written once before the first part of a stream.
pub fn stream_preamble() -> (r: Vec<u8>)
    ensures
        r@ == STREAM_PREAMBLE.spec_bytes(),
{
    let mut out: Vec<u8> = Vec::new();
    append_bytes(&mut out, STREAM_PREAMBLE.as_bytes());
    assert(out@ =~= STREAM_PREAMBLE.spec_bytes());
    out
}

/// A complete snapshot response for one encoded image; `strict` selects the
/// `Content-Length:` form, otherwise the colon is left out.
pub fn snapshot_response(jpeg: &[u8], strict: bool) -> (r: Vec<u8>)
    ensures
        r@ == snapshot_bytes(jpeg@, strict),
{
    let mut out: Vec<u8> = Vec::new();
    if strict {
        append_bytes(&mut out, SNAPSHOT_HEAD.as_bytes());
    } else {
        append_bytes(&mut out, LEGACY_SNAPSHOT_HEAD.as_bytes());
    }
    append_sized_payload(&mut out, jpeg);
    assert(out@ =~= snapshot_bytes(jpeg@, strict));
    out
}

/// One multipart part: boundary, content type, exact length, blank line,
/// the image bytes and a closing line break.
pub fn stream_part(jpeg: &[u8]) -> (r: Vec<u8>)
    ensures
        r@ == part_bytes(jpeg@),
{
    let mut out: Vec<u8> = Vec::new();
    append_bytes(&mut out, PART_HEAD.as_bytes());
    append_sized_payload(&mut out, jpeg);
    assert(out@ =~= part_bytes(jpeg@));
    out
}

/// The payload that follows the head, the length digits and the blank line
/// is the image itself.
proof fn lemma_framed_payload(head: Seq<u8>, jpeg: Seq<u8>)
    ensures
        ({
            let r = head + decimal(jpeg.len()) + header_end() + jpeg + line_break();
            let body = head.len() + decimal(jpeg.len()).len() + 4int;
            &&& declares_its_payload(r, head.len() as int, decimal(jpeg.len()).len() as int)
            &&& r.subrange(body, body + jpeg.len()) == jpeg
        }),
{
    lemma_decimal_reads_back(jpeg.len());
    let d = decimal(jpeg.len());
    let r = head + d + header_end() + jpeg + line_break();
    let stop = head.len() + d.len() + 0int;
    let body = stop + 4;
    assert(r.subrange(head.len() as int, stop) =~= d);
    assert(r.subrange(stop, body) =~= header_end());
    assert(r.subrange(body, body + jpeg.len()) =~= jpeg);
    assert(r.subrange(r.len() - 2, r.len() as int) =~= line_break());
}

/// A snapshot's `Content-Length` value equals the number of image bytes that
/// follow the blank line, and those bytes are the image.
pub proof fn lemma_snapshot_declares_payload(jpeg: Seq<u8>, strict: bool)
    ensures
        declares_its_payload(
            snapshot_bytes(jpeg, strict),
            snapshot_head(strict).len() as int,
            decimal(jpeg.len()).len() as int,
        ),
        ({
            let body = snapshot_head(strict).len() + decimal(jpeg.len()).len() + 4int;
            snapshot_bytes(jpeg, strict).subrange(body, body + jpeg.len()) == jpeg
        }),
{
    lemma_framed_payload(snapshot_head(strict), jpeg);
}

/// Each multipart part declares exactly the number of bytes written between
/// its blank line and its closing line break, and those bytes are the image.
pub proof fn lemma_part_declares_payload(jpeg: Seq<u8>)
    ensures
        declares_its_payload(
            part_bytes(jpeg),
            PART_HEAD.spec_bytes().len() as int,
            decimal(jpeg.len()).len() as int,
        ),
        ({
            let body = PART_HEAD.spec_bytes().len() + decimal(jpeg.len()).len() + 4int;
            part_bytes(jpeg).subrange(body, body + jpeg.len()) == jpeg
        }),
{
    lemma_framed_payload(PART_HEAD.spec_bytes(), jpeg);
}

} // verus!
