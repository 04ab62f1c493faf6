use crate::error::SamError;
use crate::text::utf8_of;
use vstd::prelude::*;
use vstd::slice::{slice_subrange, slice_to_vec};
use vstd::utf8::{
    decode_utf8, encode_scalar, encode_utf8, has_width_1_encoding, has_width_2_encoding,
    has_width_3_encoding, valid_utf8,
};

verus! {

/// The version tag that opens the header of an outgoing datagram.
pub const VERSION_TAG: &'static str = "3.1";

/// The byte of a space.
pub const SPACE: u8 = 32;

/// The byte of a newline.
pub const NEWLINE: u8 = 10;

/// A datagram as it crosses the router's datagram port: the sending
/// session's name, the other side's destination, and the payload.
#[derive(Debug)]
pub struct DatagramMessage {
    pub service: String,
    pub destination: String,
    pub contents: Vec<u8>,
}

/// The index of the first `b` in `s` at or after `i`, or the length of `s`.
pub open spec fn find_byte(s: Seq<u8>, b: u8, i: int) -> int
    decreases s.len() - i,
{
    if i >= s.len() {
        s.len() as int
    } else if s[i] == b {
        i
    } else {
        find_byte(s, b, i + 1)
    }
}

/// The wire form `3.1 <service> <destination>\n<contents>`.
pub open spec fn serialized(service: Seq<char>, destination: Seq<char>, contents: Seq<u8>) -> Seq<u8> {
    utf8_of(VERSION_TAG@) + seq![SPACE] + utf8_of(service) + seq![SPACE] + utf8_of(destination)
        + seq![NEWLINE] + contents
}

/// The header line of a buffer: the bytes before its first newline.
pub open spec fn header_of(buf: Seq<u8>) -> Seq<u8> {
    buf.subrange(0, find_byte(buf, NEWLINE, 0))
}

/// What a received buffer holds, as (service, destination, contents).
///
/// The header is split at each space. Three tokens are a version tag, which
/// is not checked, the sender's name and the destination. A single
/// non-empty token is the destination alone, as the router writes it when it
/// forwards a datagram to a session; the session is then `expected`. Every
/// token must be valid UTF-8. Anything else, or a buffer without a newline,
/// holds no datagram.
pub open spec fn decoded_datagram(expected: Seq<char>, buf: Seq<u8>) -> Option<
    (Seq<char>, Seq<char>, Seq<u8>),
> {
    let n = find_byte(buf, NEWLINE, 0);
    if n >= buf.len() {
        None
    } else {
        let header = buf.subrange(0, n);
        let contents = buf.subrange(n + 1, buf.len() as int);
        let s1 = find_byte(header, SPACE, 0);
        if s1 >= header.len() {
            if header.len() > 0 && valid_utf8(header) {
                Some((expected, decode_utf8(header), contents))
            } else {
                None
            }
        } else {
            let s2 = find_byte(header, SPACE, s1 + 1);
            let version = header.subrange(0, s1);
            let service = header.subrange(s1 + 1, s2);
            let destination = header.subrange(s2 + 1, header.len() as int);
            if s2 >= header.len() || find_byte(header, SPACE, s2 + 1) < header.len() {
                None
            } else if valid_utf8(version) && valid_utf8(service) && valid_utf8(destination) {
                Some((decode_utf8(service), decode_utf8(destination), contents))
            } else {
                None
            }
        }
    }
}

/// Relies on std's `str::from_utf8`: it accepts exactly the valid UTF-8
/// byte sequences, and gives the text they encode.
#[verifier::external_body]
fn utf8_text(bytes: &[u8]) -> (r: Option<String>)
    ensures
        r is Some <==> valid_utf8(bytes@),
        r matches Some(s) ==> s@ == decode_utf8(bytes@),
{
    match std::str::from_utf8(bytes) {
        Ok(s) => Some(s.to_owned()),
        Err(_) => None,
    }
}

/// The index of the first `b` in `buf[from..end]`, or `end`.
fn find_byte_from(buf: &[u8], b: u8, from: usize, end: usize) -> (r: usize)
    requires
        from <= end <= buf@.len(),
    ensures
        r == find_byte(buf@.subrange(0, end as int), b, from as int),
        from <= r <= end,
{
    let ghost h = buf@.subrange(0, end as int);
    let mut i = from;
    while i < end && buf[i] != b
        invariant
            from <= i <= end <= buf@.len(),
            h == buf@.subrange(0, end as int),
            find_byte(h, b, from as int) == find_byte(h, b, i as int),
        decreases end - i,
    {
        i = i + 1;
    }
    i
}

fn append_bytes(out: &mut Vec<u8>, bytes: &[u8])
    ensures
        final(out)@ == old(out)@ + bytes@,
{
    let mut i: usize = 0;
    while i < bytes.len()
        invariant
            i <= bytes@.len(),
            out@ == old(out)@ + bytes@.subrange(0, i as int),
        decreases bytes@.len() - i,
    {
        out.push(bytes[i]);
        assert(bytes@.subrange(0, i + 1) == bytes@.subrange(0, i as int).push(bytes@[i as int]));
        i = i + 1;
    }
    assert(bytes@.subrange(0, i as int) == bytes@);
}

proof fn lemma_find_byte_at(s: Seq<u8>, b: u8, i: int, j: int)
    requires
        0 <= i <= j <= s.len(),
        forall|k: int| i <= k < j ==> s[k] != b,
        j < s.len() ==> s[j] == b,
    ensures
        find_byte(s, b, i) == j,
    decreases j - i,
{
    if i < j {
        lemma_find_byte_at(s, b, i + 1, j);
    }
}

proof fn lemma_or_high(y: u8, x: u8)
    by (bit_vector)
    requires
        y >= 0x80,
    ensures
        (y | x) >= 0x80,
{
}

proof fn lemma_one_byte_scalar(v: u32)
    by (bit_vector)
    requires
        v <= 0x7f,
    ensures
        ((v & 0x7f) as u8) as u32 == v,
{
}

/// The UTF-8 encoding of a scalar other than the ASCII byte `b` does not
/// hold `b`.
proof fn lemma_scalar_avoids(v: u32, b: u8)
    requires
        b < 0x80,
        v != b as u32,
    ensures
        forall|k: int| 0 <= k < encode_scalar(v).len() ==> encode_scalar(v)[k] != b,
{
    if has_width_1_encoding(v) {
        lemma_one_byte_scalar(v);
    } else {
        lemma_or_high(0x80, (v & 0x3F) as u8);
        lemma_or_high(0x80, ((v >> 6) & 0x3F) as u8);
        lemma_or_high(0x80, ((v >> 12) & 0x3F) as u8);
        lemma_or_high(0xC0, ((v >> 6) & 0x1F) as u8);
        lemma_or_high(0xE0, ((v >> 12) & 0x0F) as u8);
        lemma_or_high(0xF0, ((v >> 18) & 0x7) as u8);
    }
}

/// Text without the ASCII character `c` has no byte `c` in its UTF-8 form.
proof fn lemma_utf8_avoids(chars: Seq<char>, c: char, b: u8)
    requires
        b < 0x80,
        c as u32 == b as u32,
        !chars.contains(c),
    ensures
        forall|k: int| 0 <= k < utf8_of(chars).len() ==> utf8_of(chars)[k] != b,
    decreases chars.len(),
{
    broadcast use vstd::utf8::group_utf8_lib;

    if chars.len() > 0 {
        let rest = chars.drop_first();
        assert(!rest.contains(c)) by {
            if rest.contains(c) {
                let k = choose|k: int| 0 <= k < rest.len() && rest[k] == c;
                assert(chars[k + 1] == c);
            }
        }
        lemma_utf8_avoids(rest, c, b);
        assert(chars[0] != c);
        if chars[0] as u32 == b as u32 {
            vstd::utf8::char_u32_cast(chars[0], chars[0] as u32);
            vstd::utf8::char_u32_cast(c, c as u32);
        }
        lemma_scalar_avoids(chars[0] as u32, b);
        assert(utf8_of(chars) == encode_scalar(chars[0] as u32) + utf8_of(rest));
    }
}

/// Serializing a datagram and reading it back gives the same service,
/// destination and contents, wherever the service and the destination hold
/// no space and no newline.
pub proof fn lemma_datagram_round_trip(
    expected: Seq<char>,
    service: Seq<char>,
    destination: Seq<char>,
    contents: Seq<u8>,
)
    requires
        !service.contains(' '),
        !service.contains('\n'),
        !destination.contains(' '),
        !destination.contains('\n'),
    ensures
        decoded_datagram(expected, serialized(service, destination, contents)) == Some(
            (service, destination, contents),
        ),
{
    broadcast use vstd::utf8::group_utf8_lib;

    reveal_strlit("3.1");
    let tag = utf8_of(VERSION_TAG@);
    assert(VERSION_TAG@ == seq!['3', '.', '1']);
    assert(!VERSION_TAG@.contains(' ') && !VERSION_TAG@.contains('\n')) by {
        if VERSION_TAG@.contains(' ') || VERSION_TAG@.contains('\n') {
            let k = choose|k: int| 0 <= k < 3 && (VERSION_TAG@[k] == ' ' || VERSION_TAG@[k] == '\n');
        }
    }
    let us = utf8_of(service);
    let ud = utf8_of(destination);
    lemma_utf8_avoids(VERSION_TAG@, ' ', SPACE);
    lemma_utf8_avoids(VERSION_TAG@, '\n', NEWLINE);
    lemma_utf8_avoids(service, ' ', SPACE);
    lemma_utf8_avoids(service, '\n', NEWLINE);
    lemma_utf8_avoids(destination, ' ', SPACE);
    lemma_utf8_avoids(destination, '\n', NEWLINE);
    let header = tag + seq![SPACE] + us + seq![SPACE] + ud;
    let buf = serialized(service, destination, contents);
    let n = header.len() as int;
    assert(buf == header + seq![NEWLINE] + contents);
    let a = tag.len() as int;
    let b = a + 1 + us.len();
    assert forall|k: int| 0 <= k < n implies header[k] != NEWLINE && (header[k] == SPACE <==> (k
        == a || k == b)) by {
        if k < a {
            assert(header[k] == tag[k]);
        } else if k == a {
        } else if k < b {
            assert(header[k] == us[k - a - 1]);
        } else if k == b {
        } else {
            assert(header[k] == ud[k - b - 1]);
        }
    }
    assert forall|k: int| 0 <= k < n implies buf[k] != NEWLINE by {
        assert(buf[k] == header[k]);
    }
    lemma_find_byte_at(buf, NEWLINE, 0, n);
    assert(buf.subrange(0, n) == header);
    assert(buf.subrange(n + 1, buf.len() as int) == contents);
    lemma_find_byte_at(header, SPACE, 0, a);
    lemma_find_byte_at(header, SPACE, a + 1, b);
    lemma_find_byte_at(header, SPACE, b + 1, n);
    assert(header.subrange(0, a) == tag);
    assert(header.subrange(a + 1, b) == us);
    assert(header.subrange(b + 1, n) == ud);
}

/// A buffer without a newline, or whose header is empty or holds exactly
/// two space-separated tokens, holds no datagram.
pub proof fn lemma_malformed_datagram_rejected(expected: Seq<char>, buf: Seq<u8>)
    requires
        (forall|i: int| 0 <= i < buf.len() ==> buf[i] != NEWLINE) || header_of(buf).len() == 0
            || (exists|k: int|
            0 <= k < header_of(buf).len() && header_of(buf)[k] == SPACE && forall|j: int|
                0 <= j < header_of(buf).len() && j != k ==> header_of(buf)[j] != SPACE),
    ensures
        decoded_datagram(expected, buf) is None,
{
    if forall|i: int| 0 <= i < buf.len() ==> buf[i] != NEWLINE {
        lemma_find_byte_at(buf, NEWLINE, 0, buf.len() as int);
    } else {
        let n = find_byte(buf, NEWLINE, 0);
        lemma_find_byte_bounds(buf, NEWLINE, 0);
        if n < buf.len() && header_of(buf).len() > 0 {
            let header = header_of(buf);
            let k = choose|k: int|
                0 <= k < header.len() && header[k] == SPACE && forall|j: int|
                    0 <= j < header.len() && j != k ==> header[j] != SPACE;
            lemma_find_byte_at(header, SPACE, 0, k);
            lemma_find_byte_at(header, SPACE, k + 1, header.len() as int);
        }
    }
}

proof fn lemma_find_byte_bounds(s: Seq<u8>, b: u8, i: int)
    requires
        0 <= i <= s.len(),
    ensures
        i <= find_byte(s, b, i) <= s.len(),
    decreases s.len() - i,
{
    if i < s.len() && s[i] != b {
        lemma_find_byte_bounds(s, b, i + 1);
    }
}

impl DatagramMessage {
    pub fn new(service: &str, destination: &str, contents: Vec<u8>) -> (r: DatagramMessage)
        ensures
            r.service@ == service@,
            r.destination@ == destination@,
            r.contents@ == contents@,
    {
        DatagramMessage { service: service.to_owned(), destination: destination.to_owned(), contents }
    }

    /// The wire form of the datagram; see [`serialized`].
    pub fn serialize(&self) -> (r: Vec<u8>)
        ensures
            r@ == serialized(self.service@, self.destination@, self.contents@),
    {
        let mut r: Vec<u8> = Vec::new();
        append_bytes(&mut r, VERSION_TAG.as_bytes());
        r.push(SPACE);
        append_bytes(&mut r, self.service.as_str().as_bytes());
        r.push(SPACE);
        append_bytes(&mut r, self.destination.as_str().as_bytes());
        r.push(NEWLINE);
        append_bytes(&mut r, self.contents.as_slice());
        r
    }

    /// Reads a datagram from a received buffer; see [`decoded_datagram`].
    /// `expected_service` names the receiving session; a header that names
    /// a sender is not checked against it.
    pub fn from_bytes(expected_service: &str, buffer: &[u8]) -> (r: Result<DatagramMessage, SamError>)
        ensures
            match decoded_datagram(expected_service@, buffer@) {
                Some((s, d, c)) => r matches Ok(m) && m.service@ == s && m.destination@ == d
                    && m.contents@ == c,
                None => r matches Err(SamError::Format),
            },
    {
        let len = buffer.len();
        let n = find_byte_from(buffer, NEWLINE, 0, len);
        assert(buffer@.subrange(0, len as int) == buffer@);
        if n == len {
            return Err(SamError::Format);
        }
        let ghost header = buffer@.subrange(0, n as int);
        let contents = slice_to_vec(slice_subrange(buffer, n + 1, len));
        let s1 = find_byte_from(buffer, SPACE, 0, n);
        if s1 == n {
            if n == 0 {
                return Err(SamError::Format);
            }
            return match utf8_text(slice_subrange(buffer, 0, n)) {
                Some(destination) => Ok(
                    DatagramMessage {
                        service: expected_service.to_owned(),
                        destination,
                        contents,
                    },
                ),
                None => Err(SamError::Format),
            };
        }
        let s2 = find_byte_from(buffer, SPACE, s1 + 1, n);
        if s2 == n {
            return Err(SamError::Format);
        }
        let s3 = find_byte_from(buffer, SPACE, s2 + 1, n);
        if s3 < n {
            return Err(SamError::Format);
        }
        assert(header.subrange(0, s1 as int) == buffer@.subrange(0, s1 as int));
        assert(header.subrange(s1 + 1, s2 as int) == buffer@.subrange(s1 + 1, s2 as int));
        assert(header.subrange(s2 + 1, n as int) == buffer@.subrange(s2 + 1, n as int));
        let version = utf8_text(slice_subrange(buffer, 0, s1));
        let service = utf8_text(slice_subrange(buffer, s1 + 1, s2));
        let destination = utf8_text(slice_subrange(buffer, s2 + 1, n));
        match (version, service, destination) {
            (Some(_), Some(service), Some(destination)) => Ok(
                DatagramMessage { service, destination, contents },
            ),
            _ => Err(SamError::Format),
        }
    }
}

} // verus!
