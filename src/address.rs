use crate::error::SamError;
use crate::text::push_char;
use sha2::Digest;
use vstd::prelude::*;
use vstd::string::StringSliceAdditionalSpecFns;

verus! {

/// The network's base64 alphabet: `-` and `~` stand where the standard one
/// has `+` and `/`.
pub const I2P_BASE64_SYMBOLS: &'static str = "ABCDEFGHIJKLMNOPQRSTUVWXYZabcdefghijklmnopqrstuvwxyz0123456789-~";

/// The bytes that an unpadded base64 encoding over `symbols` decodes from
/// `input`, or `None` where `input` is not such an encoding.
pub uninterp spec fn base64_decoded(symbols: Seq<char>, input: Seq<u8>) -> Option<Seq<u8>>;

/// The SHA-256 digest of `data`.
pub uninterp spec fn sha256_digest(data: Seq<u8>) -> Seq<u8>;

/// The padded RFC 4648 base32 text of `data`.
pub uninterp spec fn base32_text(data: Seq<u8>) -> Seq<char>;

/// Relies on data_encoding's `Specification::encoding`, for an encoding over
/// `symbols` with the default settings (no padding, trailing bits checked),
/// and on `Encoding::decode` with it: the decoded bytes, and a failure on any
/// byte that is not one of the symbols. `decode` asserts that the input is at
/// most `usize::MAX / 8` long.
#[verifier::external_body]
fn decode_with_symbols(symbols: &str, input: &[u8]) -> (r: Option<Vec<u8>>)
    requires
        input@.len() <= usize::MAX / 8,
    ensures
        r is Some <==> base64_decoded(symbols@, input@) is Some,
        r matches Some(v) ==> v@ == base64_decoded(symbols@, input@)->0,
        (exists|i: int| 0 <= i < input@.len() && !symbols@.contains(#[trigger] input@[i] as char))
            ==> r is None,
{
    let mut specification = data_encoding::Specification::new();
    specification.symbols.push_str(symbols);
    match specification.encoding() {
        Ok(encoding) => encoding.decode(input).ok(),
        Err(_) => None,
    }
}

/// Relies on sha2's `Sha256::digest`: the 32-byte digest of `data`.
#[verifier::external_body]
fn sha256(data: &[u8]) -> (r: Vec<u8>)
    ensures
        r@ == sha256_digest(data@),
        r@.len() == 32,
{
    sha2::Sha256::digest(data).to_vec()
}

/// Relies on data_encoding's `BASE32.encode`: the padded base32 text of
/// `data`. `encode` asserts that the input is at most `usize::MAX / 512` long.
#[verifier::external_body]
fn base32_encode(data: &[u8]) -> (r: String)
    requires
        data@.len() <= usize::MAX / 512,
    ensures
        r@ == base32_text(data@),
{
    data_encoding::BASE32.encode(data)
}

/// The lower-case form of an ASCII letter; any other character is kept.
pub open spec fn lower(c: char) -> char {
    if 'A' <= c <= 'Z' {
        ((c as u32) + 32) as char
    } else {
        c
    }
}

/// `s` without its trailing `=` padding.
pub open spec fn without_padding(s: Seq<char>) -> Seq<char>
    decreases s.len(),
{
    if s.len() > 0 && s.last() == '=' {
        without_padding(s.drop_last())
    } else {
        s
    }
}

/// The address text for a base32 digest text: lower case, unpadded, with
/// the `.b32.i2p` suffix.
pub open spec fn presentable(base32: Seq<char>) -> Seq<char> {
    without_padding(base32).map_values(|c: char| lower(c)) + ".b32.i2p"@
}

/// The address derived from the bytes of a public key written in the
/// network's base64 alphabet, or `None` where they do not decode.
pub open spec fn address_of(key: Seq<u8>) -> Option<Seq<char>> {
    match base64_decoded(I2P_BASE64_SYMBOLS@, key) {
        Some(raw) => Some(presentable(base32_text(sha256_digest(raw)))),
        None => None,
    }
}

/// Address derivation depends on the key alone: equal keys give equal
/// results, on every call.
pub proof fn lemma_address_deterministic(key: Seq<u8>, other: Seq<u8>)
    requires
        key == other,
    ensures
        address_of(key) == address_of(other),
{
}

fn lower_char(c: char) -> (r: char)
    ensures
        r == lower(c),
{
    if 'A' <= c && c <= 'Z' {
        ((c as u8) + 32) as char
    } else {
        c
    }
}

proof fn lemma_without_padding_prefix(s: Seq<char>, end: int)
    requires
        0 <= end <= s.len(),
        forall|i: int| end <= i < s.len() ==> s[i] == '=',
        end == 0 || s[end - 1] != '=',
    ensures
        without_padding(s) == s.subrange(0, end),
    decreases s.len(),
{
    if s.len() > end {
        assert(s.drop_last().subrange(0, end) == s.subrange(0, end));
        lemma_without_padding_prefix(s.drop_last(), end);
    } else {
        assert(s.subrange(0, end) == s);
    }
}

/// Turns a padded base32 text into the address text.
fn presentable_text(base32: &String) -> (r: String)
    ensures
        r@ == presentable(base32@),
{
    let chars = crate::text::chars_of(base32.as_str());
    let mut end: usize = chars.len();
    while end > 0 && chars[end - 1] == '='
        invariant
            chars@ == base32@,
            end <= chars@.len(),
            forall|i: int| end <= i < chars@.len() ==> chars@[i] == '=',
        decreases end,
    {
        end = end - 1;
    }
    proof {
        lemma_without_padding_prefix(base32@, end as int);
    }
    let mut out = String::new();
    let mut i: usize = 0;
    while i < end
        invariant
            chars@ == base32@,
            i <= end <= chars@.len(),
            out@ == chars@.subrange(0, i as int).map_values(|c: char| lower(c)),
        decreases end - i,
    {
        push_char(&mut out, lower_char(chars[i]));
        assert(chars@.subrange(0, i + 1) == chars@.subrange(0, i as int).push(chars@[i as int]));
        i = i + 1;
    }
    out.append(".b32.i2p");
    out
}

/// Derives the short `.b32.i2p` address of a public key written in the
/// network's base64 alphabet: the key is decoded, hashed with SHA-256, and
/// the digest written in lower-case unpadded base32.
pub fn derive_address(public_key: &str) -> (r: Result<String, SamError>)
    requires
        public_key.spec_bytes().len() <= usize::MAX / 8,
    ensures
        match address_of(public_key.spec_bytes()) {
            Some(a) => r matches Ok(s) && s@ == a,
            None => r matches Err(SamError::Decode),
        },
        (exists|i: int|
            0 <= i < public_key.spec_bytes().len() && !I2P_BASE64_SYMBOLS@.contains(
                #[trigger] public_key.spec_bytes()[i] as char,
            )) ==> r matches Err(SamError::Decode),
{
    match decode_with_symbols(I2P_BASE64_SYMBOLS, public_key.as_bytes()) {
        Some(raw) => {
            let digest = sha256(raw.as_slice());
            let text = base32_encode(digest.as_slice());
            Ok(presentable_text(&text))
        },
        None => Err(SamError::Decode),
    }
}

} // verus!
