use vstd::prelude::*;

verus! {

/// The UTF-8 bytes of a text.
pub open spec fn utf8_of(s: Seq<char>) -> Seq<u8> {
    vstd::utf8::encode_utf8(s)
}

/// Relies on std's `String::push`: the character is added at the end.
#[verifier::external_body]
pub(crate) fn push_char(s: &mut String, c: char)
    ensures
        final(s)@ == old(s)@.push(c),
{
    s.push(c)
}

/// The characters of `s`, in order.
pub(crate) fn chars_of(s: &str) -> (r: Vec<char>)
    ensures
        r@ == s@,
{
    let n = s.unicode_len();
    let mut r: Vec<char> = Vec::new();
    let mut i: usize = 0;
    while i < n
        invariant
            n == s@.len(),
            i <= n,
            r@ == s@.subrange(0, i as int),
        decreases n - i,
    {
        r.push(s.get_char(i));
        assert(s@.subrange(0, i + 1) == s@.subrange(0, i as int).push(s@[i as int]));
        i = i + 1;
    }
    assert(s@.subrange(0, n as int) == s@);
    r
}

/// The string made of `cs[from..to]`.
pub(crate) fn string_of(cs: &Vec<char>, from: usize, to: usize) -> (r: String)
    requires
        from <= to <= cs@.len(),
    ensures
        r@ == cs@.subrange(from as int, to as int),
{
    let mut r = String::new();
    let mut i: usize = from;
    while i < to
        invariant
            from <= i <= to <= cs@.len(),
            r@ == cs@.subrange(from as int, i as int),
        decreases to - i,
    {
        push_char(&mut r, cs[i]);
        assert(cs@.subrange(from as int, i + 1) == cs@.subrange(from as int, i as int).push(
            cs@[i as int],
        ));
        i = i + 1;
    }
    r
}

/// Whether `c` separates fields of a line: a character of Unicode's
/// `White_Space` property.
pub open spec fn is_space(c: char) -> bool {
    ('\t' <= c <= '\r') || c == ' ' || c == '\u{85}' || c == '\u{A0}' || c == '\u{1680}' || (
    '\u{2000}' <= c <= '\u{200A}') || c == '\u{2028}' || c == '\u{2029}' || c == '\u{202F}'
        || c == '\u{205F}' || c == '\u{3000}'
}

pub(crate) fn is_space_char(c: char) -> (r: bool)
    ensures
        r == is_space(c),
{
    ('\t' <= c && c <= '\r') || c == ' ' || c == '\u{85}' || c == '\u{A0}' || c == '\u{1680}' || (
    '\u{2000}' <= c && c <= '\u{200A}') || c == '\u{2028}' || c == '\u{2029}' || c == '\u{202F}'
        || c == '\u{205F}' || c == '\u{3000}'
}

/// Whether `s` begins with `p`.
pub open spec fn has_prefix(s: Seq<char>, p: Seq<char>) -> bool {
    p.len() <= s.len() && s.subrange(0, p.len() as int) == p
}

/// The index of the first `c` in `s` at or after `i`, or the length of `s`.
pub open spec fn find_char(s: Seq<char>, c: char, i: int) -> int
    decreases s.len() - i,
{
    if i >= s.len() {
        s.len() as int
    } else if s[i] == c {
        i
    } else {
        find_char(s, c, i + 1)
    }
}

/// The index of the first separator in `s` at or after `i`, or the length
/// of `s`.
pub open spec fn find_space(s: Seq<char>, i: int) -> int
    decreases s.len() - i,
{
    if i >= s.len() {
        s.len() as int
    } else if is_space(s[i]) {
        i
    } else {
        find_space(s, i + 1)
    }
}

/// The index of the first occurrence of `p` in `s` at or after `i`.
pub open spec fn find_text(s: Seq<char>, p: Seq<char>, i: int) -> Option<int>
    decreases s.len() + 1 - i,
{
    if i + p.len() > s.len() {
        None
    } else if s.subrange(i, i + p.len()) == p {
        Some(i)
    } else {
        find_text(s, p, i + 1)
    }
}

pub proof fn lemma_find_char(s: Seq<char>, c: char, i: int)
    requires
        0 <= i <= s.len(),
    ensures
        i <= find_char(s, c, i) <= s.len(),
        find_char(s, c, i) < s.len() ==> s[find_char(s, c, i)] == c,
        forall|k: int| i <= k < find_char(s, c, i) ==> s[k] != c,
    decreases s.len() - i,
{
    if i < s.len() && s[i] != c {
        lemma_find_char(s, c, i + 1);
    }
}

pub proof fn lemma_find_space(s: Seq<char>, i: int)
    requires
        0 <= i <= s.len(),
    ensures
        i <= find_space(s, i) <= s.len(),
        find_space(s, i) < s.len() ==> is_space(s[find_space(s, i)]),
        forall|k: int| i <= k < find_space(s, i) ==> !is_space(s[k]),
    decreases s.len() - i,
{
    if i < s.len() && !is_space(s[i]) {
        lemma_find_space(s, i + 1);
    }
}

pub proof fn lemma_find_text(s: Seq<char>, p: Seq<char>, i: int)
    requires
        0 <= i,
    ensures
        find_text(s, p, i) matches Some(k) ==> i <= k && k + p.len() <= s.len() && s.subrange(
            k,
            k + p.len(),
        ) == p,
    decreases s.len() + 1 - i,
{
    if i + p.len() <= s.len() && s.subrange(i, i + p.len()) != p {
        lemma_find_text(s, p, i + 1);
    }
}

pub(crate) fn find_char_from(cs: &Vec<char>, c: char, from: usize) -> (r: usize)
    requires
        from <= cs@.len(),
    ensures
        r == find_char(cs@, c, from as int),
        from <= r <= cs@.len(),
{
    proof {
        lemma_find_char(cs@, c, from as int);
    }
    let mut i = from;
    while i < cs.len() && cs[i] != c
        invariant
            from <= i <= cs@.len(),
            find_char(cs@, c, from as int) == find_char(cs@, c, i as int),
        decreases cs@.len() - i,
    {
        i = i + 1;
    }
    i
}

pub(crate) fn find_space_from(cs: &Vec<char>, from: usize) -> (r: usize)
    requires
        from <= cs@.len(),
    ensures
        r == find_space(cs@, from as int),
        from <= r <= cs@.len(),
{
    proof {
        lemma_find_space(cs@, from as int);
    }
    let mut i = from;
    while i < cs.len() && !is_space_char(cs[i])
        invariant
            from <= i <= cs@.len(),
            find_space(cs@, from as int) == find_space(cs@, i as int),
        decreases cs@.len() - i,
    {
        i = i + 1;
    }
    i
}

/// Whether `p` stands in `cs` at index `at`.
pub(crate) fn occurs_at(cs: &Vec<char>, p: &Vec<char>, at: usize) -> (r: bool)
    requires
        at <= cs@.len(),
    ensures
        r == (at + p@.len() <= cs@.len() && cs@.subrange(at as int, at + p@.len()) == p@),
{
    if p.len() > cs.len() - at {
        return false;
    }
    let mut j: usize = 0;
    while j < p.len()
        invariant
            at + p@.len() <= cs@.len() <= usize::MAX,
            j <= p@.len(),
            forall|k: int| 0 <= k < j ==> cs@[at + k] == p@[k],
        decreases p@.len() - j,
    {
        if cs[at + j] != p[j] {
            assert(cs@.subrange(at as int, at + p@.len())[j as int] != p@[j as int]);
            return false;
        }
        j = j + 1;
    }
    assert(cs@.subrange(at as int, at + p@.len()) =~= p@);
    true
}

pub(crate) fn find_text_from(cs: &Vec<char>, p: &Vec<char>, from: usize) -> (r: Option<usize>)
    requires
        from <= cs@.len(),
    ensures
        r matches Some(i) ==> find_text(cs@, p@, from as int) == Some(i as int),
        r is None ==> find_text(cs@, p@, from as int) is None,
        r matches Some(i) ==> from <= i && i + p@.len() <= cs@.len(),
{
    proof {
        lemma_find_text(cs@, p@, from as int);
    }
    let mut i = from;
    while i < cs.len()
        invariant
            from <= i <= cs@.len(),
            find_text(cs@, p@, from as int) == find_text(cs@, p@, i as int),
        decreases cs@.len() - i,
    {
        if occurs_at(cs, p, i) {
            return Some(i);
        }
        i = i + 1;
    }
    if p.len() == 0 {
        assert(cs@.subrange(i as int, i as int) =~= p@);
        Some(i)
    } else {
        None
    }
}

} // verus!
