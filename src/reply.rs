use crate::error::SamError;
use crate::text::{
    chars_of, find_char, find_char_from, find_space, find_space_from, find_text, find_text_from,
    has_prefix, occurs_at, string_of,
};
use vstd::prelude::*;

verus! {

/// A reply line without its terminating newline.
pub open spec fn line_body(line: Seq<char>) -> Seq<char> {
    if line.len() > 0 && line.last() == '\n' {
        line.drop_last()
    } else {
        line
    }
}

/// The value of the first `RESULT=` field of a reply line: the characters
/// after it up to the next separator.
pub open spec fn result_field(line: Seq<char>) -> Option<Seq<char>> {
    match find_text(line, "RESULT="@, 0) {
        Some(p) => {
            let start = p + "RESULT="@.len();
            Some(line.subrange(start, find_space(line, start)))
        },
        None => None,
    }
}

/// Whether a reply line reports that its command failed: it holds a
/// `RESULT=` field whose value is not `OK`.
pub open spec fn reports_failure(line: Seq<char>) -> bool {
    match result_field(line) {
        Some(v) => v != "OK"@,
        None => false,
    }
}

/// Whether a reply line is a successful answer to the handshake.
pub open spec fn is_hello_ok(line: Seq<char>) -> bool {
    has_prefix(line, "HELLO REPLY RESULT=OK VERSION="@)
}

/// The two fields that follow `PRE` (up to a space) and `MARK` (to the end
/// of the line) in a line `PRE <first> MARK<second>`.
pub open spec fn two_fields(line: Seq<char>, pre: Seq<char>, mark: Seq<char>) -> Option<
    (Seq<char>, Seq<char>),
> {
    let body = line_body(line);
    if !has_prefix(body, pre) {
        None
    } else {
        let sp = find_char(body, ' ', pre.len() as int);
        let rest = body.subrange(sp + 1, body.len() as int);
        if sp < body.len() && has_prefix(rest, mark) {
            Some((body.subrange(pre.len() as int, sp), rest.subrange(mark.len() as int, rest.len() as int)))
        } else {
            None
        }
    }
}

/// The public and the private key of a key-generation reply
/// `DEST REPLY PUB=<public> PRIV=<private>`, where neither is empty.
pub open spec fn generated_keys(line: Seq<char>) -> Option<(Seq<char>, Seq<char>)> {
    match two_fields(line, "DEST REPLY PUB="@, "PRIV="@) {
        Some((public, private)) => if public.len() > 0 && private.len() > 0 {
            Some((public, private))
        } else {
            None
        },
        None => None,
    }
}

/// The value of a successful lookup reply
/// `NAMING REPLY RESULT=OK NAME=<name> VALUE=<value>`, where it is not empty.
pub open spec fn looked_up_value(line: Seq<char>) -> Option<Seq<char>> {
    match two_fields(line, "NAMING REPLY RESULT=OK NAME="@, "VALUE="@) {
        Some((_, value)) => if value.len() > 0 {
            Some(value)
        } else {
            None
        },
        None => None,
    }
}

/// Classifies a reply line: an error carrying the line where it reports a
/// failed result, else the line itself, for the caller to read its fields.
pub fn check_reply(line: &str) -> (r: Result<String, SamError>)
    ensures
        reports_failure(line@) ==> (r matches Err(SamError::Protocol(t)) && t@ == line@),
        !reports_failure(line@) ==> (r matches Ok(t) && t@ == line@),
{
    let cs = chars_of(line);
    let n = cs.len();
    let field = chars_of("RESULT=");
    let ok = chars_of("OK");
    let failed = match find_text_from(&cs, &field, 0) {
        Some(p) => {
            let start = p + field.len();
            let end = find_space_from(&cs, start);
            let is_ok = end - start == ok.len() && occurs_at(&cs, &ok, start);
            proof {
                let v = cs@.subrange(start as int, end as int);
                if v == ok@ {
                    assert(cs@.subrange(start as int, start + ok@.len()) == v);
                }
                if is_ok {
                    assert(v == cs@.subrange(start as int, start + ok@.len()));
                }
                assert(result_field(line@) == Some(v));
                assert(!is_ok == reports_failure(line@));
            }
            !is_ok
        },
        None => {
            assert(!reports_failure(line@));
            false
        },
    };
    let owned = string_of(&cs, 0, n);
    assert(cs@.subrange(0, cs@.len() as int) == cs@);
    if failed {
        Err(SamError::Protocol(owned))
    } else {
        Ok(owned)
    }
}

/// Whether a reply line is a successful answer to the handshake.
pub fn hello_accepted(line: &str) -> (r: bool)
    ensures
        r == is_hello_ok(line@),
{
    let cs = chars_of(line);
    let pre = chars_of("HELLO REPLY RESULT=OK VERSION=");
    occurs_at(&cs, &pre, 0)
}

/// The characters of a line without its terminating newline.
fn body_chars(line: &str) -> (r: Vec<char>)
    ensures
        r@ == line_body(line@),
{
    let mut cs = chars_of(line);
    let n = cs.len();
    if n > 0 && cs[n - 1] == '\n' {
        cs.pop();
    }
    cs
}

/// Reads a line `PRE <first> MARK<second>`.
fn read_two_fields(line: &str, pre: &str, mark: &str) -> (r: Option<(String, String)>)
    ensures
        match two_fields(line@, pre@, mark@) {
            Some((a, b)) => r matches Some((x, y)) && x@ == a && y@ == b,
            None => r is None,
        },
{
    let body = body_chars(line);
    let pre_cs = chars_of(pre);
    let mark_cs = chars_of(mark);
    if !occurs_at(&body, &pre_cs, 0) {
        return None;
    }
    let sp = find_char_from(&body, ' ', pre_cs.len());
    if sp >= body.len() {
        return None;
    }
    if !occurs_at(&body, &mark_cs, sp + 1) {
        proof {
            let rest = body@.subrange(sp + 1, body@.len() as int);
            if has_prefix(rest, mark@) {
                assert(rest.subrange(0, mark@.len() as int) == body@.subrange(
                    sp + 1,
                    sp + 1 + mark@.len(),
                ));
            }
        }
        return None;
    }
    proof {
        let rest = body@.subrange(sp + 1, body@.len() as int);
        assert(rest.subrange(0, mark@.len() as int) == body@.subrange(sp + 1, sp + 1 + mark@.len()));
        assert(rest.subrange(mark@.len() as int, rest.len() as int) == body@.subrange(
            sp + 1 + mark@.len(),
            body@.len() as int,
        ));
    }
    let first = string_of(&body, pre_cs.len(), sp);
    let second = string_of(&body, sp + 1 + mark_cs.len(), body.len());
    Some((first, second))
}

/// The public and the private key of a key-generation reply.
pub fn keys_of_reply(line: &str) -> (r: Option<(String, String)>)
    ensures
        match generated_keys(line@) {
            Some((public, private)) => r matches Some((p, q)) && p@ == public && q@ == private,
            None => r is None,
        },
{
    match read_two_fields(line, "DEST REPLY PUB=", "PRIV=") {
        Some((public, private)) => {
            if public.unicode_len() > 0 && private.unicode_len() > 0 {
                Some((public, private))
            } else {
                None
            }
        },
        None => None,
    }
}

/// The value that a lookup reply gives, or a resolution error where it
/// gives none.
pub fn value_of_lookup_reply(line: &str) -> (r: Result<String, SamError>)
    ensures
        match looked_up_value(line@) {
            Some(v) => r matches Ok(s) && s@ == v,
            None => r matches Err(SamError::Resolution),
        },
{
    match read_two_fields(line, "NAMING REPLY RESULT=OK NAME=", "VALUE=") {
        Some((_, value)) => {
            if value.unicode_len() > 0 {
                Ok(value)
            } else {
                Err(SamError::Resolution)
            }
        },
        None => Err(SamError::Resolution),
    }
}

} // verus!
