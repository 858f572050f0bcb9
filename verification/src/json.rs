//! Rendering of the registration response body as JSON.
//!
//! Only what the service sends is built here: an object with the fields
//! `name`, `email` and `timestamp`, in that order. String values are
//! escaped the way the common JSON serializers escape them: the quote and
//! the backslash get a backslash, the control characters for backspace,
//! tab, line feed, form feed and carriage return get their short escapes,
//! every other control character below space becomes `\u00` and two
//! lower-case hexadecimal digits, and everything else passes unchanged.

use vstd::prelude::*;
use vstd::string::StringExecFns;
use vstd::string::StrSliceExecFns;
use crate::text::{hex_char, push_char, spec_hex_char};
use crate::timestamp::Timestamp;

verus! {

/// The escape of one character inside a JSON string.
pub open spec fn spec_escape_char(c: char) -> Seq<char> {
    if c == '"' {
        seq!['\\', '"']
    } else if c == '\\' {
        seq!['\\', '\\']
    } else if c == '\x08' {
        seq!['\\', 'b']
    } else if c == '\t' {
        seq!['\\', 't']
    } else if c == '\n' {
        seq!['\\', 'n']
    } else if c == '\x0c' {
        seq!['\\', 'f']
    } else if c == '\r' {
        seq!['\\', 'r']
    } else if (c as u32) < 32 {
        seq!['\\', 'u', '0', '0', spec_hex_char(c as int / 16), spec_hex_char(c as int % 16)]
    } else {
        seq![c]
    }
}

/// The escaped form of a whole string.
pub open spec fn spec_escape(s: Seq<char>) -> Seq<char>
    decreases s.len(),
{
    if s.len() == 0 {
        Seq::<char>::empty()
    } else {
        spec_escape_char(s[0]) + spec_escape(s.drop_first())
    }
}

/// A string value as JSON: quoted and escaped.
pub open spec fn spec_json_string(s: Seq<char>) -> Seq<char> {
    seq!['"'] + spec_escape(s) + seq!['"']
}

/// Escaping a string that grew by one character at its end appends
/// that character's escape.
proof fn lemma_escape_snoc(s: Seq<char>, c: char)
    ensures
        spec_escape(s.push(c)) == spec_escape(s) + spec_escape_char(c),
    decreases s.len(),
{
    if s.len() == 0 {
        assert(s.push(c)[0] == c);
        assert(s.push(c).drop_first() =~= Seq::<char>::empty());
        assert(spec_escape(Seq::<char>::empty()) =~= Seq::<char>::empty());
        assert(spec_escape(s.push(c)) =~= spec_escape(s) + spec_escape_char(c));
    } else {
        assert(s.push(c).drop_first() =~= s.drop_first().push(c));
        lemma_escape_snoc(s.drop_first(), c);
        assert(spec_escape(s.push(c)) =~= spec_escape(s) + spec_escape_char(c));
    }
}

/// Appends the escape of one character.
fn push_escaped_char(out: &mut String, c: char)
    ensures
        final(out)@ == old(out)@ + spec_escape_char(c),
{
    if c == '"' {
        push_char(out, '\\');
        push_char(out, '"');
    } else if c == '\\' {
        push_char(out, '\\');
        push_char(out, '\\');
    } else if c == '\x08' {
        push_char(out, '\\');
        push_char(out, 'b');
    } else if c == '\t' {
        push_char(out, '\\');
        push_char(out, 't');
    } else if c == '\n' {
        push_char(out, '\\');
        push_char(out, 'n');
    } else if c == '\x0c' {
        push_char(out, '\\');
        push_char(out, 'f');
    } else if c == '\r' {
        push_char(out, '\\');
        push_char(out, 'r');
    } else if (c as u32) < 32 {
        push_char(out, '\\');
        push_char(out, 'u');
        push_char(out, '0');
        push_char(out, '0');
        push_char(out, hex_char((c as u32 / 16) as u8));
        push_char(out, hex_char((c as u32 % 16) as u8));
    } else {
        push_char(out, c);
    }
    proof {
        assert(out@ =~= old(out)@ + spec_escape_char(c));
    }
}

/// Appends a string value as JSON: quoted and escaped.
pub fn append_json_string(out: &mut String, s: &str)
    ensures
        final(out)@ == old(out)@ + spec_json_string(s@),
{
    push_char(out, '"');
    let n = s.unicode_len();
    let mut i: usize = 0;
    proof {
        assert(s@.subrange(0, 0) =~= Seq::<char>::empty());
    }
    while i < n
        invariant
            n == s@.len(),
            i <= n,
            out@ == old(out)@ + seq!['"'] + spec_escape(s@.subrange(0, i as int)),
        decreases n - i,
    {
        let c = s.get_char(i);
        push_escaped_char(out, c);
        proof {
            assert(s@.subrange(0, i + 1) =~= s@.subrange(0, i as int).push(s@[i as int]));
            lemma_escape_snoc(s@.subrange(0, i as int), s@[i as int]);
        }
        i = i + 1;
    }
    proof {
        assert(s@.subrange(0, n as int) =~= s@);
    }
    push_char(out, '"');
    proof {
        assert(out@ =~= old(out)@ + spec_json_string(s@));
    }
}

/// The response body for a created user: the echoed name and email and
/// the server-assigned timestamp, as one JSON object.
pub open spec fn spec_user_created_body(
    name: Option<Seq<char>>,
    email: Seq<char>,
    created_at: Timestamp,
) -> Seq<char> {
    "{\"name\":"@ + (match name {
        Option::None => "null"@,
        Option::Some(n) => spec_json_string(n),
    }) + ",\"email\":"@ + spec_json_string(email) + ",\"timestamp\":\""@ + created_at.spec_render()
        + "\"}"@
}

/// Builds the response body for a created user.
pub fn user_created_body(name: &Option<String>, email: &str, created_at: &Timestamp) -> (r: String)
    requires
        created_at.wf(),
    ensures
        r@ == spec_user_created_body(
            match *name {
                Option::None => Option::None,
                Option::Some(n) => Option::Some(n@),
            },
            email@,
            *created_at,
        ),
{
    let mut out = String::new();
    out.append("{\"name\":");
    match name {
        Option::None => out.append("null"),
        Option::Some(n) => append_json_string(&mut out, n.as_str()),
    }
    out.append(",\"email\":");
    append_json_string(&mut out, email);
    out.append(",\"timestamp\":\"");
    created_at.render_onto(&mut out);
    out.append("\"}");
    out
}

} // verus!
