use vstd::prelude::*;

verus! {

/// Whether a character may stand in an HTTP header value: a visible character,
/// a space or a tab. The bytes of a character beyond ASCII are all accepted.
pub open spec fn header_char_ok(c: char) -> bool {
    (c as u32 >= 32 && c as u32 != 127) || c == '\t'
}

pub open spec fn header_value_ok(s: Seq<char>) -> bool {
    forall|i: int| 0 <= i < s.len() ==> #[trigger] header_char_ok(s[i])
}

/// Relies on reqwest's `HeaderValue::from_str`, which accepts a string exactly
/// when each of its bytes is a visible byte, a space or a tab.
#[verifier::external_body]
fn header_value_accepted(s: &str) -> (r: bool)
    ensures
        r == header_value_ok(s@),
{
    reqwest::header::HeaderValue::from_str(s).is_ok()
}

/// Whether `s` can be sent as the value of a header.
pub fn is_valid_header_value(s: &str) -> (r: bool)
    ensures
        r == header_value_ok(s@),
{
    header_value_accepted(s)
}

/// Whether a character may stand in an HTTP header name: a letter, a digit or
/// one of ``!"#$%&'*+-.^_`|~``.
pub open spec fn header_name_char_ok(c: char) -> bool {
    ('a' <= c && c <= 'z') || ('A' <= c && c <= 'Z') || ('0' <= c && c <= '9') || c == '!'
        || c == '"' || c == '#' || c == '$' || c == '%' || c == '&' || c == '\'' || c == '*'
        || c == '+' || c == '-' || c == '.' || c == '^' || c == '_' || c == '`' || c == '|'
        || c == '~'
}

/// The longest header name that is accepted.
pub const MAX_HEADER_NAME_LEN: usize = 65535;

pub open spec fn header_name_ok(s: Seq<char>) -> bool {
    &&& 0 < s.len() <= MAX_HEADER_NAME_LEN
    &&& forall|i: int| 0 <= i < s.len() ==> #[trigger] header_name_char_ok(s[i])
}

/// Relies on reqwest's `HeaderName::from_bytes`, which accepts a name of 1 to
/// 65535 bytes, each of them one of the characters above.
#[verifier::external_body]
fn header_name_accepted(s: &str) -> (r: bool)
    ensures
        r == header_name_ok(s@),
{
    reqwest::header::HeaderName::from_bytes(s.as_bytes()).is_ok()
}

/// Whether `s` can be sent as the name of a header.
pub fn is_valid_header_name(s: &str) -> (r: bool)
    ensures
        r == header_name_ok(s@),
{
    header_name_accepted(s)
}

/// A lowercase hexadecimal digit, for `n < 16`.
pub open spec fn hex_digit(n: u32) -> char {
    seq!['0', '1', '2', '3', '4', '5', '6', '7', '8', '9', 'a', 'b', 'c', 'd', 'e', 'f'][n as int]
}

/// How one character stands inside a JSON string literal: a quote, a
/// backslash and the five named control characters get a two-character escape,
/// the other control characters below 0x20 a `\u00xx` escape, and every other
/// character stands as it is.
pub open spec fn escaped_char(c: char) -> Seq<char> {
    if c == '"' {
        seq!['\\', '"']
    } else if c == '\\' {
        seq!['\\', '\\']
    } else if c == '\x08' {
        seq!['\\', 'b']
    } else if c == '\t' {
        seq!['\\', 't']
    } else if c == '\n' {
        seq!['\\', 'n']
    } else if c == '\x0c' {
        seq!['\\', 'f']
    } else if c == '\r' {
        seq!['\\', 'r']
    } else if (c as u32) < 32 {
        seq!['\\', 'u', '0', '0', hex_digit(c as u32 / 16), hex_digit(c as u32 % 16)]
    } else {
        seq![c]
    }
}

pub open spec fn escaped(s: Seq<char>) -> Seq<char>
    decreases s.len(),
{
    if s.len() == 0 {
        Seq::empty()
    } else {
        escaped(s.drop_last()) + escaped_char(s.last())
    }
}

/// The JSON string literal that encodes `s`: its escaped characters between
/// quotes.
pub open spec fn json_string_of(s: Seq<char>) -> Seq<char> {
    seq!['"'] + escaped(s) + seq!['"']
}

/// Relies on `serde_json::to_string` on a `str`, which writes the JSON string
/// literal of its argument with the escapes above and does not fail on one.
#[verifier::external_body]
fn json_quote(s: &str) -> (r: String)
    ensures
        r@ == json_string_of(s@),
{
    match serde_json::to_string(s) {
        Ok(t) => t,
        Err(_) => String::new(),
    }
}

/// The JSON string literal of `s`.
pub fn json_string(s: &str) -> (r: String)
    ensures
        r@ == json_string_of(s@),
{
    json_quote(s)
}

/// The JSON text of a boolean or of `null`.
pub open spec fn json_opt_bool_text(b: Option<bool>) -> Seq<char> {
    match b {
        Some(true) => "true"@,
        Some(false) => "false"@,
        None => "null"@,
    }
}

pub fn json_opt_bool(b: Option<bool>) -> (r: String)
    ensures
        r@ == json_opt_bool_text(b),
{
    match b {
        Some(true) => String::from_str("true"),
        Some(false) => String::from_str("false"),
        None => String::from_str("null"),
    }
}

/// One member of a JSON object: the quoted key, a colon, the encoded value.
pub open spec fn member_text(key: Seq<char>, value: Seq<char>) -> Seq<char> {
    seq!['"'] + key + seq!['"', ':'] + value
}

/// The members of a JSON object, separated by commas.
pub open spec fn members_text(m: Seq<(Seq<char>, Seq<char>)>) -> Seq<char>
    decreases m.len(),
{
    if m.len() == 0 {
        Seq::empty()
    } else if m.len() == 1 {
        member_text(m[0].0, m[0].1)
    } else {
        members_text(m.drop_last()) + seq![','] + member_text(m.last().0, m.last().1)
    }
}

pub open spec fn object_text(m: Seq<(Seq<char>, Seq<char>)>) -> Seq<char> {
    seq!['{'] + members_text(m) + seq!['}']
}

/// The text of each pair of strings.
pub open spec fn pairs_view(v: Seq<(String, String)>) -> Seq<(Seq<char>, Seq<char>)> {
    v.map_values(|p: (String, String)| (p.0@, p.1@))
}

/// Frames a JSON object from keys that need no escaping and values that are
/// already encoded as JSON.
pub fn json_object(members: &Vec<(String, String)>) -> (r: String)
    ensures
        r@ == object_text(pairs_view(members@)),
{
    let ghost m = pairs_view(members@);
    let mut out = String::from_str("{");
    proof {
        reveal_strlit("{");
    }
    let mut i: usize = 0;
    while i < members.len()
        invariant
            i <= members@.len(),
            m == pairs_view(members@),
            out@ == seq!['{'] + members_text(m.take(i as int)),
        decreases members@.len() - i,
    {
        proof {
            reveal_strlit(",");
            reveal_strlit("\"");
            reveal_strlit("\":");
        }
        if i > 0 {
            out.append(",");
        }
        out.append("\"");
        out.append(members[i].0.as_str());
        out.append("\":");
        out.append(members[i].1.as_str());
        proof {
            let t = m.take(i as int + 1);
            assert(t.drop_last() =~= m.take(i as int));
            assert(t.last() == m[i as int]);
            if i == 0 {
                assert(m.take(0) =~= Seq::<(Seq<char>, Seq<char>)>::empty());
            }
            assert(out@ =~= seq!['{'] + members_text(t));
        }
        i = i + 1;
    }
    out.append("}");
    proof {
        reveal_strlit("}");
        assert(m.take(members@.len() as int) =~= m);
        assert(out@ =~= object_text(m));
    }
    out
}

} // verus!
