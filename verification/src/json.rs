//! The JSON text of an object with one member.

use vstd::prelude::*;

verus! {

/// One lower-case hexadecimal digit.
pub open spec fn hex_digit(d: nat) -> char {
    if d < 10 {
        ('0' as u32 + d) as char
    } else {
        ('a' as u32 + (d - 10)) as char
    }
}

/// How a character stands inside a JSON string.
pub open spec fn json_char(c: char) -> Seq<char> {
    if c == '"' {
        seq!['\\', '"']
    } else if c == '\\' {
        seq!['\\', '\\']
    } else if c == '\u{8}' {
        seq!['\\', 'b']
    } else if c == '\u{9}' {
        seq!['\\', 't']
    } else if c == '\u{a}' {
        seq!['\\', 'n']
    } else if c == '\u{c}' {
        seq!['\\', 'f']
    } else if c == '\u{d}' {
        seq!['\\', 'r']
    } else if c as u32 <= 0x1f {
        seq!['\\', 'u', '0', '0', hex_digit(c as nat / 16), hex_digit(c as nat % 16)]
    } else {
        seq![c]
    }
}

/// The inside of the JSON string for `s`.
pub open spec fn json_chars(s: Seq<char>) -> Seq<char>
    decreases s.len(),
{
    if s.len() == 0 {
        seq![]
    } else {
        json_char(s.first()) + json_chars(s.drop_first())
    }
}

/// The JSON string for `s`, with its quotes.
pub open spec fn json_string(s: Seq<char>) -> Seq<char> {
    seq!['"'] + json_chars(s) + seq!['"']
}

/// `null`, or a JSON string.
pub open spec fn json_value(value: Option<Seq<char>>) -> Seq<char> {
    match value {
        None => seq!['n', 'u', 'l', 'l'],
        Some(s) => json_string(s),
    }
}

/// The object whose one member is `key` with `value`, pretty-printed with an indent of two spaces.
pub open spec fn json_object(key: Seq<char>, value: Option<Seq<char>>) -> Seq<char> {
    seq!['{', '\n', ' ', ' '] + json_string(key) + seq![':', ' '] + json_value(value) + seq![
        '\n',
        '}',
    ]
}

#[verifier::external_type_specification]
#[verifier::external_body]
pub struct ExJsonError(serde_json::Error);

/// `serde_json::to_string_pretty`, on a map from `key` alone to `value`, which it prints as it prints
/// a struct with that one field: it succeeds, since neither a string nor an optional string can fail
/// to serialise, and returns the object's text.
#[verifier::external_body]
pub(crate) fn to_string_pretty(key: &str, value: Option<&str>) -> (r: Result<
    String,
    serde_json::Error,
>)
    ensures
        r is Ok,
        r->Ok_0@ == json_object(
            key@,
            match value {
                None => None,
                Some(v) => Some(v@),
            },
        ),
{
    serde_json::to_string_pretty(&std::collections::BTreeMap::from([(key, value)]))
}

/// Two different strings never have the same characters inside their JSON strings, nor is one's
/// text the start of the other's, when a quote follows both.
proof fn lemma_json_chars_injective(a: Seq<char>, b: Seq<char>, x: Seq<char>, y: Seq<char>)
    requires
        json_chars(a) + seq!['"'] + x == json_chars(b) + seq!['"'] + y,
    ensures
        a == b,
    decreases a.len(),
{
    let l = json_chars(a) + seq!['"'] + x;
    let r = json_chars(b) + seq!['"'] + y;
    if a.len() == 0 {
        assert(l[0] == '"');
        if b.len() > 0 {
            assert(r[0] == json_char(b.first())[0]);
        }
        assert(a =~= b);
    } else if b.len() == 0 {
        assert(r[0] == '"');
        assert(l[0] == json_char(a.first())[0]);
    } else {
        let (c, d) = (a.first(), b.first());
        let (ta, tb) = (json_chars(a.drop_first()), json_chars(b.drop_first()));
        let (la, lb) = (ta + seq!['"'] + x, tb + seq!['"'] + y);
        assert(l =~= json_char(c) + la);
        assert(r =~= json_char(d) + lb);
        lemma_json_char_injective(c, d, la, lb);
        lemma_json_chars_injective(a.drop_first(), b.drop_first(), x, y);
        assert(a =~= seq![c] + a.drop_first());
        assert(b =~= seq![d] + b.drop_first());
    }
}

proof fn lemma_json_char_injective(c: char, d: char, x: Seq<char>, y: Seq<char>)
    requires
        json_char(c) + x == json_char(d) + y,
    ensures
        c == d,
        x == y,
{
    let l = json_char(c) + x;
    let r = json_char(d) + y;
    assert(l[0] == json_char(c)[0]);
    assert(r[0] == json_char(d)[0]);
    if json_char(c).len() > 1 {
        assert(json_char(d).len() > 1);
        assert(l[1] == json_char(c)[1]);
        assert(r[1] == json_char(d)[1]);
        if json_char(c).len() == 6 {
            assert(json_char(d).len() == 6);
            assert(l[4] == json_char(c)[4]);
            assert(r[4] == json_char(d)[4]);
            assert(l[5] == json_char(c)[5]);
            assert(r[5] == json_char(d)[5]);
        }
    }
    assert(c == d);
    assert(x =~= l.skip(json_char(c).len() as int));
    assert(y =~= r.skip(json_char(d).len() as int));
}

/// The text of an object tells its member's value: no two values have the same text.
pub proof fn law_json_object_injective(
    key: Seq<char>,
    a: Option<Seq<char>>,
    b: Option<Seq<char>>,
)
    requires
        json_object(key, a) == json_object(key, b),
    ensures
        a == b,
{
    let head = seq!['{', '\n', ' ', ' '] + json_string(key) + seq![':', ' '];
    let tail = seq!['\n', '}'];
    let ta = json_value(a) + tail;
    let tb = json_value(b) + tail;
    assert(json_object(key, a) =~= head + ta);
    assert(json_object(key, b) =~= head + tb);
    assert(ta =~= json_object(key, a).skip(head.len() as int));
    assert(tb =~= json_object(key, b).skip(head.len() as int));
    assert(ta == tb);
    match (a, b) {
        (Some(s), Some(t)) => {
            assert(ta =~= seq!['"'] + (json_chars(s) + seq!['"'] + tail));
            assert(tb =~= seq!['"'] + (json_chars(t) + seq!['"'] + tail));
            assert(json_chars(s) + seq!['"'] + tail =~= ta.skip(1));
            assert(json_chars(t) + seq!['"'] + tail =~= tb.skip(1));
            lemma_json_chars_injective(s, t, tail, tail);
        },
        (None, Some(t)) => {
            assert(ta[0] == 'n');
            assert(tb[0] == '"');
        },
        (Some(s), None) => {
            assert(ta[0] == '"');
            assert(tb[0] == 'n');
        },
        (None, None) => {},
    }
}

/// What stands behind the white space that `s` starts with, by JSON's notion of it.
pub open spec fn skip_space(s: Seq<char>) -> Seq<char>
    decreases s.len(),
{
    if s.len() > 0 && (s[0] == ' ' || s[0] == '\n' || s[0] == '\r' || s[0] == '\t') {
        skip_space(s.skip(1))
    } else {
        s
    }
}

/// The number that a hexadecimal digit of either case stands for.
pub open spec fn hex_value(c: char) -> Option<int> {
    if '0' <= c <= '9' {
        Some(c as int - '0' as int)
    } else if 'a' <= c <= 'f' {
        Some(c as int - 'a' as int + 10)
    } else if 'A' <= c <= 'F' {
        Some(c as int - 'A' as int + 10)
    } else {
        None
    }
}

/// The character that the four hexadecimal digits `s` stand for, surrogates aside.
pub open spec fn read_hex(s: Seq<char>) -> Option<char> {
    match (hex_value(s[0]), hex_value(s[1]), hex_value(s[2]), hex_value(s[3])) {
        (Some(a), Some(b), Some(c), Some(d)) => {
            let n = ((a * 16 + b) * 16 + c) * 16 + d;
            if 0xd800 <= n <= 0xdfff {
                None
            } else {
                Some(n as char)
            }
        },
        _ => None,
    }
}

/// The character that a backslash and `c` stand for in a JSON string.
pub open spec fn read_escape(c: char) -> Option<char> {
    if c == '"' || c == '\\' || c == '/' {
        Some(c)
    } else if c == 'b' {
        Some('\u{8}')
    } else if c == 'f' {
        Some('\u{c}')
    } else if c == 'n' {
        Some('\n')
    } else if c == 'r' {
        Some('\r')
    } else if c == 't' {
        Some('\t')
    } else {
        None
    }
}

/// `c` in front of what was read.
pub open spec fn in_front(c: Option<char>, read: Option<(Seq<char>, Seq<char>)>) -> Option<
    (Seq<char>, Seq<char>),
> {
    match (c, read) {
        (Some(c), Some((text, rest))) => Some((seq![c] + text, rest)),
        _ => None,
    }
}

/// Reads a JSON string behind its opening quote: what it says, and what stands behind its closing
/// quote.
pub open spec fn read_string(s: Seq<char>) -> Option<(Seq<char>, Seq<char>)>
    decreases s.len(),
{
    if s.len() == 0 {
        None
    } else if s[0] == '"' {
        Some((seq![], s.skip(1)))
    } else if s[0] == '\\' {
        if s.len() >= 6 && s[1] == 'u' {
            in_front(read_hex(s.subrange(2, 6)), read_string(s.skip(6)))
        } else if s.len() >= 2 {
            in_front(read_escape(s[1]), read_string(s.skip(2)))
        } else {
            None
        }
    } else if s[0] as u32 <= 0x1f {
        None
    } else {
        in_front(Some(s[0]), read_string(s.skip(1)))
    }
}

/// Reads `null` or a JSON string: its value, and what stands behind it.
pub open spec fn read_value(s: Seq<char>) -> Option<(Option<Seq<char>>, Seq<char>)> {
    if s.len() >= 4 && s[0] == 'n' && s[1] == 'u' && s[2] == 'l' && s[3] == 'l' {
        Some((None, s.skip(4)))
    } else if s.len() > 0 && s[0] == '"' {
        match read_string(s.skip(1)) {
            Some((text, rest)) => Some((Some(text), rest)),
            None => None,
        }
    } else {
        None
    }
}

/// What stands behind `c`, if `s` starts with it after white space.
pub open spec fn behind(c: char, s: Seq<char>) -> Option<Seq<char>> {
    let t = skip_space(s);
    if t.len() > 0 && t[0] == c {
        Some(t.skip(1))
    } else {
        None
    }
}

/// Reads a JSON document that is an object with one member: the member's name and its value.
/// Nothing but white space may stand behind the object.
pub open spec fn read_object(text: Seq<char>) -> Option<(Seq<char>, Option<Seq<char>>)> {
    match behind('{', text) {
        None => None,
        Some(a) => match behind('"', a) {
            None => None,
            Some(b) => match read_string(b) {
                None => None,
                Some((key, c)) => match behind(':', c) {
                    None => None,
                    Some(d) => match read_value(skip_space(d)) {
                        None => None,
                        Some((value, e)) => match behind('}', e) {
                            Some(f) if skip_space(f).len() == 0 => Some((key, value)),
                            _ => None,
                        },
                    },
                },
            },
        },
    }
}

proof fn lemma_json_char_reads_back(c: char, s: Seq<char>)
    ensures
        read_string(json_char(c) + s) == in_front(Some(c), read_string(s)),
{
    let t = json_char(c) + s;
    let n = json_char(c).len() as int;
    assert(t.skip(n) =~= s);
    assert(t[0] == json_char(c)[0]);
    if n >= 2 {
        assert(t[1] == json_char(c)[1]);
    }
    if n == 6 {
        let h = t.subrange(2, 6);
        assert(h[0] == '0' && h[1] == '0');
        assert(h[2] == hex_digit(c as nat / 16));
        assert(h[3] == hex_digit(c as nat % 16));
        assert(read_hex(h) == Some(c));
    }
}

proof fn lemma_json_chars_read_back(s: Seq<char>, rest: Seq<char>)
    ensures
        read_string(json_chars(s) + seq!['"'] + rest) == Some((s, rest)),
    decreases s.len(),
{
    let t = json_chars(s) + seq!['"'] + rest;
    if s.len() == 0 {
        assert(t[0] == '"');
        assert(t.skip(1) =~= rest);
        assert(s =~= seq![]);
    } else {
        let tail = json_chars(s.drop_first()) + seq!['"'] + rest;
        assert(t =~= json_char(s.first()) + tail);
        lemma_json_char_reads_back(s.first(), tail);
        lemma_json_chars_read_back(s.drop_first(), rest);
        assert(seq![s.first()] + s.drop_first() =~= s);
    }
}

proof fn lemma_behind(c: char, s: Seq<char>)
    requires
        c != ' ' && c != '\n' && c != '\r' && c != '\t',
    ensures
        behind(c, seq![c] + s) == Some(s),
        behind(c, seq!['\n'] + seq![c] + s) == Some(s),
        behind(c, seq!['\n', ' ', ' '] + seq![c] + s) == Some(s),
{
    let t = seq![c] + s;
    assert(t[0] == c);
    assert(t.skip(1) =~= s);
    assert(skip_space(t) == t);
    let t1 = seq![' '] + t;
    let t2 = seq![' '] + t1;
    let t3 = seq!['\n'] + t2;
    assert(t1.skip(1) =~= t);
    assert(t2.skip(1) =~= t1);
    assert(t3.skip(1) =~= t2);
    assert(skip_space(t1) == skip_space(t));
    assert(skip_space(t2) == skip_space(t1));
    assert(skip_space(t3) == skip_space(t2));
    assert(t3 =~= seq!['\n', ' ', ' '] + seq![c] + s);
    let u = seq!['\n'] + t;
    assert(u.skip(1) =~= t);
    assert(u =~= seq!['\n'] + seq![c] + s);
}

proof fn lemma_json_value_reads_back(value: Option<Seq<char>>, rest: Seq<char>)
    ensures
        read_value(skip_space(seq![' '] + json_value(value) + rest)) == Some((value, rest)),
{
    let t = json_value(value) + rest;
    let u = seq![' '] + json_value(value) + rest;
    assert(u.skip(1) =~= t);
    assert(skip_space(u) == skip_space(t));
    match value {
        None => {
            assert(t.skip(4) =~= rest);
        },
        Some(s) => {
            assert(t[0] == '"');
            assert(t.skip(1) =~= json_chars(s) + seq!['"'] + rest);
            lemma_json_chars_read_back(s, rest);
        },
    }
    assert(skip_space(t) == t);
}

/// The text of an object is a JSON document, and read as one it gives back the member's name and its
/// value, whatever characters they hold.
pub proof fn law_json_object_reads_back(key: Seq<char>, value: Option<Seq<char>>)
    ensures
        read_object(json_object(key, value)) == Some((key, value)),
{
    let text = json_object(key, value);
    let tail = seq!['\n', '}'];
    let d = seq![' '] + json_value(value) + tail;
    let c = seq![':'] + d;
    let b = json_chars(key) + seq!['"'] + c;
    let a = seq!['\n', ' ', ' '] + seq!['"'] + b;
    assert(text =~= seq!['{'] + a);
    lemma_behind('{', a);
    lemma_behind('"', b);
    lemma_json_chars_read_back(key, c);
    lemma_behind(':', d);
    lemma_json_value_reads_back(value, tail);
    assert(tail =~= seq!['\n'] + seq!['}'] + seq![]);
    lemma_behind('}', seq![]);
}

/// A character that need not be escaped stands for itself, and no other text of one character does.
pub proof fn law_plain_characters_stand_for_themselves(c: char)
    ensures
        json_char(c) == seq![c] <==> c != '"' && c != '\\' && c as u32 > 0x1f,
        json_char(c).len() == 1 ==> json_char(c)[0] == c,
{
    if c == '"' || c == '\\' || c as u32 <= 0x1f {
        assert(json_char(c).len() != seq![c].len());
    }
}

} // verus!
