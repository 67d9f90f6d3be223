//! Text the shell reads and prints: white space at the ends of a string, ASCII case, decimal
//! numbers and UTF-8 bytes.

use vstd::prelude::*;
use vstd::utf8::{decode_utf8, valid_utf8};

verus! {

/// The characters with the Unicode property `White_Space`.
pub open spec fn is_white_space(c: char) -> bool {
    ||| '\u{9}' <= c <= '\u{d}'
    ||| c == ' '
    ||| c == '\u{85}'
    ||| c == '\u{a0}'
    ||| c == '\u{1680}'
    ||| '\u{2000}' <= c <= '\u{200a}'
    ||| c == '\u{2028}'
    ||| c == '\u{2029}'
    ||| c == '\u{202f}'
    ||| c == '\u{205f}'
    ||| c == '\u{3000}'
}

/// `s` without the white space it starts with.
pub open spec fn trimmed_start(s: Seq<char>) -> Seq<char>
    decreases s.len(),
{
    if s.len() > 0 && is_white_space(s.first()) {
        trimmed_start(s.drop_first())
    } else {
        s
    }
}

/// `s` without the white space it ends with.
pub open spec fn trimmed_end(s: Seq<char>) -> Seq<char>
    decreases s.len(),
{
    if s.len() > 0 && is_white_space(s.last()) {
        trimmed_end(s.drop_last())
    } else {
        s
    }
}

/// `s` without the white space at either end.
pub open spec fn trimmed(s: Seq<char>) -> Seq<char> {
    trimmed_end(trimmed_start(s))
}

/// Whether `s` holds nothing but white space.
pub open spec fn is_blank(s: Seq<char>) -> bool {
    forall|i: int| 0 <= i < s.len() ==> is_white_space(#[trigger] s[i])
}

fn white_space(c: char) -> (r: bool)
    ensures
        r == is_white_space(c),
{
    ('\u{9}' <= c && c <= '\u{d}') || c == ' ' || c == '\u{85}' || c == '\u{a0}' || c == '\u{1680}'
        || ('\u{2000}' <= c && c <= '\u{200a}') || c == '\u{2028}' || c == '\u{2029}' || c
        == '\u{202f}' || c == '\u{205f}' || c == '\u{3000}'
}

/// The characters of `s`, in order.
pub(crate) fn chars_of(s: &str) -> (v: Vec<char>)
    ensures
        v@ == s@,
{
    let mut v: Vec<char> = Vec::new();
    for c in it: s.chars()
        invariant
            v@ == it.seq().take(it.index()),
            it.seq() == s@,
    {
        v.push(c);
    }
    v
}

/// `s` without the white space at either end.
pub fn trim(s: &str) -> (r: &str)
    ensures
        r@ == trimmed(s@),
{
    let v = chars_of(s);
    let n: usize = v.len();
    let mut i: usize = 0;
    assert(s@.skip(0) =~= s@);
    while i < n && white_space(v[i])
        invariant
            v@ == s@,
            n == v@.len(),
            i <= n,
            trimmed_start(s@) == trimmed_start(s@.skip(i as int)),
        decreases n - i,
    {
        assert(s@.skip(i as int).drop_first() =~= s@.skip(i + 1));
        i = i + 1;
    }
    let mut j: usize = n;
    assert(s@.subrange(i as int, n as int) =~= s@.skip(i as int));
    while i < j && white_space(v[j - 1])
        invariant
            v@ == s@,
            n == v@.len(),
            i <= j <= n,
            trimmed(s@) == trimmed_end(s@.subrange(i as int, j as int)),
        decreases j,
    {
        assert(s@.subrange(i as int, j as int).drop_last() =~= s@.subrange(i as int, j - 1));
        j = j - 1;
    }
    s.substring_char(i, j)
}

/// `s` without the white space it ends with.
pub fn trim_end(s: &str) -> (r: &str)
    ensures
        r@ == trimmed_end(s@),
{
    let v = chars_of(s);
    let n: usize = v.len();
    let mut j: usize = n;
    assert(s@.subrange(0, n as int) =~= s@);
    while 0 < j && white_space(v[j - 1])
        invariant
            v@ == s@,
            n == v@.len(),
            j <= n,
            trimmed_end(s@) == trimmed_end(s@.subrange(0, j as int)),
        decreases j,
    {
        assert(s@.subrange(0, j as int).drop_last() =~= s@.subrange(0, j - 1));
        j = j - 1;
    }
    s.substring_char(0, j)
}

/// What is left of a string trimmed at its end is a prefix of it, everything cut off is white
/// space, and no white space is left at the end.
pub proof fn lemma_trimmed_end(s: Seq<char>)
    ensures
        trimmed_end(s).len() <= s.len(),
        trimmed_end(s) == s.take(trimmed_end(s).len() as int),
        is_blank(s.skip(trimmed_end(s).len() as int)),
        trimmed_end(s).len() > 0 ==> !is_white_space(trimmed_end(s).last()),
    decreases s.len(),
{
    if s.len() > 0 && is_white_space(s.last()) {
        let t = s.drop_last();
        lemma_trimmed_end(t);
        let k = trimmed_end(t).len() as int;
        assert(t.take(k) =~= s.take(k));
        assert forall|i: int| 0 <= i < s.skip(k).len() implies is_white_space(
            #[trigger] s.skip(k)[i],
        ) by {
            if i < t.skip(k).len() {
                assert(s.skip(k)[i] == t.skip(k)[i]);
            }
        }
    } else {
        assert(s.take(s.len() as int) =~= s);
    }
}

/// What is left of a string trimmed at its start is a suffix of it, everything cut off is white
/// space, and no white space is left at the start.
pub proof fn lemma_trimmed_start(s: Seq<char>)
    ensures
        trimmed_start(s).len() <= s.len(),
        trimmed_start(s) == s.skip(s.len() - trimmed_start(s).len()),
        is_blank(s.take(s.len() - trimmed_start(s).len())),
        trimmed_start(s).len() > 0 ==> !is_white_space(trimmed_start(s).first()),
    decreases s.len(),
{
    if s.len() > 0 && is_white_space(s.first()) {
        let t = s.drop_first();
        lemma_trimmed_start(t);
        let k = t.len() - trimmed_start(t).len();
        assert(t.skip(k) =~= s.skip(k + 1));
        assert forall|i: int| 0 <= i < s.take(k + 1).len() implies is_white_space(
            #[trigger] s.take(k + 1)[i],
        ) by {
            if i > 0 {
                assert(s.take(k + 1)[i] == t.take(k)[i - 1]);
            }
        }
    } else {
        assert(s.skip(0) =~= s);
    }
}

/// Trimming leaves nothing exactly when there was nothing but white space; otherwise what is left
/// neither starts nor ends with white space.
pub proof fn law_trimmed_ends(s: Seq<char>)
    ensures
        trimmed(s).len() == 0 <==> is_blank(s),
        trimmed(s).len() > 0 ==> !is_white_space(trimmed(s).first()) && !is_white_space(
            trimmed(s).last(),
        ),
{
    let a = trimmed_start(s);
    let k = s.len() - a.len();
    lemma_trimmed_start(s);
    lemma_trimmed_end(a);
    if trimmed(s).len() == 0 {
        assert(a.skip(0) =~= a);
        assert forall|i: int| 0 <= i < s.len() implies is_white_space(#[trigger] s[i]) by {
            if i < k {
                assert(s.take(k)[i] == s[i]);
            } else {
                assert(a[i - k] == s[i]);
            }
        }
    } else {
        assert(trimmed(s).first() == a.first());
        assert(a.first() == s[k]);
    }
}

/// Trimming a second time changes nothing.
pub proof fn law_trim_idempotent(s: Seq<char>)
    ensures
        trimmed(trimmed(s)) == trimmed(s),
{
    law_trimmed_ends(s);
}

proof fn lemma_trimmed_start_skips(w: Seq<char>, s: Seq<char>)
    requires
        is_blank(w),
    ensures
        trimmed_start(w + s) == trimmed_start(s),
    decreases w.len(),
{
    if w.len() == 0 {
        assert(w + s =~= s);
    } else {
        let rest = w.drop_first();
        assert forall|i: int| 0 <= i < rest.len() implies is_white_space(#[trigger] rest[i]) by {
            assert(is_white_space(w[i + 1]));
        }
        lemma_trimmed_start_skips(rest, s);
        assert(is_white_space(w[0]));
        assert((w + s).first() == w[0]);
        assert((w + s).drop_first() =~= rest + s);
    }
}

proof fn lemma_trimmed_end_skips(s: Seq<char>, x: Seq<char>)
    requires
        is_blank(x),
    ensures
        trimmed_end(s + x) == trimmed_end(s),
    decreases x.len(),
{
    if x.len() == 0 {
        assert(s + x =~= s);
    } else {
        let front = x.drop_last();
        assert forall|i: int| 0 <= i < front.len() implies is_white_space(#[trigger] front[i]) by {
            assert(is_white_space(x[i]));
        }
        lemma_trimmed_end_skips(s, front);
        assert(is_white_space(x[x.len() - 1]));
        assert((s + x).last() == x.last());
        assert((s + x).drop_last() =~= s + front);
    }
}

proof fn lemma_trimmed_start_keeps(s: Seq<char>, x: Seq<char>)
    requires
        !is_blank(s),
    ensures
        trimmed_start(s + x) == trimmed_start(s) + x,
    decreases s.len(),
{
    assert((s + x).first() == s.first());
    if is_white_space(s.first()) {
        let rest = s.drop_first();
        assert(!is_blank(rest)) by {
            let i = choose|i: int| 0 <= i < s.len() && !is_white_space(#[trigger] s[i]);
            assert(rest[i - 1] == s[i]);
        }
        lemma_trimmed_start_keeps(rest, x);
        assert((s + x).drop_first() =~= rest + x);
    }
}

/// White space round a string does not change what is left of it.
pub proof fn law_trim_ignores_padding(w: Seq<char>, s: Seq<char>, x: Seq<char>)
    requires
        is_blank(w),
        is_blank(x),
    ensures
        trimmed(w + s + x) == trimmed(s),
{
    assert(w + s + x =~= w + (s + x));
    lemma_trimmed_start_skips(w, s + x);
    if is_blank(s) {
        lemma_trimmed_start_skips(s, x);
        law_trimmed_ends(x);
        law_trimmed_ends(s);
        assert(trimmed(x) =~= trimmed(s));
    } else {
        lemma_trimmed_start_keeps(s, x);
        lemma_trimmed_end_skips(trimmed_start(s), x);
    }
}

/// The lower-case form of an ASCII letter; any other character as it is.
pub open spec fn ascii_lower(c: char) -> char {
    if 'A' <= c <= 'Z' {
        (c as u32 + 32) as char
    } else {
        c
    }
}

/// Whether `a` and `b` differ in nothing but the case of ASCII letters.
pub open spec fn same_but_for_ascii_case(a: Seq<char>, b: Seq<char>) -> bool {
    a.map_values(|c: char| ascii_lower(c)) == b.map_values(|c: char| ascii_lower(c))
}

fn lower(c: char) -> (r: char)
    ensures
        r == ascii_lower(c),
{
    if 'A' <= c && c <= 'Z' {
        (c as u8 + 32) as char
    } else {
        c
    }
}

/// Whether `a` and `b` differ in nothing but the case of ASCII letters.
pub fn eq_ignore_ascii_case(a: &str, b: &str) -> (r: bool)
    ensures
        r == same_but_for_ascii_case(a@, b@),
{
    let v = chars_of(a);
    let w = chars_of(b);
    let ghost la = a@.map_values(|c: char| ascii_lower(c));
    let ghost lb = b@.map_values(|c: char| ascii_lower(c));
    if v.len() != w.len() {
        assert(la.len() != lb.len());
        return false;
    }
    let mut i: usize = 0;
    while i < v.len()
        invariant
            v@ == a@,
            w@ == b@,
            v@.len() == w@.len(),
            i <= v@.len(),
            la == a@.map_values(|c: char| ascii_lower(c)),
            lb == b@.map_values(|c: char| ascii_lower(c)),
            forall|k: int| 0 <= k < i ==> la[k] == lb[k],
        decreases v@.len() - i,
    {
        if lower(v[i]) != lower(w[i]) {
            assert(la[i as int] != lb[i as int]);
            return false;
        }
        i = i + 1;
    }
    assert(la =~= lb);
    true
}

/// `a` followed by `b`.
pub(crate) fn join(a: &str, b: &str) -> (r: String)
    ensures
        r@ == a@ + b@,
{
    a.to_owned().concat(b)
}

/// The decimal digit for `d`, which is below ten.
pub open spec fn digit(d: nat) -> char {
    ('0' as u32 + d) as char
}

/// The decimal digits of `n`, without leading zeros.
pub open spec fn digits(n: nat) -> Seq<char>
    decreases n,
{
    if n < 10 {
        seq![digit(n)]
    } else {
        digits(n / 10).push(digit(n % 10))
    }
}

fn digit_text(d: u64) -> (r: &'static str)
    requires
        d < 10,
    ensures
        r@ == seq![digit(d as nat)],
{
    proof {
        reveal_strlit("0");
        reveal_strlit("1");
        reveal_strlit("2");
        reveal_strlit("3");
        reveal_strlit("4");
        reveal_strlit("5");
        reveal_strlit("6");
        reveal_strlit("7");
        reveal_strlit("8");
        reveal_strlit("9");
    }
    if d == 0 {
        "0"
    } else if d == 1 {
        "1"
    } else if d == 2 {
        "2"
    } else if d == 3 {
        "3"
    } else if d == 4 {
        "4"
    } else if d == 5 {
        "5"
    } else if d == 6 {
        "6"
    } else if d == 7 {
        "7"
    } else if d == 8 {
        "8"
    } else {
        "9"
    }
}

/// `n` in decimal.
pub fn decimal(n: u64) -> (r: String)
    ensures
        r@ == digits(n as nat),
    decreases n,
{
    if n < 10 {
        digit_text(n).to_owned()
    } else {
        let head = decimal(n / 10);
        let r = head.concat(digit_text(n % 10));
        assert(r@ =~= digits(n as nat));
        r
    }
}

#[verifier::external_type_specification]
#[verifier::external_body]
pub struct ExFromUtf8Error(std::string::FromUtf8Error);

/// `String::from_utf8` of std: it succeeds exactly on valid UTF-8, and the string it then returns
/// holds the characters that the bytes encode.
pub assume_specification[ String::from_utf8 ](vec: Vec<u8>) -> (r: Result<
    String,
    std::string::FromUtf8Error,
>)
    ensures
        r is Ok <==> valid_utf8(vec@),
        r is Ok ==> r->Ok_0@ == decode_utf8(vec@),
;

/// Trimming cuts off white space only, and only at the ends: what is left is one stretch of the
/// string, everything before and after it is white space, and neither of its own ends is.
pub proof fn law_trim_cuts_only_white_space(s: Seq<char>)
    ensures
        exists|i: int, j: int|
            {
                &&& 0 <= i <= j <= s.len()
                &&& trimmed(s) == #[trigger] s.subrange(i, j)
                &&& forall|k: int| 0 <= k < i || j <= k < s.len() ==> is_white_space(#[trigger] s[k])
                &&& i < j ==> !is_white_space(s[i]) && !is_white_space(s[j - 1])
            },
{
    let a = trimmed_start(s);
    let i = s.len() - a.len();
    let j = i + trimmed(s).len();
    lemma_trimmed_start(s);
    lemma_trimmed_end(a);
    assert(s.subrange(i, j) =~= trimmed(s));
    assert forall|k: int| 0 <= k < i || j <= k < s.len() implies is_white_space(#[trigger] s[k]) by {
        if k < i {
            assert(s.take(i)[k] == s[k]);
        } else {
            assert(a.skip(trimmed(s).len() as int)[k - j] == s[k]);
        }
    }
    if i < j {
        assert(trimmed(s).last() == s[j - 1]);
        assert(a.first() == s[i]);
    }
}

/// Trimming at the end cuts off white space only, and only there: what is left is the start of the
/// string, everything after it is white space, and its own end is not.
pub proof fn law_trim_end_cuts_only_white_space(s: Seq<char>)
    ensures
        exists|j: int|
            {
                &&& 0 <= j <= s.len()
                &&& trimmed_end(s) == #[trigger] s.subrange(0, j)
                &&& forall|k: int| j <= k < s.len() ==> is_white_space(#[trigger] s[k])
                &&& 0 < j ==> !is_white_space(s[j - 1])
            },
{
    let j = trimmed_end(s).len() as int;
    lemma_trimmed_end(s);
    assert(s.subrange(0, j) =~= trimmed_end(s));
    assert forall|k: int| j <= k < s.len() implies is_white_space(#[trigger] s[k]) by {
        assert(s.skip(j)[k - j] == s[k]);
    }
}

/// A string that neither starts nor ends with white space is left as it is, whatever its length and
/// whatever stands inside it.
pub proof fn law_clean_text_is_kept(s: Seq<char>)
    requires
        s.len() > 0 ==> !is_white_space(s[0]) && !is_white_space(s[s.len() - 1]),
    ensures
        trimmed(s) == s,
        trimmed_end(s) == s,
        s.len() > 0 ==> !is_blank(s),
{
}

/// A string is blank exactly when each of its characters is white space.
pub proof fn law_blank_is_all_white_space(s: Seq<char>)
    ensures
        is_blank(s) <==> forall|i: int| 0 <= i < s.len() ==> is_white_space(#[trigger] s[i]),
{
}

/// Two strings are the same but for ASCII case exactly when they are equally long and at each place
/// hold the same character, or the upper-case and the lower-case form of one ASCII letter.
pub proof fn law_ascii_case_is_place_by_place(a: Seq<char>, b: Seq<char>)
    ensures
        same_but_for_ascii_case(a, b) <==> {
            &&& a.len() == b.len()
            &&& forall|i: int|
                0 <= i < a.len() ==> {
                    ||| #[trigger] a[i] == b[i]
                    ||| 'A' <= a[i] <= 'Z' && b[i] as u32 == a[i] as u32 + 32
                    ||| 'A' <= b[i] <= 'Z' && a[i] as u32 == b[i] as u32 + 32
                }
        },
{
    let la = a.map_values(|c: char| ascii_lower(c));
    let lb = b.map_values(|c: char| ascii_lower(c));
    if same_but_for_ascii_case(a, b) {
        assert(la.len() == lb.len());
        assert forall|i: int| 0 <= i < a.len() implies {
            ||| #[trigger] a[i] == b[i]
            ||| 'A' <= a[i] <= 'Z' && b[i] as u32 == a[i] as u32 + 32
            ||| 'A' <= b[i] <= 'Z' && a[i] as u32 == b[i] as u32 + 32
        } by {
            assert(la[i] == lb[i]);
            assert(la[i] == ascii_lower(a[i]));
            assert(lb[i] == ascii_lower(b[i]));
        }
    } else if a.len() == b.len() && forall|i: int|
        0 <= i < a.len() ==> {
            ||| #[trigger] a[i] == b[i]
            ||| 'A' <= a[i] <= 'Z' && b[i] as u32 == a[i] as u32 + 32
            ||| 'A' <= b[i] <= 'Z' && a[i] as u32 == b[i] as u32 + 32
        } {
        assert forall|i: int| 0 <= i < a.len() implies la[i] == lb[i] by {
            assert(a[i] == a[i]);
        }
        assert(la =~= lb);
    }
}

/// The number that a string of decimal digits stands for.
pub open spec fn value_of(s: Seq<char>) -> int
    decreases s.len(),
{
    if s.len() == 0 {
        0
    } else {
        value_of(s.drop_last()) * 10 + (s.last() as int - '0' as int)
    }
}

/// A printed number reads back as that number; it is made of digits alone, has at least one, and has
/// no zero in front of another.
pub proof fn law_digits_read_back(n: nat)
    ensures
        value_of(digits(n)) == n,
        digits(n).len() > 0,
        forall|i: int| 0 <= i < digits(n).len() ==> '0' <= #[trigger] digits(n)[i] <= '9',
        digits(n).len() > 1 ==> digits(n)[0] != '0',
        n > 0 ==> digits(n)[0] != '0',
    decreases n,
{
    if n < 10 {
        assert(digits(n).drop_last() =~= seq![]);
        assert(value_of(digits(n).drop_last()) == 0);
    } else {
        let head = digits(n / 10);
        law_digits_read_back(n / 10);
        assert(digits(n).drop_last() =~= head);
        assert(digits(n).last() == digit(n % 10));
        assert(digits(n)[0] == head[0]);
        assert forall|i: int| 0 <= i < digits(n).len() implies '0' <= #[trigger] digits(n)[i]
            <= '9' by {
            if i < head.len() {
                assert(digits(n)[i] == head[i]);
            }
        }
    }
}

/// A string is what is left of it with white space before and behind.
pub proof fn law_trim_leaves_what_stands_between(s: Seq<char>)
    ensures
        exists|w: Seq<char>, x: Seq<char>|
            is_blank(w) && is_blank(x) && s == #[trigger] (w + trimmed(s) + x),
{
    law_trim_cuts_only_white_space(s);
    let (i, j) = choose|i: int, j: int|
        {
            &&& 0 <= i <= j <= s.len()
            &&& trimmed(s) == #[trigger] s.subrange(i, j)
            &&& forall|k: int| 0 <= k < i || j <= k < s.len() ==> is_white_space(#[trigger] s[k])
            &&& i < j ==> !is_white_space(s[i]) && !is_white_space(s[j - 1])
        };
    let w = s.take(i);
    let x = s.skip(j);
    assert(is_blank(w)) by {
        assert(forall|k: int| 0 <= k < w.len() ==> #[trigger] w[k] == s[k]);
    }
    assert(is_blank(x)) by {
        assert(forall|k: int| 0 <= k < x.len() ==> #[trigger] x[k] == s[k + j]);
    }
    assert(s =~= w + trimmed(s) + x);
}

/// The white space characters by their code points: the control characters from the tabulator to the
/// carriage return and the next-line character, the spaces, and the separators of lines and
/// paragraphs. There are no others.
pub proof fn law_white_space_code_points(c: char)
    ensures
        is_white_space(c) <==> {
            let n = c as int;
            ||| 0x9 <= n <= 0xd
            ||| n == 0x20 || n == 0x85 || n == 0xa0 || n == 0x1680
            ||| 0x2000 <= n <= 0x200a
            ||| n == 0x2028 || n == 0x2029 || n == 0x202f || n == 0x205f || n == 0x3000
        },
{
}

/// What a call of [`trim`] returns: white space before and behind it give back the string, and neither
/// of its own ends is white space.
pub proof fn law_trim_returns_what_stands_between(s: &str, r: &str)
    requires
        call_ensures(trim, (s,), r),
    ensures
        exists|w: Seq<char>, x: Seq<char>|
            is_blank(w) && is_blank(x) && s@ == #[trigger] (w + r@ + x),
        r@.len() > 0 ==> !is_white_space(r@[0]) && !is_white_space(r@[r@.len() - 1]),
{
    law_trim_leaves_what_stands_between(s@);
    law_trimmed_ends(s@);
}

/// What a call of [`trim_end`] returns: white space behind it gives back the string, and its own end is
/// not white space.
pub proof fn law_trim_end_returns_what_stands_before(s: &str, r: &str)
    requires
        call_ensures(trim_end, (s,), r),
    ensures
        exists|x: Seq<char>| is_blank(x) && s@ == #[trigger] (r@ + x),
        r@.len() > 0 ==> !is_white_space(r@[r@.len() - 1]),
{
    lemma_trimmed_end(s@);
    let x = s@.skip(r@.len() as int);
    assert(s@ =~= r@ + x);
}

/// What a call of [`decimal`] returns reads back as the number, and is made of digits alone, without a
/// zero in front of another digit.
pub proof fn law_decimal_reads_back(n: u64, r: String)
    requires
        call_ensures(decimal, (n,), r),
    ensures
        value_of(r@) == n,
        r@.len() > 0,
        forall|i: int| 0 <= i < r@.len() ==> '0' <= #[trigger] r@[i] <= '9',
        r@.len() > 1 ==> r@[0] != '0',
{
    law_digits_read_back(n as nat);
}

/// What a call of [`eq_ignore_ascii_case`] returns: true exactly where the strings are equally long and
/// hold at each place the same character, or the two cases of one ASCII letter.
pub proof fn law_case_is_all_that_is_ignored(a: &str, b: &str, r: bool)
    requires
        call_ensures(eq_ignore_ascii_case, (a, b), r),
    ensures
        r <==> {
            &&& a@.len() == b@.len()
            &&& forall|i: int|
                0 <= i < a@.len() ==> {
                    ||| #[trigger] a@[i] == b@[i]
                    ||| 'A' <= a@[i] <= 'Z' && b@[i] as u32 == a@[i] as u32 + 32
                    ||| 'A' <= b@[i] <= 'Z' && a@[i] as u32 == b@[i] as u32 + 32
                }
        },
{
    law_ascii_case_is_place_by_place(a@, b@);
}

} // verus!
