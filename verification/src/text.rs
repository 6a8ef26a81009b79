//! Character-level text helpers shared by the widget and vehicle logic.
use vstd::prelude::*;

verus! {

/// The Unicode `White_Space` property (the character set `char::is_whitespace`
/// and `str::trim` use).
pub open spec fn is_white_space_char(c: char) -> bool {
    let u = c as u32;
    ||| 0x9 <= u && u <= 0xd
    ||| u == 0x20
    ||| u == 0x85
    ||| u == 0xa0
    ||| u == 0x1680
    ||| 0x2000 <= u && u <= 0x200a
    ||| u == 0x2028
    ||| u == 0x2029
    ||| u == 0x202f
    ||| u == 0x205f
    ||| u == 0x3000
}

/// `s` with leading and trailing white space removed.
pub open spec fn trimmed(s: Seq<char>) -> Seq<char>
    decreases s.len(),
{
    if s.len() > 0 && is_white_space_char(s[0]) {
        trimmed(s.drop_first())
    } else if s.len() > 0 && is_white_space_char(s.last()) {
        trimmed(s.drop_last())
    } else {
        s
    }
}

/// Whether `c` has the Unicode `White_Space` property.
pub fn is_white_space(c: char) -> (r: bool)
    ensures
        r == is_white_space_char(c),
{
    let u = c as u32;
    (0x9 <= u && u <= 0xd) || u == 0x20 || u == 0x85 || u == 0xa0 || u == 0x1680 || (0x2000
        <= u && u <= 0x200a) || u == 0x2028 || u == 0x2029 || u == 0x202f || u == 0x205f || u
        == 0x3000
}

/// The characters of `s`, in order.
pub fn chars_of(s: &str) -> (r: Vec<char>)
    ensures
        r@ == s@,
{
    broadcast use vstd::string::axiom_spec_iter;

    let mut out: Vec<char> = Vec::new();
    for c in it: s.chars()
        invariant
            out@ == it.seq().take(it.index() as int),
            it.seq() == s@,
    {
        out.push(c);
    }
    out
}

/// Appends `c` to `s` (`String::push`).
#[verifier::external_body]
fn push_char(s: &mut String, c: char)
    ensures
        final(s)@ == old(s)@.push(c),
{
    s.push(c);
}

/// A `String` holding exactly the characters `cs`.
pub fn string_from_chars(cs: &[char]) -> (r: String)
    ensures
        r@ == cs@,
{
    let mut out = String::new();
    let mut i: usize = 0;
    while i < cs.len()
        invariant
            i <= cs.len(),
            out@ == cs@.take(i as int),
        decreases cs.len() - i,
    {
        push_char(&mut out, cs[i]);
        i = i + 1;
        assert(out@ =~= cs@.take(i as int));
    }
    assert(out@ =~= cs@);
    out
}

/// The characters of `a` followed by those of `b`.
pub fn concatenated(a: &str, b: &str) -> (r: String)
    ensures
        r@ == a@ + b@,
{
    let mut cs = chars_of(a);
    let mut tail = chars_of(b);
    cs.append(&mut tail);
    string_from_chars(cs.as_slice())
}

/// Whether two strings hold the same characters.
pub fn str_eq(a: &str, b: &str) -> (r: bool)
    ensures
        r == (a@ == b@),
{
    let a_chars = chars_of(a);
    let b_chars = chars_of(b);
    if a_chars.len() != b_chars.len() {
        return false;
    }
    let mut i: usize = 0;
    while i < a_chars.len()
        invariant
            i <= a_chars.len(),
            a_chars.len() == b_chars.len(),
            a_chars@ == a@,
            b_chars@ == b@,
            a_chars@.take(i as int) =~= b_chars@.take(i as int),
        decreases a_chars.len() - i,
    {
        if a_chars[i] != b_chars[i] {
            assert(a@[i as int] != b@[i as int]);
            return false;
        }
        i = i + 1;
        assert(a_chars@.take(i as int) =~= b_chars@.take(i as int)) by {
            assert forall|k: int| 0 <= k < i implies a_chars@.take(i as int)[k] == b_chars@.take(
                i as int,
            )[k] by {
                if k < i - 1 {
                    assert(a_chars@.take(i - 1)[k] == b_chars@.take(i - 1)[k]);
                }
            }
        }
    }
    assert(a_chars@ =~= a_chars@.take(a_chars.len() as int));
    assert(b_chars@ =~= b_chars@.take(b_chars.len() as int));
    true
}

/// `s` without its leading and trailing white space (`str::trim`).
pub fn trim(s: &str) -> (r: String)
    ensures
        r@ == trimmed(s@),
{
    let cs = chars_of(s);
    let n = cs.len();
    let mut start: usize = 0;
    assert(cs@.subrange(0, n as int) =~= cs@);
    while start < n && is_white_space(cs[start])
        invariant
            start <= n,
            n == cs@.len(),
            cs@ == s@,
            trimmed(s@) == trimmed(cs@.subrange(start as int, n as int)),
        decreases n - start,
    {
        assert(cs@.subrange(start as int, n as int).drop_first() =~= cs@.subrange(
            start as int + 1,
            n as int,
        ));
        start = start + 1;
    }
    let mut end: usize = n;
    while end > start && is_white_space(cs[end - 1])
        invariant
            start <= end <= n,
            n == cs@.len(),
            cs@ == s@,
            trimmed(s@) == trimmed(cs@.subrange(start as int, end as int)),
            start < end ==> !is_white_space_char(cs@[start as int]),
        decreases end - start,
    {
        let ghost sub = cs@.subrange(start as int, end as int);
        assert(sub.drop_last() =~= cs@.subrange(start as int, end as int - 1));
        assert(sub[0] == cs@[start as int]);
        end = end - 1;
    }
    let ghost sub = cs@.subrange(start as int, end as int);
    assert(start < end ==> sub[0] == cs@[start as int] && sub.last() == cs@[end as int - 1]);
    let kept = vstd::slice::slice_subrange(cs.as_slice(), start, end);
    string_from_chars(kept)
}

/// ASCII lower-casing of one character (`char::to_ascii_lowercase`).
pub open spec fn ascii_lower_char(c: char) -> char {
    if 'A' <= c && c <= 'Z' {
        ((c as u32) + 32) as char
    } else {
        c
    }
}

/// `s` with every ASCII upper-case letter lower-cased (`str::to_ascii_lowercase`).
pub open spec fn ascii_lowercased(s: Seq<char>) -> Seq<char> {
    Seq::new(s.len(), |k: int| ascii_lower_char(s[k]))
}

/// Lower-cases the ASCII letters of `s`, leaving every other character alone.
pub fn to_ascii_lowercase(s: &str) -> (r: String)
    ensures
        r@ == ascii_lowercased(s@),
{
    let cs = chars_of(s);
    let mut out: Vec<char> = Vec::new();
    let mut i: usize = 0;
    while i < cs.len()
        invariant
            i <= cs.len(),
            cs@ == s@,
            out@ =~= ascii_lowercased(cs@.take(i as int)),
        decreases cs.len() - i,
    {
        let c = cs[i];
        let lowered = if 'A' <= c && c <= 'Z' {
            let code: u8 = (c as u32) as u8 + 32;
            code as char
        } else {
            c
        };
        out.push(lowered);
        i = i + 1;
        assert(out@ =~= ascii_lowercased(cs@.take(i as int)));
    }
    assert(cs@.take(cs.len() as int) =~= cs@);
    string_from_chars(out.as_slice())
}

} // verus!
