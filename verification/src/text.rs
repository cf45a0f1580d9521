//! Small verified string utilities, plus the few trusted bridges to `std`
//! character and `String` operations that vstd does not specify.

use vstd::prelude::*;
use vstd::string::StrSliceExecFns;
use vstd::string::StringExecFns;

verus! {

/// Character-wise equality of two string slices.
pub fn str_eq(a: &str, b: &str) -> (r: bool)
    ensures
        r == (a@ == b@),
{
    let alen = a.unicode_len();
    let blen = b.unicode_len();
    if alen != blen {
        return false;
    }
    let mut i: usize = 0;
    while i < alen
        invariant
            alen == a@.len(),
            blen == b@.len(),
            alen == blen,
            i <= alen,
            forall|j: int| 0 <= j < i ==> a@[j] == b@[j],
        decreases alen - i,
    {
        if a.get_char(i) != b.get_char(i) {
            return false;
        }
        i += 1;
    }
    proof {
        assert(a@ =~= b@);
    }
    true
}

/// Result of `char::is_alphanumeric` on a character beyond ASCII, a
/// Unicode character-class lookup that depends on the character alone.
pub uninterp spec fn is_alnum_beyond_ascii(c: char) -> bool;

/// Whether `char::is_alphanumeric` holds of `c`: on ASCII exactly the
/// letters and digits, beyond ASCII a fixed property of the character.
pub open spec fn is_alnum(c: char) -> bool {
    if c <= '\x7f' {
        ('a' <= c && c <= 'z') || ('A' <= c && c <= 'Z') || ('0' <= c && c <= '9')
    } else {
        is_alnum_beyond_ascii(c)
    }
}

/// Relies on `char::is_alphanumeric`: true exactly for Unicode letters and
/// numbers, which on ASCII are the letters and digits and nothing else,
/// and beyond ASCII depend on the character alone.
#[verifier::external_body]
pub(crate) fn char_is_alphanumeric(c: char) -> (r: bool)
    ensures
        r == is_alnum(c),
        c > '\x7f' ==> r == is_alnum_beyond_ascii(c),
{
    c.is_alphanumeric()
}

/// Result of `char::is_whitespace` on a character beyond ASCII, a
/// Unicode character-class lookup that depends on the character alone.
pub uninterp spec fn is_ws_beyond_ascii(c: char) -> bool;

/// Whether `char::is_whitespace` holds of `c`: on ASCII exactly space,
/// tab, line feed, vertical tab, form feed and carriage return, beyond
/// ASCII a fixed property of the character.
pub open spec fn is_ws(c: char) -> bool {
    if c <= '\x7f' {
        c == ' ' || c == '\t' || c == '\n' || c == '\x0b' || c == '\x0c' || c == '\r'
    } else {
        is_ws_beyond_ascii(c)
    }
}

/// Relies on `char::is_whitespace`: true exactly for characters with the
/// Unicode `White_Space` property, which on ASCII are space, tab, line
/// feed, vertical tab, form feed and carriage return, and beyond ASCII
/// depend on the character alone.
#[verifier::external_body]
pub(crate) fn char_is_whitespace(c: char) -> (r: bool)
    ensures
        r == is_ws(c),
        c > '\x7f' ==> r == is_ws_beyond_ascii(c),
{
    c.is_whitespace()
}

/// Relies on `String::push`: appends one character at the end.
#[verifier::external_body]
pub(crate) fn string_push(s: &mut String, c: char)
    ensures
        final(s)@ == old(s)@.push(c),
{
    s.push(c);
}

/// Relies on `String::pop`: removes and returns the last character, or
/// returns `None` on an empty string and leaves it unchanged.
#[verifier::external_body]
pub(crate) fn string_pop(s: &mut String) -> (r: Option<char>)
    ensures
        old(s)@.len() == 0 ==> final(s)@ == old(s)@ && r is None,
        old(s)@.len() > 0 ==> final(s)@ == old(s)@.drop_last() && r == Some(old(s)@.last()),
{
    s.pop()
}

/// The longest whitespace prefix of `s`, as a count of characters.
pub open spec fn ws_prefix_len(s: Seq<char>) -> nat
    decreases s.len(),
{
    if s.len() == 0 {
        0
    } else if is_ws(s.first()) {
        1 + ws_prefix_len(s.drop_first())
    } else {
        0
    }
}

/// The longest whitespace suffix of `s`, as a count of characters.
pub open spec fn ws_suffix_len(s: Seq<char>) -> nat
    decreases s.len(),
{
    if s.len() == 0 {
        0
    } else if is_ws(s.last()) {
        1 + ws_suffix_len(s.drop_last())
    } else {
        0
    }
}

/// `s` with leading and trailing whitespace removed; an all-whitespace
/// string trims to the empty string.
pub open spec fn trim_spec(s: Seq<char>) -> Seq<char> {
    if ws_prefix_len(s) == s.len() {
        Seq::empty()
    } else {
        s.subrange(ws_prefix_len(s) as int, s.len() - ws_suffix_len(s))
    }
}

/// Characterizes the whitespace prefix count by its bounding characters.
proof fn lemma_ws_prefix_is(s: Seq<char>, n: nat)
    requires
        n <= s.len(),
        forall|j: int| 0 <= j < n ==> is_ws(s[j]),
        n < s.len() ==> !is_ws(s[n as int]),
    ensures
        ws_prefix_len(s) == n,
    decreases s.len(),
{
    if s.len() == 0 {
    } else if is_ws(s.first()) {
        assert(n > 0);
        lemma_ws_prefix_is(s.drop_first(), (n - 1) as nat);
    } else {
        assert(n == 0);
    }
}

/// Characterizes the whitespace suffix count by its bounding characters.
proof fn lemma_ws_suffix_is(s: Seq<char>, n: nat)
    requires
        n <= s.len(),
        forall|j: int| s.len() - n <= j < s.len() ==> is_ws(s[j]),
        n < s.len() ==> !is_ws(s[s.len() - n - 1]),
    ensures
        ws_suffix_len(s) == n,
    decreases s.len(),
{
    if s.len() == 0 {
    } else if is_ws(s.last()) {
        assert(n > 0);
        lemma_ws_suffix_is(s.drop_last(), (n - 1) as nat);
    } else {
        assert(n == 0);
    }
}

/// `s` with leading and trailing whitespace removed.
pub fn trim_str<'a>(s: &'a str) -> (r: &'a str)
    ensures
        r@ == trim_spec(s@),
{
    let len = s.unicode_len();
    let mut start: usize = 0;
    while start < len && char_is_whitespace(s.get_char(start))
        invariant
            len == s@.len(),
            start <= len,
            forall|j: int| 0 <= j < start ==> is_ws(s@[j]),
        decreases len - start,
    {
        start += 1;
    }
    if start == len {
        proof {
            lemma_ws_prefix_is(s@, len as nat);
            assert(s@.subrange(0, 0) =~= Seq::<char>::empty());
        }
        return s.substring_char(0, 0);
    }
    proof {
        lemma_ws_prefix_is(s@, start as nat);
    }
    let mut end: usize = len;
    while end > start && char_is_whitespace(s.get_char(end - 1))
        invariant
            len == s@.len(),
            start <= end <= len,
            start < len,
            !is_ws(s@[start as int]),
            forall|j: int| end <= j < len ==> is_ws(s@[j]),
        decreases end,
    {
        end -= 1;
    }
    proof {
        assert(end > start);
        lemma_ws_suffix_is(s@, (len - end) as nat);
    }
    s.substring_char(start, end)
}

} // verus!
