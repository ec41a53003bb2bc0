//! Character-level string helpers with exact contracts.

use vstd::prelude::*;
use vstd::string::*;

verus! {

/// The characters of `s`, in order.
pub fn chars_of(s: &str) -> (r: Vec<char>)
    ensures
        r@ == s@,
{
    let mut out: Vec<char> = Vec::new();
    for c in it: s.chars()
        invariant
            out@ == it.seq().take(it.index() as int),
            it.seq() == s@,
    {
        out.push(c);
    }
    out
}

/// `String::push` appends the character to the end of the string.
pub assume_specification[ String::push ](s: &mut String, c: char)
    ensures
        final(s)@ == old(s)@.push(c),
;

/// The string of the characters of `chars`, in order.
pub fn string_of_chars(chars: &Vec<char>) -> (r: String)
    ensures
        r@ == chars@,
{
    let mut out = String::new();
    let mut i: usize = 0;
    while i < chars.len()
        invariant
            i <= chars.len(),
            out@ == chars@.take(i as int),
        decreases chars.len() - i,
    {
        out.push(chars[i]);
        assert(out@ =~= chars@.take(i as int + 1));
        i += 1;
    }
    assert(chars@.take(i as int) =~= chars@);
    out
}

/// `needle` occurs in `s` at position `at`.
pub open spec fn occurs_at(s: Seq<char>, needle: Seq<char>, at: int) -> bool {
    0 <= at && at + needle.len() <= s.len() && s.subrange(at, at + needle.len()) == needle
}

/// `needle` occurs somewhere in `s`.
pub open spec fn contains_text(s: Seq<char>, needle: Seq<char>) -> bool {
    exists|at: int| occurs_at(s, needle, at)
}

/// `s` without the dots at its end.
pub open spec fn without_trailing_dots(s: Seq<char>) -> Seq<char>
    decreases s.len(),
{
    if s.len() > 0 && s.last() == '.' {
        without_trailing_dots(s.drop_last())
    } else {
        s
    }
}

/// The position of the first `c` in `s`, or the length of `s` where it has
/// none.
pub open spec fn first_position(s: Seq<char>, c: char) -> int
    decreases s.len(),
{
    if s.len() == 0 {
        0
    } else if s.first() == c {
        0
    } else {
        1 + first_position(s.drop_first(), c)
    }
}

/// `first_position` is in range, is at `c` unless it is the length, and
/// nothing before it is `c`.
pub(crate) proof fn lemma_first_position(s: Seq<char>, c: char)
    ensures
        0 <= first_position(s, c) <= s.len(),
        first_position(s, c) < s.len() ==> s[first_position(s, c)] == c,
        forall|i: int| 0 <= i < first_position(s, c) ==> s[i] != c,
    decreases s.len(),
{
    if s.len() > 0 && s.first() != c {
        lemma_first_position(s.drop_first(), c);
        assert forall|i: int| 0 <= i < first_position(s, c) implies s[i] != c by {
            if i > 0 {
                assert(s[i] == s.drop_first()[i - 1]);
            }
        }
    }
}

/// A position that holds `c` and has no `c` before it is the first
/// position of `c`.
pub(crate) proof fn lemma_first_position_is(s: Seq<char>, c: char, at: int)
    requires
        0 <= at <= s.len(),
        at < s.len() ==> s[at] == c,
        forall|i: int| 0 <= i < at ==> s[i] != c,
    ensures
        first_position(s, c) == at,
{
    lemma_first_position(s, c);
    let p = first_position(s, c);
    if p < at {
        assert(s[p] == c);
    } else if p > at {
        assert(s[at] == c);
    }
}

/// Whether `s` begins with `prefix`.
pub fn chars_start_with(s: &Vec<char>, prefix: &Vec<char>) -> (r: bool)
    ensures
        r == prefix@.is_prefix_of(s@),
{
    if prefix.len() > s.len() {
        return false;
    }
    let mut i: usize = 0;
    while i < prefix.len()
        invariant
            i <= prefix.len() <= s.len(),
            forall|k: int| 0 <= k < i ==> s@[k] == prefix@[k],
        decreases prefix.len() - i,
    {
        if s[i] != prefix[i] {
            assert(s@.subrange(0, prefix@.len() as int)[i as int] == s@[i as int]);
            return false;
        }
        i += 1;
    }
    assert(prefix@ =~= s@.subrange(0, prefix@.len() as int));
    true
}

/// Whether `needle` occurs in `s` at position `at`.
pub fn chars_occur_at(s: &Vec<char>, needle: &Vec<char>, at: usize) -> (r: bool)
    ensures
        r == occurs_at(s@, needle@, at as int),
{
    if needle.len() > s.len() || at > s.len() - needle.len() {
        return false;
    }
    let mut i: usize = 0;
    while i < needle.len()
        invariant
            i <= needle.len(),
            at + needle.len() <= s.len(),
            forall|k: int| 0 <= k < i ==> s@[at + k] == needle@[k],
        decreases needle.len() - i,
    {
        if s[at + i] != needle[i] {
            assert(s@.subrange(at as int, at + needle@.len())[i as int] == s@[at + i]);
            return false;
        }
        i += 1;
    }
    assert(needle@ =~= s@.subrange(at as int, at + needle@.len()));
    true
}

/// Whether `s` ends with `suffix`.
pub fn chars_end_with(s: &Vec<char>, suffix: &Vec<char>) -> (r: bool)
    ensures
        r == suffix@.is_suffix_of(s@),
{
    if suffix.len() > s.len() {
        return false;
    }
    chars_occur_at(s, suffix, s.len() - suffix.len())
}

/// Whether `needle` occurs somewhere in `s`.
pub fn chars_contain(s: &Vec<char>, needle: &Vec<char>) -> (r: bool)
    ensures
        r == contains_text(s@, needle@),
{
    if needle.len() > s.len() {
        assert forall|at: int| !occurs_at(s@, needle@, at) by {}
        return false;
    }
    let last: usize = s.len() - needle.len();
    let mut at: usize = 0;
    while at < last
        invariant
            at <= last,
            last == s.len() - needle.len(),
            forall|k: int| 0 <= k < at ==> !occurs_at(s@, needle@, k),
        decreases last - at,
    {
        if chars_occur_at(s, needle, at) {
            return true;
        }
        at += 1;
    }
    let found = chars_occur_at(s, needle, last);
    if !found {
        assert forall|k: int| !occurs_at(s@, needle@, k) by {}
    }
    found
}

/// Whether `a` and `b` are the same text.
pub fn same_text(a: &str, b: &str) -> (r: bool)
    ensures
        r == (a@ == b@),
{
    let x = chars_of(a);
    let y = chars_of(b);
    if x.len() != y.len() {
        return false;
    }
    let r = chars_start_with(&x, &y);
    assert(r ==> a@ =~= b@);
    assert(a@.subrange(0, a@.len() as int) =~= a@);
    r
}

/// Whether `s` begins with `prefix`.
pub fn starts_with(s: &str, prefix: &str) -> (r: bool)
    ensures
        r == prefix@.is_prefix_of(s@),
{
    chars_start_with(&chars_of(s), &chars_of(prefix))
}

/// Whether `s` ends with `suffix`.
pub fn ends_with(s: &str, suffix: &str) -> (r: bool)
    ensures
        r == suffix@.is_suffix_of(s@),
{
    chars_end_with(&chars_of(s), &chars_of(suffix))
}

/// Whether `needle` occurs somewhere in `s`.
pub fn contains(s: &str, needle: &str) -> (r: bool)
    ensures
        r == contains_text(s@, needle@),
{
    chars_contain(&chars_of(s), &chars_of(needle))
}

/// Whether the character `c` occurs in `s`.
pub fn contains_char(s: &str, c: char) -> (r: bool)
    ensures
        r == s@.contains(c),
{
    let chars = chars_of(s);
    let mut i: usize = 0;
    while i < chars.len()
        invariant
            i <= chars.len(),
            chars@ == s@,
            forall|k: int| 0 <= k < i ==> chars@[k] != c,
        decreases chars.len() - i,
    {
        if chars[i] == c {
            return true;
        }
        i += 1;
    }
    false
}

/// `s` without the dots at its end.
pub fn strip_trailing_dots(s: &str) -> (r: String)
    ensures
        r@ == without_trailing_dots(s@),
{
    let chars = chars_of(s);
    let mut end: usize = chars.len();
    assert(s@.take(end as int) =~= s@);
    while end > 0 && chars[end - 1] == '.'
        invariant
            end <= chars.len(),
            chars@ == s@,
            without_trailing_dots(s@) == without_trailing_dots(s@.take(end as int)),
        decreases end,
    {
        assert(s@.take(end as int).drop_last() =~= s@.take(end as int - 1));
        end -= 1;
    }
    assert(s@.take(end as int) == s@.subrange(0, end as int));
    String::from_str(s.substring_char(0, end))
}

/// The pieces of `s` between the occurrences of `sep`: one more piece than
/// there are separators, so the empty text has one empty piece.
pub open spec fn split_by(s: Seq<char>, sep: char) -> Seq<Seq<char>>
    decreases s.len(),
{
    let p = first_position(s, sep);
    if 0 <= p < s.len() {
        seq![s.take(p)] + split_by(s.skip(p + 1), sep)
    } else {
        seq![s]
    }
}

/// The texts of a list of strings.
pub open spec fn text_views(v: Seq<String>) -> Seq<Seq<char>> {
    v.map_values(|s: String| s@)
}

/// The texts of a list of string slices.
pub open spec fn slice_views(slices: Seq<&'static str>) -> Seq<Seq<char>> {
    slices.map_values(|s: &'static str| s@)
}

/// The lower-case form of `s`, as the standard library computes it.
pub uninterp spec fn lowercase(s: Seq<char>) -> Seq<char>;

/// `s` without the white space at its two ends, as the standard library
/// computes it.
pub uninterp spec fn trimmed(s: Seq<char>) -> Seq<char>;

/// `str::to_lowercase` gives the lower-case form of the text.
pub assume_specification[ str::to_lowercase ](s: &str) -> (r: String)
    ensures
        r@ == lowercase(s@),
;

/// `str::trim` gives the text without the white space at its two ends.
pub assume_specification[ str::trim ](s: &str) -> (r: &str)
    ensures
        r@ == trimmed(s@),
;

/// Splits `s` at every occurrence of `sep`.
pub fn split_text(s: &str, sep: char) -> (r: Vec<String>)
    ensures
        text_views(r@) == split_by(s@, sep),
        r@.len() >= 1,
{
    let chars = chars_of(s);
    let mut pieces: Vec<String> = Vec::new();
    let mut start: usize = 0;
    let mut i: usize = 0;
    assert(s@.skip(0) =~= s@);
    while i < chars.len()
        invariant
            start <= i <= chars.len(),
            chars@ == s@,
            forall|k: int| start <= k < i ==> s@[k] != sep,
            split_by(s@, sep) == text_views(pieces@) + split_by(s@.skip(start as int), sep),
        decreases chars.len() - i,
    {
        if chars[i] == sep {
            let ghost rest = s@.skip(start as int);
            proof {
                assert forall|k: int| 0 <= k < i - start implies rest[k] != sep by {
                    assert(rest[k] == s@[start + k]);
                }
                lemma_first_position_is(rest, sep, i - start);
                assert(rest.take(i - start) =~= s@.subrange(start as int, i as int));
                assert(rest.skip(i - start + 1) =~= s@.skip(i + 1));
            }
            let ghost before = pieces@;
            let piece = String::from_str(s.substring_char(start, i));
            pieces.push(piece);
            assert(text_views(pieces@) =~= text_views(before) + seq![
                s@.subrange(start as int, i as int),
            ]);
            start = i + 1;
        }
        i += 1;
    }
    let ghost rest = s@.skip(start as int);
    proof {
        assert forall|k: int| 0 <= k < rest.len() implies rest[k] != sep by {
            assert(rest[k] == s@[start + k]);
        }
        lemma_first_position_is(rest, sep, rest.len() as int);
        assert(rest =~= s@.subrange(start as int, s@.len() as int));
    }
    let ghost before = pieces@;
    let piece = String::from_str(s.substring_char(start, chars.len()));
    pieces.push(piece);
    assert(text_views(pieces@) =~= text_views(before) + seq![rest]);
    pieces
}

/// The decimal digit `d` as a character.
pub open spec fn digit_char(d: nat) -> char
    recommends
        d < 10,
{
    (48 + d) as u8 as char
}

/// The decimal rendering of `n`, without sign or leading zeros.
pub open spec fn decimal(n: nat) -> Seq<char>
    decreases n,
{
    if n < 10 {
        seq![digit_char(n)]
    } else {
        decimal(n / 10).push(digit_char(n % 10))
    }
}

/// Renders `n` in decimal.
pub fn decimal_string_wide(n: u128) -> (r: String)
    ensures
        r@ == decimal(n as nat),
{
    let mut out: Vec<char> = Vec::new();
    let mut rest: u128 = n / 10;
    out.push((48u8 + (n % 10) as u8) as char);
    while rest > 0
        invariant
            out@.len() >= 1,
            decimal(n as nat) == (if rest == 0 {
                out@
            } else {
                decimal(rest as nat) + out@
            }),
        decreases rest,
    {
        let ghost before = out@;
        let d: u8 = (rest % 10) as u8;
        out.insert(0, (48u8 + d) as char);
        proof {
            let c = digit_char((rest % 10) as nat);
            assert(out@ == seq![c] + before);
            if rest >= 10 {
                assert(decimal(rest as nat) + before == decimal((rest / 10) as nat) + out@);
            } else {
                assert(decimal(rest as nat) + before == out@);
            }
        }
        rest = rest / 10;
    }
    string_of_chars(&out)
}

/// Renders `n` in decimal.
pub fn decimal_string(n: u64) -> (r: String)
    ensures
        r@ == decimal(n as nat),
{
    decimal_string_wide(n as u128)
}

} // verus!
