//! Small verified helpers over text, stated on sequences of characters.

use vstd::prelude::*;
use vstd::string::*;

verus! {

/// The text of an optional string.
pub open spec fn text_of(s: Option<String>) -> Option<Seq<char>> {
    match s {
        Some(t) => Some(t@),
        None => None,
    }
}

/// True when `c` occurs in `s`.
pub open spec fn has_char(s: Seq<char>, c: char) -> bool {
    exists|i: int| 0 <= i < s.len() && s[i] == c
}

/// True when `i` is the place of the first `c` in `s`.
pub open spec fn is_first(s: Seq<char>, c: char, i: int) -> bool {
    &&& 0 <= i < s.len()
    &&& s[i] == c
    &&& forall|j: int| 0 <= j < i ==> s[j] != c
}

/// True when `i` is the place of the last `c` in `s`.
pub open spec fn is_last(s: Seq<char>, c: char, i: int) -> bool {
    &&& 0 <= i < s.len()
    &&& s[i] == c
    &&& forall|j: int| i < j < s.len() ==> s[j] != c
}

/// Tells whether two texts hold the same characters.
pub fn same_text(a: &str, b: &str) -> (same: bool)
    ensures
        same == (a@ == b@),
{
    let x = String::from_str(a);
    let y = String::from_str(b);
    x == y
}

/// Finds the first occurrence of `c`, counted in characters.
pub fn find_char(s: &str, c: char) -> (found: Option<usize>)
    ensures
        match found {
            Some(i) => is_first(s@, c, i as int),
            None => !has_char(s@, c),
        },
{
    let n = s.unicode_len();
    let mut i: usize = 0;
    while i < n
        invariant
            n == s@.len(),
            i <= n,
            forall|j: int| 0 <= j < i ==> s@[j] != c,
        decreases n - i,
    {
        if s.get_char(i) == c {
            return Some(i);
        }
        i += 1;
    }
    None
}

/// Finds the last occurrence of `c`, counted in characters.
pub fn rfind_char(s: &str, c: char) -> (found: Option<usize>)
    ensures
        match found {
            Some(i) => is_last(s@, c, i as int),
            None => !has_char(s@, c),
        },
{
    let n = s.unicode_len();
    let mut i: usize = n;
    while i > 0
        invariant
            n == s@.len(),
            i <= n,
            forall|j: int| i <= j < n ==> s@[j] != c,
        decreases i,
    {
        i -= 1;
        if s.get_char(i) == c {
            return Some(i);
        }
    }
    None
}

/// What is left of a text after the white space at both of its ends is taken
/// off.
pub uninterp spec fn trimmed_text(text: Seq<char>) -> Seq<char>;

/// A text with every character that has a lower-case form replaced by it.
pub uninterp spec fn lowercased_text(text: Seq<char>) -> Seq<char>;

/// The number that a text spells in the given radix, if it spells one that
/// fits into 64 bits.
pub uninterp spec fn parsed_radix(text: Seq<char>, radix: u32) -> Option<u64>;

/// The text that the standard library writes for a path in its `{:?}` form:
/// the path between double quotes, with the characters escaped that cannot
/// stand as they are.
pub uninterp spec fn path_debug_text(path: Seq<char>) -> Seq<char>;

/// Calls `format!` with `{:?}` on a `std::path::Path`.
#[verifier::external_body]
pub(crate) fn debug_path(path: &str) -> (text: String)
    ensures
        text@ == path_debug_text(path@),
{
    format!("{:?}", std::path::Path::new(path))
}

/// Calls `str::trim`, which takes the white space off both ends of a text.
/// What is left is a part of the text, so it is no longer than the text.
#[verifier::external_body]
pub(crate) fn trim(text: &str) -> (trimmed: String)
    ensures
        trimmed@ == trimmed_text(text@),
        trimmed@.len() <= text@.len(),
{
    text.trim().to_string()
}

/// Calls `str::to_lowercase`, which gives the lower-case form of a text.
#[verifier::external_body]
pub(crate) fn lowercase(text: &str) -> (lower: String)
    ensures
        lower@ == lowercased_text(text@),
{
    text.to_lowercase()
}

/// Calls `u64::from_str_radix`, which reads a number in a radix from 2 to 36
/// and fails on a text that spells none or one too large.
#[verifier::external_body]
pub(crate) fn parse_radix(text: &str, radix: u32) -> (number: Option<u64>)
    requires
        2 <= radix <= 36,
    ensures
        number == parsed_radix(text@, radix),
{
    u64::from_str_radix(text, radix).ok()
}

/// True when `needle` occurs in `hay` as a run of neighbouring characters.
pub open spec fn has_substring(hay: Seq<char>, needle: Seq<char>) -> bool {
    exists|i: int|
        0 <= i && i + needle.len() <= hay.len() && #[trigger] hay.subrange(
            i,
            i + needle.len() as int,
        ) == needle
}

/// Calls `str::contains` with a text as the pattern, which tells whether the
/// pattern matches a part of the text searched.
#[verifier::external_body]
pub(crate) fn contains_text(hay: &str, needle: &str) -> (found: bool)
    ensures
        found == has_substring(hay@, needle@),
{
    hay.contains(needle)
}

/// The texts of `parts` in a row with `sep` between each two.
pub open spec fn joined(parts: Seq<Seq<char>>, sep: Seq<char>) -> Seq<char>
    decreases parts.len(),
{
    if parts.len() == 0 {
        Seq::empty()
    } else if parts.len() == 1 {
        parts[0]
    } else {
        joined(parts.drop_last(), sep) + sep + parts.last()
    }
}

/// The texts of a list of strings.
pub open spec fn texts(names: Seq<String>) -> Seq<Seq<char>> {
    Seq::new(names.len(), |i: int| names[i]@)
}

/// Joins strings with a separator.
pub fn join(parts: &Vec<String>, sep: &str) -> (text: String)
    ensures
        text@ == joined(texts(parts@), sep@),
{
    let mut text = String::new();
    let mut i: usize = 0;
    assert(texts(parts@).take(0) =~= Seq::<Seq<char>>::empty());
    while i < parts.len()
        invariant
            i <= parts@.len(),
            text@ == joined(texts(parts@).take(i as int), sep@),
        decreases parts@.len() - i,
    {
        let ghost done = texts(parts@).take(i as int);
        let ghost next = texts(parts@).take(i + 1);
        proof {
            assert(next.drop_last() =~= done);
            assert(next.last() == parts@[i as int]@);
        }
        if i > 0 {
            text.append(sep);
        } else {
            assert(next.len() == 1);
            assert(text@ =~= Seq::<char>::empty());
        }
        text.append(parts[i].as_str());
        proof {
            if i == 0 {
                assert(text@ =~= next[0]);
            }
        }
        i += 1;
    }
    assert(texts(parts@).take(i as int) =~= texts(parts@));
    text
}

/// Splits a text at the first occurrence of `c`, which belongs to neither
/// half. A text without `c` is not split.
pub fn split_once(s: &str, c: char) -> (halves: Option<(String, String)>)
    ensures
        match halves {
            Some((before, after)) => exists|i: int|
                {
                    &&& is_first(s@, c, i)
                    &&& before@ == s@.subrange(0, i)
                    &&& after@ == s@.subrange(i + 1, s@.len() as int)
                },
            None => !has_char(s@, c),
        },
{
    match find_char(s, c) {
        Some(i) => {
            let n = s.unicode_len();
            let before = String::from_str(s.substring_char(0, i));
            let after = String::from_str(s.substring_char(i + 1, n));
            Some((before, after))
        },
        None => None,
    }
}

} // verus!
