//! Names of buffer formats: from a DRM format, which is a four-character
//! code with a layout modifier, to the text by which the media framework
//! knows it.

use vstd::prelude::*;
use vstd::string::*;
use drm_fourcc::DrmFourcc;
use crate::text::{text_of, texts, trim, trimmed_text};

verus! {

/// The modifier of a plain linear layout.
pub const MODIFIER_LINEAR: u64 = 0;

/// The modifier that stands for no valid layout.
pub const MODIFIER_INVALID: u64 = 0x00ff_ffff_ffff_ffff;

/// The modifier of Intel's Y-tiled layout.
pub const MODIFIER_I915_Y_TILED: u64 = 0x0100_0000_0000_0002;

/// The modifier of Intel's 4-tiled layout, which media elements do not
/// advertise.
pub const MODIFIER_I915_4_TILED: u64 = 0x0100_0000_0000_0009;

/// The code that marks a format as big-endian. It is a flag, not a format,
/// and has no name.
pub const FOURCC_BIG_ENDIAN: u32 = 0x8000_0000;

/// A buffer format: the four-character code as a number, lowest byte first,
/// and the layout modifier.
#[derive(Clone, Copy, Debug, PartialEq, Eq, Structural)]
pub struct DrmFormat {
    pub code: u32,
    pub modifier: u64,
}

/// Whether `code` is one of the four-character codes that the DRM format
/// table lists.
pub uninterp spec fn fourcc_is_known(code: u32) -> bool;

/// One byte of a code as a character of its name. Behind the second
/// character a zero byte reads as a space.
pub open spec fn code_char(code: u32, place: int) -> char {
    let byte = ((code as int) / pow256(place)) % 256;
    if byte == 0 && place >= 2 {
        ' '
    } else {
        (byte as u8) as char
    }
}

/// 256 to the power of `k`.
pub open spec fn pow256(k: int) -> int
    decreases k,
{
    if k <= 0 {
        1
    } else {
        256 * pow256(k - 1)
    }
}

/// 16 to the power of `k`.
pub open spec fn pow16(k: int) -> int
    decreases k,
{
    if k <= 0 {
        1
    } else {
        16 * pow16(k - 1)
    }
}

/// The four characters of a code, lowest byte first.
pub open spec fn fourcc_text(code: u32) -> Seq<char> {
    seq![code_char(code, 0), code_char(code, 1), code_char(code, 2), code_char(code, 3)]
}

/// A text filled up with spaces at its end to four characters. A longer text
/// stays as it is.
pub open spec fn padded(text: Seq<char>) -> Seq<char> {
    if text.len() >= 4 {
        text
    } else {
        text + Seq::new((4 - text.len()) as nat, |i: int| ' ')
    }
}

/// The sixteen lower-case hexadecimal digits of a number, leading zeros
/// included.
pub open spec fn hex16(value: u64) -> Seq<char> {
    Seq::new(
        16,
        |i: int| hex_char(((value as int) / pow16(15 - i)) % 16),
    )
}

/// The name of a format given the trimmed text of its code, for each kind of
/// modifier: the padded text alone for a linear layout, nothing for the
/// invalid modifier, else the padded text, `:0x` and the modifier in
/// hexadecimal. Unless the workaround is switched off, Intel's 4-tiled
/// layout is named as the Y-tiled one.
pub open spec fn format_name(name: Seq<char>, modifier: u64, disable_workaround: bool) -> Option<
    Seq<char>,
> {
    if modifier == MODIFIER_LINEAR {
        Some(padded(name))
    } else if modifier == MODIFIER_INVALID {
        None
    } else if modifier == MODIFIER_I915_4_TILED && !disable_workaround {
        Some(padded(name) + ":0x"@ + hex16(MODIFIER_I915_Y_TILED))
    } else {
        Some(padded(name) + ":0x"@ + hex16(modifier))
    }
}

/// The name of `format`, if it has one: a format whose code is unknown, or
/// is the big-endian flag, has none.
pub open spec fn gst_format(format: DrmFormat, disable_workaround: bool) -> Option<Seq<char>> {
    if format.code == FOURCC_BIG_ENDIAN || !fourcc_is_known(format.code) {
        None
    } else {
        format_name(trimmed_text(fourcc_text(format.code)), format.modifier, disable_workaround)
    }
}

/// The names of those formats of `formats` that have one, in their order.
pub open spec fn gst_formats(formats: Seq<DrmFormat>, disable_workaround: bool) -> Seq<Seq<char>>
    decreases formats.len(),
{
    if formats.len() == 0 {
        Seq::empty()
    } else {
        let head = gst_formats(formats.drop_last(), disable_workaround);
        match gst_format(formats.last(), disable_workaround) {
            Some(name) => head.push(name),
            None => head,
        }
    }
}

/// Calls `DrmFourcc::try_from` and, on a code it accepts, the code's
/// `to_string`. The contract claims that the call succeeds on the codes of
/// the format table, and that the text is made of the code's four bytes,
/// lowest first, a zero byte behind the second read as a space. The
/// big-endian flag is left out: the table accepts it, and its text cannot be
/// made.
#[verifier::external_body]
fn fourcc_display(code: u32) -> (text: Option<String>)
    requires
        code != FOURCC_BIG_ENDIAN,
    ensures
        text.is_some() == fourcc_is_known(code),
        match text {
            Some(t) => t@ == fourcc_text(code),
            None => true,
        },
{
    match DrmFourcc::try_from(code) {
        Ok(fourcc) => Some(fourcc.to_string()),
        Err(_) => None,
    }
}

/// The digit of the value `d` in lower-case hexadecimal.
pub open spec fn hex_char(d: int) -> char {
    seq!['0', '1', '2', '3', '4', '5', '6', '7', '8', '9', 'a', 'b', 'c', 'd', 'e', 'f'][d]
}

/// One hexadecimal digit as a text.
fn hex_digit(d: u64) -> (text: &'static str)
    requires
        d < 16,
    ensures
        text@ == seq![hex_char(d as int)],
{
    proof {
        reveal_strlit("0");
        reveal_strlit("1");
        reveal_strlit("2");
        reveal_strlit("3");
        reveal_strlit("4");
        reveal_strlit("5");
        reveal_strlit("6");
        reveal_strlit("7");
        reveal_strlit("8");
        reveal_strlit("9");
        reveal_strlit("a");
        reveal_strlit("b");
        reveal_strlit("c");
        reveal_strlit("d");
        reveal_strlit("e");
        reveal_strlit("f");
    }
    let text = if d == 0 {
        "0"
    } else if d == 1 {
        "1"
    } else if d == 2 {
        "2"
    } else if d == 3 {
        "3"
    } else if d == 4 {
        "4"
    } else if d == 5 {
        "5"
    } else if d == 6 {
        "6"
    } else if d == 7 {
        "7"
    } else if d == 8 {
        "8"
    } else if d == 9 {
        "9"
    } else if d == 10 {
        "a"
    } else if d == 11 {
        "b"
    } else if d == 12 {
        "c"
    } else if d == 13 {
        "d"
    } else if d == 14 {
        "e"
    } else {
        "f"
    };
    assert(text@ =~= seq![hex_char(d as int)]);
    text
}

/// Dividing by sixteen moves on to the next digit.
proof fn lemma_next_digit(value: u64, rest: u64, k: int)
    requires
        0 <= k < 15,
        rest as int == (value as int) / pow16(k),
    ensures
        (rest / 16) as int == (value as int) / pow16(k + 1),
        pow16(k + 1) == 16 * pow16(k),
        pow16(k) > 0,
    decreases k,
{
    lemma_pow16_positive(k);
    let p = pow16(k);
    let v = value as int;
    assert(pow16(k + 1) == 16 * p);
    assert((v / p) / 16 == v / (p * 16)) by (nonlinear_arith)
        requires
            p > 0,
            v >= 0,
    ;
    assert(p * 16 == 16 * p);
}

/// A power of sixteen is positive.
proof fn lemma_pow16_positive(k: int)
    ensures
        pow16(k) > 0,
    decreases k,
{
    if k > 0 {
        lemma_pow16_positive(k - 1);
    }
}

/// Writes a number as sixteen lower-case hexadecimal digits with leading
/// zeros.
fn hex_digits(value: u64) -> (text: String)
    ensures
        text@ == hex16(value),
{
    // The digits are found from the last to the first and written in the
    // order of the text.
    let mut digits: Vec<u64> = Vec::new();
    let mut rest = value;
    let mut k: usize = 0;
    while k < 16
        invariant
            k <= 16,
            digits@.len() == k,
            k < 16 ==> rest as int == (value as int) / pow16(k as int),
            forall|j: int|
                0 <= j < k ==> (#[trigger] digits@[j]) as int == ((value as int) / pow16(j)) % 16,
        decreases 16 - k,
    {
        digits.push(rest % 16);
        proof {
            if k < 15 {
                lemma_next_digit(value, rest, k as int);
            }
        }
        rest = rest / 16;
        k += 1;
    }
    let mut text = String::new();
    let mut i: usize = 0;
    assert(text@ =~= hex16(value).take(0));
    while i < 16
        invariant
            i <= 16,
            digits@.len() == 16,
            forall|j: int|
                0 <= j < 16 ==> (#[trigger] digits@[j]) as int == ((value as int) / pow16(j)) % 16,
            text@ == hex16(value).take(i as int),
        decreases 16 - i,
    {
        let d = digits[15 - i];
        assert(d < 16);
        text.append(hex_digit(d));
        proof {
            assert(hex16(value)[i as int] == hex_char(((value as int) / pow16(15 - i)) % 16));
            assert(text@ =~= hex16(value).take(i + 1));
        }
        i += 1;
    }
    assert(hex16(value).take(16) =~= hex16(value));
    text
}

/// Fills a text up with spaces at its end to four characters.
fn pad(name: &str) -> (text: String)
    ensures
        text@ == padded(name@),
{
    let mut text = String::from_str(name);
    let start = name.unicode_len();
    let mut n = start;
    proof {
        reveal_strlit(" ");
        assert(name@ + Seq::new(0nat, |i: int| ' ') =~= name@);
    }
    while n < 4
        invariant
            start == name@.len(),
            start <= n,
            n <= 4 || n == start,
            text@ == name@ + Seq::new((n - start) as nat, |i: int| ' '),
            " "@ == seq![' '],
        decreases 4 - n,
    {
        text.append(" ");
        n += 1;
        proof {
            assert(text@ =~= name@ + Seq::new((n - start) as nat, |i: int| ' '));
        }
    }
    text
}

/// Writes a text filled up to four characters, then `:0x`, then a number in
/// sixteen hexadecimal digits.
fn pad_with_modifier(name: &str, modifier: u64) -> (text: String)
    ensures
        text@ == padded(name@) + ":0x"@ + hex16(modifier),
{
    let mut text = pad(name);
    text.append(":0x");
    let digits = hex_digits(modifier);
    text.append(digits.as_str());
    text
}

/// Names a format whose code reads `name` once trimmed.
pub fn name_format(name: &str, modifier: u64, disable_workaround: bool) -> (text: Option<String>)
    ensures
        text_of(text) == format_name(name@, modifier, disable_workaround),
{
    if modifier == MODIFIER_LINEAR {
        Some(pad(name))
    } else if modifier == MODIFIER_INVALID {
        None
    } else if modifier == MODIFIER_I915_4_TILED && !disable_workaround {
        Some(pad_with_modifier(name, MODIFIER_I915_Y_TILED))
    } else {
        Some(pad_with_modifier(name, modifier))
    }
}

/// Names a format for the media framework.
pub fn drm_to_gst_format(format: &DrmFormat, disable_workaround: bool) -> (text: Option<String>)
    ensures
        text_of(text) == gst_format(*format, disable_workaround),
        match text {
            Some(t) => t@.len() == if format.modifier == MODIFIER_LINEAR {
                4int
            } else {
                23int
            },
            None => true,
        },
{
    if format.code == FOURCC_BIG_ENDIAN {
        return None;
    }
    match fourcc_display(format.code) {
        Some(code_text) => {
            let name = trim(code_text.as_str());
            proof {
                reveal_strlit(":0x");
                assert(fourcc_text(format.code).len() == 4);
                assert(padded(name@).len() == 4);
            }
            name_format(name.as_str(), format.modifier, disable_workaround)
        },
        None => None,
    }
}

/// Names the formats of a list, leaving out those without a name.
pub fn gst_format_names(formats: &Vec<DrmFormat>, disable_workaround: bool) -> (names: Vec<String>)
    ensures
        texts(names@) == gst_formats(formats@, disable_workaround),
{
    let mut names: Vec<String> = Vec::new();
    let mut i: usize = 0;
    assert(formats@.take(0) =~= Seq::<DrmFormat>::empty());
    assert(texts(names@) =~= gst_formats(formats@.take(0), disable_workaround));
    while i < formats.len()
        invariant
            i <= formats@.len(),
            texts(names@) == gst_formats(formats@.take(i as int), disable_workaround),
        decreases formats@.len() - i,
    {
        let ghost before = names@;
        let item = drm_to_gst_format(&formats[i], disable_workaround);
        proof {
            assert(formats@.take(i + 1).drop_last() =~= formats@.take(i as int));
            assert(formats@.take(i + 1).last() == formats@[i as int]);
        }
        match item {
            Some(name) => {
                names.push(name);
                assert(texts(names@) =~= texts(before).push(name@));
            },
            None => {},
        }
        i += 1;
    }
    assert(formats@.take(i as int) =~= formats@);
    names
}

} // verus!
