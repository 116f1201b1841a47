//! Text: decimal numbers, UTF-16 decoding, substring matching and case folding.

use vstd::prelude::*;
use vstd::string::*;
use vstd::utf8::*;

verus! {

// ---------------------------------------------------------------------------
// Standard-library functions
// ---------------------------------------------------------------------------

/// `char::from_u32`: a value is converted exactly when it is a Unicode scalar value, that is,
/// when it is at most `0x10FFFF` and not a surrogate; the `char` has that value.
pub assume_specification[ char::from_u32 ](i: u32) -> (c: Option<char>)
    ensures
        c == if is_scalar(i) {
            Some(i as char)
        } else {
            None
        },
;

/// `String::push`: appends one character to the end of the string.
pub assume_specification[ String::push ](s: &mut String, ch: char)
    ensures
        final(s)@ == old(s)@.push(ch),
;

/// Whether `part` occurs somewhere in `text`.
pub open spec fn occurs_in(part: Seq<char>, text: Seq<char>) -> bool {
    exists|i: int|
        0 <= i <= text.len() - part.len() && #[trigger] text.subrange(i, i + part.len()) == part
}

/// `str::contains` with a string pattern: true exactly when the pattern equals some contiguous
/// piece of the text.
#[verifier::external_body]
pub(crate) fn contains(text: &str, part: &str) -> (found: bool)
    ensures
        found == occurs_in(part@, text@),
{
    text.contains(part)
}

/// The lower-case equivalent of a text, as `str::to_lowercase` gives it.
pub uninterp spec fn lowercase(text: Seq<char>) -> Seq<char>;

/// `str::to_lowercase`: the Unicode lower-case mapping of the text, which depends on the text
/// alone. Nothing more is claimed of the mapping.
#[verifier::external_body]
pub(crate) fn to_lowercase(text: &str) -> (lower: String)
    ensures
        lower@ == lowercase(text@),
{
    text.to_lowercase()
}

/// The upper-case equivalent of a text, as `str::to_uppercase` gives it.
pub uninterp spec fn uppercase(text: Seq<char>) -> Seq<char>;

/// `str::to_uppercase`: the Unicode upper-case mapping of the text, which depends on the text
/// alone. Nothing more is claimed of the mapping.
#[verifier::external_body]
pub(crate) fn to_uppercase(text: &str) -> (upper: String)
    ensures
        upper@ == uppercase(text@),
{
    text.to_uppercase()
}

/// The text that `String::from_utf8_lossy` reads from bytes.
pub uninterp spec fn utf8_lossy(bytes: Seq<u8>) -> Seq<char>;

/// `String::from_utf8_lossy`: bytes that are valid UTF-8 give the text they encode. What stands
/// in place of invalid bytes depends on the bytes alone and is not spelled out.
#[verifier::external_body]
pub(crate) fn from_utf8_lossy(bytes: &[u8]) -> (text: String)
    ensures
        text@ == utf8_lossy(bytes@),
        valid_utf8(bytes@) ==> text@ == decode_utf8(bytes@),
{
    String::from_utf8_lossy(bytes).into_owned()
}

/// The `Debug` form of a text: quoted, with escapes.
pub uninterp spec fn debug_form(text: Seq<char>) -> Seq<char>;

/// The `Debug` formatting of `str`. The result depends on the text alone; which characters are
/// escaped is not spelled out.
#[verifier::external_body]
pub(crate) fn debug(text: &str) -> (shown: String)
    ensures
        shown@ == debug_form(text@),
{
    format!("{:?}", text)
}

// ---------------------------------------------------------------------------
// Comparison and concatenation
// ---------------------------------------------------------------------------

/// Whether two texts are equal.
pub(crate) fn text_eq(a: &str, b: &str) -> (same: bool)
    ensures
        same == (a@ == b@),
{
    let a: String = a.to_owned();
    let b: String = b.to_owned();
    a == b
}

/// One ASCII letter in lower case; any other character is unchanged.
pub open spec fn ascii_lower(c: char) -> char {
    if 'A' <= c <= 'Z' {
        (c as u32 + 32) as char
    } else {
        c
    }
}

fn ascii_lower_value(c: char) -> (value: u32)
    ensures
        value == ascii_lower(c) as u32,
{
    let value: u32 = c as u32;
    if 65 <= value && value <= 90 {
        value + 32
    } else {
        value
    }
}

/// Whether two texts are equal when `A` to `Z` count as `a` to `z`.
pub fn eq_ignore_ascii_case(a: &str, b: &str) -> (same: bool)
    ensures
        same == (a@.map_values(|c: char| ascii_lower(c)) == b@.map_values(
            |c: char| ascii_lower(c),
        )),
        same <==> a@.len() == b@.len() && forall|i: int|
            0 <= i < a@.len() ==> {
                ||| #[trigger] a@[i] == b@[i]
                ||| 'A' <= a@[i] <= 'Z' && b@[i] as int == a@[i] as int + 32
                ||| 'A' <= b@[i] <= 'Z' && a@[i] as int == b@[i] as int + 32
            },
{
    let ghost lower_a: Seq<char> = a@.map_values(|c: char| ascii_lower(c));
    let ghost lower_b: Seq<char> = b@.map_values(|c: char| ascii_lower(c));
    let len: usize = a.unicode_len();
    if len != b.unicode_len() {
        assert(lower_a.len() != lower_b.len());
        return false;
    }
    let mut i: usize = 0;
    while i < len
        invariant
            i <= len,
            len == a@.len(),
            len == b@.len(),
            lower_a == a@.map_values(|c: char| ascii_lower(c)),
            lower_b == b@.map_values(|c: char| ascii_lower(c)),
            forall|j: int| 0 <= j < i ==> lower_a[j] == lower_b[j],
            forall|j: int|
                0 <= j < i ==> {
                    ||| #[trigger] a@[j] == b@[j]
                    ||| 'A' <= a@[j] <= 'Z' && b@[j] as int == a@[j] as int + 32
                    ||| 'A' <= b@[j] <= 'Z' && a@[j] as int == b@[j] as int + 32
                },
        decreases len - i,
    {
        if ascii_lower_value(a.get_char(i)) != ascii_lower_value(b.get_char(i)) {
            assert(lower_a[i as int] != lower_b[i as int]);
            assert(a@[i as int] != b@[i as int]);
            return false;
        }
        i = i + 1;
    }
    assert(lower_a =~= lower_b);
    true
}

/// `a` followed by `b`.
pub(crate) fn join(a: &str, b: &str) -> (text: String)
    ensures
        text@ == a@ + b@,
{
    let mut text: String = a.to_owned();
    text.append(b);
    text
}

/// `a`, then `b`, then `c`.
pub(crate) fn join3(a: &str, b: &str, c: &str) -> (text: String)
    ensures
        text@ == a@ + b@ + c@,
{
    let mut text: String = join(a, b);
    text.append(c);
    text
}

/// The text without `suffix` where it ends in `suffix`, and unchanged otherwise.
pub open spec fn without_suffix(text: Seq<char>, suffix: Seq<char>) -> Seq<char> {
    if suffix.len() <= text.len() && text.skip(text.len() - suffix.len()) == suffix {
        text.take(text.len() - suffix.len())
    } else {
        text
    }
}

/// What stands before a suffix is what is left when it is taken off, and a text that does not end
/// in the suffix is left as it is.
pub proof fn suffixes_are_taken_off(text: Seq<char>, suffix: Seq<char>)
    ensures
        without_suffix(text + suffix, suffix) == text,
        !(exists|rest: Seq<char>| text == #[trigger] (rest + suffix)) ==> without_suffix(
            text,
            suffix,
        ) == text,
{
    let whole: Seq<char> = text + suffix;
    assert(whole.skip(whole.len() - suffix.len()) =~= suffix);
    assert(whole.take(whole.len() - suffix.len()) =~= text);
    if suffix.len() <= text.len() && text.skip(text.len() - suffix.len()) == suffix {
        let rest: Seq<char> = text.take(text.len() - suffix.len());
        assert(text =~= rest + suffix);
    }
}

/// Removes `suffix` from the end of `text` once, where it is there.
pub fn strip_suffix_or_keep(text: &str, suffix: &str) -> (rest: String)
    ensures
        rest@ == without_suffix(text@, suffix@),
{
    let text_len: usize = text.unicode_len();
    let suffix_len: usize = suffix.unicode_len();
    if suffix_len <= text_len {
        let cut: usize = text_len - suffix_len;
        let tail: &str = text.substring_char(cut, text_len);
        proof {
            assert(text@.skip(cut as int) =~= text@.subrange(cut as int, text_len as int));
            assert(text@.take(cut as int) =~= text@.subrange(0, cut as int));
        }
        if text_eq(tail, suffix) {
            return text.substring_char(0, cut).to_owned();
        }
    }
    text.to_owned()
}

// ---------------------------------------------------------------------------
// Decimal numbers
// ---------------------------------------------------------------------------

/// The digit character of a number below ten.
pub open spec fn digit_char(d: int) -> char {
    (48 + d) as char
}

/// The decimal digits of `n`, most significant first, without leading zeros.
pub open spec fn decimal(n: nat) -> Seq<char>
    decreases n,
{
    if n < 10 {
        seq![digit_char(n as int)]
    } else {
        decimal(n / 10).push(digit_char((n % 10) as int))
    }
}

fn push_decimal(text: &mut String, n: u32)
    ensures
        final(text)@ == old(text)@ + decimal(n as nat),
    decreases n,
{
    if n >= 10 {
        push_decimal(text, n / 10);
    }
    let digit: u8 = (n % 10) as u8;
    text.push((48 + digit) as char);
    proof {
        assert(text@ =~= old(text)@ + decimal(n as nat));
    }
}

/// `n` in decimal.
pub fn decimal_text(n: u32) -> (text: String)
    ensures
        text@ == decimal(n as nat),
{
    let mut text: String = String::new();
    push_decimal(&mut text, n);
    proof {
        assert(text@ =~= decimal(n as nat));
    }
    text
}

/// A number has at least one decimal digit.
pub proof fn decimal_is_nonempty(n: nat)
    ensures
        decimal(n).len() > 0,
{
}

/// The number that decimal digits stand for, each worth ten times the one behind it.
pub open spec fn decimal_value(digits: Seq<char>) -> int
    decreases digits.len(),
{
    if digits.len() == 0 {
        0
    } else {
        10 * decimal_value(digits.drop_last()) + (digits.last() as int - '0' as int)
    }
}

/// A number can be read back from its decimal text, which holds digits only and does not start
/// with a zero unless it is one.
pub proof fn decimal_reads_back(n: nat)
    ensures
        decimal_value(decimal(n)) == n,
        forall|i: int| 0 <= i < decimal(n).len() ==> '0' <= #[trigger] decimal(n)[i] <= '9',
        decimal(n).len() > 1 ==> decimal(n)[0] != '0',
    decreases n,
{
    decimal_is_nonempty(n);
    reveal_with_fuel(decimal_value, 2);
    if n < 10 {
        assert(decimal(n).drop_last() =~= seq![]);
    } else {
        decimal_reads_back(n / 10);
        decimal_is_nonempty(n / 10);
        assert(decimal(n).drop_last() =~= decimal(n / 10));
        assert(decimal(n)[0] == decimal(n / 10)[0]);
        if n / 10 < 10 {
            assert(decimal(n / 10) == seq![digit_char((n / 10) as int)]);
        }
    }
}

/// Different numbers have different decimal texts.
pub proof fn decimal_is_injective(a: nat, b: nat)
    ensures
        decimal(a) == decimal(b) <==> a == b,
    decreases a,
{
    if decimal(a) == decimal(b) {
        let da: Seq<char> = decimal(a);
        let db: Seq<char> = decimal(b);
        decimal_is_nonempty(a / 10);
        decimal_is_nonempty(b / 10);
        assert(da.last() == digit_char((a % 10) as int));
        assert(db.last() == digit_char((b % 10) as int));
        assert(a % 10 == b % 10);
        if a >= 10 {
            assert(da.len() > 1);
            assert(b >= 10);
            assert(da.drop_last() =~= decimal(a / 10));
            assert(db.drop_last() =~= decimal(b / 10));
            decimal_is_injective(a / 10, b / 10);
        } else {
            assert(b < 10);
        }
    }
}

// ---------------------------------------------------------------------------
// UTF-16
// ---------------------------------------------------------------------------

/// The first unit of a surrogate pair.
pub open spec fn is_high_surrogate(unit: u16) -> bool {
    0xD800 <= unit <= 0xDBFF
}

/// The second unit of a surrogate pair.
pub open spec fn is_low_surrogate(unit: u16) -> bool {
    0xDC00 <= unit <= 0xDFFF
}

/// The value that a surrogate pair encodes.
pub open spec fn surrogate_pair_value(high: u16, low: u16) -> int {
    0x10000 + (high - 0xD800) * 0x400 + (low - 0xDC00)
}

/// Whether the units start with a surrogate pair.
pub open spec fn starts_with_pair(units: Seq<u16>) -> bool {
    units.len() >= 2 && is_high_surrogate(units[0]) && is_low_surrogate(units[1])
}

/// The text that UTF-16 units encode, with U+FFFD for each surrogate outside a pair.
pub open spec fn utf16_lossy(units: Seq<u16>) -> Seq<char>
    decreases units.len(),
{
    if units.len() == 0 {
        seq![]
    } else if starts_with_pair(units) {
        seq![surrogate_pair_value(units[0], units[1]) as char] + utf16_lossy(units.skip(2))
    } else if is_high_surrogate(units[0]) || is_low_surrogate(units[0]) {
        seq!['\u{FFFD}'] + utf16_lossy(units.skip(1))
    } else {
        seq![units[0] as char] + utf16_lossy(units.skip(1))
    }
}

/// Whether every surrogate among the units stands in a pair.
pub open spec fn utf16_well_formed(units: Seq<u16>) -> bool
    decreases units.len(),
{
    if units.len() == 0 {
        true
    } else if starts_with_pair(units) {
        utf16_well_formed(units.skip(2))
    } else {
        !is_high_surrogate(units[0]) && !is_low_surrogate(units[0]) && utf16_well_formed(
            units.skip(1),
        )
    }
}

/// Decodes UTF-16 units; the flag says whether they were well-formed.
fn decode_utf16(units: &[u16]) -> (decoded: (String, bool))
    ensures
        decoded.0@ == utf16_lossy(units@),
        decoded.1 == utf16_well_formed(units@),
{
    let mut text: String = String::new();
    let mut well_formed: bool = true;
    let mut i: usize = 0;
    proof {
        assert(units@.skip(0) =~= units@);
        assert(text@ + utf16_lossy(units@) =~= utf16_lossy(units@));
    }
    while i < units.len()
        invariant
            i <= units@.len(),
            utf16_lossy(units@) == text@ + utf16_lossy(units@.skip(i as int)),
            utf16_well_formed(units@) == (well_formed && utf16_well_formed(units@.skip(i as int))),
        decreases units.len() - i,
    {
        let ghost rest: Seq<u16> = units@.skip(i as int);
        let ghost before: Seq<char> = text@;
        let unit: u16 = units[i];
        assert(rest[0] == unit);
        let paired: bool = 0xD800 <= unit && unit <= 0xDBFF && i + 1 < units.len() && 0xDC00
            <= units[i + 1] && units[i + 1] <= 0xDFFF;
        if paired {
            let low: u16 = units[i + 1];
            assert(rest[1] == low);
            let value: u32 = 0x10000 + (unit as u32 - 0xD800) * 0x400 + (low as u32 - 0xDC00);
            match char::from_u32(value) {
                Some(c) => {
                    text.push(c);
                },
                None => {},
            }
            i = i + 2;
            proof {
                assert(rest.skip(2) =~= units@.skip(i as int));
                assert(text@ =~= before + seq![surrogate_pair_value(unit, low) as char]);
                assert(before + (seq![surrogate_pair_value(unit, low) as char] + utf16_lossy(
                    rest.skip(2),
                )) =~= text@ + utf16_lossy(rest.skip(2)));
            }
        } else {
            let ghost first: char;
            if 0xD800 <= unit && unit <= 0xDFFF {
                well_formed = false;
                text.push('\u{FFFD}');
                proof {
                    first = '\u{FFFD}';
                }
            } else {
                match char::from_u32(unit as u32) {
                    Some(c) => {
                        text.push(c);
                    },
                    None => {},
                }
                proof {
                    first = unit as char;
                }
            }
            i = i + 1;
            proof {
                assert(rest.skip(1) =~= units@.skip(i as int));
                assert(text@ =~= before + seq![first]);
                assert(before + (seq![first] + utf16_lossy(rest.skip(1))) =~= text@ + utf16_lossy(
                    rest.skip(1),
                ));
            }
        }
    }
    proof {
        assert(units@.skip(i as int) =~= Seq::<u16>::empty());
        assert(text@ + utf16_lossy(units@.skip(i as int)) =~= text@);
    }
    (text, well_formed)
}

/// Decodes UTF-16 units, with U+FFFD for each surrogate outside a pair.
pub fn from_utf16_lossy(units: &[u16]) -> (text: String)
    ensures
        text@ == utf16_lossy(units@),
{
    decode_utf16(units).0
}

/// Decodes UTF-16 units that are well-formed; gives nothing otherwise.
pub fn from_utf16(units: &[u16]) -> (text: Option<String>)
    ensures
        text is Some <==> utf16_well_formed(units@),
        text matches Some(t) ==> t@ == utf16_lossy(units@),
{
    let (text, well_formed) = decode_utf16(units);
    if well_formed {
        Some(text)
    } else {
        None
    }
}

/// The units that encode a character in UTF-16: the character itself where it fits one unit, and a
/// surrogate pair otherwise.
pub open spec fn utf16_units(c: char) -> Seq<u16> {
    if (c as int) < 0x10000 {
        seq![c as u16]
    } else {
        seq![
            (0xD800 + (c as int - 0x10000) / 0x400) as u16,
            (0xDC00 + (c as int - 0x10000) % 0x400) as u16,
        ]
    }
}

/// The units that encode a text in UTF-16.
pub open spec fn utf16_encoding(text: Seq<char>) -> Seq<u16>
    decreases text.len(),
{
    if text.len() == 0 {
        seq![]
    } else {
        utf16_units(text[0]) + utf16_encoding(text.skip(1))
    }
}

proof fn characters_are_one_unit_or_a_pair(c: char)
    ensures
        (c as int) < 0x10000 ==> utf16_units(c).len() == 1 && utf16_units(c)[0] as int == c as int
            && !is_high_surrogate(utf16_units(c)[0]) && !is_low_surrogate(utf16_units(c)[0])
            && utf16_units(c)[0] as char == c,
        (c as int) >= 0x10000 ==> utf16_units(c).len() == 2 && starts_with_pair(utf16_units(c))
            && surrogate_pair_value(utf16_units(c)[0], utf16_units(c)[1]) == c as int
            && surrogate_pair_value(utf16_units(c)[0], utf16_units(c)[1]) as char == c,
{
}

/// Every text is read back from its encoding, which is well-formed.
pub proof fn utf16_reads_back(text: Seq<char>)
    ensures
        utf16_lossy(utf16_encoding(text)) == text,
        utf16_well_formed(utf16_encoding(text)),
    decreases text.len(),
{
    if text.len() > 0 {
        let c: char = text[0];
        let rest: Seq<u16> = utf16_encoding(text.skip(1));
        let units: Seq<u16> = utf16_units(c) + rest;
        utf16_reads_back(text.skip(1));
        assert(units.skip(utf16_units(c).len() as int) =~= rest);
        assert(text =~= seq![c] + text.skip(1));
        characters_are_one_unit_or_a_pair(c);
        assert(units[0] == utf16_units(c)[0]);
        if (c as int) >= 0x10000 {
            assert(units[1] == utf16_units(c)[1]);
        }
        assert(utf16_lossy(units) =~= seq![c] + utf16_lossy(rest));
    } else {
        assert(utf16_lossy(utf16_encoding(text)) =~= text);
    }
}

/// A surrogate outside a pair is one replacement character, whatever stands around it; it makes
/// the units ill-formed. A unit that is no surrogate is the character with its number.
pub proof fn utf16_units_are_read_one_by_one(unit: u16, rest: Seq<u16>)
    requires
        !(0xD800 <= unit <= 0xDBFF && rest.len() > 0 && 0xDC00 <= rest[0] <= 0xDFFF),
    ensures
        utf16_lossy(seq![unit] + rest) == seq![
            if 0xD800 <= unit <= 0xDFFF {
                '\u{FFFD}'
            } else {
                unit as char
            },
        ] + utf16_lossy(rest),
        utf16_well_formed(seq![unit] + rest) <==> !(0xD800 <= unit <= 0xDFFF)
            && utf16_well_formed(rest),
{
    assert((seq![unit] + rest).skip(1) =~= rest);
}

// ---------------------------------------------------------------------------
// NUL-terminated buffers and lists of texts
// ---------------------------------------------------------------------------

/// The units before the first NUL, or all of them where there is none.
pub open spec fn before_nul<T>(units: Seq<T>, nul: T) -> Seq<T>
    decreases units.len(),
{
    if units.len() == 0 || units[0] == nul {
        seq![]
    } else {
        seq![units[0]] + before_nul(units.skip(1), nul)
    }
}

/// The units before the first NUL are the first `n` where none of those is NUL and the buffer
/// ends, or holds a NUL, behind them.
pub(crate) proof fn before_nul_is_prefix<T>(units: Seq<T>, nul: T, n: int)
    requires
        0 <= n <= units.len(),
        forall|i: int| 0 <= i < n ==> units[i] != nul,
        n == units.len() || units[n] == nul,
    ensures
        before_nul(units, nul) == units.take(n),
    decreases n,
{
    if n == 0 {
        assert(units.take(0) =~= seq![]);
    } else {
        before_nul_is_prefix(units.skip(1), nul, n - 1);
        assert(units.take(n) =~= seq![units[0]] + units.skip(1).take(n - 1));
    }
}

/// What stands before the first NUL is read, whatever stands behind it; without a NUL all is read.
pub proof fn texts_end_at_the_first_nul<T>(text: Seq<T>, nul: T, behind: Seq<T>)
    requires
        forall|i: int| 0 <= i < text.len() ==> text[i] != nul,
    ensures
        before_nul(text + seq![nul] + behind, nul) == text,
        before_nul(text, nul) == text,
{
    let whole: Seq<T> = text + seq![nul] + behind;
    before_nul_is_prefix(whole, nul, text.len() as int);
    before_nul_is_prefix(text, nul, text.len() as int);
    assert(whole.take(text.len() as int) =~= text);
    assert(text.take(text.len() as int) =~= text);
}

/// The texts that strings hold.
pub open spec fn texts(strings: Seq<String>) -> Seq<Seq<char>> {
    strings.map_values(|s: String| s@)
}

/// The texts that string slices hold.
pub open spec fn slice_texts(strings: Seq<&str>) -> Seq<Seq<char>> {
    strings.map_values(|s: &str| s@)
}

/// A list of strings has one text for each string, in their order.
pub proof fn strings_have_their_texts(strings: Seq<String>, slices: Seq<&str>, i: int)
    ensures
        texts(strings).len() == strings.len(),
        0 <= i < strings.len() ==> texts(strings)[i] == strings[i]@,
        slice_texts(slices).len() == slices.len(),
        0 <= i < slices.len() ==> slice_texts(slices)[i] == slices[i]@,
{
}

/// The texts of string slices as strings.
pub(crate) fn own_strings(strings: &[&str]) -> (owned: Vec<String>)
    ensures
        texts(owned@) == slice_texts(strings@),
{
    let mut owned: Vec<String> = Vec::new();
    let mut i: usize = 0;
    while i < strings.len()
        invariant
            i <= strings@.len(),
            owned@.len() == i,
            forall|j: int| 0 <= j < i ==> (#[trigger] owned@[j])@ == strings@[j]@,
        decreases strings.len() - i,
    {
        owned.push(strings[i].to_owned());
        i = i + 1;
    }
    proof {
        assert(texts(owned@) =~= slice_texts(strings@));
    }
    owned
}

/// A copy of a list of strings.
pub(crate) fn copy_strings(strings: &Vec<String>) -> (copy: Vec<String>)
    ensures
        copy@ == strings@,
{
    let copy: Vec<String> = strings.clone();
    proof {
        assert(copy@ =~= strings@);
    }
    copy
}

/// Whether one of the texts occurs in `name`.
pub open spec fn some_occurs_in(parts: Seq<Seq<char>>, name: Seq<char>) -> bool {
    exists|i: int| 0 <= i < parts.len() && occurs_in(#[trigger] parts[i], name)
}

/// Whether one of the texts occurs in `name`.
pub fn any_occurs_in(parts: &Vec<String>, name: &str) -> (found: bool)
    ensures
        found == some_occurs_in(texts(parts@), name@),
{
    let mut i: usize = 0;
    while i < parts.len()
        invariant
            i <= parts@.len(),
            forall|j: int| 0 <= j < i ==> !occurs_in(#[trigger] texts(parts@)[j], name@),
        decreases parts.len() - i,
    {
        assert(texts(parts@)[i as int] == parts@[i as int]@);
        if contains(name, parts[i].as_str()) {
            return true;
        }
        i = i + 1;
    }
    false
}

/// Whether one of the texts is `id`.
pub fn any_equals(candidates: &Vec<String>, id: &str) -> (found: bool)
    ensures
        found == texts(candidates@).contains(id@),
{
    let mut i: usize = 0;
    while i < candidates.len()
        invariant
            i <= candidates@.len(),
            forall|j: int| 0 <= j < i ==> #[trigger] texts(candidates@)[j] != id@,
        decreases candidates.len() - i,
    {
        assert(texts(candidates@)[i as int] == candidates@[i as int]@);
        if text_eq(candidates[i].as_str(), id) {
            return true;
        }
        i = i + 1;
    }
    false
}

} // verus!
