//! Text as a sequence of characters: the few string operations that the rest
//! of the library is built on.

use vstd::prelude::*;

verus! {

/// `String::push` puts one character at the end of the string.
pub assume_specification[ String::push ](text: &mut String, character: char)
    ensures
        final(text)@ == old(text)@.push(character),
;

/// `String::push_str` puts a whole string at the end of the string.
pub assume_specification[ String::push_str ](text: &mut String, tail: &str)
    ensures
        final(text)@ == old(text)@ + tail@,
;

/// The characters with the Unicode `White_Space` property.
pub open spec fn is_space(c: char) -> bool {
    ||| '\u{9}' <= c <= '\u{d}'
    ||| c == ' '
    ||| c == '\u{85}'
    ||| c == '\u{a0}'
    ||| c == '\u{1680}'
    ||| '\u{2000}' <= c <= '\u{200a}'
    ||| c == '\u{2028}'
    ||| c == '\u{2029}'
    ||| c == '\u{202f}'
    ||| c == '\u{205f}'
    ||| c == '\u{3000}'
}

/// `char::is_whitespace` holds of exactly the characters with the Unicode
/// `White_Space` property.
pub assume_specification[ char::is_whitespace ](c: char) -> (result: bool)
    ensures
        result == is_space(c),
;

/// The characters of the Unicode general category `Cc`.
pub open spec fn is_control_char(c: char) -> bool {
    c <= '\u{1f}' || '\u{7f}' <= c <= '\u{9f}'
}

/// `char::is_control` holds of exactly the characters of the general category
/// `Cc`.
pub assume_specification[ char::is_control ](c: char) -> (result: bool)
    ensures
        result == is_control_char(c),
;

/// A text without the white space at its two ends.
pub open spec fn trimmed(text: Seq<char>) -> Seq<char>
    decreases text.len(),
{
    if text.len() == 0 {
        text
    } else if is_space(text[0]) {
        trimmed(text.drop_first())
    } else if is_space(text.last()) {
        trimmed(text.drop_last())
    } else {
        text
    }
}

/// Whether `text` begins with `prefix`.
pub open spec fn begins_with(text: Seq<char>, prefix: Seq<char>) -> bool {
    prefix.len() <= text.len() && text.take(prefix.len() as int) == prefix
}

/// Whether `text` ends with `suffix`.
pub open spec fn ends_with(text: Seq<char>, suffix: Seq<char>) -> bool {
    suffix.len() <= text.len() && text.skip(text.len() - suffix.len()) == suffix
}

/// Whether `pattern` occurs in `text` at the position `at`.
pub open spec fn occurs_at(text: Seq<char>, pattern: Seq<char>, at: int) -> bool {
    &&& 0 <= at
    &&& at + pattern.len() <= text.len()
    &&& text.subrange(at, at + pattern.len()) == pattern
}

/// Whether `pattern` occurs anywhere in `text`.
pub open spec fn occurs_in(text: Seq<char>, pattern: Seq<char>) -> bool {
    exists|at: int| occurs_at(text, pattern, at)
}

/// An upper-case ASCII letter becomes its lower-case one; every other
/// character stays.
pub open spec fn ascii_lower(c: char) -> char {
    if 'A' <= c <= 'Z' {
        ((c as u32 + 32) as u32) as char
    } else {
        c
    }
}

/// The decimal digit with the value `value`.
pub open spec fn digit_char(value: nat) -> char
    recommends
        value < 10,
{
    ((value + 48) as u32) as char
}

/// The decimal notation of a number, without leading zeros.
pub open spec fn decimal_digits(value: nat) -> Seq<char>
    decreases value,
{
    if value < 10 {
        seq![digit_char(value)]
    } else {
        decimal_digits(value / 10).push(digit_char(value % 10))
    }
}

/// The characters of a string, one by one.
pub fn chars_of(text: &str) -> (result: Vec<char>)
    ensures
        result@ == text@,
{
    let mut result: Vec<char> = Vec::new();
    for c in iter: text.chars()
        invariant
            iter.seq() == text@,
            result@ == text@.take(iter.index()),
    {
        result.push(c);
        assert(text@.take(iter.index() + 1) == text@.take(iter.index()).push(c));
    }
    assert(text@.take(text@.len() as int) == text@);
    result
}

/// A copy of a string.
pub fn copy_of(text: &str) -> (result: String)
    ensures
        result@ == text@,
{
    let mut result = String::new();
    result.push_str(text);
    result
}

/// Whether two strings hold the same characters.
pub fn same_text(left: &str, right: &str) -> (result: bool)
    ensures
        result == (left@ == right@),
{
    let a = chars_of(left);
    let b = chars_of(right);
    if a.len() != b.len() {
        return false;
    }
    let mut i: usize = 0;
    while i < a.len()
        invariant
            a.len() == b.len(),
            i <= a.len(),
            forall|j: int| 0 <= j < i ==> a@[j] == b@[j],
            a@ == left@,
            b@ == right@,
        decreases a.len() - i,
    {
        if a[i] != b[i] {
            assert(left@[i as int] != right@[i as int]);
            return false;
        }
        i += 1;
    }
    assert(a@ =~= b@);
    true
}

/// A text with its ASCII letters in lower case.
pub open spec fn lowered(text: Seq<char>) -> Seq<char> {
    text.map_values(|c: char| ascii_lower(c))
}

fn lower(c: char) -> (result: char)
    ensures
        result == ascii_lower(c),
{
    if 'A' <= c && c <= 'Z' {
        (c as u8 + 32) as char
    } else {
        c
    }
}

/// Whether two strings hold the same characters, but for the case of ASCII
/// letters.
pub fn same_ignoring_case(left: &str, right: &str) -> (result: bool)
    ensures
        result == (lowered(left@) == lowered(right@)),
{
    let a = chars_of(left);
    let b = chars_of(right);
    if a.len() != b.len() {
        assert(lowered(left@).len() != lowered(right@).len());
        return false;
    }
    let mut i: usize = 0;
    while i < a.len()
        invariant
            a.len() == b.len(),
            i <= a.len(),
            a@ == left@,
            b@ == right@,
            forall|j: int|
                0 <= j < i ==> (#[trigger] lowered(left@)[j]) == lowered(right@)[j],
        decreases a.len() - i,
    {
        if lower(a[i]) != lower(b[i]) {
            assert(lowered(left@)[i as int] != lowered(right@)[i as int]);
            return false;
        }
        i += 1;
    }
    assert(lowered(left@) =~= lowered(right@));
    true
}

/// Whether `pattern` occurs in `text` at the position `at`.
fn matches_at(text: &[char], pattern: &[char], at: usize) -> (result: bool)
    requires
        at <= text.len(),
    ensures
        result == occurs_at(text@, pattern@, at as int),
{
    if pattern.len() > text.len() - at {
        return false;
    }
    let mut i: usize = 0;
    while i < pattern.len()
        invariant
            at + pattern.len() <= text.len(),
            i <= pattern.len(),
            forall|j: int| 0 <= j < i ==> text@[at + j] == pattern@[j],
        decreases pattern.len() - i,
    {
        if text[at + i] != pattern[i] {
            assert(text@.subrange(at as int, at + pattern@.len())[i as int] != pattern@[i as int]);
            return false;
        }
        i += 1;
    }
    assert(text@.subrange(at as int, at + pattern@.len()) =~= pattern@);
    true
}

/// Whether `text` begins with `prefix`.
pub fn starts_with(text: &str, prefix: &str) -> (result: bool)
    ensures
        result == begins_with(text@, prefix@),
{
    let chars = chars_of(text);
    let pattern = chars_of(prefix);
    let result = matches_at(&chars, &pattern, 0);
    proof {
        if prefix@.len() <= text@.len() {
            assert(text@.take(prefix@.len() as int) =~= text@.subrange(0, prefix@.len() as int));
        }
    }
    result
}

/// Whether `pattern` occurs anywhere in `text`.
pub fn contains(text: &str, pattern: &str) -> (result: bool)
    ensures
        result == occurs_in(text@, pattern@),
{
    let chars = chars_of(text);
    let wanted = chars_of(pattern);
    let mut at: usize = 0;
    while at < chars.len()
        invariant
            at <= chars.len(),
            chars@ == text@,
            wanted@ == pattern@,
            forall|j: int| 0 <= j < at ==> !occurs_at(text@, pattern@, j),
        decreases chars.len() - at,
    {
        if matches_at(&chars, &wanted, at) {
            return true;
        }
        at += 1;
    }
    matches_at(&chars, &wanted, at)
}

/// The text without the white space at its two ends.
pub fn trim(text: &str) -> (result: String)
    ensures
        result@ == trimmed(text@),
{
    let chars = chars_of(text);
    let mut low: usize = 0;
    let mut high: usize = chars.len();
    assert(chars@.subrange(0, high as int) =~= chars@);
    while low < high && chars[low].is_whitespace()
        invariant
            low <= high <= chars.len(),
            chars@ == text@,
            trimmed(chars@.subrange(low as int, high as int)) == trimmed(text@),
        decreases high - low,
    {
        let ghost part = chars@.subrange(low as int, high as int);
        assert(part.drop_first() =~= chars@.subrange(low + 1, high as int));
        low += 1;
    }
    while low < high && chars[high - 1].is_whitespace()
        invariant
            low <= high <= chars.len(),
            chars@ == text@,
            low < high ==> !is_space(chars@[low as int]),
            trimmed(chars@.subrange(low as int, high as int)) == trimmed(text@),
        decreases high - low,
    {
        let ghost part = chars@.subrange(low as int, high as int);
        assert(part.drop_last() =~= chars@.subrange(low as int, high - 1));
        high -= 1;
    }
    let ghost part = chars@.subrange(low as int, high as int);
    assert(trimmed(part) == part);
    let mut result = String::new();
    let mut i: usize = low;
    while i < high
        invariant
            low <= i <= high <= chars.len(),
            result@ == chars@.subrange(low as int, i as int),
        decreases high - i,
    {
        result.push(chars[i]);
        assert(chars@.subrange(low as int, i + 1) =~= chars@.subrange(low as int, i as int).push(
            chars@[i as int],
        ));
        i += 1;
    }
    result
}

/// The decimal notation of a number.
pub fn decimal(value: u16) -> (result: String)
    ensures
        result@ == decimal_digits(value as nat),
    decreases value,
{
    let mut result = if value < 10 {
        String::new()
    } else {
        decimal(value / 10)
    };
    let digit: u8 = (value % 10) as u8;
    let character: char = (digit + 48) as char;
    result.push(character);
    result
}

/// A text whose two ends are no white space is left as it is by trimming.
pub proof fn trimming_keeps_trimmed_text(text: Seq<char>)
    ensures
        trimmed(trimmed(text)) == trimmed(text),
    decreases text.len(),
{
    if text.len() > 0 {
        if is_space(text[0]) {
            trimming_keeps_trimmed_text(text.drop_first());
        } else if is_space(text.last()) {
            trimming_keeps_trimmed_text(text.drop_last());
        }
    }
}

/// Whether a text is white space before `low` and from `high` on.
pub open spec fn is_space_outside(text: Seq<char>, low: int, high: int) -> bool {
    forall|i: int| 0 <= i < low || high <= i < text.len() ==> is_space(#[trigger] text[i])
}

proof fn trimming_leaves_a_part(text: Seq<char>) -> (part: (int, int))
    ensures
        0 <= part.0 <= part.1 <= text.len(),
        trimmed(text) == text.subrange(part.0, part.1),
        is_space_outside(text, part.0, part.1),
    decreases text.len(),
{
    if text.len() > 0 && is_space(text[0]) {
        let rest = text.drop_first();
        let (low, high) = trimming_leaves_a_part(rest);
        assert(rest.subrange(low, high) =~= text.subrange(low + 1, high + 1));
        assert forall|i: int| 0 <= i < low + 1 || high + 1 <= i < text.len() implies is_space(
            #[trigger] text[i],
        ) by {
            if i > 0 {
                assert(is_space(rest[i - 1]));
            }
        }
        (low + 1, high + 1)
    } else if text.len() > 0 && is_space(text.last()) {
        let rest = text.drop_last();
        let (low, high) = trimming_leaves_a_part(rest);
        assert(rest.subrange(low, high) =~= text.subrange(low, high));
        assert forall|i: int| 0 <= i < low || high <= i < text.len() implies is_space(
            #[trigger] text[i],
        ) by {
            if i < rest.len() {
                assert(is_space(rest[i]));
            }
        }
        (low, high)
    } else {
        assert(text.subrange(0, text.len() as int) =~= text);
        (0, text.len() as int)
    }
}

proof fn trimmed_ends_are_no_space(text: Seq<char>)
    ensures
        trimmed(text).len() > 0 ==> !is_space(trimmed(text)[0]) && !is_space(trimmed(text).last()),
    decreases text.len(),
{
    if text.len() > 0 && is_space(text[0]) {
        trimmed_ends_are_no_space(text.drop_first());
    } else if text.len() > 0 && is_space(text.last()) {
        trimmed_ends_are_no_space(text.drop_last());
    }
}

/// Trimming takes white space away at the two ends, all of it and nothing else.
pub proof fn trimming_removes_outer_space(text: Seq<char>)
    ensures
        exists|low: int, high: int|
            0 <= low <= high <= text.len() && trimmed(text) == text.subrange(low, high)
                && #[trigger] is_space_outside(text, low, high),
        trimmed(text).len() > 0 ==> !is_space(trimmed(text)[0]) && !is_space(trimmed(text).last()),
{
    let (low, high) = trimming_leaves_a_part(text);
    assert(is_space_outside(text, low, high));
    trimmed_ends_are_no_space(text);
}

/// A text begins with what it is made of at its front, ends with what it is made
/// of at its end, and holds what it is made of in between, and nothing else.
pub proof fn parts_make_the_whole(text: Seq<char>, part: Seq<char>)
    ensures
        begins_with(text, part) <==> exists|rest: Seq<char>| text == #[trigger] (part + rest),
        ends_with(text, part) <==> exists|rest: Seq<char>| text == #[trigger] (rest + part),
        occurs_in(text, part) <==> exists|head: Seq<char>, tail: Seq<char>|
            text == #[trigger] (head + part + tail),
{
    if begins_with(text, part) {
        assert(text =~= part + text.skip(part.len() as int));
    }
    assert forall|rest: Seq<char>| text == #[trigger] (part + rest) implies begins_with(
        text,
        part,
    ) by {
        assert(text.take(part.len() as int) =~= part);
    }
    if ends_with(text, part) {
        assert(text =~= text.take(text.len() - part.len()) + part);
    }
    assert forall|rest: Seq<char>| text == #[trigger] (rest + part) implies ends_with(
        text,
        part,
    ) by {
        assert(text.skip(text.len() - part.len()) =~= part);
    }
    if occurs_in(text, part) {
        let at = choose|at: int| occurs_at(text, part, at);
        assert forall|i: int| 0 <= i < part.len() implies part[i] == text[at + i] by {
            assert(text.subrange(at, at + part.len())[i] == text[at + i]);
        }
        assert(text =~= text.take(at) + part + text.skip(at + part.len()));
    }
    assert forall|head: Seq<char>, tail: Seq<char>| text == #[trigger] (head + part + tail)
        implies occurs_in(text, part) by {
        assert(text.subrange(head.len() as int, (head.len() + part.len()) as int) =~= part);
        assert(occurs_at(text, part, head.len() as int));
    }
}

/// Two characters are the same but for the case of ASCII letters exactly if they
/// are the same, or are the capital and the small form of one letter.
pub proof fn case_is_that_of_ascii_letters(a: char, b: char)
    ensures
        ascii_lower(a) == ascii_lower(b) <==> {
            ||| a == b
            ||| 'A' <= a <= 'Z' && b as u32 == a as u32 + 32
            ||| 'A' <= b <= 'Z' && a as u32 == b as u32 + 32
        },
{
}

/// The number that decimal digits stand for.
pub open spec fn digits_value(digits: Seq<char>) -> int
    decreases digits.len(),
{
    if digits.len() == 0 {
        0
    } else {
        digits_value(digits.drop_last()) * 10 + (digits.last() as u32 - '0' as u32)
    }
}

/// The decimal notation of a number stands for that number, is made of digits,
/// and has no zero in front.
pub proof fn digits_stand_for_the_number(value: nat)
    ensures
        digits_value(decimal_digits(value)) == value,
        decimal_digits(value).len() > 0,
        forall|i: int|
            0 <= i < decimal_digits(value).len() ==> '0' <= #[trigger] decimal_digits(value)[i]
                <= '9',
        decimal_digits(value)[0] == '0' ==> value == 0,
    decreases value,
{
    if value < 10 {
        let digits = decimal_digits(value);
        assert(digits.drop_last() =~= Seq::empty());
        reveal_with_fuel(digits_value, 2);
    } else {
        digits_stand_for_the_number(value / 10);
        let digits = decimal_digits(value);
        assert(digits.drop_last() =~= decimal_digits(value / 10));
        assert(digits[0] == decimal_digits(value / 10)[0]);
    }
}

/// Two texts are the same but for case exactly if they are as long and each
/// character is the same but for case.
pub proof fn case_is_ignored_character_by_character(left: Seq<char>, right: Seq<char>)
    ensures
        lowered(left) == lowered(right) <==> left.len() == right.len() && forall|i: int|
            0 <= i < left.len() ==> ascii_lower(#[trigger] left[i]) == ascii_lower(right[i]),
{
    if lowered(left) == lowered(right) {
        assert(lowered(left).len() == left.len() && lowered(right).len() == right.len());
        assert forall|i: int| 0 <= i < left.len() implies ascii_lower(#[trigger] left[i])
            == ascii_lower(right[i]) by {
            assert(lowered(left)[i] == lowered(right)[i]);
        }
    }
    if left.len() == right.len() && forall|i: int|
        0 <= i < left.len() ==> ascii_lower(#[trigger] left[i]) == ascii_lower(right[i]) {
        assert(lowered(left) =~= lowered(right));
    }
}

} // verus!
