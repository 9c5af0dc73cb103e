//! The text around the caret that an input method gets to see.

use crate::location::optional_text;
use crate::text::{copy_of, lowered, same_ignoring_case};
use vstd::prelude::*;

verus! {

/// How many bytes on either side of the caret are shown.
pub const IME_WINDOW: usize = 2048;

/// Whether `start` is the first character boundary at or after `from`.
pub open spec fn first_boundary_from(bytes: Seq<u8>, from: int, start: int) -> bool {
    &&& from <= start
    &&& vstd::utf8::is_char_boundary(bytes, start)
    &&& forall|i: int| from <= i < start ==> !#[trigger] vstd::utf8::is_char_boundary(bytes, i)
}

/// Whether `end` is the last character boundary at or before `upto`.
pub open spec fn last_boundary_upto(bytes: Seq<u8>, upto: int, end: int) -> bool {
    &&& end <= upto
    &&& vstd::utf8::is_char_boundary(bytes, end)
    &&& forall|i: int| end < i <= upto ==> !#[trigger] vstd::utf8::is_char_boundary(bytes, i)
}

/// Where the shown text would begin, were it not for character boundaries.
pub open spec fn window_start(cursor: int) -> int {
    if cursor >= IME_WINDOW {
        cursor - IME_WINDOW
    } else {
        0
    }
}

/// Where the shown text would end, were it not for character boundaries.
pub open spec fn window_end(length: int, cursor: int) -> int {
    if cursor + IME_WINDOW <= length {
        cursor + IME_WINDOW
    } else {
        length
    }
}

/// The position in a range that is nearest to `position`.
pub open spec fn clamped(position: int, start: int, end: int) -> int {
    if position < start {
        start
    } else if position > end {
        end
    } else {
        position
    }
}

/// Whether the result shows the text from the character boundary `start` to
/// the character boundary `end`, with the caret and the other end of the
/// selection counted from `start`.
pub open spec fn shows_window(
    bytes: Seq<u8>,
    cursor: int,
    anchor: int,
    start: int,
    end: int,
    result: (String, u32, u32),
) -> bool {
    &&& first_boundary_from(bytes, window_start(cursor), start)
    &&& last_boundary_upto(bytes, window_end(bytes.len() as int, cursor), end)
    &&& start <= cursor
    &&& start <= end
    &&& vstd::utf8::encode_utf8(result.0@) == bytes.subrange(start, end)
    &&& result.1 == cursor - start
    &&& result.2 == clamped(anchor, start, end) - start
}

/// The boundaries around a position in a text are never far away.
proof fn boundary_is_near(bytes: Seq<u8>, at: int)
    requires
        vstd::utf8::valid_utf8(bytes),
        0 <= at <= bytes.len(),
    ensures
        exists|i: int|
            at <= i <= at + 3 && i <= bytes.len() && #[trigger] vstd::utf8::is_char_boundary(bytes, i),
        exists|i: int| 0 <= i && at - 3 <= i <= at && #[trigger] vstd::utf8::is_char_boundary(bytes, i),
    decreases bytes.len(),
{
    vstd::utf8::is_char_boundary_start_end_of_seq(bytes);
    if bytes.len() == 0 {
        assert(vstd::utf8::is_char_boundary(bytes, at));
    } else {
        let width = vstd::utf8::length_of_first_scalar(bytes);
        let rest = vstd::utf8::pop_first_scalar(bytes);
        if at == 0 {
            assert(vstd::utf8::is_char_boundary(bytes, 0));
        } else if at < width {
            vstd::utf8::is_char_boundary_start_end_of_seq(rest);
            assert(vstd::utf8::is_char_boundary(rest, 0));
            assert(vstd::utf8::is_char_boundary(bytes, width));
            assert(vstd::utf8::is_char_boundary(bytes, 0));
        } else {
            boundary_is_near(rest, at - width);
            let up = choose|i: int|
                at - width <= i <= at - width + 3 && i <= rest.len() && #[trigger] vstd::utf8::is_char_boundary(
                    rest,
                    i,
                );
            assert(vstd::utf8::is_char_boundary(bytes, up + width));
            let down = choose|i: int|
                0 <= i && at - width - 3 <= i <= at - width && #[trigger] vstd::utf8::is_char_boundary(rest, i);
            assert(vstd::utf8::is_char_boundary(bytes, down + width));
        }
    }
}

/// A boundary of a text lies in the text.
proof fn boundary_is_inside(bytes: Seq<u8>, at: int)
    requires
        vstd::utf8::valid_utf8(bytes),
        vstd::utf8::is_char_boundary(bytes, at),
    ensures
        0 <= at <= bytes.len(),
{
}

/// A boundary of a text is one of each part of the text that holds it.
proof fn boundary_in_prefix(bytes: Seq<u8>, start: int, end: int)
    requires
        vstd::utf8::valid_utf8(bytes),
        vstd::utf8::is_char_boundary(bytes, start),
        vstd::utf8::is_char_boundary(bytes, end),
        0 <= start <= end <= bytes.len(),
    ensures
        vstd::utf8::is_char_boundary(bytes.subrange(0, end), start),
{
    let prefix = bytes.subrange(0, end);
    vstd::utf8::valid_utf8_split(bytes, end);
    if start == end {
        vstd::utf8::is_char_boundary_start_end_of_seq(prefix);
    } else {
        vstd::utf8::is_char_boundary_iff_not_is_continuation_byte(bytes, start);
        vstd::utf8::is_char_boundary_iff_not_is_continuation_byte(prefix, start);
    }
}

/// The text around the caret, bounded even for a large text and cut at
/// character boundaries, with the caret and the other end of the selection as
/// byte positions in it.
pub fn ime_surrounding_text(text: &str, cursor: usize, anchor: usize) -> (result: (
    String,
    u32,
    u32,
))
    requires
        cursor <= vstd::utf8::encode_utf8(text@).len() + IME_WINDOW,
    ensures
        exists|start: int, end: int| #[trigger]
            shows_window(vstd::utf8::encode_utf8(text@), cursor as int, anchor as int, start, end, result),
{
    let ghost bytes = vstd::utf8::encode_utf8(text@);
    proof {
        vstd::utf8::encode_utf8_valid_utf8(text@);
    }
    let length = text.as_bytes().len();
    let mut start: usize = if cursor >= IME_WINDOW {
        cursor - IME_WINDOW
    } else {
        0
    };
    let mut end: usize = if cursor < length && length - cursor >= IME_WINDOW {
        cursor + IME_WINDOW
    } else {
        length
    };
    let ghost from = start as int;
    let ghost upto = end as int;
    proof {
        boundary_is_near(bytes, from);
        boundary_is_near(bytes, upto);
    }
    let ghost near = choose|i: int|
        from <= i <= from + 3 && i <= bytes.len() && #[trigger] vstd::utf8::is_char_boundary(bytes, i);
    while !text.is_char_boundary(start)
        invariant
            bytes == vstd::utf8::encode_utf8(text@),
            from <= start <= near <= bytes.len(),
            near <= from + 3,
            vstd::utf8::is_char_boundary(bytes, near),
            forall|i: int| from <= i < start ==> !#[trigger] vstd::utf8::is_char_boundary(bytes, i),
            bytes.len() <= usize::MAX,
        decreases near - start,
    {
        start += 1;
    }
    let ghost below = choose|i: int|
        0 <= i && upto - 3 <= i <= upto && #[trigger] vstd::utf8::is_char_boundary(bytes, i);
    while !text.is_char_boundary(end)
        invariant
            bytes == vstd::utf8::encode_utf8(text@),
            0 <= below <= end <= upto,
            upto - 3 <= below,
            vstd::utf8::is_char_boundary(bytes, below),
            forall|i: int| end < i <= upto ==> !#[trigger] vstd::utf8::is_char_boundary(bytes, i),
        decreases end - below,
    {
        end -= 1;
    }
    proof {
        vstd::utf8::is_char_boundary_start_end_of_seq(bytes);
    }
    assert(start <= cursor && start <= end);
    let (head, _) = text.split_at(end);
    proof {
        boundary_in_prefix(bytes, start as int, end as int);
    }
    let (_, shown) = head.split_at(start);
    assert(bytes.subrange(0, end as int).subrange(start as int, end as int) =~= bytes.subrange(
        start as int,
        end as int,
    ));
    let bounded = if anchor < start {
        start
    } else if anchor > end {
        end
    } else {
        anchor
    };
    let result = (copy_of(shown), (cursor - start) as u32, (bounded - start) as u32);
    assert(shows_window(bytes, cursor as int, anchor as int, start as int, end as int, result));
    result
}

/// Whether an input element of the given type hides what is typed.
pub open spec fn hides_text(kind: Option<Seq<char>>) -> bool {
    kind matches Some(kind) && lowered(kind) == lowered("password"@)
}

/// What an input method is shown of a text field: the text around the caret, or
/// nothing where the field hides what is typed.  `kind` is the type that the
/// input element declares.
pub fn field_text(kind: &Option<String>, text: &str, cursor: usize, anchor: usize) -> (result: (
    String,
    u32,
    u32,
))
    requires
        hides_text(optional_text(*kind)) || cursor <= vstd::utf8::encode_utf8(text@).len()
            + IME_WINDOW,
    ensures
        hides_text(optional_text(*kind)) ==> result.0@ == Seq::<char>::empty() && result.1 == 0
            && result.2 == 0,
        !hides_text(optional_text(*kind)) ==> exists|start: int, end: int| #[trigger]
            shows_window(
                vstd::utf8::encode_utf8(text@),
                cursor as int,
                anchor as int,
                start,
                end,
                result,
            ),
{
    if let Some(kind) = kind {
        if same_ignoring_case(kind.as_str(), "password") {
            return (String::new(), 0, 0);
        }
    }
    ime_surrounding_text(text, cursor, anchor)
}

/// However large the text is, at most twice the window is shown, and the other
/// end of the selection is moved into what is shown.
pub proof fn surrounding_text_is_bounded(
    bytes: Seq<u8>,
    cursor: int,
    anchor: int,
    start: int,
    end: int,
    result: (String, u32, u32),
)
    requires
        vstd::utf8::valid_utf8(bytes),
        0 <= cursor,
        shows_window(bytes, cursor, anchor, start, end, result),
    ensures
        vstd::utf8::encode_utf8(result.0@).len() <= 2 * IME_WINDOW,
        result.2 <= vstd::utf8::encode_utf8(result.0@).len(),
{
    boundary_is_inside(bytes, end);
}

/// A caret between two characters of the text lies between the same two
/// characters of the shown text.
pub proof fn caret_stays_between_characters(
    bytes: Seq<u8>,
    cursor: int,
    anchor: int,
    start: int,
    end: int,
    result: (String, u32, u32),
)
    requires
        vstd::utf8::valid_utf8(bytes),
        0 <= cursor <= bytes.len(),
        vstd::utf8::is_char_boundary(bytes, cursor),
        shows_window(bytes, cursor, anchor, start, end, result),
    ensures
        vstd::utf8::is_char_boundary(vstd::utf8::encode_utf8(result.0@), result.1 as int),
        vstd::utf8::encode_utf8(result.0@).take(result.1 as int) == bytes.subrange(start, cursor),
        vstd::utf8::encode_utf8(result.0@).skip(result.1 as int) == bytes.subrange(cursor, end),
{
    let shown = vstd::utf8::encode_utf8(result.0@);
    vstd::utf8::encode_utf8_valid_utf8(result.0@);
    boundary_is_inside(bytes, end);
    assert(cursor <= end) by {
        if end < cursor {
            assert(vstd::utf8::is_char_boundary(bytes, cursor));
        }
    }
    if cursor == end {
        vstd::utf8::is_char_boundary_start_end_of_seq(shown);
    } else {
        vstd::utf8::is_char_boundary_iff_not_is_continuation_byte(bytes, cursor);
        vstd::utf8::is_char_boundary_iff_not_is_continuation_byte(shown, cursor - start);
        assert(shown[cursor - start] == bytes[cursor]);
    }
    assert(shown.take(result.1 as int) =~= bytes.subrange(start, cursor));
    assert(shown.skip(result.1 as int) =~= bytes.subrange(cursor, end));
}

/// As much of the text is shown as can be: on either side of the caret the text
/// goes on to its end, or for 2048 bytes, less only what is cut of a character
/// there.
pub proof fn as_much_text_is_shown_as_can_be(
    bytes: Seq<u8>,
    cursor: int,
    anchor: int,
    start: int,
    end: int,
    result: (String, u32, u32),
)
    requires
        vstd::utf8::valid_utf8(bytes),
        0 <= cursor <= bytes.len(),
        shows_window(bytes, cursor, anchor, start, end, result),
    ensures
        start == 0 || 2048 - 3 <= cursor - start <= 2048,
        end == bytes.len() || 2048 - 3 <= end - cursor <= 2048,
        vstd::utf8::encode_utf8(result.0@) == bytes.subrange(start, end),
        result.1 == cursor - start,
        start <= anchor <= end ==> result.2 == anchor - start,
        anchor < start ==> result.2 == 0,
        anchor > end ==> result.2 == end - start,
{
    vstd::utf8::is_char_boundary_start_end_of_seq(bytes);
    boundary_is_inside(bytes, start);
    boundary_is_inside(bytes, end);
    let from = window_start(cursor);
    let upto = window_end(bytes.len() as int, cursor);
    boundary_is_near(bytes, from);
    boundary_is_near(bytes, upto);
    let above = choose|i: int|
        from <= i <= from + 3 && i <= bytes.len() && #[trigger] vstd::utf8::is_char_boundary(
            bytes,
            i,
        );
    let below = choose|i: int|
        0 <= i && upto - 3 <= i <= upto && #[trigger] vstd::utf8::is_char_boundary(bytes, i);
    assert(start <= above) by {
        if above < start {
            assert(!vstd::utf8::is_char_boundary(bytes, above));
        }
    }
    assert(below <= end) by {
        if end < below {
            assert(!vstd::utf8::is_char_boundary(bytes, below));
        }
    }
    if cursor < 2048 {
        assert(start == 0) by {
            if start > 0 {
                assert(!vstd::utf8::is_char_boundary(bytes, 0));
            }
        }
    }
    if cursor + 2048 > bytes.len() {
        assert(end == bytes.len()) by {
            if end < bytes.len() {
                assert(!vstd::utf8::is_char_boundary(bytes, bytes.len() as int));
            }
        }
    }
}

/// Fields of the type `password` hide what is typed, however the word is written,
/// and no others do.
pub proof fn passwords_are_hidden(kind: Seq<char>)
    ensures
        !hides_text(None),
        hides_text(Some("password"@)),
        hides_text(Some(kind)) <==> kind.len() == 8 && forall|i: int|
            0 <= i < 8 ==> crate::text::ascii_lower(#[trigger] kind[i]) == "password"@[i],
{
    reveal_strlit("password");
    let word = lowered("password"@);
    assert(word =~= "password"@);
    if hides_text(Some(kind)) {
        assert(lowered(kind).len() == 8);
        assert forall|i: int| 0 <= i < 8 implies crate::text::ascii_lower(#[trigger] kind[i])
            == "password"@[i] by {
            assert(lowered(kind)[i] == word[i]);
        }
    }
    if kind.len() == 8 && forall|i: int|
        0 <= i < 8 ==> crate::text::ascii_lower(#[trigger] kind[i]) == "password"@[i] {
        assert(lowered(kind) =~= word);
    }
}

} // verus!
