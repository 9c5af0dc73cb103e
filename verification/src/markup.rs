//! The pages that the browser writes itself.

use crate::text::chars_of;
use vstd::prelude::*;

verus! {

/// The page that is shown when nothing else is.
pub const WELCOME_HTML: &'static str = r#"<!doctype html>
<html>
  <head>
    <title>Myrica</title>
    <style>
      html, body { height: 100%; margin: 0; }
      body {
        display: grid;
        place-items: center;
        background: #f7f5f2;
        color: #282522;
        font-family: sans-serif;
      }
      main { width: min(38rem, 82vw); }
      h1 { margin: 0 0 0.4rem; color: #a41e35; font-size: 3rem; }
      p { line-height: 1.6; }
      code { color: #7c1930; }
    </style>
  </head>
  <body>
    <main>
      <h1>Myrica</h1>
      <p>A native browser shell for Scarlet.</p>
      <p>The current engine is <code>Blitz</code>. Servo is next.</p>
    </main>
  </body>
</html>"#;

/// The error page up to the address.
pub const ERROR_PAGE_HEAD: &'static str = r#"<!doctype html>
<html><head><title>Could not load page</title><style>
html,body{height:100%;margin:0}body{display:grid;place-items:center;background:#f7f5f2;color:#282522;font-family:sans-serif}
main{width:min(42rem,82vw)}h1{color:#a41e35}code{word-break:break-all}
</style></head><body><main><h1>Could not load page</h1><p><code>"#;

/// The error page between the address and the message.
pub const ERROR_PAGE_MIDDLE: &'static str = "</code></p><p>";

/// The error page after the message.
pub const ERROR_PAGE_TAIL: &'static str = "</p></main></body></html>";

/// What stands for a character in markup.
pub open spec fn escaped_char(c: char) -> Seq<char> {
    if c == '&' {
        "&amp;"@
    } else if c == '<' {
        "&lt;"@
    } else if c == '>' {
        "&gt;"@
    } else if c == '"' {
        "&quot;"@
    } else if c == '\'' {
        "&#39;"@
    } else {
        seq![c]
    }
}

/// What stands for a text in markup.
pub open spec fn escaped(text: Seq<char>) -> Seq<char>
    decreases text.len(),
{
    if text.len() == 0 {
        Seq::empty()
    } else {
        escaped(text.drop_last()) + escaped_char(text.last())
    }
}

/// Whether `text` has `prefix` at its beginning.
pub open spec fn at_front(text: Seq<char>, prefix: Seq<char>) -> bool {
    prefix.len() <= text.len() && text.subrange(0, prefix.len() as int) == prefix
}

/// The text that a reader of markup sees: the five character references are
/// what they stand for, and everything else is itself.
pub open spec fn read_back(markup: Seq<char>) -> Seq<char>
    decreases markup.len(),
{
    if markup.len() == 0 {
        Seq::empty()
    } else if at_front(markup, seq!['&', 'a', 'm', 'p', ';']) {
        seq!['&'] + read_back(markup.skip(5))
    } else if at_front(markup, seq!['&', 'l', 't', ';']) {
        seq!['<'] + read_back(markup.skip(4))
    } else if at_front(markup, seq!['&', 'g', 't', ';']) {
        seq!['>'] + read_back(markup.skip(4))
    } else if at_front(markup, seq!['&', 'q', 'u', 'o', 't', ';']) {
        seq!['"'] + read_back(markup.skip(6))
    } else if at_front(markup, seq!['&', '#', '3', '9', ';']) {
        seq!['\''] + read_back(markup.skip(5))
    } else {
        seq![markup[0]] + read_back(markup.skip(1))
    }
}

/// Write a text so that it is text, not markup.
pub fn escape_html(value: &str) -> (result: String)
    ensures
        result@ == escaped(value@),
{
    let chars = chars_of(value);
    let mut result = String::new();
    let mut i: usize = 0;
    while i < chars.len()
        invariant
            i <= chars.len(),
            chars@ == value@,
            result@ == escaped(value@.take(i as int)),
        decreases chars.len() - i,
    {
        let c = chars[i];
        assert(value@.take(i + 1).drop_last() =~= value@.take(i as int));
        if c == '&' {
            result.push_str("&amp;");
        } else if c == '<' {
            result.push_str("&lt;");
        } else if c == '>' {
            result.push_str("&gt;");
        } else if c == '"' {
            result.push_str("&quot;");
        } else if c == '\'' {
            result.push_str("&#39;");
        } else {
            result.push(c);
            assert(result@ =~= escaped(value@.take(i as int)) + seq![c]);
        }
        i += 1;
    }
    assert(value@.take(i as int) =~= value@);
    result
}

/// The page that says that a page could not be loaded.
pub open spec fn error_page_text(url: Seq<char>, error: Seq<char>) -> Seq<char> {
    ERROR_PAGE_HEAD@ + escaped(url) + ERROR_PAGE_MIDDLE@ + escaped(error) + ERROR_PAGE_TAIL@
}

/// Write the page that says that a page could not be loaded.
pub fn error_page(url: &str, error: &str) -> (result: String)
    ensures
        result@ == error_page_text(url@, error@),
{
    let mut result = String::new();
    result.push_str(ERROR_PAGE_HEAD);
    let address = escape_html(url);
    result.push_str(address.as_str());
    result.push_str(ERROR_PAGE_MIDDLE);
    let message = escape_html(error);
    result.push_str(message.as_str());
    result.push_str(ERROR_PAGE_TAIL);
    assert(result@ =~= error_page_text(url@, error@));
    result
}

/// No address and no message can put markup into a page: an escaped text holds
/// neither angle brackets nor quotes.
pub proof fn escaped_text_is_no_markup(text: Seq<char>)
    ensures
        forall|i: int|
            0 <= i < escaped(text).len() ==> {
                let c = #[trigger] escaped(text)[i];
                c != '<' && c != '>' && c != '"' && c != '\''
            },
    decreases text.len(),
{
    reveal_strlit("&amp;");
    reveal_strlit("&lt;");
    reveal_strlit("&gt;");
    reveal_strlit("&quot;");
    reveal_strlit("&#39;");
    if text.len() > 0 {
        let before = escaped(text.drop_last());
        let added = escaped_char(text.last());
        escaped_text_is_no_markup(text.drop_last());
        assert forall|i: int| 0 <= i < escaped(text).len() implies ({
            let c = #[trigger] escaped(text)[i];
            c != '<' && c != '>' && c != '"' && c != '\''
        }) by {
            if i < before.len() {
                assert(escaped(text)[i] == before[i]);
            } else {
                assert(escaped(text)[i] == added[i - before.len()]);
            }
        }
    }
}

proof fn escaped_from_front(text: Seq<char>)
    requires
        text.len() > 0,
    ensures
        escaped(text) == escaped_char(text[0]) + escaped(text.drop_first()),
    decreases text.len(),
{
    if text.len() == 1 {
        assert(text.drop_last() =~= Seq::empty());
        assert(text.drop_first() =~= Seq::empty());
        assert(escaped(text) =~= escaped_char(text[0]) + escaped(text.drop_first()));
    } else {
        escaped_from_front(text.drop_last());
        assert(text.drop_last().drop_first() =~= text.drop_first().drop_last());
        assert(escaped(text) =~= escaped_char(text[0]) + escaped(text.drop_first()));
    }
}

/// Escaping loses nothing: a reader of the escaped text sees the text.
pub proof fn escaped_text_reads_back(text: Seq<char>)
    ensures
        read_back(escaped(text)) == text,
    decreases text.len(),
{
    reveal_strlit("&amp;");
    reveal_strlit("&lt;");
    reveal_strlit("&gt;");
    reveal_strlit("&quot;");
    reveal_strlit("&#39;");
    if text.len() > 0 {
        let rest = text.drop_first();
        let c = text[0];
        escaped_from_front(text);
        escaped_text_reads_back(rest);
        let whole = escaped(text);
        let part = escaped_char(c);
        assert(whole.skip(part.len() as int) =~= escaped(rest));
        if c == '&' {
            assert(whole.subrange(0, 5) =~= seq!['&', 'a', 'm', 'p', ';']);
        } else if c == '<' {
            assert(whole.subrange(0, 4) =~= seq!['&', 'l', 't', ';']);
            assert(whole[1] == 'l');
            assert(!at_front(whole, seq!['&', 'a', 'm', 'p', ';'])) by {
                if at_front(whole, seq!['&', 'a', 'm', 'p', ';']) {
                    assert(whole.subrange(0, 5)[1] == 'a');
                }
            }
        } else if c == '>' {
            assert(whole.subrange(0, 4) =~= seq!['&', 'g', 't', ';']);
            assert(whole[1] == 'g');
            assert(!at_front(whole, seq!['&', 'a', 'm', 'p', ';'])) by {
                if at_front(whole, seq!['&', 'a', 'm', 'p', ';']) {
                    assert(whole.subrange(0, 5)[1] == 'a');
                }
            }
            assert(!at_front(whole, seq!['&', 'l', 't', ';'])) by {
                if at_front(whole, seq!['&', 'l', 't', ';']) {
                    assert(whole.subrange(0, 4)[1] == 'l');
                }
            }
        } else if c == '"' {
            assert(whole.subrange(0, 6) =~= seq!['&', 'q', 'u', 'o', 't', ';']);
            assert(whole[1] == 'q');
            read_back_of_other_reference(whole);
        } else if c == '\'' {
            assert(whole.subrange(0, 5) =~= seq!['&', '#', '3', '9', ';']);
            assert(whole[1] == '#');
            read_back_of_other_reference(whole);
            assert(!at_front(whole, seq!['&', 'q', 'u', 'o', 't', ';'])) by {
                if at_front(whole, seq!['&', 'q', 'u', 'o', 't', ';']) {
                    assert(whole.subrange(0, 6)[1] == 'q');
                }
            }
        } else {
            assert(whole[0] == c);
            plain_character_is_no_reference(whole);
        }
        assert(read_back(whole) =~= seq![c] + read_back(escaped(rest)));
        assert(seq![c] + rest =~= text);
    }
}

proof fn read_back_of_other_reference(whole: Seq<char>)
    requires
        whole.len() > 1,
        whole[1] == 'q' || whole[1] == '#',
    ensures
        !at_front(whole, seq!['&', 'a', 'm', 'p', ';']),
        !at_front(whole, seq!['&', 'l', 't', ';']),
        !at_front(whole, seq!['&', 'g', 't', ';']),
{
    if at_front(whole, seq!['&', 'a', 'm', 'p', ';']) {
        assert(whole.subrange(0, 5)[1] == 'a');
    }
    if at_front(whole, seq!['&', 'l', 't', ';']) {
        assert(whole.subrange(0, 4)[1] == 'l');
    }
    if at_front(whole, seq!['&', 'g', 't', ';']) {
        assert(whole.subrange(0, 4)[1] == 'g');
    }
}

proof fn plain_character_is_no_reference(whole: Seq<char>)
    requires
        whole.len() > 0,
        whole[0] != '&',
    ensures
        !at_front(whole, seq!['&', 'a', 'm', 'p', ';']),
        !at_front(whole, seq!['&', 'l', 't', ';']),
        !at_front(whole, seq!['&', 'g', 't', ';']),
        !at_front(whole, seq!['&', 'q', 'u', 'o', 't', ';']),
        !at_front(whole, seq!['&', '#', '3', '9', ';']),
{
    if at_front(whole, seq!['&', 'a', 'm', 'p', ';']) {
        assert(whole.subrange(0, 5)[0] == '&');
    }
    if at_front(whole, seq!['&', 'l', 't', ';']) {
        assert(whole.subrange(0, 4)[0] == '&');
    }
    if at_front(whole, seq!['&', 'g', 't', ';']) {
        assert(whole.subrange(0, 4)[0] == '&');
    }
    if at_front(whole, seq!['&', 'q', 'u', 'o', 't', ';']) {
        assert(whole.subrange(0, 6)[0] == '&');
    }
    if at_front(whole, seq!['&', '#', '3', '9', ';']) {
        assert(whole.subrange(0, 5)[0] == '&');
    }
}

/// Texts are escaped character by character: the two parts of a text are escaped
/// as they would be alone.
pub proof fn parts_are_escaped_alone(first: Seq<char>, second: Seq<char>)
    ensures
        escaped(first + second) == escaped(first) + escaped(second),
    decreases second.len(),
{
    if second.len() == 0 {
        assert(first + second =~= first);
        assert(escaped(first) + escaped(second) =~= escaped(first));
    } else {
        assert((first + second).drop_last() =~= first + second.drop_last());
        parts_are_escaped_alone(first, second.drop_last());
        assert(escaped(first + second) =~= escaped(first) + escaped(second));
    }
}

/// A text without any of the five characters that mean something in markup is
/// left as it is.
pub proof fn plain_text_stays(text: Seq<char>)
    requires
        forall|i: int|
            0 <= i < text.len() ==> {
                let c = #[trigger] text[i];
                c != '&' && c != '<' && c != '>' && c != '"' && c != '\''
            },
    ensures
        escaped(text) == text,
    decreases text.len(),
{
    if text.len() > 0 {
        plain_text_stays(text.drop_last());
        assert(escaped(text) =~= text);
    }
}

/// Whether every error page is made of these three texts, with the address and
/// the message in between.
pub open spec fn frames_error_pages(head: Seq<char>, middle: Seq<char>, tail: Seq<char>) -> bool {
    forall|url: Seq<char>, error: Seq<char>| #[trigger]
        error_page_text(url, error) == head + escaped(url) + middle + escaped(error) + tail
}

/// Error pages differ only in the address and the message, which stand in them
/// as escaped text, the address first.
pub proof fn error_pages_name_address_and_message()
    ensures
        exists|head: Seq<char>, middle: Seq<char>, tail: Seq<char>| #[trigger]
            frames_error_pages(head, middle, tail),
{
    assert(frames_error_pages(ERROR_PAGE_HEAD@, ERROR_PAGE_MIDDLE@, ERROR_PAGE_TAIL@));
}

} // verus!
