//! Splitting captured text into lines.
//!
//! A line ends at a line feed, or at a carriage return directly followed by
//! a line feed. The terminator is not part of the line. The last line needs
//! no terminator, and a carriage return that no line feed follows is an
//! ordinary character.

use vstd::prelude::*;
use vstd::utf8::{decode_utf8, valid_utf8};

verus! {

/// The position of the first line feed in `text`, or `text.len()` when
/// `text` holds none.
pub open spec fn first_line_feed(text: Seq<char>) -> nat
    decreases text.len(),
{
    if text.len() == 0 || text[0] == '\n' {
        0
    } else {
        1 + first_line_feed(text.drop_first())
    }
}

/// `line` without the carriage return at its end, if it has one there.
pub open spec fn without_final_cr(line: Seq<char>) -> Seq<char> {
    if line.len() > 0 && line.last() == '\r' {
        line.drop_last()
    } else {
        line
    }
}

/// The lines of `text`, in order, terminators removed.
///
/// Empty text has no lines. Text without a line feed is one line, kept as
/// it is. Otherwise the first line is what stands before the first line
/// feed, less one carriage return at its end, and the other lines are the
/// lines of what follows that line feed.
pub open spec fn text_lines(text: Seq<char>) -> Seq<Seq<char>>
    decreases text.len(),
{
    let end: int = first_line_feed(text) as int;
    if text.len() == 0 {
        Seq::empty()
    } else if end >= text.len() {
        seq![text]
    } else {
        seq![without_final_cr(text.subrange(0, end))] + text_lines(
            text.subrange(end + 1, text.len() as int),
        )
    }
}

/// `first_line_feed` finds position `k` when nothing before `k` is a line
/// feed and `k` is either a line feed or the end of the text.
pub proof fn lemma_first_line_feed_at(text: Seq<char>, k: int)
    requires
        0 <= k <= text.len(),
        forall|j: int| 0 <= j < k ==> text[j] != '\n',
        k < text.len() ==> text[k] == '\n',
    ensures
        first_line_feed(text) == k,
    decreases k,
{
    if k > 0 {
        lemma_first_line_feed_at(text.drop_first(), k - 1);
    }
}

/// What `first_line_feed` finds: a position within the text, with no line
/// feed before it, at which a line feed stands unless it is the end.
pub proof fn lemma_first_line_feed_is_first(text: Seq<char>)
    ensures
        first_line_feed(text) <= text.len(),
        forall|j: int| 0 <= j < first_line_feed(text) ==> text[j] != '\n',
        first_line_feed(text) < text.len() ==> text[first_line_feed(text) as int] == '\n',
    decreases text.len(),
{
    if text.len() > 0 && text[0] != '\n' {
        let rest = text.drop_first();
        lemma_first_line_feed_is_first(rest);
        assert forall|j: int| 0 <= j < first_line_feed(text) implies text[j] != '\n' by {
            if j > 0 {
                assert(text[j] == rest[j - 1]);
            }
        }
    }
}

/// No character of `line` is a line feed.
pub open spec fn has_no_line_feed(line: Seq<char>) -> bool {
    forall|j: int| 0 <= j < line.len() ==> line[j] != '\n'
}

/// No line keeps a line feed.
pub proof fn lemma_lines_have_no_line_feed(text: Seq<char>)
    ensures
        forall|i: int|
            0 <= i < text_lines(text).len() ==> has_no_line_feed(#[trigger] text_lines(text)[i]),
    decreases text.len(),
{
    lemma_first_line_feed_is_first(text);
    let end: int = first_line_feed(text) as int;
    if text.len() > 0 && end < text.len() {
        let others = text_lines(text.subrange(end + 1, text.len() as int));
        lemma_lines_have_no_line_feed(text.subrange(end + 1, text.len() as int));
        assert forall|i: int| 0 < i < text_lines(text).len() implies has_no_line_feed(
            #[trigger] text_lines(text)[i],
        ) by {
            assert(text_lines(text)[i] == others[i - 1]);
        }
    }
}

/// The text that comes of writing each of `lines` in turn, each followed by
/// `ending`.
pub open spec fn written(lines: Seq<Seq<char>>, ending: Seq<char>) -> Seq<char>
    decreases lines.len(),
{
    if lines.len() == 0 {
        Seq::empty()
    } else {
        lines[0] + ending + written(lines.drop_first(), ending)
    }
}

/// Splitting gives back what was written. When each of `lines` is written
/// with a line feed, or each with a carriage return and a line feed, and
/// then `last` with nothing after it, the lines of that text are `lines`,
/// and then `last` unless it is empty.
///
/// For this no line may hold a line feed, and a line written with a bare
/// line feed may not end in a carriage return, which would be taken for
/// part of the terminator.
pub proof fn lemma_lines_of_written(lines: Seq<Seq<char>>, ending: Seq<char>, last: Seq<char>)
    requires
        ending == seq!['\n'] || ending == seq!['\r', '\n'],
        forall|i: int| 0 <= i < lines.len() ==> has_no_line_feed(#[trigger] lines[i]),
        ending == seq!['\n'] ==> forall|i: int|
            0 <= i < lines.len() ==> without_final_cr(#[trigger] lines[i]) == lines[i],
        has_no_line_feed(last),
    ensures
        text_lines(written(lines, ending) + last) == if last.len() == 0 {
            lines
        } else {
            lines.push(last)
        },
    decreases lines.len(),
{
    let text = written(lines, ending) + last;
    if lines.len() == 0 {
        lemma_first_line_feed_at(last, last.len() as int);
    } else {
        let head = lines[0];
        let rest = lines.drop_first();
        // The first line feed of the text is the one that ends `head`.
        let k: int = head.len() + ending.len() - 1;
        lemma_first_line_feed_at(text, k);
        assert(without_final_cr(text.subrange(0, k)) == head);
        assert(text.subrange(k + 1, text.len() as int) == written(rest, ending) + last);
        lemma_lines_of_written(rest, ending, last);
    }
}

/// Splits `text` into its lines.
pub fn split_lines(text: &str) -> (lines: Vec<String>)
    ensures
        lines.deep_view() == text_lines(text@),
{
    let mut lines: Vec<String> = Vec::new();
    let mut line = String::new();
    // A carriage return that was read but not yet stored: it is dropped if
    // a line feed comes next and belongs to the line otherwise.
    let mut held_cr = false;
    let ghost mut start: int = 0;
    let chars = text.chars();
    assert(text@.skip(0) == text@);
    for c in it: chars
        invariant
            it.seq() == text@,
            0 <= start <= it.index(),
            forall|j: int| start <= j < it.index() ==> text@[j] != '\n',
            text@.subrange(start, it.index()) == if held_cr {
                line@.push('\r')
            } else {
                line@
            },
            !held_cr ==> without_final_cr(line@) == line@,
            text_lines(text@) == lines.deep_view() + text_lines(text@.skip(start)),
    {
        let ghost i: int = it.index();
        if c == '\n' {
            proof {
                // This line feed is the first one from `start` on, so the
                // line that ends here is the first line of what was left.
                let rest = text@.skip(start);
                lemma_first_line_feed_at(rest, i - start);
                assert(rest.subrange(0, i - start) == text@.subrange(start, i));
                assert(rest.subrange(i - start + 1, rest.len() as int) == text@.skip(i + 1));
                assert(without_final_cr(text@.subrange(start, i)) == line@);
                assert(lines.deep_view().push(line@) + text_lines(text@.skip(i + 1))
                    == lines.deep_view() + text_lines(rest));
                start = i + 1;
            }
            lines.push(line);
            line = String::new();
            held_cr = false;
        } else {
            if held_cr {
                line.push('\r');
            }
            if c == '\r' {
                held_cr = true;
            } else {
                line.push(c);
                held_cr = false;
            }
        }
    }
    if held_cr {
        line.push('\r');
    }
    proof {
        // What is left holds no line feed: it is the last line, or nothing.
        let rest = text@.skip(start);
        lemma_first_line_feed_at(rest, rest.len() as int);
    }
    if !line.as_str().is_empty() {
        lines.push(line);
    }
    lines
}

/// Decodes `vec` as UTF-8 and splits the text into its lines; `None` if
/// `vec` is not well-formed UTF-8.
pub fn try_vec_u8_to_vec_string(vec: Vec<u8>) -> (lines: Option<Vec<String>>)
    ensures
        lines is Some <==> valid_utf8(vec@),
        lines matches Some(l) ==> l.deep_view() == text_lines(decode_utf8(vec@)),
{
    match String::from_utf8(vec) {
        Ok(utf) => Some(split_lines(utf.as_str())),
        Err(_) => None,
    }
}

/// Decodes `vec`, which holds well-formed UTF-8, and splits the text into
/// its lines.
pub fn vec_u8_to_vec_string(vec: Vec<u8>) -> (lines: Vec<String>)
    requires
        valid_utf8(vec@),
    ensures
        lines.deep_view() == text_lines(decode_utf8(vec@)),
{
    let utf = String::from_utf8(vec).unwrap();
    split_lines(utf.as_str())
}

} // verus!
