//! Looks for the comment by which a file asks to be left unformatted.

use super::char_iterator::chars_of;
use super::char_iterator::lemma_matched_len_bounds;
use super::char_iterator::lemma_run_end_bounds;
use super::char_iterator::matched_len;
use super::char_iterator::run_end;
use super::char_iterator::starts_with_at;
use super::char_iterator::CharClass;
use super::char_iterator::CharIterator;
use vstd::prelude::*;

verus! {

/// The position just behind the first `*/` that starts at `pos` or after,
/// or the length of `text` when there is none.
pub open spec fn comment_end(text: Seq<char>, pos: int) -> int
    decreases text.len() - pos,
{
    if 0 <= pos < text.len() {
        if text[pos] == '*' && pos + 1 < text.len() && text[pos + 1] == '/' {
            pos + 2
        } else {
            comment_end(text, pos + 1)
        }
    } else {
        pos
    }
}

/// Where the scan goes on behind the comment whose two opening characters
/// end just before `body`. A `//` comment (`block` false) may have spaces
/// before its words and ends before the next line feed; a `/*` comment may
/// have any white space before its words and ends behind its `*/`. The
/// characters that agree with `ignore_text` are stepped over first.
pub open spec fn after_comment(text: Seq<char>, body: int, block: bool, ignore_text: Seq<char>) -> int {
    let words = run_end(text, body, if block { CharClass::Whitespace } else { CharClass::Space });
    let read = words + matched_len(text, words, ignore_text, 0);
    if block {
        comment_end(text, read)
    } else {
        run_end(text, read, CharClass::NotNewLine)
    }
}

/// Whether the words of the comment whose body starts at `body` begin with
/// `ignore_text`.
pub open spec fn comment_says(text: Seq<char>, body: int, block: bool, ignore_text: Seq<char>) -> bool {
    starts_with_at(
        text,
        run_end(text, body, if block { CharClass::Whitespace } else { CharClass::Space }),
        ignore_text,
    )
}

/// Whether one of the comments that lead `text` from `pos` on begins with
/// `ignore_text`. The leading comments are those with nothing but white
/// space before and between them.
pub open spec fn leading_comments_say(text: Seq<char>, pos: int, ignore_text: Seq<char>) -> bool
    decreases text.len() - pos,
{
    let start = run_end(text, pos, CharClass::Whitespace);
    if 0 <= pos <= start && start + 1 < text.len() && text[start] == '/' && (text[start + 1] == '/'
        || text[start + 1] == '*') {
        let block = text[start + 1] == '*';
        let next = after_comment(text, start + 2, block, ignore_text);
        comment_says(text, start + 2, block, ignore_text) || (pos < next <= text.len()
            && leading_comments_say(text, next, ignore_text))
    } else {
        false
    }
}

/// Where the comments of `text` may begin: behind the first line when it is
/// a shebang line, else at the start.
pub open spec fn comments_start(text: Seq<char>) -> int {
    if text.len() >= 2 && text[0] == '#' && text[1] == '!' {
        run_end(text, 2, CharClass::NotNewLine)
    } else {
        0
    }
}

/// Whether a comment at the head of `text`, behind an optional shebang
/// line, begins with `ignore_text`.
pub open spec fn has_ignore_comment(text: Seq<char>, ignore_text: Seq<char>) -> bool {
    leading_comments_say(text, comments_start(text), ignore_text)
}

pub proof fn lemma_comment_end_bounds(text: Seq<char>, pos: int)
    requires
        0 <= pos <= text.len(),
    ensures
        pos <= comment_end(text, pos) <= text.len(),
    decreases text.len() - pos,
{
    if pos < text.len() && !(text[pos] == '*' && pos + 1 < text.len() && text[pos + 1] == '/') {
        lemma_comment_end_bounds(text, pos + 1);
    }
}

/// The scan always goes forward: behind a comment it is at least two
/// characters further than where the comment began.
pub proof fn lemma_after_comment_bounds(text: Seq<char>, body: int, block: bool, ignore_text: Seq<char>)
    requires
        0 <= body <= text.len(),
    ensures
        body <= after_comment(text, body, block, ignore_text) <= text.len(),
{
    let class = if block { CharClass::Whitespace } else { CharClass::Space };
    lemma_run_end_bounds(text, body, class);
    let words = run_end(text, body, class);
    lemma_matched_len_bounds(text, words, ignore_text, 0);
    let read = words + matched_len(text, words, ignore_text, 0);
    if block {
        lemma_comment_end_bounds(text, read);
    } else {
        lemma_run_end_bounds(text, read, CharClass::NotNewLine);
    }
}

/// Reads a `//` comment whose two slashes were just read: tells whether its
/// words begin with `ignore_text`, and otherwise stops before the line feed.
fn check_single_line_comment(iterator: &mut CharIterator, ignore_text: &Vec<char>) -> (r: bool)
    ensures
        final(iterator).text() == old(iterator).text(),
        r == comment_says(old(iterator).text(), old(iterator).position() as int, false, ignore_text@),
        !r ==> final(iterator).position() == after_comment(
            old(iterator).text(),
            old(iterator).position() as int,
            false,
            ignore_text@,
        ),
{
    iterator.skip_spaces();
    if iterator.check_text(ignore_text) {
        return true;
    }
    iterator.skip_all_until_new_line();
    false
}

/// Reads a `/*` comment whose two opening characters were just read: tells
/// whether its words begin with `ignore_text`, and otherwise stops behind
/// the closing `*/`, or at the end of the text.
fn check_multi_line_comment(iterator: &mut CharIterator, ignore_text: &Vec<char>) -> (r: bool)
    ensures
        final(iterator).text() == old(iterator).text(),
        r == comment_says(old(iterator).text(), old(iterator).position() as int, true, ignore_text@),
        !r ==> final(iterator).position() == after_comment(
            old(iterator).text(),
            old(iterator).position() as int,
            true,
            ignore_text@,
        ),
{
    iterator.skip_whitespace();
    if iterator.check_text(ignore_text) {
        return true;
    }
    let ghost text = iterator.text();
    let ghost read = iterator.position() as int;
    loop
        invariant
            iterator.text() == text,
            text == old(iterator).text(),
            !comment_says(text, old(iterator).position() as int, true, ignore_text@),
            comment_end(text, read) == after_comment(
                text,
                old(iterator).position() as int,
                true,
                ignore_text@,
            ),
            read <= iterator.position() <= text.len(),
            comment_end(text, iterator.position() as int) == comment_end(text, read),
        decreases text.len() - iterator.position(),
    {
        match iterator.move_next() {
            Some(c) => {
                if c == '*' && iterator.peek_next() == Some('/') {
                    iterator.move_next();
                    return false;
                }
            },
            None => {
                return false;
            },
        }
    }
}

/// Tells whether `file_text` asks to be left alone: whether one of the
/// comments at its head, behind an optional shebang line, begins with
/// `ignore_text`.
pub fn file_text_has_ignore_comment(file_text: &str, ignore_text: &str) -> (r: bool)
    ensures
        r == has_ignore_comment(file_text@, ignore_text@),
{
    let mut iterator = CharIterator::new(file_text);
    let pattern = chars_of(ignore_text);
    let ghost text = file_text@;

    // skip over the shebang
    if iterator.peek_next() == Some('#') && iterator.peek_second() == Some('!') {
        iterator.move_next();
        iterator.move_next();
        iterator.skip_all_until_new_line();
    }
    assert(iterator.position() == comments_start(text));

    // now handle the comments
    while iterator.peek_next().is_some()
        invariant
            iterator.text() == text,
            text == file_text@,
            pattern@ == ignore_text@,
            iterator.position() <= text.len(),
            leading_comments_say(text, iterator.position() as int, ignore_text@) == has_ignore_comment(
                text,
                ignore_text@,
            ),
        decreases text.len() - iterator.position(),
    {
        let ghost pos = iterator.position() as int;
        iterator.skip_whitespace();
        let ghost start = iterator.position() as int;
        if iterator.move_next() != Some('/') {
            return false;
        }
        match iterator.move_next() {
            Some('/') => {
                proof {
                    lemma_after_comment_bounds(text, start + 2, false, ignore_text@);
                }
                if check_single_line_comment(&mut iterator, &pattern) {
                    return true;
                }
            },
            Some('*') => {
                proof {
                    lemma_after_comment_bounds(text, start + 2, true, ignore_text@);
                }
                if check_multi_line_comment(&mut iterator, &pattern) {
                    return true;
                }
            },
            _ => {
                return false;
            },
        }
    }

    false
}

} // verus!
