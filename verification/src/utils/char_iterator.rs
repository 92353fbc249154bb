//! A cursor over the characters of a text.

use vstd::prelude::*;

verus! {

/// Whether `c` has the Unicode property White_Space.
pub open spec fn is_whitespace(c: char) -> bool {
    ||| '\u{9}' <= c <= '\u{d}'
    ||| c == ' '
    ||| c == '\u{85}'
    ||| c == '\u{a0}'
    ||| c == '\u{1680}'
    ||| '\u{2000}' <= c <= '\u{200a}'
    ||| c == '\u{2028}'
    ||| c == '\u{2029}'
    ||| c == '\u{202f}'
    ||| c == '\u{205f}'
    ||| c == '\u{3000}'
}

/// The classes of characters that a cursor can skip over.
#[derive(Clone, Copy, PartialEq, Eq, Debug, Structural)]
pub enum CharClass {
    /// Every character with the property White_Space.
    Whitespace,
    /// The space character alone.
    Space,
    /// Every character except the line feed.
    NotNewLine,
}

impl CharClass {
    /// Whether `c` belongs to the class.
    pub open spec fn holds(self, c: char) -> bool {
        match self {
            CharClass::Whitespace => is_whitespace(c),
            CharClass::Space => c == ' ',
            CharClass::NotNewLine => c != '\n',
        }
    }

    /// Tests whether `c` belongs to the class.
    pub fn contains(self, c: char) -> (r: bool)
        ensures
            r == self.holds(c),
    {
        match self {
            CharClass::Whitespace => {
                ('\u{9}' <= c && c <= '\u{d}') || c == ' ' || c == '\u{85}' || c == '\u{a0}' || c
                    == '\u{1680}' || ('\u{2000}' <= c && c <= '\u{200a}') || c == '\u{2028}' || c
                    == '\u{2029}' || c == '\u{202f}' || c == '\u{205f}' || c == '\u{3000}'
            },
            CharClass::Space => c == ' ',
            CharClass::NotNewLine => c != '\n',
        }
    }
}

/// The first position at or after `pos` whose character is outside `class`,
/// or the length of `text` when every character from `pos` on is inside.
pub open spec fn run_end(text: Seq<char>, pos: int, class: CharClass) -> int
    decreases text.len() - pos,
{
    if 0 <= pos < text.len() && class.holds(text[pos]) {
        run_end(text, pos + 1, class)
    } else {
        pos
    }
}

/// How many characters of `pattern`, from its `from`-th on, are found in
/// `text` at `pos + from` and after, before the first difference.
pub open spec fn matched_len(text: Seq<char>, pos: int, pattern: Seq<char>, from: int) -> int
    decreases pattern.len() - from,
{
    if 0 <= from < pattern.len() && 0 <= pos + from < text.len() && text[pos + from]
        == pattern[from] {
        matched_len(text, pos, pattern, from + 1)
    } else {
        from
    }
}

/// Whether `pattern` stands in `text` at `pos`.
pub open spec fn starts_with_at(text: Seq<char>, pos: int, pattern: Seq<char>) -> bool {
    matched_len(text, pos, pattern, 0) == pattern.len()
}

pub proof fn lemma_run_end_bounds(text: Seq<char>, pos: int, class: CharClass)
    requires
        0 <= pos <= text.len(),
    ensures
        pos <= run_end(text, pos, class) <= text.len(),
    decreases text.len() - pos,
{
    if pos < text.len() && class.holds(text[pos]) {
        lemma_run_end_bounds(text, pos + 1, class);
    }
}

pub proof fn lemma_matched_len_bounds(text: Seq<char>, pos: int, pattern: Seq<char>, from: int)
    requires
        0 <= pos <= text.len(),
        0 <= from <= pattern.len(),
        pos + from <= text.len(),
    ensures
        from <= matched_len(text, pos, pattern, from) <= pattern.len(),
        pos + matched_len(text, pos, pattern, from) <= text.len(),
    decreases pattern.len() - from,
{
    if from < pattern.len() && pos + from < text.len() && text[pos + from] == pattern[from] {
        lemma_matched_len_bounds(text, pos, pattern, from + 1);
    }
}

/// The characters of `text`, one by one.
pub fn chars_of(text: &str) -> (chars: Vec<char>)
    ensures
        chars@ == text@,
{
    let mut chars: Vec<char> = Vec::new();
    for c in it: text.chars()
        invariant
            chars@ == it.seq().take(it.index() as int),
            it.seq() == text@,
    {
        chars.push(c);
    }
    chars
}

/// A cursor over the characters of a text: the text and the position of the
/// next character to hand out.
pub struct CharIterator {
    chars: Vec<char>,
    pos: usize,
}

impl CharIterator {
    /// The whole text that the cursor runs over.
    pub closed spec fn text(&self) -> Seq<char> {
        self.chars@
    }

    /// The position of the next character.
    pub closed spec fn position(&self) -> nat {
        self.pos as nat
    }

    /// The position never passes the end of the text.
    #[verifier::type_invariant]
    pub closed spec fn well_formed(&self) -> bool {
        self.pos <= self.chars.len()
    }

    /// A cursor at the start of `text`.
    pub fn new(text: &str) -> (r: Self)
        ensures
            r.text() == text@,
            r.position() == 0,
    {
        CharIterator { chars: chars_of(text), pos: 0 }
    }

    /// The next character, which stays in place; `None` at the end.
    pub fn peek_next(&self) -> (r: Option<char>)
        ensures
            self.position() <= self.text().len(),
            r == if self.position() < self.text().len() {
                Some(self.text()[self.position() as int])
            } else {
                None
            },
    {
        proof {
            use_type_invariant(self);
        }
        if self.pos < self.chars.len() {
            Some(self.chars[self.pos])
        } else {
            None
        }
    }

    /// The character behind the next one, which stays in place; `None`
    /// where fewer than two characters are left.
    pub fn peek_second(&self) -> (r: Option<char>)
        ensures
            self.position() <= self.text().len(),
            r == if self.position() + 1 < self.text().len() {
                Some(self.text()[self.position() as int + 1])
            } else {
                None
            },
    {
        proof {
            use_type_invariant(self);
        }
        if self.pos < self.chars.len() && self.pos + 1 < self.chars.len() {
            Some(self.chars[self.pos + 1])
        } else {
            None
        }
    }

    /// Hands out the next character and steps over it; `None` at the end,
    /// where the cursor stays.
    pub fn move_next(&mut self) -> (r: Option<char>)
        ensures
            final(self).text() == old(self).text(),
            old(self).position() <= old(self).text().len(),
            r == if old(self).position() < old(self).text().len() {
                Some(old(self).text()[old(self).position() as int])
            } else {
                None
            },
            final(self).position() == if r is Some {
                old(self).position() + 1
            } else {
                old(self).position()
            },
    {
        proof {
            use_type_invariant(&*self);
        }
        if self.pos < self.chars.len() {
            let c = self.chars[self.pos];
            self.pos = self.pos + 1;
            Some(c)
        } else {
            None
        }
    }

    /// Steps over the characters of `class` that come next.
    pub fn skip_all(&mut self, class: CharClass)
        ensures
            final(self).text() == old(self).text(),
            final(self).position() == run_end(old(self).text(), old(self).position() as int, class),
            old(self).position() <= final(self).position() <= old(self).text().len(),
    {
        proof {
            use_type_invariant(&*self);
            lemma_run_end_bounds(self.chars@, self.pos as int, class);
        }
        let ghost start = self.pos as int;
        while self.pos < self.chars.len() && class.contains(self.chars[self.pos])
            invariant
                self.chars == old(self).chars,
                start <= self.pos <= self.chars.len(),
                run_end(self.chars@, self.pos as int, class) == run_end(self.chars@, start, class),
            decreases self.chars.len() - self.pos,
        {
            self.pos = self.pos + 1;
        }
    }

    /// Steps over the white space that comes next.
    pub fn skip_whitespace(&mut self)
        ensures
            final(self).text() == old(self).text(),
            final(self).position() == run_end(
                old(self).text(),
                old(self).position() as int,
                CharClass::Whitespace,
            ),
            old(self).position() <= final(self).position() <= old(self).text().len(),
    {
        self.skip_all(CharClass::Whitespace)
    }

    /// Steps over the space characters that come next.
    pub fn skip_spaces(&mut self)
        ensures
            final(self).text() == old(self).text(),
            final(self).position() == run_end(
                old(self).text(),
                old(self).position() as int,
                CharClass::Space,
            ),
            old(self).position() <= final(self).position() <= old(self).text().len(),
    {
        self.skip_all(CharClass::Space)
    }

    /// Steps to the next line feed, or to the end where there is none.
    pub fn skip_all_until_new_line(&mut self)
        ensures
            final(self).text() == old(self).text(),
            final(self).position() == run_end(
                old(self).text(),
                old(self).position() as int,
                CharClass::NotNewLine,
            ),
            old(self).position() <= final(self).position() <= old(self).text().len(),
    {
        self.skip_all(CharClass::NotNewLine)
    }

    /// Steps over the characters that agree with `pattern`, up to the first
    /// that differs, and tells whether the whole of `pattern` was found.
    pub fn check_text(&mut self, pattern: &Vec<char>) -> (r: bool)
        ensures
            final(self).text() == old(self).text(),
            final(self).position() == old(self).position() + matched_len(
                old(self).text(),
                old(self).position() as int,
                pattern@,
                0,
            ),
            r == starts_with_at(old(self).text(), old(self).position() as int, pattern@),
            old(self).position() <= final(self).position() <= old(self).text().len(),
    {
        proof {
            use_type_invariant(&*self);
            lemma_matched_len_bounds(self.chars@, self.pos as int, pattern@, 0);
        }
        let ghost start = self.pos as int;
        let mut taken: usize = 0;
        while taken < pattern.len() && self.pos < self.chars.len() && self.chars[self.pos]
            == pattern[taken]
            invariant
                self.chars == old(self).chars,
                start == old(self).pos,
                self.pos == start + taken,
                taken <= pattern.len(),
                self.pos <= self.chars.len(),
                matched_len(self.chars@, start, pattern@, taken as int) == matched_len(
                    self.chars@,
                    start,
                    pattern@,
                    0,
                ),
            decreases pattern.len() - taken,
        {
            self.pos = self.pos + 1;
            taken = taken + 1;
        }
        taken == pattern.len()
    }
}

} // verus!
