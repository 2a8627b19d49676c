use vstd::prelude::*;
use vstd::string::StringExecFns;

use crate::text::{trim_bounds, trimmed};

use crate::text::{
    ascii_lowercase_string, ascii_lowercase_text, ascii_uppercase, chars_of, is_whitespace, push_char,
    string_from_chars,
    spec_ascii_uppercase, spec_is_whitespace,
};

verus! {

/// The words of `text`: its longest runs of characters that are not
/// whitespace, left to right.
pub open spec fn words(text: Seq<char>) -> Seq<Seq<char>>
    decreases text.len(),
{
    if text.len() == 0 {
        seq![]
    } else {
        let prefix = text.drop_last();
        let character = text.last();
        let before = words(prefix);
        if spec_is_whitespace(character) {
            before
        } else if prefix.len() > 0 && !spec_is_whitespace(prefix.last()) {
            before.update(before.len() - 1, before.last().push(character))
        } else {
            before.push(seq![character])
        }
    }
}

/// The words that stay small inside a title.
pub open spec fn small_words() -> Seq<Seq<char>> {
    seq![
        "of"@, "the"@, "and"@, "in"@, "on"@, "at"@, "to"@, "for"@, "by"@, "de"@, "del"@, "la"@,
    ]
}

/// `word` is one of the words that stay small inside a title.
pub open spec fn is_small_word(word: Seq<char>) -> bool {
    small_words().contains(word)
}

/// `word` with its first character made an ASCII capital.
pub open spec fn capitalized(word: Seq<char>) -> Seq<char> {
    if word.len() == 0 {
        word
    } else {
        seq![spec_ascii_uppercase(word[0])] + word.subrange(1, word.len() as int)
    }
}

/// Word `index` of a title: made small, then given a capital unless it is a
/// small word after the first.
pub open spec fn title_word(word: Seq<char>, index: int) -> Seq<char> {
    let lower = ascii_lowercase_text(word);
    if index > 0 && is_small_word(lower) {
        lower
    } else {
        capitalized(lower)
    }
}

/// `parts` joined with one space between each two.
pub open spec fn join_with_spaces(parts: Seq<Seq<char>>) -> Seq<char>
    decreases parts.len(),
{
    if parts.len() == 0 {
        seq![]
    } else if parts.len() == 1 {
        parts[0]
    } else {
        join_with_spaces(parts.drop_last()) + seq![' '] + parts.last()
    }
}

/// `text` in title case: its words, each as [`title_word`] gives it, with
/// one space between each two.
pub open spec fn initial_caps(text: Seq<char>) -> Seq<char> {
    let split = words(text);
    join_with_spaces(Seq::new(split.len(), |index: int| title_word(split[index], index)))
}

/// A text that ends in a character that is not whitespace has a word.
proof fn lemma_words_end_in_word(text: Seq<char>)
    requires
        text.len() > 0,
        !spec_is_whitespace(text.last()),
    ensures
        words(text).len() > 0,
    decreases text.len(),
{
    let prefix = text.drop_last();
    if prefix.len() > 0 && !spec_is_whitespace(prefix.last()) {
        lemma_words_end_in_word(prefix);
    }
}

/// The views of a vector of strings.
pub open spec fn string_views(strings: Seq<String>) -> Seq<Seq<char>> {
    strings.map_values(|text: String| text@)
}

/// The words of `text`, as `str::split_whitespace` gives them.
pub fn split_words(text: &str) -> (split: Vec<String>)
    ensures
        string_views(split@) == words(text@),
{
    let mut split: Vec<String> = Vec::new();
    let mut current = String::new();
    let mut in_word = false;
    let ghost mut index: int = 0;
    for character in it: text.chars()
        invariant
            index == it.index(),
            it.seq() == text@,
            in_word == (index > 0 && !spec_is_whitespace(text@[index - 1])),
            !in_word ==> current@ == Seq::<char>::empty(),
            in_word ==> string_views(split@).push(current@) == words(text@.take(index as int)),
            !in_word ==> string_views(split@) == words(text@.take(index as int)),
    {
        let ghost seen = text@.take(index as int);
        let ghost next = text@.take(index + 1);
        assert(next.drop_last() =~= seen);
        assert(next.last() == character);
        if is_whitespace(character) {
            if in_word {
                let finished = current;
                current = String::new();
                split.push(finished);
                assert(string_views(split@) =~= words(seen));
            }
            in_word = false;
        } else {
            if in_word {
                proof {
                    lemma_words_end_in_word(seen);
                }
                push_char(&mut current, character);
                assert(string_views(split@).push(current@) =~= words(next));
            } else {
                push_char(&mut current, character);
                assert(current@ =~= seq![character]);
                assert(string_views(split@).push(current@) =~= words(next));
            }
            in_word = true;
        }
        proof {
            index = index + 1;
        }
    }
    assert(text@.take(index as int) =~= text@);
    if in_word {
        split.push(current);
        assert(string_views(split@) =~= words(text@));
    }
    split
}

/// Whether `word` is one of the words that stay small inside a title.
fn small_word(word: &String) -> (small: bool)
    ensures
        small == is_small_word(word@),
{
    let candidates = ["of", "the", "and", "in", "on", "at", "to", "for", "by", "de", "del", "la"];
    let mut index: usize = 0;
    while index < 12
        invariant
            index <= 12,
            candidates@ == seq!["of", "the", "and", "in", "on", "at", "to", "for", "by", "de", "del", "la"],
            forall|k: int| 0 <= k < index ==> word@ != (#[trigger] candidates@[k])@,
        decreases 12 - index,
    {
        let candidate = candidates[index].to_owned();
        if *word == candidate {
            return true;
        }
        index = index + 1;
    }
    assert(candidates@.map_values(|candidate: &str| candidate@) =~= small_words());
    false
}

/// `word` with its first character made an ASCII capital.
fn capitalize(word: &str) -> (capital: String)
    ensures
        capital@ == capitalized(word@),
{
    let mut capital = String::new();
    let mut first = true;
    let ghost mut index: int = 0;
    for character in it: word.chars()
        invariant
            index == it.index(),
            first == (index == 0),
            it.seq() == word@,
            capital@ == capitalized(word@.take(index)),
    {
        if first {
            push_char(&mut capital, ascii_uppercase(character));
        } else {
            push_char(&mut capital, character);
        }
        assert(capitalized(word@.take(index + 1)) =~= capitalized(word@.take(index)).push(
            if index == 0 {
                spec_ascii_uppercase(character)
            } else {
                character
            },
        ));
        first = false;
        proof {
            index = index + 1;
        }
    }
    assert(word@.take(index) =~= word@);
    capital
}

/// `text` in title case: each word made small, then given a capital unless
/// it is a small word such as "of" after the first, and the words joined by
/// single spaces.
pub fn to_initial_caps(text: &str) -> (title: String)
    ensures
        title@ == initial_caps(text@),
{
    let split = split_words(text);
    let ghost parts = Seq::new(words(text@).len(), |index: int| title_word(words(text@)[index], index));
    let mut title = String::new();
    let mut index: usize = 0;
    while index < split.len()
        invariant
            index <= split@.len(),
            string_views(split@) == words(text@),
            parts == Seq::new(words(text@).len(), |index: int| title_word(words(text@)[index], index)),
            title@ == join_with_spaces(parts.take(index as int)),
        decreases split@.len() - index,
    {
        let lower = ascii_lowercase_string(split[index].as_str());
        let word = if index > 0 && small_word(&lower) {
            lower
        } else {
            capitalize(lower.as_str())
        };
        assert(word@ == parts[index as int]);
        if index > 0 {
            push_char(&mut title, ' ');
        }
        title.append(word.as_str());
        assert(parts.take(index as int + 1).drop_last() =~= parts.take(index as int));
        index = index + 1;
    }
    assert(parts.take(index as int) =~= parts);
    title
}

/// The 5 by 7 bitmap of `character` in the marine label font, one row per
/// byte, top first, the leftmost pixel in bit 4; blank for characters
/// the font lacks.
pub open spec fn marine_glyph_rows(character: char) -> Seq<u8> {
    match character {
        'A' => seq![0b01110, 0b10001, 0b10001, 0b11111, 0b10001, 0b10001, 0b10001],
        'B' => seq![0b11110, 0b10001, 0b10001, 0b11110, 0b10001, 0b10001, 0b11110],
        'C' => seq![0b01111, 0b10000, 0b10000, 0b10000, 0b10000, 0b10000, 0b01111],
        'D' => seq![0b11110, 0b10001, 0b10001, 0b10001, 0b10001, 0b10001, 0b11110],
        'E' => seq![0b11111, 0b10000, 0b10000, 0b11110, 0b10000, 0b10000, 0b11111],
        'F' => seq![0b11111, 0b10000, 0b10000, 0b11110, 0b10000, 0b10000, 0b10000],
        'G' => seq![0b01111, 0b10000, 0b10000, 0b10111, 0b10001, 0b10001, 0b01111],
        'H' => seq![0b10001, 0b10001, 0b10001, 0b11111, 0b10001, 0b10001, 0b10001],
        'I' => seq![0b11111, 0b00100, 0b00100, 0b00100, 0b00100, 0b00100, 0b11111],
        'J' => seq![0b00111, 0b00010, 0b00010, 0b00010, 0b10010, 0b10010, 0b01100],
        'K' => seq![0b10001, 0b10010, 0b10100, 0b11000, 0b10100, 0b10010, 0b10001],
        'L' => seq![0b10000, 0b10000, 0b10000, 0b10000, 0b10000, 0b10000, 0b11111],
        'M' => seq![0b10001, 0b11011, 0b10101, 0b10101, 0b10001, 0b10001, 0b10001],
        'N' => seq![0b10001, 0b11001, 0b10101, 0b10011, 0b10001, 0b10001, 0b10001],
        'O' => seq![0b01110, 0b10001, 0b10001, 0b10001, 0b10001, 0b10001, 0b01110],
        'P' => seq![0b11110, 0b10001, 0b10001, 0b11110, 0b10000, 0b10000, 0b10000],
        'Q' => seq![0b01110, 0b10001, 0b10001, 0b10001, 0b10101, 0b10010, 0b01101],
        'R' => seq![0b11110, 0b10001, 0b10001, 0b11110, 0b10100, 0b10010, 0b10001],
        'S' => seq![0b01111, 0b10000, 0b10000, 0b01110, 0b00001, 0b00001, 0b11110],
        'T' => seq![0b11111, 0b00100, 0b00100, 0b00100, 0b00100, 0b00100, 0b00100],
        'U' => seq![0b10001, 0b10001, 0b10001, 0b10001, 0b10001, 0b10001, 0b01110],
        'V' => seq![0b10001, 0b10001, 0b10001, 0b10001, 0b10001, 0b01010, 0b00100],
        'W' => seq![0b10001, 0b10001, 0b10001, 0b10101, 0b10101, 0b11011, 0b10001],
        'X' => seq![0b10001, 0b10001, 0b01010, 0b00100, 0b01010, 0b10001, 0b10001],
        'Y' => seq![0b10001, 0b10001, 0b01010, 0b00100, 0b00100, 0b00100, 0b00100],
        'Z' => seq![0b11111, 0b00001, 0b00010, 0b00100, 0b01000, 0b10000, 0b11111],
        'a' => seq![0, 0b01110, 0b00001, 0b01111, 0b10001, 0b10011, 0b01101],
        'b' => seq![0b10000, 0b10000, 0b10110, 0b11001, 0b10001, 0b10001, 0b11110],
        'c' => seq![0, 0, 0b01110, 0b10000, 0b10000, 0b10001, 0b01110],
        'd' => seq![0b00001, 0b00001, 0b01101, 0b10011, 0b10001, 0b10001, 0b01111],
        'e' => seq![0, 0, 0b01110, 0b10001, 0b11111, 0b10000, 0b01110],
        'f' => seq![0b00110, 0b01001, 0b01000, 0b11100, 0b01000, 0b01000, 0b01000],
        'g' => seq![0, 0b01111, 0b10001, 0b10001, 0b01111, 0b00001, 0b01110],
        'h' => seq![0b10000, 0b10000, 0b10110, 0b11001, 0b10001, 0b10001, 0b10001],
        'i' => seq![0b00100, 0, 0b01100, 0b00100, 0b00100, 0b00100, 0b01110],
        'j' => seq![0b00010, 0, 0b00110, 0b00010, 0b00010, 0b10010, 0b01100],
        'k' => seq![0b10000, 0b10000, 0b10010, 0b10100, 0b11000, 0b10100, 0b10010],
        'l' => seq![0b01100, 0b00100, 0b00100, 0b00100, 0b00100, 0b00100, 0b01110],
        'm' => seq![0, 0, 0b11010, 0b10101, 0b10101, 0b10101, 0b10101],
        'n' => seq![0, 0, 0b10110, 0b11001, 0b10001, 0b10001, 0b10001],
        'o' => seq![0, 0, 0b01110, 0b10001, 0b10001, 0b10001, 0b01110],
        'p' => seq![0, 0b11110, 0b10001, 0b10001, 0b11110, 0b10000, 0b10000],
        'q' => seq![0, 0b01111, 0b10001, 0b10001, 0b01111, 0b00001, 0b00001],
        'r' => seq![0, 0, 0b10110, 0b11001, 0b10000, 0b10000, 0b10000],
        's' => seq![0, 0, 0b01111, 0b10000, 0b01110, 0b00001, 0b11110],
        't' => seq![0b01000, 0b01000, 0b11100, 0b01000, 0b01000, 0b01001, 0b00110],
        'u' => seq![0, 0, 0b10001, 0b10001, 0b10001, 0b10011, 0b01101],
        'v' => seq![0, 0, 0b10001, 0b10001, 0b10001, 0b01010, 0b00100],
        'w' => seq![0, 0, 0b10001, 0b10001, 0b10101, 0b10101, 0b01010],
        'x' => seq![0, 0, 0b10001, 0b01010, 0b00100, 0b01010, 0b10001],
        'y' => seq![0, 0, 0b10001, 0b10001, 0b01111, 0b00001, 0b01110],
        'z' => seq![0, 0, 0b11111, 0b00010, 0b00100, 0b01000, 0b11111],
        '-' => seq![0, 0, 0, 0b11111, 0, 0, 0],
        '\'' => seq![0b00100, 0b00100, 0b00010, 0, 0, 0, 0],
        _ => seq![0, 0, 0, 0, 0, 0, 0],
    }
}

/// The bitmap of `character` in the marine label font.
pub fn marine_glyph(character: char) -> (glyph: [u8; 7])
    ensures
        glyph@ == marine_glyph_rows(character),
{
    match character {
        'A' => [0b01110, 0b10001, 0b10001, 0b11111, 0b10001, 0b10001, 0b10001],
        'B' => [0b11110, 0b10001, 0b10001, 0b11110, 0b10001, 0b10001, 0b11110],
        'C' => [0b01111, 0b10000, 0b10000, 0b10000, 0b10000, 0b10000, 0b01111],
        'D' => [0b11110, 0b10001, 0b10001, 0b10001, 0b10001, 0b10001, 0b11110],
        'E' => [0b11111, 0b10000, 0b10000, 0b11110, 0b10000, 0b10000, 0b11111],
        'F' => [0b11111, 0b10000, 0b10000, 0b11110, 0b10000, 0b10000, 0b10000],
        'G' => [0b01111, 0b10000, 0b10000, 0b10111, 0b10001, 0b10001, 0b01111],
        'H' => [0b10001, 0b10001, 0b10001, 0b11111, 0b10001, 0b10001, 0b10001],
        'I' => [0b11111, 0b00100, 0b00100, 0b00100, 0b00100, 0b00100, 0b11111],
        'J' => [0b00111, 0b00010, 0b00010, 0b00010, 0b10010, 0b10010, 0b01100],
        'K' => [0b10001, 0b10010, 0b10100, 0b11000, 0b10100, 0b10010, 0b10001],
        'L' => [0b10000, 0b10000, 0b10000, 0b10000, 0b10000, 0b10000, 0b11111],
        'M' => [0b10001, 0b11011, 0b10101, 0b10101, 0b10001, 0b10001, 0b10001],
        'N' => [0b10001, 0b11001, 0b10101, 0b10011, 0b10001, 0b10001, 0b10001],
        'O' => [0b01110, 0b10001, 0b10001, 0b10001, 0b10001, 0b10001, 0b01110],
        'P' => [0b11110, 0b10001, 0b10001, 0b11110, 0b10000, 0b10000, 0b10000],
        'Q' => [0b01110, 0b10001, 0b10001, 0b10001, 0b10101, 0b10010, 0b01101],
        'R' => [0b11110, 0b10001, 0b10001, 0b11110, 0b10100, 0b10010, 0b10001],
        'S' => [0b01111, 0b10000, 0b10000, 0b01110, 0b00001, 0b00001, 0b11110],
        'T' => [0b11111, 0b00100, 0b00100, 0b00100, 0b00100, 0b00100, 0b00100],
        'U' => [0b10001, 0b10001, 0b10001, 0b10001, 0b10001, 0b10001, 0b01110],
        'V' => [0b10001, 0b10001, 0b10001, 0b10001, 0b10001, 0b01010, 0b00100],
        'W' => [0b10001, 0b10001, 0b10001, 0b10101, 0b10101, 0b11011, 0b10001],
        'X' => [0b10001, 0b10001, 0b01010, 0b00100, 0b01010, 0b10001, 0b10001],
        'Y' => [0b10001, 0b10001, 0b01010, 0b00100, 0b00100, 0b00100, 0b00100],
        'Z' => [0b11111, 0b00001, 0b00010, 0b00100, 0b01000, 0b10000, 0b11111],
        'a' => [0, 0b01110, 0b00001, 0b01111, 0b10001, 0b10011, 0b01101],
        'b' => [0b10000, 0b10000, 0b10110, 0b11001, 0b10001, 0b10001, 0b11110],
        'c' => [0, 0, 0b01110, 0b10000, 0b10000, 0b10001, 0b01110],
        'd' => [0b00001, 0b00001, 0b01101, 0b10011, 0b10001, 0b10001, 0b01111],
        'e' => [0, 0, 0b01110, 0b10001, 0b11111, 0b10000, 0b01110],
        'f' => [0b00110, 0b01001, 0b01000, 0b11100, 0b01000, 0b01000, 0b01000],
        'g' => [0, 0b01111, 0b10001, 0b10001, 0b01111, 0b00001, 0b01110],
        'h' => [0b10000, 0b10000, 0b10110, 0b11001, 0b10001, 0b10001, 0b10001],
        'i' => [0b00100, 0, 0b01100, 0b00100, 0b00100, 0b00100, 0b01110],
        'j' => [0b00010, 0, 0b00110, 0b00010, 0b00010, 0b10010, 0b01100],
        'k' => [0b10000, 0b10000, 0b10010, 0b10100, 0b11000, 0b10100, 0b10010],
        'l' => [0b01100, 0b00100, 0b00100, 0b00100, 0b00100, 0b00100, 0b01110],
        'm' => [0, 0, 0b11010, 0b10101, 0b10101, 0b10101, 0b10101],
        'n' => [0, 0, 0b10110, 0b11001, 0b10001, 0b10001, 0b10001],
        'o' => [0, 0, 0b01110, 0b10001, 0b10001, 0b10001, 0b01110],
        'p' => [0, 0b11110, 0b10001, 0b10001, 0b11110, 0b10000, 0b10000],
        'q' => [0, 0b01111, 0b10001, 0b10001, 0b01111, 0b00001, 0b00001],
        'r' => [0, 0, 0b10110, 0b11001, 0b10000, 0b10000, 0b10000],
        's' => [0, 0, 0b01111, 0b10000, 0b01110, 0b00001, 0b11110],
        't' => [0b01000, 0b01000, 0b11100, 0b01000, 0b01000, 0b01001, 0b00110],
        'u' => [0, 0, 0b10001, 0b10001, 0b10001, 0b10011, 0b01101],
        'v' => [0, 0, 0b10001, 0b10001, 0b10001, 0b01010, 0b00100],
        'w' => [0, 0, 0b10001, 0b10001, 0b10101, 0b10101, 0b01010],
        'x' => [0, 0, 0b10001, 0b01010, 0b00100, 0b01010, 0b10001],
        'y' => [0, 0, 0b10001, 0b10001, 0b01111, 0b00001, 0b01110],
        'z' => [0, 0, 0b11111, 0b00010, 0b00100, 0b01000, 0b11111],
        '-' => [0, 0, 0, 0b11111, 0, 0, 0],
        '\'' => [0b00100, 0b00100, 0b00010, 0, 0, 0, 0],
        _ => [0, 0, 0, 0, 0, 0, 0],
    }
}

/// Every small letter has a bitmap of its own, unlike its capital's.
pub proof fn law_small_letters_differ_from_capitals(letter: char)
    requires
        'a' <= letter <= 'z',
    ensures
        marine_glyph_rows(letter) != marine_glyph_rows(spec_ascii_uppercase(letter)),
{
    if letter == 'a' {
        assert(marine_glyph_rows(letter)[0] != marine_glyph_rows(spec_ascii_uppercase(letter))[0]);
    } else if letter == 'b' {
        assert(marine_glyph_rows(letter)[0] != marine_glyph_rows(spec_ascii_uppercase(letter))[0]);
    } else if letter == 'c' {
        assert(marine_glyph_rows(letter)[0] != marine_glyph_rows(spec_ascii_uppercase(letter))[0]);
    } else if letter == 'd' {
        assert(marine_glyph_rows(letter)[0] != marine_glyph_rows(spec_ascii_uppercase(letter))[0]);
    } else if letter == 'e' {
        assert(marine_glyph_rows(letter)[0] != marine_glyph_rows(spec_ascii_uppercase(letter))[0]);
    } else if letter == 'f' {
        assert(marine_glyph_rows(letter)[0] != marine_glyph_rows(spec_ascii_uppercase(letter))[0]);
    } else if letter == 'g' {
        assert(marine_glyph_rows(letter)[0] != marine_glyph_rows(spec_ascii_uppercase(letter))[0]);
    } else if letter == 'h' {
        assert(marine_glyph_rows(letter)[0] != marine_glyph_rows(spec_ascii_uppercase(letter))[0]);
    } else if letter == 'i' {
        assert(marine_glyph_rows(letter)[0] != marine_glyph_rows(spec_ascii_uppercase(letter))[0]);
    } else if letter == 'j' {
        assert(marine_glyph_rows(letter)[0] != marine_glyph_rows(spec_ascii_uppercase(letter))[0]);
    } else if letter == 'k' {
        assert(marine_glyph_rows(letter)[0] != marine_glyph_rows(spec_ascii_uppercase(letter))[0]);
    } else if letter == 'l' {
        assert(marine_glyph_rows(letter)[0] != marine_glyph_rows(spec_ascii_uppercase(letter))[0]);
    } else if letter == 'm' {
        assert(marine_glyph_rows(letter)[0] != marine_glyph_rows(spec_ascii_uppercase(letter))[0]);
    } else if letter == 'n' {
        assert(marine_glyph_rows(letter)[0] != marine_glyph_rows(spec_ascii_uppercase(letter))[0]);
    } else if letter == 'o' {
        assert(marine_glyph_rows(letter)[0] != marine_glyph_rows(spec_ascii_uppercase(letter))[0]);
    } else if letter == 'p' {
        assert(marine_glyph_rows(letter)[0] != marine_glyph_rows(spec_ascii_uppercase(letter))[0]);
    } else if letter == 'q' {
        assert(marine_glyph_rows(letter)[0] != marine_glyph_rows(spec_ascii_uppercase(letter))[0]);
    } else if letter == 'r' {
        assert(marine_glyph_rows(letter)[0] != marine_glyph_rows(spec_ascii_uppercase(letter))[0]);
    } else if letter == 's' {
        assert(marine_glyph_rows(letter)[0] != marine_glyph_rows(spec_ascii_uppercase(letter))[0]);
    } else if letter == 't' {
        assert(marine_glyph_rows(letter)[0] != marine_glyph_rows(spec_ascii_uppercase(letter))[0]);
    } else if letter == 'u' {
        assert(marine_glyph_rows(letter)[0] != marine_glyph_rows(spec_ascii_uppercase(letter))[0]);
    } else if letter == 'v' {
        assert(marine_glyph_rows(letter)[0] != marine_glyph_rows(spec_ascii_uppercase(letter))[0]);
    } else if letter == 'w' {
        assert(marine_glyph_rows(letter)[0] != marine_glyph_rows(spec_ascii_uppercase(letter))[0]);
    } else if letter == 'x' {
        assert(marine_glyph_rows(letter)[0] != marine_glyph_rows(spec_ascii_uppercase(letter))[0]);
    } else if letter == 'y' {
        assert(marine_glyph_rows(letter)[0] != marine_glyph_rows(spec_ascii_uppercase(letter))[0]);
    } else if letter == 'z' {
        assert(marine_glyph_rows(letter)[0] != marine_glyph_rows(spec_ascii_uppercase(letter))[0]);
    } else {
        assert(false);
    }
}

/// The first of a feature's candidate names that is not blank, trimmed:
/// `values` holds, for each property asked for in turn, its text where it
/// is one.
pub open spec fn spec_first_name(values: Seq<Option<String>>) -> Option<Seq<char>>
    decreases values.len(),
{
    if values.len() == 0 {
        None
    } else {
        match values[0] {
            Some(text) if trimmed(text@).len() > 0 => Some(trimmed(text@)),
            _ => spec_first_name(values.drop_first()),
        }
    }
}

/// The first candidate name that is not blank, trimmed; see
/// `spec_first_name`.
pub fn first_name(values: &[Option<String>]) -> (name: Option<String>)
    ensures
        match spec_first_name(values@) {
            Some(text) => name is Some && name->0@ == text,
            None => name is None,
        },
{
    let mut index: usize = 0;
    assert(values@.skip(0) =~= values@);
    while index < values.len()
        invariant
            index <= values@.len(),
            spec_first_name(values@) == spec_first_name(values@.skip(index as int)),
        decreases values@.len() - index,
    {
        assert(values@.skip(index as int).drop_first() =~= values@.skip(index + 1));
        if let Some(text) = &values[index] {
            let chars = chars_of(text.as_str());
            let (start, end) = trim_bounds(&chars, 0, chars.len());
            assert(chars@.subrange(0, chars@.len() as int) =~= chars@);
            if start < end {
                return Some(string_from_chars(&chars, start, end));
            }
        }
        index = index + 1;
    }
    None
}

} // verus!
