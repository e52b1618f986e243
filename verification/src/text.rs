//! Texts and the components that white space divides them into.
use vstd::prelude::*;

verus! {

/// The texts of `strings`, in the same order.
pub open spec fn texts(strings: Seq<String>) -> Seq<Seq<char>> {
    Seq::new(strings.len(), |i: int| strings[i]@)
}

/// Whether `c` is white space: a space, a tab, a line feed, a vertical tab, a
/// form feed, a carriage return, or one of the other characters that Unicode
/// counts as white space.
pub open spec fn is_white_space(c: char) -> bool {
    ||| c == ' '
    ||| '\u{9}' <= c <= '\u{d}'
    ||| c == '\u{85}'
    ||| c == '\u{a0}'
    ||| c == '\u{1680}'
    ||| '\u{2000}' <= c <= '\u{200a}'
    ||| c == '\u{2028}'
    ||| c == '\u{2029}'
    ||| c == '\u{202f}'
    ||| c == '\u{205f}'
    ||| c == '\u{3000}'
}

/// Whether `word` is a word: not empty, and without white space.
pub open spec fn is_word(word: Seq<char>) -> bool {
    &&& word.len() > 0
    &&& forall|i: int| 0 <= i < word.len() ==> !is_white_space(#[trigger] word[i])
}

/// The components of `text`: its words, in order. A word is a stretch
/// without white space that has white space, or an end of the text, on
/// either side.
///
/// The text is read from its end. A last character that is white space adds
/// nothing. One that is not lengthens the last word where it follows a
/// character of that word, and begins a word of its own where it does not.
pub open spec fn components(text: Seq<char>) -> Seq<Seq<char>>
    decreases text.len(),
{
    if text.len() == 0 {
        Seq::empty()
    } else {
        let before = components(text.drop_last());
        if is_white_space(text.last()) {
            before
        } else if ends_in_word(text.drop_last()) {
            before.update(before.len() - 1, before.last().push(text.last()))
        } else {
            before.push(seq![text.last()])
        }
    }
}

/// Whether the last character of `text` belongs to a word.
pub open spec fn ends_in_word(text: Seq<char>) -> bool {
    text.len() > 0 && !is_white_space(text.last())
}

/// Whether `c` is white space.
pub fn white_space(c: char) -> (white: bool)
    ensures
        white == is_white_space(c),
{
    c == ' ' || ('\u{9}' <= c && c <= '\u{d}') || c == '\u{85}' || c == '\u{a0}' || c
        == '\u{1680}' || ('\u{2000}' <= c && c <= '\u{200a}') || c == '\u{2028}' || c
        == '\u{2029}' || c == '\u{202f}' || c == '\u{205f}' || c == '\u{3000}'
}

/// The `parts` in a row, with one space between each two neighbours.
pub open spec fn joined(parts: Seq<Seq<char>>) -> Seq<char>
    decreases parts.len(),
{
    if parts.len() == 0 {
        Seq::empty()
    } else if parts.len() == 1 {
        parts[0]
    } else {
        joined(parts.drop_last()) + seq![' '] + parts.last()
    }
}

/// Every component is a word, and a text that ends in a word has one.
pub proof fn components_are_words(text: Seq<char>)
    ensures
        forall|i: int| 0 <= i < components(text).len() ==> is_word(#[trigger] components(text)[i]),
        ends_in_word(text) ==> components(text).len() > 0,
    decreases text.len(),
{
    if text.len() > 0 {
        let before = components(text.drop_last());
        let parts = components(text);
        components_are_words(text.drop_last());
        assert forall|i: int| 0 <= i < parts.len() implies is_word(#[trigger] parts[i]) by {
            if i < before.len() - 1 || is_white_space(text.last()) {
                // a word that was there before
                assert(parts[i] == before[i]);
            } else if ends_in_word(text.drop_last()) {
                // the last word, grown by a character
                assert(is_word(before[i]));
            }
            // otherwise one character, which begins a word
        }
    }
}

/// A word is its own and only component.
pub proof fn components_of_word(word: Seq<char>)
    requires
        is_word(word),
    ensures
        components(word) == seq![word],
    decreases word.len(),
{
    let shorter = word.drop_last();
    if shorter.len() > 0 {
        // a shorter word, which the last character lengthens
        assert(is_word(shorter));
        components_of_word(shorter);
        assert(shorter.push(word.last()) =~= word);
    } else {
        // one character, which begins a word
        assert(components(shorter) =~= Seq::empty());
        assert(seq![word.last()] =~= word);
    }
}

/// White space keeps apart what stands on its two sides: the components of
/// the whole are those of the left side, followed by those of the right.
pub proof fn components_across_white_space(left: Seq<char>, gap: char, right: Seq<char>)
    requires
        is_white_space(gap),
    ensures
        components(left.push(gap) + right) == components(left) + components(right),
    decreases right.len(),
{
    let whole = left.push(gap) + right;
    if right.len() == 0 {
        assert(whole.drop_last() =~= left);
    } else {
        // the last character does to the whole what it does to the right side
        let shorter = right.drop_last();
        assert(whole.drop_last() =~= left.push(gap) + shorter);
        components_across_white_space(left, gap, shorter);
        components_are_words(shorter);
    }
}

/// Splitting undoes joining: words joined by spaces split into the same
/// words again.
pub proof fn components_of_joined(parts: Seq<Seq<char>>)
    requires
        forall|i: int| 0 <= i < parts.len() ==> is_word(#[trigger] parts[i]),
    ensures
        components(joined(parts)) == parts,
    decreases parts.len(),
{
    if parts.len() == 1 {
        components_of_word(parts[0]);
    } else if parts.len() > 1 {
        let fewer = parts.drop_last();
        components_of_joined(fewer);
        components_of_word(parts.last());
        components_across_white_space(joined(fewer), ' ', parts.last());
        assert(joined(parts) =~= joined(fewer).push(' ') + parts.last());
    }
}

/// Splits `text` at its white space, into its words.
///
/// Reads the text character by character. The words that are complete,
/// followed by the word from `start` while one is open, are at every step the
/// components of what has been read.
pub fn split_on_white_space(text: &str) -> (parts: Vec<String>)
    ensures
        texts(parts@) == components(text@),
{
    let n: usize = text.unicode_len();
    let mut parts: Vec<String> = Vec::new();
    let mut start: usize = 0;
    let mut in_word: bool = false;
    let mut i: usize = 0;
    for c in it: text.chars()
        invariant
            n == text@.len(),
            it.seq() == text@,
            i == it.index(),
            i <= n,
            in_word == ends_in_word(text@.subrange(0, i as int)),
            in_word ==> start < i,
            components(text@.subrange(0, i as int)) == if in_word {
                texts(parts@).push(text@.subrange(start as int, i as int))
            } else {
                texts(parts@)
            },
    {
        assert(text@.subrange(0, i + 1).drop_last() =~= text@.subrange(0, i as int));
        if white_space(c) {
            if in_word {
                parts.push(text.substring_char(start, i).to_owned());
                in_word = false;
            }
        } else {
            if in_word {
                assert(text@.subrange(start as int, i + 1) =~= text@.subrange(
                    start as int,
                    i as int,
                ).push(c));
            } else {
                start = i;
                in_word = true;
                assert(text@.subrange(start as int, i + 1) =~= seq![c]);
            }
        }
        i = i + 1;
    }
    assert(text@.subrange(0, n as int) =~= text@);
    if in_word {
        parts.push(text.substring_char(start, n).to_owned());
    }
    parts
}

} // verus!
