//! Words of ASCII letters, with and without regard to case.

use vstd::prelude::*;
use vstd::string::*;
use vstd::utf8::is_ascii_chars;

verus! {

/// `c` with an ASCII capital letter replaced by its small letter.
pub open spec fn ascii_lowercase(c: char) -> char {
    if 'A' <= c <= 'Z' {
        (c as int + 32) as char
    } else {
        c
    }
}

/// `text` with every ASCII capital letter replaced by its small letter.
pub open spec fn lowercase(text: Seq<char>) -> Seq<char> {
    Seq::new(text.len(), |i: int| ascii_lowercase(text[i]))
}

/// Whether `text` holds small ASCII letters only.
pub open spec fn is_small_letters(text: Seq<char>) -> bool {
    forall|i: int| 0 <= i < text.len() ==> 'a' <= #[trigger] text[i] <= 'z'
}

/// Whether `text` is `word`.
pub(crate) fn is_word(text: &str, word: &str) -> (same: bool)
    requires
        is_small_letters(word@),
    ensures
        same == (text@ == word@),
{
    if !text.is_ascii() {
        return false;
    }
    let text_bytes = text.as_bytes();
    let word_bytes = word.as_bytes();
    proof {
        is_ascii_spec_bytes(text);
        is_ascii_spec_bytes(word);
    }
    if text_bytes.len() != word_bytes.len() {
        return false;
    }
    let mut i: usize = 0;
    while i < text_bytes.len()
        invariant
            i <= text@.len() == word@.len(),
            text_bytes@ == Seq::new(text@.len(), |j: int| text@[j] as u8),
            word_bytes@ == Seq::new(word@.len(), |j: int| word@[j] as u8),
            is_ascii_chars(text@),
            is_small_letters(word@),
            forall|j: int| 0 <= j < i ==> text@[j] == word@[j],
        decreases text@.len() - i,
    {
        if text_bytes[i] != word_bytes[i] {
            return false;
        }
        i += 1;
    }
    assert(text@ =~= word@);
    true
}

/// Whether `text` is `word` but for the case of its letters.
pub(crate) fn is_word_in_any_case(text: &str, word: &str) -> (same: bool)
    requires
        is_small_letters(word@),
    ensures
        same == (lowercase(text@) == word@),
{
    if !text.is_ascii() {
        proof {
            if lowercase(text@) == word@ {
                assert forall|i: int| 0 <= i < text@.len() implies '\0' <= #[trigger] text@[i]
                    <= '\u{7f}' by {
                    assert(word@[i] == ascii_lowercase(text@[i]));
                }
            }
        }
        return false;
    }
    let text_bytes = text.as_bytes();
    let word_bytes = word.as_bytes();
    proof {
        is_ascii_spec_bytes(text);
        is_ascii_spec_bytes(word);
    }
    if text_bytes.len() != word_bytes.len() {
        return false;
    }
    let mut i: usize = 0;
    while i < text_bytes.len()
        invariant
            i <= text@.len() == word@.len(),
            text_bytes@ == Seq::new(text@.len(), |j: int| text@[j] as u8),
            word_bytes@ == Seq::new(word@.len(), |j: int| word@[j] as u8),
            is_ascii_chars(text@),
            is_small_letters(word@),
            forall|j: int| 0 <= j < i ==> lowercase(text@)[j] == word@[j],
        decreases text@.len() - i,
    {
        let byte: u8 = text_bytes[i];
        let small: u8 = if byte >= 'A' as u8 && byte <= 'Z' as u8 {
            byte + 32
        } else {
            byte
        };
        if small != word_bytes[i] {
            return false;
        }
        i += 1;
    }
    assert(lowercase(text@) =~= word@);
    true
}

} // verus!
