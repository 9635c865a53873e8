//! Breaking a text into lines.

use vstd::prelude::*;
use vstd::utf8::{encode_utf8, is_char_boundary};

verus! {

/// The words of a text: what `str::split_whitespace` of the standard library
/// yields for it, in order.
pub uninterp spec fn words_of(text: Seq<char>) -> Seq<Seq<char>>;

/// Calls `str::split_whitespace` of the standard library and collects the
/// words. Nothing is proved of the result; it is only given the name
/// `words_of`.
#[verifier::external_body]
fn split_words(text: &str) -> (words: Vec<String>)
    ensures
        words@.len() == words_of(text@).len(),
        forall|i: int| 0 <= i < words@.len() ==> (#[trigger] words@[i])@ == words_of(text@)[i],
{
    text.split_whitespace().map(|w| w.to_string()).collect()
}

/// The width of a text: the length of its UTF-8 form in bytes, as `str::len`
/// gives it.
pub open spec fn width_of(text: Seq<char>) -> int {
    (encode_utf8(text).len() as usize) as int
}

/// The lines that are full and the line that is being filled.
pub struct Wrapping {
    pub lines: Seq<Seq<char>>,
    pub current: Seq<char>,
}

/// The wrapping after one more word. The word starts the line if the line is
/// empty. Otherwise it goes on the line, after a space, if the line does not
/// get wider than `max_width` by it; if it would, the line is full and the
/// word starts the next one.
pub open spec fn wrap_word(w: Wrapping, word: Seq<char>, max_width: int) -> Wrapping {
    if w.current.len() == 0 {
        Wrapping { current: word, ..w }
    } else if width_of(w.current) + 1 + width_of(word) > max_width {
        Wrapping { lines: w.lines.push(w.current), current: word }
    } else {
        Wrapping { current: w.current + " "@ + word, ..w }
    }
}

/// The wrapping after the words, in order.
pub open spec fn wrap_all(words: Seq<Seq<char>>, max_width: int) -> Wrapping
    decreases words.len(),
{
    if words.len() == 0 {
        Wrapping { lines: Seq::empty(), current: Seq::empty() }
    } else {
        wrap_word(wrap_all(words.drop_last(), max_width), words.last(), max_width)
    }
}

/// The lines into which the words are broken: the full lines, then the line
/// that was being filled unless it is empty; and one empty line where that
/// leaves no line at all.
pub open spec fn wrapped_lines(words: Seq<Seq<char>>, max_width: int) -> Seq<Seq<char>> {
    let w = wrap_all(words, max_width);
    let lines = if w.current.len() > 0 {
        w.lines.push(w.current)
    } else {
        w.lines
    };
    if lines.len() == 0 {
        seq![Seq::<char>::empty()]
    } else {
        lines
    }
}

/// The views of a sequence of strings.
pub open spec fn lines_view(s: Seq<String>) -> Seq<Seq<char>> {
    Seq::new(s.len(), |i: int| s[i]@)
}

/// Breaks a run of words into lines of at most `max_width` bytes, as far as
/// the words allow: a word that is wider than a line gets a line of its own.
pub fn wrap_words(words: &Vec<String>, max_width: usize) -> (lines: Vec<String>)
    ensures
        lines_view(lines@) == wrapped_lines(lines_view(words@), max_width as int),
        lines@.len() >= 1,
{
    let ghost all = lines_view(words@);
    let mut lines: Vec<String> = Vec::new();
    let mut current = String::new();
    let mut i: usize = 0;
    assert(all.take(0) =~= Seq::empty());
    assert(lines_view(lines@) =~= Seq::empty());
    while i < words.len()
        invariant
            i <= words.len(),
            all == lines_view(words@),
            (Wrapping { lines: lines_view(lines@), current: current@ }) == wrap_all(
                all.take(i as int),
                max_width as int,
            ),
        decreases words.len() - i,
    {
        let ghost before = lines_view(lines@);
        assert(all.take(i + 1).drop_last() =~= all.take(i as int));
        assert(all.take(i + 1).last() == words@[i as int]@);
        let word = words[i].as_str();
        if current.as_str().is_empty() {
            current = word.to_owned();
        } else if word.len() >= max_width || current.as_str().len() >= max_width - word.len() {
            let ghost full = current@;
            lines.push(current);
            assert(lines_view(lines@) =~= before.push(full));
            current = word.to_owned();
        } else {
            current = current.concat(" ").concat(word);
        }
        i += 1;
    }
    assert(all.take(i as int) =~= all);
    if !current.as_str().is_empty() {
        let ghost before = lines_view(lines@);
        let ghost last = current@;
        lines.push(current);
        assert(lines_view(lines@) =~= before.push(last));
    }
    if lines.len() == 0 {
        lines.push(String::new());
        assert(lines_view(lines@) =~= seq![Seq::<char>::empty()]);
    }
    lines
}

/// Breaks a text into lines of at most `max_width` bytes at its white space.
pub fn word_wrap(text: &str, max_width: usize) -> (lines: Vec<String>)
    ensures
        lines_view(lines@) == wrapped_lines(words_of(text@), max_width as int),
        lines@.len() >= 1,
{
    let words = split_words(text);
    assert(lines_view(words@) =~= words_of(text@));
    wrap_words(&words, max_width)
}

/// Whether `text` can be cut to `max_width`: it fits as it is, or there is
/// room for the three dots and the cut does not fall into a character.
pub open spec fn can_truncate(text: Seq<char>, max_width: int) -> bool {
    width_of(text) > max_width ==> max_width >= 3 && is_char_boundary(
        encode_utf8(text),
        max_width - 3,
    )
}

/// `head` is what stands in the first `bytes` bytes of `text`.
pub open spec fn is_head_of(head: Seq<char>, text: Seq<char>, bytes: int) -> bool {
    encode_utf8(head) =~= encode_utf8(text).subrange(0, bytes)
}

/// A text of at most `max_width` bytes: `text` itself if it fits, and
/// otherwise its first `max_width - 3` bytes followed by three dots.
pub fn truncate_to_width(text: &str, max_width: usize) -> (r: String)
    requires
        can_truncate(text@, max_width as int),
    ensures
        width_of(text@) <= max_width ==> r@ == text@,
        width_of(text@) > max_width ==> exists|head: Seq<char>|
            is_head_of(head, text@, max_width - 3) && r@ == head + "..."@,
{
    if text.len() <= max_width {
        text.to_owned()
    } else {
        let (head, _) = text.split_at(max_width - 3);
        let r = head.to_owned().concat("...");
        assert(is_head_of(head@, text@, max_width - 3) && r@ == head@ + "..."@);
        r
    }
}

} // verus!
