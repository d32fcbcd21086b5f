//! Turning the text of a word list into candidate words, choosing the secret
//! word among them, and normalising a raw guess.

use vstd::prelude::*;
use crate::game::GameError;
use rand::Rng;
use crate::text::{lowercased, push_char, to_lower, trim, trimmed};

verus! {

/// The candidate word that a line stands for: trimmed, then lowercased.
pub open spec fn word_of(line: Seq<char>) -> Seq<char> {
    lowercased(trimmed(line))
}

/// Splitting the first `k` characters of `s` at each `'\n'`: the lines that
/// are complete, and the line begun after the last newline.
pub open spec fn split_prefix(s: Seq<char>, k: nat) -> (Seq<Seq<char>>, Seq<char>)
    decreases k,
{
    if k == 0 {
        (Seq::empty(), Seq::empty())
    } else {
        let (done, cur) = split_prefix(s, (k - 1) as nat);
        if s[k - 1] == '\n' {
            (done.push(cur), Seq::empty())
        } else {
            (done, cur.push(s[k - 1]))
        }
    }
}

/// The lines of `s`, separated by `'\n'`; text with no newline is one line.
pub open spec fn lines_of(s: Seq<char>) -> Seq<Seq<char>> {
    let (done, cur) = split_prefix(s, s.len());
    done.push(cur)
}

/// The candidate words of a sequence of lines, in order: the word of each line
/// whose word is not empty.
pub open spec fn words_in(lines: Seq<Seq<char>>) -> Seq<Seq<char>>
    decreases lines.len(),
{
    if lines.len() == 0 {
        Seq::empty()
    } else {
        let rest = words_in(lines.drop_last());
        let w = word_of(lines.last());
        if w.len() > 0 {
            rest.push(w)
        } else {
            rest
        }
    }
}

/// The candidate words of the text of a word list.
pub open spec fn words_of(content: Seq<char>) -> Seq<Seq<char>> {
    words_in(lines_of(content))
}

/// Adds the word of `line` to `words` when it is not empty.
fn add_line(words: &mut Vec<String>, line: &str)
    ensures
        final(words).deep_view() == ({
            let w = word_of(line@);
            if w.len() > 0 {
                old(words).deep_view().push(w)
            } else {
                old(words).deep_view()
            }
        }),
{
    let w = to_lower(trim(line));
    if !w.as_str().is_empty() {
        words.push(w);
    }
    assert(final(words).deep_view() =~= ({
        let w = word_of(line@);
        if w.len() > 0 {
            old(words).deep_view().push(w)
        } else {
            old(words).deep_view()
        }
    }));
}

/// The candidate words of a word list's text: each line, trimmed and
/// lowercased, in order, leaving out the lines that come out empty.
pub fn parse_words(content: &str) -> (r: Vec<String>)
    ensures
        r.deep_view() == words_of(content@),
{
    let mut words: Vec<String> = Vec::new();
    let mut line = String::new();
    let ghost mut done: Seq<Seq<char>> = Seq::empty();
    for c in it: content.chars()
        invariant
            it.seq() == content@,
            (done, line@) == split_prefix(content@, it.index() as nat),
            words.deep_view() == words_in(done),
    {
        if c == '\n' {
            add_line(&mut words, line.as_str());
            proof {
                assert(done.push(line@).drop_last() =~= done);
                done = done.push(line@);
            }
            line = String::new();
        } else {
            push_char(&mut line, c);
        }
    }
    add_line(&mut words, line.as_str());
    proof {
        assert(done.push(line@).drop_last() =~= done);
    }
    words
}

/// A raw line of input made into a guess: trimmed, then lowercased.
pub fn normalize_guess(raw: &str) -> (r: String)
    ensures
        r@ == word_of(raw@),
{
    to_lower(trim(raw))
}

/// Relies on rand's thread_rng and Rng::gen_range: an index drawn uniformly
/// from `0..len`; gen_range panics on an empty range, which `requires` rules
/// out.
#[verifier::external_body]
fn random_index(len: usize) -> (r: usize)
    requires
        len > 0,
    ensures
        r < len,
{
    rand::thread_rng().gen_range(0..len)
}

/// The word at `index`: an empty list is `EmptyWordList`, an index past the
/// end is `RandomSelectionOutOfBounds`.
pub fn pick_word(words: &Vec<String>, index: usize) -> (r: Result<&str, GameError>)
    ensures
        words@.len() == 0 ==> r == Err::<&str, GameError>(GameError::EmptyWordList),
        0 < words@.len() <= index ==> r == Err::<&str, GameError>(
            GameError::RandomSelectionOutOfBounds,
        ),
        index < words@.len() ==> r is Ok && r->Ok_0@ == words@[index as int]@,
{
    if words.len() < 1 {
        return Err(GameError::EmptyWordList);
    }
    if index < words.len() {
        Ok(words[index].as_str())
    } else {
        Err(GameError::RandomSelectionOutOfBounds)
    }
}

/// One of `words`, drawn at random over every index; `EmptyWordList` when
/// there is none.
pub fn choose_random_word(words: &Vec<String>) -> (r: Result<&str, GameError>)
    ensures
        words@.len() == 0 <==> r == Err::<&str, GameError>(GameError::EmptyWordList),
        words@.len() > 0 ==> r is Ok && exists|i: int|
            0 <= i < words@.len() && r->Ok_0@ == #[trigger] words@[i]@,
{
    if words.len() < 1 {
        return Err(GameError::EmptyWordList);
    }
    let index = random_index(words.len());
    pick_word(words, index)
}

} // verus!
