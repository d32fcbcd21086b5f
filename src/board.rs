//! The text of the board: the secret word with its unrevealed letters masked,
//! and the letters tried so far.

use vstd::prelude::*;
use crate::game::has_letter;
use crate::text::push_char;

verus! {

/// `w` with each letter followed by a space, and each letter that is not in
/// `g` shown as `'_'`.
pub open spec fn masked(w: Seq<char>, g: Seq<char>) -> Seq<char>
    decreases w.len(),
{
    if w.len() == 0 {
        Seq::empty()
    } else {
        let c = w.last();
        masked(w.drop_last(), g) + seq![if g.contains(c) { c } else { '_' }, ' ']
    }
}

/// `g` with each letter followed by a space.
pub open spec fn spaced(g: Seq<char>) -> Seq<char>
    decreases g.len(),
{
    if g.len() == 0 {
        Seq::empty()
    } else {
        spaced(g.drop_last()) + seq![g.last(), ' ']
    }
}

/// The secret word as the player sees it: the letters in `guessed` shown,
/// the others as `_`, each followed by a space.
pub fn render_word(word: &str, guessed: &Vec<char>) -> (r: String)
    ensures
        r@ == masked(word@, guessed@),
{
    let mut out = String::new();
    for c in it: word.chars()
        invariant
            it.seq() == word@,
            out@ == masked(word@.take(it.index() as int), guessed@),
    {
        proof {
            let k = it.index() as int;
            assert(word@.take(k + 1).drop_last() =~= word@.take(k));
        }
        if has_letter(guessed, c) {
            push_char(&mut out, c);
        } else {
            push_char(&mut out, '_');
        }
        push_char(&mut out, ' ');
        proof {
            let k = it.index() as int;
            assert(out@ =~= masked(word@.take(k + 1), guessed@));
        }
    }
    assert(word@.take(word@.len() as int) =~= word@);
    out
}

/// The letters tried, in the order they were tried, each followed by a space.
pub fn render_guessed(guessed: &Vec<char>) -> (r: String)
    ensures
        r@ == spaced(guessed@),
{
    let mut out = String::new();
    let mut i: usize = 0;
    while i < guessed.len()
        invariant
            i <= guessed@.len(),
            out@ == spaced(guessed@.take(i as int)),
        decreases guessed@.len() - i,
    {
        assert(guessed@.take(i as int + 1).drop_last() =~= guessed@.take(i as int));
        push_char(&mut out, guessed[i]);
        push_char(&mut out, ' ');
        assert(out@ =~= spaced(guessed@.take(i as int + 1)));
        i = i + 1;
    }
    assert(guessed@.take(i as int) =~= guessed@);
    out
}

} // verus!
