//! Classifying guesses against the secret word, and the state machine that
//! applies them.

use vstd::prelude::*;
use vstd::string::StrSliceExecFns;

verus! {

/// Mistakes after which the game is lost.
pub const MAX_MISTAKES: u32 = 5;

/// What a guess turned out to be.
#[derive(Clone, Copy, Debug, PartialEq, Eq, Structural)]
pub enum GuessOutcome {
    WholeWordCorrect,
    WholeWordIncorrect,
    LetterCorrect(char),
    LetterIncorrect(char),
}

/// Everything that can go wrong while setting up or playing a game.
#[derive(Clone, Copy, Debug, PartialEq, Eq, Structural)]
pub enum GameError {
    MissingArgument,
    ResourceUnreadable,
    EmptyWordList,
    RandomSelectionOutOfBounds,
    InvalidGuessInput,
}

/// How a guess is classified against the secret word `w`.
pub open spec fn classify(g: Seq<char>, w: Seq<char>) -> Result<GuessOutcome, GameError> {
    if g.len() > 1 {
        if g == w {
            Ok(GuessOutcome::WholeWordCorrect)
        } else {
            Ok(GuessOutcome::WholeWordIncorrect)
        }
    } else if g.len() == 1 {
        if w.contains(g[0]) {
            Ok(GuessOutcome::LetterCorrect(g[0]))
        } else {
            Ok(GuessOutcome::LetterIncorrect(g[0]))
        }
    } else {
        Err(GameError::InvalidGuessInput)
    }
}

/// Whether `c` occurs in `s`.
fn contains_char(s: &str, c: char) -> (r: bool)
    ensures
        r == s@.contains(c),
{
    let n = s.unicode_len();
    let mut i: usize = 0;
    while i < n
        invariant
            n == s@.len(),
            i <= n,
            forall|j: int| 0 <= j < i ==> s@[j] != c,
        decreases n - i,
    {
        if s.get_char(i) == c {
            return true;
        }
        i = i + 1;
    }
    false
}

/// Whether two strings hold the same characters.
fn same_chars(a: &str, b: &str) -> (r: bool)
    ensures
        r == (a@ == b@),
{
    let n = a.unicode_len();
    if n != b.unicode_len() {
        return false;
    }
    let mut i: usize = 0;
    while i < n
        invariant
            n == a@.len(),
            n == b@.len(),
            i <= n,
            forall|j: int| 0 <= j < i ==> a@[j] == b@[j],
        decreases n - i,
    {
        if a.get_char(i) != b.get_char(i) {
            return false;
        }
        i = i + 1;
    }
    assert(a@ =~= b@);
    true
}

/// Classifies a trimmed, lowercased guess against the secret word: a guess of
/// several characters names the whole word, one of a single character names a
/// letter, and an empty guess is rejected.
pub fn handle_guess(guess: &str, secret_word: &str) -> (r: Result<GuessOutcome, GameError>)
    ensures
        r == classify(guess@, secret_word@),
{
    let n = guess.unicode_len();
    if n > 1 {
        if same_chars(guess, secret_word) {
            Ok(GuessOutcome::WholeWordCorrect)
        } else {
            Ok(GuessOutcome::WholeWordIncorrect)
        }
    } else if n == 1 {
        let letter = guess.get_char(0);
        if contains_char(secret_word, letter) {
            Ok(GuessOutcome::LetterCorrect(letter))
        } else {
            Ok(GuessOutcome::LetterIncorrect(letter))
        }
    } else {
        Err(GameError::InvalidGuessInput)
    }
}

/// Where a game stands.
#[derive(Clone, Copy, Debug, PartialEq, Eq, Structural)]
pub enum Status {
    Playing,
    Won,
    Lost,
}

/// The abstract state of a game.
pub ghost struct GameState {
    pub secret: Seq<char>,
    pub guessed: Seq<char>,
    pub mistakes: nat,
    pub status: Status,
}

/// A game in progress: the secret word, the letters tried so far in the order
/// they were tried, and the mistakes made.
pub struct Game {
    secret: String,
    guessed: Vec<char>,
    mistakes: u32,
    status: Status,
}

impl View for Game {
    type V = GameState;

    closed spec fn view(&self) -> GameState {
        GameState {
            secret: self.secret@,
            guessed: self.guessed@,
            mistakes: self.mistakes as nat,
            status: self.status,
        }
    }
}

/// A game state that the methods of `Game` can reach: a non-empty secret, no
/// letter listed twice, and no more mistakes than the limit.
pub open spec fn valid(s: GameState) -> bool {
    &&& s.secret.len() > 0
    &&& s.guessed.no_duplicates()
    &&& s.mistakes <= MAX_MISTAKES
}

/// The state after applying an outcome.
pub open spec fn apply(s: GameState, o: GuessOutcome) -> GameState {
    match o {
        GuessOutcome::WholeWordCorrect => GameState { status: Status::Won, ..s },
        GuessOutcome::WholeWordIncorrect => GameState { status: Status::Lost, ..s },
        GuessOutcome::LetterCorrect(c) => if s.guessed.contains(c) {
            GameState { mistakes: s.mistakes + 1, ..s }
        } else {
            GameState { guessed: s.guessed.push(c), ..s }
        },
        GuessOutcome::LetterIncorrect(c) => GameState {
            mistakes: s.mistakes + 1,
            guessed: if s.guessed.contains(c) {
                s.guessed
            } else {
                s.guessed.push(c)
            },
            ..s
        },
    }
}

/// The state after the check that opens each turn: a game still playing with
/// the mistake budget spent is lost.
pub open spec fn begin(s: GameState) -> GameState {
    if s.status == Status::Playing && s.mistakes >= MAX_MISTAKES {
        GameState { status: Status::Lost, ..s }
    } else {
        s
    }
}

/// The state after a whole turn with guess `g`: the opening check, then the
/// guess if the game is still being played and the guess is well formed.
pub open spec fn turn(s: GameState, g: Seq<char>) -> GameState {
    let t = begin(s);
    if t.status != Status::Playing {
        t
    } else {
        match classify(g, t.secret) {
            Ok(o) => apply(t, o),
            Err(_) => t,
        }
    }
}

/// Whether `c` is in `v`.
pub(crate) fn has_letter(v: &Vec<char>, c: char) -> (r: bool)
    ensures
        r == v@.contains(c),
{
    let mut i: usize = 0;
    while i < v.len()
        invariant
            i <= v@.len(),
            forall|j: int| 0 <= j < i ==> v@[j] != c,
        decreases v@.len() - i,
    {
        if v[i] == c {
            return true;
        }
        i = i + 1;
    }
    false
}

impl Game {
    /// A fresh game on `secret`: playing, no mistakes, no letters tried.
    pub fn new(secret: String) -> (g: Game)
        requires
            secret@.len() > 0,
        ensures
            g@ == (GameState {
                secret: secret@,
                guessed: Seq::empty(),
                mistakes: 0,
                status: Status::Playing,
            }),
            valid(g@),
    {
        Game { secret, guessed: Vec::new(), mistakes: 0, status: Status::Playing }
    }

    /// The secret word.
    pub fn secret_word(&self) -> (r: &str)
        ensures
            r@ == self@.secret,
    {
        self.secret.as_str()
    }

    /// The letters tried so far, in the order they were first tried.
    pub fn guessed_letters(&self) -> (r: &Vec<char>)
        ensures
            r@ == self@.guessed,
    {
        &self.guessed
    }

    /// The mistakes made so far.
    pub fn mistakes(&self) -> (r: u32)
        ensures
            r as nat == self@.mistakes,
    {
        self.mistakes
    }

    /// Where the game stands.
    pub fn status(&self) -> (r: Status)
        ensures
            r == self@.status,
    {
        self.status
    }

    /// The mistakes still allowed before the game is lost.
    pub fn chances_left(&self) -> (r: u32)
        requires
            valid(self@),
        ensures
            r == MAX_MISTAKES - self@.mistakes,
    {
        MAX_MISTAKES - self.mistakes
    }

    /// Applies a classified guess to a game that is being played and has
    /// mistakes to spare.
    pub fn apply_outcome(&mut self, o: GuessOutcome)
        requires
            valid(old(self)@),
            old(self)@.status == Status::Playing,
            old(self)@.mistakes < MAX_MISTAKES,
        ensures
            final(self)@ == apply(old(self)@, o),
            valid(final(self)@),
    {
        match o {
            GuessOutcome::WholeWordCorrect => {
                self.status = Status::Won;
            },
            GuessOutcome::WholeWordIncorrect => {
                self.status = Status::Lost;
            },
            GuessOutcome::LetterCorrect(c) => {
                if has_letter(&self.guessed, c) {
                    self.mistakes = self.mistakes + 1;
                } else {
                    self.guessed.push(c);
                }
            },
            GuessOutcome::LetterIncorrect(c) => {
                self.mistakes = self.mistakes + 1;
                if !has_letter(&self.guessed, c) {
                    self.guessed.push(c);
                }
            },
        }
    }

    /// The check that opens a turn: a game being played whose mistakes have
    /// reached the limit is lost.
    pub fn begin_turn(&mut self)
        requires
            valid(old(self)@),
        ensures
            final(self)@ == begin(old(self)@),
            valid(final(self)@),
            final(self)@.status == Status::Playing ==> final(self)@.mistakes < MAX_MISTAKES,
    {
        if self.status == Status::Playing && self.mistakes >= MAX_MISTAKES {
            self.status = Status::Lost;
        }
    }

    /// Classifies `guess` against the secret word and applies the outcome; an
    /// empty guess leaves the game as it was.
    pub fn take_guess(&mut self, guess: &str) -> (r: Result<GuessOutcome, GameError>)
        requires
            valid(old(self)@),
            old(self)@.status == Status::Playing,
            old(self)@.mistakes < MAX_MISTAKES,
        ensures
            r == classify(guess@, old(self)@.secret),
            final(self)@ == match r {
                Ok(o) => apply(old(self)@, o),
                Err(_) => old(self)@,
            },
            valid(final(self)@),
    {
        let r = handle_guess(guess, self.secret.as_str());
        if let Ok(o) = r {
            self.apply_outcome(o);
        }
        r
    }

    /// One turn of the game: the opening check, then `guess` if the game is
    /// still being played. A finished game stays as it is.
    pub fn play_turn(&mut self, guess: &str)
        requires
            valid(old(self)@),
        ensures
            final(self)@ == turn(old(self)@, guess@),
            valid(final(self)@),
    {
        self.begin_turn();
        if self.status == Status::Playing {
            let _ = self.take_guess(guess);
        }
    }
}

/// A letter already among those tried, guessed again and found in the word,
/// costs exactly one mistake and leaves the letters tried as they were.
pub proof fn lemma_repeated_letter_costs_one_mistake(s: GameState, c: char)
    requires
        s.guessed.contains(c),
    ensures
        apply(s, GuessOutcome::LetterCorrect(c)).mistakes == s.mistakes + 1,
        apply(s, GuessOutcome::LetterCorrect(c)).guessed == s.guessed,
{
}

/// Within a game a turn never lowers the mistake count, never removes or
/// reorders a letter tried, never lists a letter twice, and keeps the secret.
pub proof fn lemma_turn_is_monotone(s: GameState, g: Seq<char>)
    requires
        valid(s),
    ensures
        turn(s, g).mistakes >= s.mistakes,
        s.guessed.is_prefix_of(turn(s, g).guessed),
        turn(s, g).guessed.no_duplicates(),
        turn(s, g).secret == s.secret,
        valid(turn(s, g)),
{
    let t = turn(s, g);
    if t.guessed != s.guessed {
        let c = t.guessed.last();
        assert(t.guessed == s.guessed.push(c));
        assert(!s.guessed.contains(c));
        assert forall|i: int, j: int|
            0 <= i < t.guessed.len() && 0 <= j < t.guessed.len() && i != j implies t.guessed[i]
            != t.guessed[j] by {
            if i < s.guessed.len() && j < s.guessed.len() {
            } else if i < s.guessed.len() {
                assert(s.guessed[i] == t.guessed[i]);
            } else {
                assert(s.guessed[j] == t.guessed[j]);
            }
        }
    }
    assert(s.guessed =~= t.guessed.subrange(0, s.guessed.len() as int));
}

/// Once the mistakes have reached the limit, the next turn of a game being
/// played ends it lost, whatever the guess.
pub proof fn lemma_spent_budget_loses(s: GameState, g: Seq<char>)
    requires
        s.status == Status::Playing,
        s.mistakes >= MAX_MISTAKES,
    ensures
        turn(s, g).status == Status::Lost,
{
}

/// A game that is won or lost stays as it is, whatever is guessed.
pub proof fn lemma_finished_game_is_final(s: GameState, g: Seq<char>)
    requires
        s.status != Status::Playing,
    ensures
        turn(s, g) == s,
{
}

} // verus!
