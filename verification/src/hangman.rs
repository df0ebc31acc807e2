//! Single-player Hangman engine: a secret word, the pattern revealed so
//! far, the set of guessed letters, a bounded attempt budget, and the
//! gallows drawing that tracks the number of incorrect guesses.

use vstd::prelude::*;

verus! {

/// A named difficulty level; it fixes the starting attempt budget and the
/// length of the gallows-art sequence.
#[derive(Copy, Clone, PartialEq, Eq, Structural, Debug)]
pub enum DifficultyTier {
    Easy,
    Medium,
    Hard,
}

impl DifficultyTier {
    /// The starting attempt budget of this tier.
    pub open spec fn initial_attempts_spec(self) -> nat {
        match self {
            DifficultyTier::Easy => 10,
            DifficultyTier::Medium => 7,
            DifficultyTier::Hard => 4,
        }
    }

    /// The starting attempt budget of this tier: 10 for easy, 7 for
    /// medium, 4 for hard.
    pub fn initial_attempts(self) -> (n: usize)
        ensures
            n as nat == self.initial_attempts_spec(),
    {
        match self {
            DifficultyTier::Easy => 10,
            DifficultyTier::Medium => 7,
            DifficultyTier::Hard => 4,
        }
    }
}

/// Why a guess was rejected.
#[derive(Copy, Clone, PartialEq, Eq, Structural, Debug)]
pub enum GuessError {
    /// The letter had already been guessed this game.
    AlreadyGuessed,
}

/// Where the game stands.
#[derive(Copy, Clone, PartialEq, Eq, Structural, Debug)]
pub enum HangmanOutcome {
    InProgress,
    Won,
    Lost,
}

/// The placeholder shown for a letter that has not been revealed yet.
pub open spec fn placeholder() -> char {
    '_'
}

/// The mathematical model of a Hangman game: the secret word, the pattern
/// revealed so far, the guessed letters in order of first guess, and the
/// remaining and starting attempt budgets.
#[verifier::ext_equal]
pub struct HangmanModel {
    pub secret: Seq<char>,
    pub revealed: Seq<char>,
    pub guessed: Seq<char>,
    pub attempts_left: nat,
    pub max_attempts: nat,
}

impl HangmanModel {
    /// A model is well formed when the pattern is as long as the secret,
    /// the budget never exceeds its starting value, the secret contains no
    /// placeholder character, every pattern position shows the secret
    /// letter exactly when that letter has been guessed, and no letter was
    /// recorded twice.
    pub open spec fn well_formed(self) -> bool {
        &&& self.revealed.len() == self.secret.len()
        &&& self.attempts_left <= self.max_attempts
        &&& forall|i: int| 0 <= i < self.secret.len() ==> self.secret[i] != placeholder()
        &&& forall|i: int|
            0 <= i < self.secret.len() ==> self.revealed[i] == (if self.guessed.contains(
                self.secret[i],
            ) {
                self.secret[i]
            } else {
                placeholder()
            })
        &&& forall|i: int, j: int|
            0 <= i < j < self.guessed.len() ==> self.guessed[i] != self.guessed[j]
    }

    /// How many incorrect guesses have been made so far; this is also the
    /// gallows stage to draw.
    pub open spec fn attempts_used(self) -> nat {
        (self.max_attempts - self.attempts_left) as nat
    }

    /// Whether a guess of `c` would be accepted: the letter has not been
    /// guessed before.
    pub open spec fn guess_accepted(self, c: char) -> bool {
        !self.guessed.contains(c)
    }

    /// The pattern after a correct guess of `c`: every position holding
    /// `c` in the secret is revealed, the rest are untouched.
    pub open spec fn revealed_after(self, c: char) -> Seq<char> {
        Seq::new(
            self.revealed.len(),
            |i: int|
                if self.secret[i] == c {
                    c
                } else {
                    self.revealed[i]
                },
        )
    }

    /// The model after a guess of `c`. A repeated letter changes nothing.
    /// A correct new letter is recorded and revealed without touching the
    /// budget; an incorrect new letter is recorded and costs one attempt.
    pub open spec fn after_guess(self, c: char) -> HangmanModel {
        if !self.guess_accepted(c) {
            self
        } else if self.secret.contains(c) {
            HangmanModel {
                revealed: self.revealed_after(c),
                guessed: self.guessed.push(c),
                ..self
            }
        } else {
            HangmanModel {
                guessed: self.guessed.push(c),
                attempts_left: (self.attempts_left - 1) as nat,
                ..self
            }
        }
    }

    /// The result a guess of `c` reports: a repeated letter is rejected,
    /// otherwise whether the secret contains the letter.
    pub open spec fn guess_result(self, c: char) -> Result<bool, GuessError> {
        if !self.guess_accepted(c) {
            Err(GuessError::AlreadyGuessed)
        } else {
            Ok(self.secret.contains(c))
        }
    }

    /// Where the game stands: won as soon as no placeholder remains, lost
    /// when the budget is exhausted with placeholders remaining, in
    /// progress otherwise.
    pub open spec fn outcome_spec(self) -> HangmanOutcome {
        if !self.revealed.contains(placeholder()) {
            HangmanOutcome::Won
        } else if self.attempts_left == 0 {
            HangmanOutcome::Lost
        } else {
            HangmanOutcome::InProgress
        }
    }
}

/// Law: a letter, once guessed, is rejected when guessed again, and the
/// second guess changes nothing: neither the pattern, nor the budget, nor
/// any other part of the state.
pub proof fn lemma_repeated_guess(m: HangmanModel, c: char)
    ensures
        m.after_guess(c).after_guess(c) == m.after_guess(c),
        m.after_guess(c).guess_result(c) == Err::<bool, GuessError>(GuessError::AlreadyGuessed),
{
    if m.guess_accepted(c) {
        assert(m.guessed.push(c)[m.guessed.len() as int] == c);
        assert(m.guessed.push(c).contains(c));
    }
}

/// Reveals the guess in a pattern: every position whose letter in
/// `secret_word` equals `guess` is set to the guessed letter, every other
/// position keeps its previous character.
pub fn update_guessed_word(secret_word: &str, guessed_word: &mut Vec<char>, guess: char)
    requires
        old(guessed_word)@.len() == secret_word@.len(),
    ensures
        final(guessed_word)@.len() == old(guessed_word)@.len(),
        forall|i: int|
            0 <= i < secret_word@.len() ==> final(guessed_word)@[i] == (if secret_word@[i]
                == guess {
                guess
            } else {
                old(guessed_word)@[i]
            }),
{
    let n: usize = secret_word.unicode_len();
    let mut i: usize = 0;
    while i < n
        invariant
            n == secret_word@.len(),
            guessed_word@.len() == n,
            i <= n,
            forall|j: int|
                0 <= j < i ==> guessed_word@[j] == (if secret_word@[j] == guess {
                    guess
                } else {
                    old(guessed_word)@[j]
                }),
            forall|j: int| i <= j < n ==> guessed_word@[j] == old(guessed_word)@[j],
        decreases n - i,
    {
        let c = secret_word.get_char(i);
        if c == guess {
            guessed_word[i] = guess;
        }
        i = i + 1;
    }
}

/// Whether the string contains the character.
fn str_contains_char(s: &str, c: char) -> (r: bool)
    ensures
        r == s@.contains(c),
{
    let n: usize = s.unicode_len();
    let mut i: usize = 0;
    while i < n
        invariant
            n == s@.len(),
            i <= n,
            forall|j: int| 0 <= j < i ==> s@[j] != c,
        decreases n - i,
    {
        if s.get_char(i) == c {
            return true;
        }
        i = i + 1;
    }
    false
}

/// Whether the vector contains the character.
fn vec_contains_char(v: &Vec<char>, c: char) -> (r: bool)
    ensures
        r == v@.contains(c),
{
    let mut i: usize = 0;
    while i < v.len()
        invariant
            i <= v@.len(),
            forall|j: int| 0 <= j < i ==> v@[j] != c,
        decreases v@.len() - i,
    {
        if v[i] == c {
            return true;
        }
        i = i + 1;
    }
    false
}

/// The gallows drawing of the easy tier at the given stage; past the last
/// stage it stays at the last drawing.
pub open spec fn easy_gallows_art(idx: int) -> Seq<char> {
    if idx <= 0 {
        "  _______\n |       |\n |\n |\n |\n |\n |\n_|___"@
    } else if idx == 1 {
        "  _______\n |       |\n |       O\n |\n |\n |\n |\n_|___"@
    } else if idx == 2 {
        "  _______\n |       |\n |       O\n |       |\n |\n |\n |\n_|___"@
    } else if idx == 3 {
        "  _______\n |       |\n |       O\n |      /|\n |\n |\n |\n_|___"@
    } else if idx == 4 {
        "  _______\n |       |\n |       O\n |      /|\\\n |\n |\n |\n_|___"@
    } else if idx == 5 {
        "  _______\n |       |\n |       O\n |      /|\\\n |      /\n |\n_|___"@
    } else if idx == 6 {
        "  _______\n |       |\n |       O\n |      /|\\\n |      / \\\n |\n_|___"@
    } else if idx == 7 {
        "  _______\n |       |\n |       O\n |      /|\\\n |      / \\\n |     /\n_|___"@
    } else if idx == 8 {
        "  _______\n |       |\n |       O\n |      /|\\\n |      / \\\n |     / \\\n_|___"@
    } else {
        "  _______\n |       |\n |       O\n |      /|\\\n |      / \\\n |     / \\\n_|___\n\nYou are dead!"@
    }
}

/// The gallows drawing of the medium tier at the given stage; past the
/// last stage it stays at the last drawing.
pub open spec fn medium_gallows_art(idx: int) -> Seq<char> {
    if idx <= 0 {
        "  _______\n |       |\n |\n |\n |\n |\n |\n_|___"@
    } else if idx == 1 {
        "  _______\n |       |\n |       O\n |\n |\n |\n |\n_|___"@
    } else if idx == 2 {
        "  _______\n |       |\n |       O\n |       |\n |\n |\n |\n_|___"@
    } else if idx == 3 {
        "  _______\n |       |\n |       O\n |      /|\n |\n |\n |\n_|___"@
    } else if idx == 4 {
        "  _______\n |       |\n |       O\n |      /|\\\n |\n |\n |\n_|___"@
    } else if idx == 5 {
        "  _______\n |       |\n |       O\n |      /|\\\n |      / \n |\n_|___"@
    } else {
        "  _______\n |       |\n |       O\n |      /|\\\n |      / \\\n |\n_|___\n\nYou are dead!"@
    }
}

/// The gallows drawing of the hard tier at the given stage; past the last
/// stage it stays at the last drawing.
pub open spec fn hard_gallows_art(idx: int) -> Seq<char> {
    if idx <= 0 {
        "  _______\n |       |\n |\n |\n |\n |\n |\n_|___"@
    } else if idx == 1 {
        "  _______\n |       |\n |       O\n |\n |\n |\n |\n_|___"@
    } else if idx == 2 {
        "  _______\n |       |\n |       O\n |       |\n |\n |\n |\n_|___"@
    } else {
        "  _______\n |       |\n |       O\n |      /|\\\n |      / \\\n |\n_|___\n\nYou are dead!"@
    }
}

/// How many gallows drawings a budget selects: 10 and 4 have their own
/// sequences, every other budget uses the 7-stage medium sequence.
pub open spec fn gallows_stage_count(max_attempts: int) -> int {
    if max_attempts == 10 {
        10
    } else if max_attempts == 4 {
        4
    } else {
        7
    }
}

/// The stage actually drawn for a requested stage: clamped to the last
/// stage of the selected sequence.
pub open spec fn clamped_stage(max_attempts: int, stage: int) -> int {
    if stage >= gallows_stage_count(max_attempts) - 1 {
        gallows_stage_count(max_attempts) - 1
    } else {
        stage
    }
}

/// The gallows drawing a budget and stage select.
pub open spec fn gallows_art(max_attempts: int, idx: int) -> Seq<char> {
    if max_attempts == 10 {
        easy_gallows_art(idx)
    } else if max_attempts == 4 {
        hard_gallows_art(idx)
    } else {
        medium_gallows_art(idx)
    }
}

/// Law: whatever stage is requested, the stage actually drawn never goes
/// past the last stage of the selected sequence.
pub proof fn lemma_gallows_stage_clamped(max_attempts: int, stage: int)
    requires
        stage >= 0,
    ensures
        0 <= clamped_stage(max_attempts, stage) < gallows_stage_count(max_attempts),
{
}

/// The gallows drawing for a game with the given starting budget after
/// `stage` incorrect guesses. A budget of 10 or 4 selects its own
/// sequence, anything else the 7-stage medium sequence; a stage past the
/// end of the sequence is clamped to the last drawing.
pub fn render_gallows(stage: usize, max_attempts: usize) -> (art: &'static str)
    ensures
        art@ == gallows_art(max_attempts as int, clamped_stage(max_attempts as int, stage as int)),
{
    if max_attempts == 10 {
        let idx: usize = if stage > 9 {
            9
        } else {
            stage
        };
        if idx == 0 {
            "  _______\n |       |\n |\n |\n |\n |\n |\n_|___"
        } else if idx == 1 {
            "  _______\n |       |\n |       O\n |\n |\n |\n |\n_|___"
        } else if idx == 2 {
            "  _______\n |       |\n |       O\n |       |\n |\n |\n |\n_|___"
        } else if idx == 3 {
            "  _______\n |       |\n |       O\n |      /|\n |\n |\n |\n_|___"
        } else if idx == 4 {
            "  _______\n |       |\n |       O\n |      /|\\\n |\n |\n |\n_|___"
        } else if idx == 5 {
            "  _______\n |       |\n |       O\n |      /|\\\n |      /\n |\n_|___"
        } else if idx == 6 {
            "  _______\n |       |\n |       O\n |      /|\\\n |      / \\\n |\n_|___"
        } else if idx == 7 {
            "  _______\n |       |\n |       O\n |      /|\\\n |      / \\\n |     /\n_|___"
        } else if idx == 8 {
            "  _______\n |       |\n |       O\n |      /|\\\n |      / \\\n |     / \\\n_|___"
        } else {
            "  _______\n |       |\n |       O\n |      /|\\\n |      / \\\n |     / \\\n_|___\n\nYou are dead!"
        }
    } else if max_attempts == 4 {
        let idx: usize = if stage > 3 {
            3
        } else {
            stage
        };
        if idx == 0 {
            "  _______\n |       |\n |\n |\n |\n |\n |\n_|___"
        } else if idx == 1 {
            "  _______\n |       |\n |       O\n |\n |\n |\n |\n_|___"
        } else if idx == 2 {
            "  _______\n |       |\n |       O\n |       |\n |\n |\n |\n_|___"
        } else {
            "  _______\n |       |\n |       O\n |      /|\\\n |      / \\\n |\n_|___\n\nYou are dead!"
        }
    } else {
        let idx: usize = if stage > 6 {
            6
        } else {
            stage
        };
        if idx == 0 {
            "  _______\n |       |\n |\n |\n |\n |\n |\n_|___"
        } else if idx == 1 {
            "  _______\n |       |\n |       O\n |\n |\n |\n |\n_|___"
        } else if idx == 2 {
            "  _______\n |       |\n |       O\n |       |\n |\n |\n |\n_|___"
        } else if idx == 3 {
            "  _______\n |       |\n |       O\n |      /|\n |\n |\n |\n_|___"
        } else if idx == 4 {
            "  _______\n |       |\n |       O\n |      /|\\\n |\n |\n |\n_|___"
        } else if idx == 5 {
            "  _______\n |       |\n |       O\n |      /|\\\n |      / \n |\n_|___"
        } else {
            "  _______\n |       |\n |       O\n |      /|\\\n |      / \\\n |\n_|___\n\nYou are dead!"
        }
    }
}

/// The Hangman game state: the secret word, the pattern revealed so far,
/// the guessed letters in order of first guess, and the remaining and
/// starting attempt budgets.
pub struct HangmanState {
    secret: String,
    revealed: Vec<char>,
    guessed: Vec<char>,
    attempts_left: usize,
    max_attempts: usize,
}

impl View for HangmanState {
    type V = HangmanModel;

    closed spec fn view(&self) -> HangmanModel {
        HangmanModel {
            secret: self.secret@,
            revealed: self.revealed@,
            guessed: self.guessed@,
            attempts_left: self.attempts_left as nat,
            max_attempts: self.max_attempts as nat,
        }
    }
}

impl HangmanState {
    /// A game is well formed when its model is.
    pub open spec fn well_formed(self) -> bool {
        self@.well_formed()
    }

    /// A fresh game over `secret` with `max_attempts` incorrect guesses
    /// allowed: nothing revealed, nothing guessed, the full budget left.
    pub fn new(secret: String, max_attempts: usize) -> (s: HangmanState)
        requires
            forall|i: int| 0 <= i < secret@.len() ==> secret@[i] != placeholder(),
        ensures
            s.well_formed(),
            s@.secret == secret@,
            s@.guessed == Seq::<char>::empty(),
            s@.attempts_left == max_attempts as nat,
            s@.max_attempts == max_attempts as nat,
            s@.revealed.len() == secret@.len(),
            forall|i: int| 0 <= i < s@.revealed.len() ==> s@.revealed[i] == placeholder(),
    {
        let n: usize = secret.as_str().unicode_len();
        let mut revealed: Vec<char> = Vec::new();
        let mut i: usize = 0;
        while i < n
            invariant
                i <= n,
                revealed@.len() == i,
                forall|j: int| 0 <= j < i ==> revealed@[j] == placeholder(),
            decreases n - i,
        {
            revealed.push('_');
            i = i + 1;
        }
        HangmanState { secret, revealed, guessed: Vec::new(), attempts_left: max_attempts, max_attempts }
    }

    /// Records a guess of `c`. A letter guessed before is rejected and
    /// changes nothing; a correct new letter reveals its positions without
    /// cost; an incorrect new letter costs one attempt.
    pub fn guess(&mut self, c: char) -> (r: Result<bool, GuessError>)
        requires
            old(self).well_formed(),
            old(self)@.attempts_left > 0,
        ensures
            final(self).well_formed(),
            r == old(self)@.guess_result(c),
            final(self)@ == old(self)@.after_guess(c),
    {
        broadcast use vstd::seq_lib::lemma_seq_contains_after_push;

        if vec_contains_char(&self.guessed, c) {
            return Err(GuessError::AlreadyGuessed);
        }
        self.guessed.push(c);
        if str_contains_char(self.secret.as_str(), c) {
            update_guessed_word(self.secret.as_str(), &mut self.revealed, c);
            Ok(true)
        } else {
            self.attempts_left = self.attempts_left - 1;
            Ok(false)
        }
    }

    /// Where the game stands: won as soon as no placeholder remains, lost
    /// when the budget is exhausted with placeholders remaining, in
    /// progress otherwise.
    pub fn outcome(&self) -> (r: HangmanOutcome)
        requires
            self.well_formed(),
        ensures
            r == self@.outcome_spec(),
    {
        if !vec_contains_char(&self.revealed, '_') {
            HangmanOutcome::Won
        } else if self.attempts_left == 0 {
            HangmanOutcome::Lost
        } else {
            HangmanOutcome::InProgress
        }
    }

    /// The secret word.
    pub fn secret_word(&self) -> (s: &str)
        ensures
            s@ == self@.secret,
    {
        self.secret.as_str()
    }

    /// The pattern revealed so far.
    pub fn revealed_pattern(&self) -> (v: &Vec<char>)
        ensures
            v@ == self@.revealed,
    {
        &self.revealed
    }

    /// The letters guessed so far, in order of first guess.
    pub fn guessed_letters(&self) -> (v: &Vec<char>)
        ensures
            v@ == self@.guessed,
    {
        &self.guessed
    }

    /// How many incorrect guesses are still allowed.
    pub fn attempts_left(&self) -> (n: usize)
        ensures
            n as nat == self@.attempts_left,
    {
        self.attempts_left
    }

    /// The starting attempt budget.
    pub fn max_attempts(&self) -> (n: usize)
        ensures
            n as nat == self@.max_attempts,
    {
        self.max_attempts
    }

    /// The gallows stage to draw: the number of incorrect guesses so far.
    pub fn stage(&self) -> (n: usize)
        requires
            self.well_formed(),
        ensures
            n as nat == self@.attempts_used(),
    {
        self.max_attempts - self.attempts_left
    }
}

} // verus!
