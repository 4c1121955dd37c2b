use vstd::prelude::*;

verus! {

/// The character that stands for a letter not yet revealed.
pub const PLACEHOLDER: char = '_';

/// The number of wrong guesses a round allows.
pub const MAX_LIVES: u32 = 6;

/// The state of one round.
pub struct State {
    /// The number of wrong guesses allowed.
    pub lives: u32,
    /// The number of wrong guesses made so far.
    pub tries: u32,
    /// The secret word.
    pub word: String,
    /// The secret word as far as it has been revealed.
    pub progress: String,
}

impl State {
    /// The revealed word stands letter for letter beside the secret word.
    pub open spec fn wf(&self) -> bool {
        self.progress@.len() == self.word@.len()
    }
}

/// `n` placeholders.
pub open spec fn masked(n: nat) -> Seq<char> {
    Seq::new(n, |i: int| PLACEHOLDER)
}

/// Builds the state at the start of a round on `word`: nothing revealed, no
/// wrong guess made.
pub fn init_state(word: String) -> (r: State)
    ensures
        r.wf(),
        r.word@ == word@,
        r.progress@ == masked(word@.len()),
        r.tries == 0,
        r.lives == MAX_LIVES,
{
    let n = word.as_str().unicode_len();
    let mut progress = String::new();
    let mut i: usize = 0;
    while i < n
        invariant
            n == word@.len(),
            i <= n,
            progress@ == masked(i as nat),
        decreases n - i,
    {
        push_char(&mut progress, PLACEHOLDER);
        i = i + 1;
    }
    proof {
        assert(progress@ =~= masked(word@.len()));
    }
    State { lives: MAX_LIVES, tries: 0, word, progress }
}

/// Whether `letter` stands anywhere in `word`.
pub open spec fn occurs(word: Seq<char>, letter: char) -> bool {
    exists|i: int| 0 <= i < word.len() && word[i] == letter
}

/// `progress` with `letter` revealed at every position where `word` holds it;
/// every other position keeps what `progress` had there.
pub open spec fn revealed(word: Seq<char>, progress: Seq<char>, letter: char) -> Seq<char> {
    Seq::new(progress.len(), |i: int| if word[i] == letter { letter } else { progress[i] })
}

/// Applies one guess: a letter of the word is revealed wherever it stands; any
/// other letter costs one life and changes nothing else.
pub fn process_turn(state: &mut State, letter: char)
    requires
        old(state).wf(),
        occurs(old(state).word@, letter) || old(state).tries < u32::MAX,
    ensures
        final(state).wf(),
        final(state).word@ == old(state).word@,
        final(state).lives == old(state).lives,
        occurs(old(state).word@, letter) ==> final(state).tries == old(state).tries
            && final(state).progress@ == revealed(old(state).word@, old(state).progress@, letter),
        !occurs(old(state).word@, letter) ==> final(state).tries == old(state).tries + 1
            && final(state).progress@ == old(state).progress@,
{
    if contains_char(state.word.as_str(), letter) {
        let n = state.word.as_str().unicode_len();
        let mut next = String::new();
        let mut i: usize = 0;
        while i < n
            invariant
                n == state.word@.len(),
                state.progress@.len() == n,
                i <= n,
                next@ == revealed(state.word@, state.progress@, letter).subrange(0, i as int),
            decreases n - i,
        {
            let c = state.word.as_str().get_char(i);
            if c == letter {
                push_char(&mut next, letter);
            } else {
                push_char(&mut next, state.progress.as_str().get_char(i));
            }
            assert(next@ =~= revealed(state.word@, state.progress@, letter).subrange(0, i + 1));
            i = i + 1;
        }
        assert(next@ =~= revealed(state.word@, state.progress@, letter));
        state.progress = next;
    } else {
        state.tries = state.tries + 1;
    }
}

/// A letter of the word guessed a second time changes nothing: revealing it
/// again gives the progress that the first guess left.
pub proof fn lemma_guess_idempotent(word: Seq<char>, progress: Seq<char>, letter: char)
    requires
        progress.len() == word.len(),
    ensures
        revealed(word, revealed(word, progress, letter), letter) == revealed(word, progress, letter),
{
    assert(revealed(word, revealed(word, progress, letter), letter) =~= revealed(
        word,
        progress,
        letter,
    ));
}

/// One guess reveals the letter at every position where the word holds it.
pub proof fn lemma_every_occurrence_revealed(word: Seq<char>, progress: Seq<char>, letter: char)
    requires
        progress.len() == word.len(),
    ensures
        revealed(word, progress, letter).len() == word.len(),
        forall|i: int|
            0 <= i < word.len() && word[i] == letter ==> #[trigger] revealed(word, progress, letter)[i]
                == letter,
{
}

/// A guess hides nothing: a position already revealed keeps its letter, and so
/// does every position that does not hold the guessed letter.
pub proof fn lemma_revealed_letters_kept(word: Seq<char>, progress: Seq<char>, letter: char)
    requires
        progress.len() == word.len(),
    ensures
        forall|i: int|
            0 <= i < word.len() && progress[i] == word[i] ==> #[trigger] revealed(word, progress, letter)[i]
                == progress[i],
        forall|i: int|
            0 <= i < word.len() && word[i] != letter ==> #[trigger] revealed(word, progress, letter)[i]
                == progress[i],
{
}

/// Whether `c` stands anywhere in `s`.
fn contains_char(s: &str, c: char) -> (r: bool)
    ensures
        r == occurs(s@, c),
{
    let n = s.unicode_len();
    let mut i: usize = 0;
    while i < n
        invariant
            n == s@.len(),
            i <= n,
            forall|j: int| 0 <= j < i ==> s@[j] != c,
        decreases n - i,
    {
        if s.get_char(i) == c {
            return true;
        }
        i = i + 1;
    }
    false
}

/// Where a round stands.
#[derive(PartialEq, Eq, Structural, Debug, Clone, Copy)]
pub enum GameStatus {
    InProgress,
    Won,
    Lost,
}

impl GameStatus {
    /// The number that reports this status: 0 while the round goes on, 1 for a
    /// win, 2 for a loss.
    pub fn code(&self) -> (r: u16)
        ensures
            *self == GameStatus::InProgress ==> r == 0,
            *self == GameStatus::Won ==> r == 1,
            *self == GameStatus::Lost ==> r == 2,
    {
        match self {
            GameStatus::InProgress => 0,
            GameStatus::Won => 1,
            GameStatus::Lost => 2,
        }
    }
}

/// Where the round in `state` stands. A fully revealed word wins, even when no
/// life is left; otherwise the round is lost once the wrong guesses reach the
/// lives.
pub fn evaluate_status(state: &State) -> (r: GameStatus)
    ensures
        state.progress@ == state.word@ ==> r == GameStatus::Won,
        state.progress@ != state.word@ && state.tries >= state.lives ==> r == GameStatus::Lost,
        state.progress@ != state.word@ && state.tries < state.lives ==> r
            == GameStatus::InProgress,
{
    if state.progress == state.word {
        GameStatus::Won
    } else if state.tries >= state.lives {
        GameStatus::Lost
    } else {
        GameStatus::InProgress
    }
}

/// The lives left while the round goes on.
pub fn lives_left(state: &State) -> (r: u32)
    requires
        state.tries <= state.lives,
    ensures
        r == state.lives - state.tries,
{
    state.lives - state.tries
}

/// Relies on `String::push`: appends one character at the end.
#[verifier::external_body]
fn push_char(s: &mut String, c: char)
    ensures
        final(s)@ == old(s)@.push(c),
{
    s.push(c)
}

} // verus!
