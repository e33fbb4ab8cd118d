//! The snapshot of a round that is handed out for display.

use crate::round::Round;
use crate::word::Game;
use vstd::prelude::*;

verus! {

/// A round as it is shown: made anew for every query, never changed.
#[derive(Debug)]
pub struct GameView {
    /// The phrase, with an underscore for each hidden grapheme.
    pub word: String,
    /// The wrong guesses, each followed by a space.
    pub letters: String,
    /// Whether the round is over.
    pub is_completed: bool,
}

/// What a snapshot holds, as plain text.
pub struct Snapshot {
    pub word: Seq<char>,
    pub letters: Seq<char>,
    pub is_completed: bool,
}

/// The snapshot that shows a given round.
pub open spec fn snapshot_of(round: Round) -> Snapshot {
    Snapshot {
        word: round.masked(),
        letters: round.tried_line(),
        is_completed: round.completed(),
    }
}

impl View for GameView {
    type V = Snapshot;

    open spec fn view(&self) -> Snapshot {
        Snapshot { word: self.word@, letters: self.letters@, is_completed: self.is_completed }
    }
}

impl GameView {
    /// A snapshot of the given parts.
    pub fn new(word: String, letters: String, is_completed: bool) -> (view: Self)
        ensures
            view.word == word,
            view.letters == letters,
            view.is_completed == is_completed,
    {
        Self { word, letters, is_completed }
    }
}

impl<'a> From<&'a Game> for GameView {
    /// The snapshot of a round as it stands.
    fn from(value: &'a Game) -> (view: Self)
        ensures
            view@ == snapshot_of(value@),
    {
        Self {
            word: value.get_actual_word(),
            letters: value.get_letters(),
            is_completed: value.is_completed(),
        }
    }
}

/// The conversion from a round is specified by the `ensures` of `from`
/// itself: a snapshot holds strings, which no spec function can build.
impl<'a> vstd::std_specs::convert::FromSpecImpl<&'a Game> for GameView {
    open spec fn obeys_from_spec() -> bool {
        false
    }

    open spec fn from_spec(value: &'a Game) -> GameView {
        arbitrary()
    }
}

impl Clone for GameView {
    /// A second snapshot that holds the same.
    fn clone(&self) -> (copy: Self)
        ensures
            copy == *self,
    {
        Self {
            word: self.word.clone(),
            letters: self.letters.clone(),
            is_completed: self.is_completed,
        }
    }
}

impl Default for GameView {
    /// The snapshot shown while no round runs: nothing to show, and completed.
    fn default() -> (view: Self)
        ensures
            view.word@ == Seq::<char>::empty(),
            view.letters@ == Seq::<char>::empty(),
            view.is_completed,
    {
        Self { word: String::new(), letters: String::new(), is_completed: true }
    }
}

} // verus!
