use vstd::prelude::*;

verus! {

/// What can go wrong with a guess.
#[derive(Debug, Clone, Copy)]
pub enum GameError {
    /// The guess has more grapheme clusters than the secret phrase.
    InvalidWord,
}

impl GameError {
    /// The line shown in chat to the player whose guess was refused.
    pub fn twitch_message_error(&self) -> (text: &'static str)
        ensures
            text@ == "La palabra es demasiado larga"@,
    {
        match self {
            GameError::InvalidWord => "La palabra es demasiado larga",
        }
    }

    /// A short description of the error, for logs.
    pub fn description(&self) -> (text: &'static str)
        ensures
            text@ == "Word too long"@,
    {
        match self {
            GameError::InvalidWord => "Word too long",
        }
    }
}

} // verus!
