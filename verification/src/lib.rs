//! A hangman-style word game played over a live chat feed: the word engine,
//! the classifier of inbound chat frames, and the decisions of the game session.

pub mod console;
pub mod errors;
pub mod json;
pub mod models;
pub mod round;
pub mod session;
pub mod tasks;
pub mod text;
pub mod word;
