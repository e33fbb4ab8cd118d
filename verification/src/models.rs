//! The values that travel between the parts of the game.

pub mod game_view;
pub mod messages;
pub mod send_msg_request;
