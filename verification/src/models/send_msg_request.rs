//! What is handed over for delivery to the chat.

use vstd::prelude::*;

verus! {

/// One line for the chat: on whose channel, in whose name, what it says,
/// and the chat line that it answers, if it answers one.
#[derive(Debug)]
pub struct SendMsgRequest {
    pub broadcaster_id: String,
    pub sender_id: String,
    pub message: String,
    pub reply_to: Option<String>,
}

/// A line for the chat as plain text.
pub struct Outbound {
    pub broadcaster_id: Seq<char>,
    pub sender_id: Seq<char>,
    pub message: Seq<char>,
    pub reply_to: Option<Seq<char>>,
}

impl View for SendMsgRequest {
    type V = Outbound;

    open spec fn view(&self) -> Outbound {
        Outbound {
            broadcaster_id: self.broadcaster_id@,
            sender_id: self.sender_id@,
            message: self.message@,
            reply_to: self.reply_to.deep_view(),
        }
    }
}

} // verus!
