//! The game session: the one owner of the round and of the session's
//! identity. It takes the messages of its inbox one at a time and says, for
//! each, what is to be done outside; the task that feeds it and carries the
//! answers out is not its concern.

use crate::errors::GameError;
use crate::models::game_view::{snapshot_of, GameView, Snapshot};
use crate::models::messages::{Command, CommandMessage, GeneralMessage, Inbound, TwitchEvent, TwitchMessage};
use crate::models::send_msg_request::{Outbound, SendMsgRequest};
use crate::round::{law_guess_all_keeps_wf, law_start_is_wf, Round};
use crate::text::{after_prefix, grapheme_clusters, graphemes, without_whitespace};
use crate::word::Game;
use vstd::prelude::*;

verus! {

/// The answer to a request.
#[derive(Debug)]
pub enum CommandReply {
    /// The session's identity, if the transport has given one.
    SessionId(Option<String>),
    /// A snapshot of the round, if one is being played.
    GameState(Option<GameView>),
    /// The phrase of the round that was started, all hidden.
    Word(String),
}

/// What is to be done outside after a message was taken.
#[derive(Debug)]
pub enum Action {
    /// Nothing.
    Nothing,
    /// Hand the answer to whoever asked.
    Reply(CommandReply),
    /// Register for the chat lines of the channel, under the session's new
    /// identity; once that is done, the identity is to be recorded with
    /// [`GameSession::set_session_id`].
    Subscribe { session_id: String, broadcaster_id: String, user_id: String },
    /// Deliver a line to the chat.
    Send(SendMsgRequest),
}

/// An answer as plain text.
pub enum Answer {
    SessionId(Option<Seq<char>>),
    GameState(Option<Snapshot>),
    Word(Seq<char>),
}

/// An action as plain text.
pub enum Effect {
    Nothing,
    Reply(Answer),
    Subscribe { session_id: Seq<char>, broadcaster_id: Seq<char>, user_id: Seq<char> },
    Send(Outbound),
}

impl View for CommandReply {
    type V = Answer;

    open spec fn view(&self) -> Answer {
        match *self {
            CommandReply::SessionId(id) => Answer::SessionId(id.deep_view()),
            CommandReply::GameState(Some(view)) => Answer::GameState(Some(view@)),
            CommandReply::GameState(None) => Answer::GameState(None),
            CommandReply::Word(word) => Answer::Word(word@),
        }
    }
}

impl View for Action {
    type V = Effect;

    open spec fn view(&self) -> Effect {
        match *self {
            Action::Nothing => Effect::Nothing,
            Action::Reply(reply) => Effect::Reply(reply@),
            Action::Subscribe { session_id, broadcaster_id, user_id } => Effect::Subscribe {
                session_id: session_id@,
                broadcaster_id: broadcaster_id@,
                user_id: user_id@,
            },
            Action::Send(request) => Effect::Send(request@),
        }
    }
}

/// Whether a chat line begins with the command and goes on after it. The
/// command is meant with the space that ends it.
pub open spec fn has_command(command: Seq<char>, text: Seq<char>) -> bool {
    command.is_prefix_of(text) && text.len() > command.len()
}

/// The guess that a chat line makes, if it makes one: what follows the
/// command, cut into grapheme clusters, where the line begins with the
/// command; the line itself where it is a single grapheme cluster; and no
/// guess otherwise.
pub open spec fn player_guess(command: Seq<char>, text: Seq<char>) -> Option<Seq<Seq<char>>> {
    if text.len() == 0 {
        None
    } else if has_command(command, text) {
        Some(grapheme_clusters(text.skip(command.len() as int)))
    } else if grapheme_clusters(text).len() == 1 {
        Some(grapheme_clusters(text))
    } else {
        None
    }
}

/// The line that answers a guess that was refused.
pub open spec fn refusal() -> Seq<char> {
    "La palabra es demasiado larga"@
}

/// The state of a session as mathematics.
#[verifier::ext_equal]
pub struct SessionState {
    /// The identity that the transport gave the session, once it has.
    pub session_id: Option<Seq<char>>,
    /// The round that is being played, if any.
    pub round: Option<Round>,
    /// The operator, on whose channel and in whose name lines are sent.
    pub user_id: Seq<char>,
    /// The command word, with the space that ends it.
    pub command: Seq<char>,
}

impl SessionState {
    /// What holds of every session: its round is one that the game can reach.
    pub open spec fn wf(self) -> bool {
        self.round matches Some(round) ==> round.wf()
    }

    /// The session with another round, or none.
    pub open spec fn with_round(self, round: Option<Round>) -> SessionState {
        SessionState { round, ..self }
    }

    /// A line for the chat in the operator's name.
    pub open spec fn line(self, message: Seq<char>, reply_to: Option<Seq<char>>) -> Outbound {
        Outbound { broadcaster_id: self.user_id, sender_id: self.user_id, message, reply_to }
    }

    /// The guess that a chat line makes in this session: none while no round
    /// is played or the round is completed.
    pub open spec fn pending_guess(self, text: Seq<char>) -> Option<Seq<Seq<char>>> {
        match self.round {
            Some(round) => if round.completed() {
                None
            } else {
                player_guess(self.command, text)
            },
            None => None,
        }
    }

    /// The session after a request, and the answer.
    pub open spec fn answer(self, command: Command) -> (SessionState, Answer) {
        match command {
            Command::GetSessionId => (self, Answer::SessionId(self.session_id)),
            Command::GetGameState => (
                self,
                Answer::GameState(
                    match self.round {
                        Some(round) => Some(snapshot_of(round)),
                        None => None,
                    },
                ),
            ),
            Command::SetGameWord { word } => {
                let round = Round::start(grapheme_clusters(without_whitespace(word)));
                (self.with_round(Some(round)), Answer::Word(round.masked()))
            },
        }
    }

    /// The session after a chat line, and what is to be done: a guess that
    /// fits the phrase is played; one that is longer than the phrase changes
    /// nothing and is answered with the refusal, as a reply to the line.
    pub open spec fn play(self, text: Seq<char>, message_id: Seq<char>) -> (SessionState, Effect) {
        match self.pending_guess(text) {
            Some(guess) => if guess.len() <= self.round->0.characters.len() {
                (self.with_round(Some(self.round->0.guess_all(guess))), Effect::Nothing)
            } else {
                (self, Effect::Send(self.line(refusal(), Some(message_id))))
            },
            None => (self, Effect::Nothing),
        }
    }

    /// The session after an event of the transport, and what is to be done.
    pub open spec fn react(self, event: TwitchEvent) -> (SessionState, Effect) {
        match event {
            TwitchEvent::WelcomeMessage { session_id } => (
                self,
                Effect::Subscribe { session_id, broadcaster_id: self.user_id, user_id: self.user_id },
            ),
            TwitchEvent::PlayerMessage { message_text, message_id, .. } => self.play(
                message_text,
                message_id,
            ),
            _ => (self, Effect::Nothing),
        }
    }

    /// The session after a message, and what is to be done.
    pub open spec fn step(self, message: Inbound) -> (SessionState, Effect) {
        match message {
            Inbound::CommandMessage(command) => (
                self.answer(command).0,
                Effect::Reply(self.answer(command).1),
            ),
            Inbound::TwitchMessage(event) => self.react(event),
            Inbound::TwitchSendMessage(text) => (self, Effect::Send(self.line(text, None))),
        }
    }
}

/// Messages are answered from the state that they find: asking for the round
/// changes nothing and shows the round as it stands, so an answer given
/// before a round is started shows what was there before, whatever phrase the
/// next message starts a round on.
pub proof fn law_answers_follow_the_order_of_messages(state: SessionState, word: Seq<char>)
    ensures
        state.step(Inbound::CommandMessage(Command::GetGameState)).0 == state,
        state.step(Inbound::CommandMessage(Command::GetGameState)).1 == Effect::Reply(
            Answer::GameState(
                match state.round {
                    Some(round) => Some(snapshot_of(round)),
                    None => None,
                },
            ),
        ),
        state.step(Inbound::CommandMessage(Command::GetGameState)).0.step(
            Inbound::CommandMessage(Command::SetGameWord { word }),
        ) == state.step(Inbound::CommandMessage(Command::SetGameWord { word })),
        state.step(Inbound::CommandMessage(Command::SetGameWord { word })).0.step(
            Inbound::CommandMessage(Command::GetGameState),
        ).1 == Effect::Reply(
            Answer::GameState(
                Some(snapshot_of(Round::start(grapheme_clusters(without_whitespace(word))))),
            ),
        ),
{
}

/// A session stays one that can be reached, whatever message it takes.
pub proof fn law_step_keeps_wf(state: SessionState, message: Inbound)
    requires
        state.wf(),
    ensures
        state.step(message).0.wf(),
{
    match message {
        Inbound::CommandMessage(Command::SetGameWord { word }) => {
            law_start_is_wf(grapheme_clusters(without_whitespace(word)));
        },
        Inbound::TwitchMessage(TwitchEvent::PlayerMessage { message_text, .. }) => {
            if let Some(guess) = state.pending_guess(message_text) {
                law_guess_all_keeps_wf(state.round->0, guess);
            }
        },
        _ => {},
    }
}

/// The state that the game session owns.
#[derive(Debug)]
pub struct GameSession {
    session_id: Option<String>,
    game: Option<Game>,
    user_id: String,
    command: String,
}

impl View for GameSession {
    type V = SessionState;

    closed spec fn view(&self) -> SessionState {
        SessionState {
            session_id: self.session_id.deep_view(),
            round: match self.game {
                Some(game) => Some(game@),
                None => None,
            },
            user_id: self.user_id@,
            command: self.command@,
        }
    }
}

impl GameSession {
    /// Every session is one that can be reached: its round, if it has one, is
    /// a round that the game can reach.
    fn round_is_wf(&self)
        ensures
            self@.wf(),
    {
        proof {
            match &self.game {
                Some(game) => {
                    use_type_invariant(game);
                },
                None => {},
            }
        }
    }

    /// A session for an operator and a command word: no identity yet, no
    /// round. The command that chat lines are held against is the word and a
    /// space.
    pub fn new(user_id: String, command: String) -> (session: Self)
        ensures
            session@ == (SessionState {
                session_id: None,
                round: None,
                user_id: user_id@,
                command: command@.push(' '),
            }),
    {
        proof {
            reveal_strlit(" ");
            assert(command@ + " "@ =~= command@.push(' '));
        }
        let command = command.concat(" ");
        Self { session_id: None, game: None, user_id, command }
    }

    /// Records the identity that the transport gave the session. It is given
    /// once: a session that has one takes no other.
    pub fn set_session_id(&mut self, session_id: String)
        requires
            old(self)@.session_id is None,
        ensures
            final(self)@ == (SessionState { session_id: Some(session_id@), ..old(self)@ }),
    {
        self.session_id = Some(session_id);
    }

    /// Whether the transport has given the session its identity.
    pub fn has_session_id(&self) -> (has: bool)
        ensures
            has == self@.session_id is Some,
    {
        self.session_id.is_some()
    }

    /// The guess that a chat line makes, if it makes one (see
    /// [`player_guess`]).
    pub fn valid_player_message<'a>(&self, message_text: &'a str) -> (guess: Option<Vec<&'a str>>)
        ensures
            guess.deep_view() == player_guess(self@.command, message_text@),
    {
        if message_text.is_empty() {
            return None;
        }
        match after_prefix(message_text, self.command.as_str()) {
            Some(rest) => {
                assert(message_text@.skip(self.command@.len() as int) =~= rest@);
                if !rest.is_empty() {
                    return Some(graphemes(rest));
                }
            },
            None => {},
        }
        let word_chars = graphemes(message_text);
        if word_chars.len() == 1 {
            Some(word_chars)
        } else {
            None
        }
    }

    /// Answers a request. Asking changes nothing; starting a round puts a
    /// new round in the place of whatever round there was.
    pub fn handle_command_message(&mut self, message: CommandMessage) -> (reply: CommandReply)
        ensures
            final(self)@.wf(),
            final(self)@ == old(self)@.answer(message@).0,
            reply@ == old(self)@.answer(message@).1,
    {
        let reply = match message {
            CommandMessage::GetSessionId => {
                let id = match &self.session_id {
                    Some(id) => Some(id.clone()),
                    None => None,
                };
                CommandReply::SessionId(id)
            },
            CommandMessage::GetGameState => {
                let view = match &self.game {
                    Some(game) => Some(GameView::from(game)),
                    None => None,
                };
                CommandReply::GameState(view)
            },
            CommandMessage::SetGameWord { word } => {
                let game = Game::new(word);
                let word = game.get_actual_word();
                self.game = Some(game);
                CommandReply::Word(word)
            },
        };
        self.round_is_wf();
        reply
    }

    /// A line for the chat in the operator's name.
    fn line(&self, message: String, reply_to: Option<String>) -> (request: SendMsgRequest)
        ensures
            request@ == self@.line(message@, reply_to.deep_view()),
    {
        SendMsgRequest {
            broadcaster_id: self.user_id.clone(),
            sender_id: self.user_id.clone(),
            message,
            reply_to,
        }
    }

    /// Takes an event of the transport. The greeting asks for the
    /// subscription. A chat line counts while a round is played and not yet
    /// completed: the guess it makes is played, and a guess longer than the
    /// phrase is answered with the refusal. Any other event is let pass.
    pub fn handle_twitch_message(&mut self, message: TwitchMessage) -> (action: Action)
        ensures
            final(self)@.wf(),
            final(self)@ == old(self)@.react(message@).0,
            action@ == old(self)@.react(message@).1,
    {
        let action = match message {
            TwitchMessage::WelcomeMessage { session_id } => Action::Subscribe {
                session_id,
                broadcaster_id: self.user_id.clone(),
                user_id: self.user_id.clone(),
            },
            TwitchMessage::PlayerMessage { message_text, message_id, .. } => {
                let playing = match &self.game {
                    Some(game) => !game.is_completed(),
                    None => false,
                };
                let word_chars = if playing {
                    self.valid_player_message(message_text.as_str())
                } else {
                    None
                };
                let refused = match (word_chars, &mut self.game) {
                    (Some(word_chars), Some(game)) => {
                        match game.check_word_chars(word_chars.as_slice()) {
                            Ok(_) => None,
                            Err(err) => Some(err),
                        }
                    },
                    _ => None,
                };
                match refused {
                    Some(err) => {
                        let text = err.twitch_message_error().to_owned();
                        Action::Send(self.line(text, Some(message_id)))
                    },
                    None => Action::Nothing,
                }
            },
            _ => Action::Nothing,
        };
        self.round_is_wf();
        action
    }

    /// Takes one message of the inbox and says what is to be done outside.
    pub fn handle(&mut self, message: GeneralMessage) -> (action: Action)
        ensures
            final(self)@.wf(),
            final(self)@ == old(self)@.step(message@).0,
            action@ == old(self)@.step(message@).1,
    {
        self.round_is_wf();
        match message {
            GeneralMessage::CommandMessage(command) => Action::Reply(
                self.handle_command_message(command),
            ),
            GeneralMessage::TwitchMessage(message) => self.handle_twitch_message(message),
            GeneralMessage::TwitchSendMessage(message) => Action::Send(self.line(message, None)),
        }
    }
}

} // verus!
