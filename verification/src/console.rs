//! The operator's console: which screen it shows, and what each event of its
//! window asks for. The window itself, and the work that is asked for, are
//! not its concern.

use crate::models::game_view::{GameView, Snapshot};
use vstd::prelude::*;

verus! {

/// The screens of the console.
#[derive(Clone, Copy, Debug, PartialEq, Eq, Structural)]
pub enum State {
    /// Not connected; the operator may connect.
    NewConnection,
    /// Connecting.
    Connecting,
    /// Connected; the operator types the phrase of the next round.
    NewWord,
    /// The phrase was submitted and the round is being started.
    SettingGame,
    /// A round is being played.
    Playing,
    /// The round is over.
    GameCompleted,
}

/// What can happen at the console.
#[derive(Debug)]
pub enum Event {
    /// The operator asks to connect.
    NewConnection,
    /// Connecting ended: with the command word where it succeeded, with
    /// nothing where it failed.
    Connected(Option<String>),
    /// The operator asks for another round.
    NewGame,
    /// The operator typed: the phrase now reads so.
    NewWord(String),
    /// The round was started; the phrase comes back all hidden.
    WordSetted(String),
    /// The operator submits the phrase.
    SubmitWord,
    /// It is time to look at the round again.
    GetActualState,
    /// The round as it stands, or nothing where none was to be had.
    ActualState(Option<GameView>),
    /// The window is asked to close.
    Close,
    /// Nothing happened.
    Idle,
}

/// What the console asks for.
#[derive(Debug)]
pub enum Request {
    /// Nothing.
    Idle,
    /// Connect to the chat.
    Connect,
    /// Start a round on this phrase; its answer is [`Event::WordSetted`].
    SetGameWord(String),
    /// Send this line to the chat; when done, [`Event::GetActualState`].
    SendMessage(String),
    /// Ask for the round as it stands; its answer is [`Event::ActualState`].
    GetGameState,
    /// Stop the tasks and close the window.
    Close,
}

/// An event as plain text.
pub enum Happening {
    NewConnection,
    Connected(Option<Seq<char>>),
    NewGame,
    NewWord(Seq<char>),
    WordSetted(Seq<char>),
    SubmitWord,
    GetActualState,
    ActualState(Option<Snapshot>),
    Close,
    Idle,
}

/// A request as plain text.
pub enum Wish {
    Idle,
    Connect,
    SetGameWord(Seq<char>),
    SendMessage(Seq<char>),
    GetGameState,
    Close,
}

impl View for Event {
    type V = Happening;

    open spec fn view(&self) -> Happening {
        match *self {
            Event::NewConnection => Happening::NewConnection,
            Event::Connected(command) => Happening::Connected(command.deep_view()),
            Event::NewGame => Happening::NewGame,
            Event::NewWord(word) => Happening::NewWord(word@),
            Event::WordSetted(word) => Happening::WordSetted(word@),
            Event::SubmitWord => Happening::SubmitWord,
            Event::GetActualState => Happening::GetActualState,
            Event::ActualState(Some(game)) => Happening::ActualState(Some(game@)),
            Event::ActualState(None) => Happening::ActualState(None),
            Event::Close => Happening::Close,
            Event::Idle => Happening::Idle,
        }
    }
}

impl View for Request {
    type V = Wish;

    open spec fn view(&self) -> Wish {
        match *self {
            Request::Idle => Wish::Idle,
            Request::Connect => Wish::Connect,
            Request::SetGameWord(word) => Wish::SetGameWord(word@),
            Request::SendMessage(line) => Wish::SendMessage(line@),
            Request::GetGameState => Wish::GetGameState,
            Request::Close => Wish::Close,
        }
    }
}

/// The line that opens a round in chat. It explains the command where the
/// console knows it.
pub open spec fn opening_line(command: Option<Seq<char>>) -> Seq<char> {
    match command {
        Some(command) => "Comenzando partida"@ + ", escribe el comando "@ + command
            + " seguido de la palabra (Si solo es una letra puedes omitir el comando)"@,
        None => "Comenzando partida"@,
    }
}

/// The line that closes a round in chat.
pub open spec fn closing_line(word: Seq<char>) -> Seq<char> {
    "Partida terminada"@ + ", la palabra era "@ + word
}

/// The snapshot shown while no round runs.
pub open spec fn blank() -> Snapshot {
    Snapshot { word: Seq::empty(), letters: Seq::empty(), is_completed: true }
}

/// The console as mathematics.
pub struct Desk {
    /// The round as the console last saw it; on the screen for a new phrase,
    /// its word is what the operator has typed.
    pub game: Snapshot,
    /// The screen.
    pub state: State,
    /// The command word, once connected.
    pub command: Option<Seq<char>>,
}

impl Desk {
    /// The console after an event, and what it asks for.
    pub open spec fn next(self, event: Happening) -> (Desk, Wish) {
        match event {
            Happening::NewConnection => if self.state == State::NewConnection {
                (Desk { state: State::Connecting, ..self }, Wish::Connect)
            } else {
                (self, Wish::Idle)
            },
            Happening::Connected(Some(command)) => (
                Desk { state: State::NewWord, command: Some(command), ..self },
                Wish::Idle,
            ),
            Happening::Connected(None) => (Desk { state: State::NewConnection, ..self }, Wish::Idle),
            Happening::NewGame => (Desk { state: State::NewWord, game: blank(), ..self }, Wish::Idle),
            Happening::NewWord(word) => (
                Desk { game: Snapshot { word, ..self.game }, ..self },
                Wish::Idle,
            ),
            Happening::SubmitWord => if self.game.word.len() > 0 {
                (Desk { state: State::SettingGame, ..self }, Wish::SetGameWord(self.game.word))
            } else {
                (self, Wish::Idle)
            },
            Happening::WordSetted(word) => (
                Desk {
                    state: State::Playing,
                    game: Snapshot { word, is_completed: false, ..self.game },
                    ..self
                },
                Wish::SendMessage(opening_line(self.command)),
            ),
            Happening::GetActualState => if !self.game.is_completed {
                (self, Wish::GetGameState)
            } else if self.state == State::Playing {
                (
                    Desk { state: State::GameCompleted, ..self },
                    Wish::SendMessage(closing_line(self.game.word)),
                )
            } else {
                (self, Wish::Idle)
            },
            Happening::ActualState(Some(game)) => (Desk { game, ..self }, Wish::Idle),
            Happening::ActualState(None) => (self, Wish::Idle),
            Happening::Close => (self, Wish::Close),
            Happening::Idle => (self, Wish::Idle),
        }
    }
}

/// The console of the operator.
#[derive(Debug)]
pub struct Console {
    game: GameView,
    state: State,
    command: Option<String>,
}

impl View for Console {
    type V = Desk;

    closed spec fn view(&self) -> Desk {
        Desk { game: self.game@, state: self.state, command: self.command.deep_view() }
    }
}

impl Console {
    /// A console that is not connected and shows no round.
    pub fn new() -> (console: Self)
        ensures
            console@ == (Desk { game: blank(), state: State::NewConnection, command: None }),
    {
        Self { game: GameView::default(), state: State::NewConnection, command: None }
    }

    /// The round as the console last saw it.
    pub fn game(&self) -> (game: &GameView)
        ensures
            game@ == self@.game,
    {
        &self.game
    }

    /// The screen that the console shows.
    pub fn state(&self) -> (state: State)
        ensures
            state == self@.state,
    {
        self.state
    }

    /// The command word, once connected.
    pub fn command(&self) -> (command: Option<&str>)
        ensures
            command.deep_view() == self@.command,
    {
        match &self.command {
            Some(command) => Some(command.as_str()),
            None => None,
        }
    }

    /// The line that opens a round in chat.
    fn opening_line(&self) -> (line: String)
        ensures
            line@ == opening_line(self@.command),
    {
        let line = "Comenzando partida".to_owned();
        match &self.command {
            Some(command) => line.concat(", escribe el comando ").concat(command.as_str()).concat(
                " seguido de la palabra (Si solo es una letra puedes omitir el comando)",
            ),
            None => line,
        }
    }

    /// The line that closes a round in chat.
    fn closing_line(&self) -> (line: String)
        ensures
            line@ == closing_line(self@.game.word),
    {
        "Partida terminada".to_owned().concat(", la palabra era ").concat(self.game.word.as_str())
    }

    /// Takes an event and says what is to be done (see [`Desk::next`]).
    pub fn update(&mut self, event: Event) -> (request: Request)
        ensures
            final(self)@ == old(self)@.next(event@).0,
            request@ == old(self)@.next(event@).1,
    {
        match event {
            Event::NewConnection => {
                if self.state == State::NewConnection {
                    self.state = State::Connecting;
                    return Request::Connect;
                }
            },
            Event::Connected(Some(command)) => {
                self.state = State::NewWord;
                self.command = Some(command);
            },
            Event::Connected(None) => {
                self.state = State::NewConnection;
            },
            Event::NewGame => {
                self.state = State::NewWord;
                self.game = GameView::default();
            },
            Event::NewWord(word) => {
                self.game.word = word;
            },
            Event::SubmitWord => {
                if !self.game.word.as_str().is_empty() {
                    self.state = State::SettingGame;
                    return Request::SetGameWord(self.game.word.clone());
                }
            },
            Event::WordSetted(word) => {
                self.game.word = word;
                self.game.is_completed = false;
                self.state = State::Playing;
                return Request::SendMessage(self.opening_line());
            },
            Event::GetActualState => {
                if !self.game.is_completed {
                    return Request::GetGameState;
                }
                if self.state == State::Playing {
                    self.state = State::GameCompleted;
                    return Request::SendMessage(self.closing_line());
                }
            },
            Event::ActualState(Some(game)) => {
                self.game = game;
            },
            Event::Close => {
                return Request::Close;
            },
            _ => {},
        }
        Request::Idle
    }
}

} // verus!
