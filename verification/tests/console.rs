use colgado::console::{Console, Event, Request, State};
use colgado::models::game_view::GameView;

fn connected(command: Option<&str>) -> Console {
    let mut console = Console::new();
    assert!(matches!(console.update(Event::NewConnection), Request::Connect));
    assert!(matches!(
        console.update(Event::Connected(Some(command.unwrap_or("!guess").to_owned()))),
        Request::Idle
    ));
    console
}

fn playing(word: &str) -> Console {
    let mut console = connected(None);
    console.update(Event::NewWord(word.to_owned()));
    console.update(Event::SubmitWord);
    console.update(Event::WordSetted("_".repeat(word.chars().count())));
    console
}

#[test]
fn a_new_console_is_not_connected() {
    let console = Console::new();
    assert_eq!(console.state(), State::NewConnection);
    assert_eq!(console.command(), None);
    assert_eq!(console.game().word, "");
    assert_eq!(console.game().letters, "");
    assert!(console.game().is_completed);
}

#[test]
fn connecting_is_asked_for_once() {
    let mut console = Console::new();
    assert!(matches!(console.update(Event::NewConnection), Request::Connect));
    assert_eq!(console.state(), State::Connecting);
    assert!(matches!(console.update(Event::NewConnection), Request::Idle));
    assert_eq!(console.state(), State::Connecting);
}

#[test]
fn a_failed_connection_leads_back() {
    let mut console = Console::new();
    console.update(Event::NewConnection);
    assert!(matches!(console.update(Event::Connected(None)), Request::Idle));
    assert_eq!(console.state(), State::NewConnection);
    assert_eq!(console.command(), None);
    assert!(matches!(console.update(Event::NewConnection), Request::Connect));
}

#[test]
fn a_connection_brings_the_command() {
    let console = connected(Some("!adivina"));
    assert_eq!(console.state(), State::NewWord);
    assert_eq!(console.command(), Some("!adivina"));
}

#[test]
fn an_empty_phrase_is_not_submitted() {
    let mut console = connected(None);
    assert!(matches!(console.update(Event::SubmitWord), Request::Idle));
    assert_eq!(console.state(), State::NewWord);
}

#[test]
fn a_phrase_is_typed_and_submitted() {
    let mut console = connected(None);
    assert!(matches!(console.update(Event::NewWord("so".to_owned())), Request::Idle));
    assert!(matches!(console.update(Event::NewWord("sol".to_owned())), Request::Idle));
    assert_eq!(console.game().word, "sol");
    match console.update(Event::SubmitWord) {
        Request::SetGameWord(word) => assert_eq!(word, "sol"),
        other => panic!("{other:?}"),
    }
    assert_eq!(console.state(), State::SettingGame);
}

#[test]
fn a_started_round_is_announced_with_the_command() {
    let mut console = connected(Some("!guess"));
    console.update(Event::NewWord("sol".to_owned()));
    console.update(Event::SubmitWord);
    match console.update(Event::WordSetted("___".to_owned())) {
        Request::SendMessage(line) => assert_eq!(
            line,
            "Comenzando partida, escribe el comando !guess seguido de la palabra (Si solo es una letra puedes omitir el comando)"
        ),
        other => panic!("{other:?}"),
    }
    assert_eq!(console.state(), State::Playing);
    assert_eq!(console.game().word, "___");
    assert!(!console.game().is_completed);
}

#[test]
fn a_started_round_is_announced_without_a_command() {
    let mut console = Console::new();
    match console.update(Event::WordSetted("___".to_owned())) {
        Request::SendMessage(line) => assert_eq!(line, "Comenzando partida"),
        other => panic!("{other:?}"),
    }
    assert_eq!(console.state(), State::Playing);
}

#[test]
fn a_round_in_play_is_looked_at_again_and_again() {
    let mut console = playing("sol");
    assert!(matches!(console.update(Event::GetActualState), Request::GetGameState));
    let seen = GameView::new("s__".to_owned(), "x ".to_owned(), false);
    assert!(matches!(console.update(Event::ActualState(Some(seen))), Request::Idle));
    assert_eq!(console.game().word, "s__");
    assert_eq!(console.game().letters, "x ");
    assert!(matches!(console.update(Event::ActualState(None)), Request::Idle));
    assert_eq!(console.game().word, "s__");
    assert!(matches!(console.update(Event::GetActualState), Request::GetGameState));
    assert_eq!(console.state(), State::Playing);
}

#[test]
fn a_completed_round_is_closed_in_chat_once() {
    let mut console = playing("sol");
    let seen = GameView::new("sol".to_owned(), "x ".to_owned(), true);
    console.update(Event::ActualState(Some(seen)));
    match console.update(Event::GetActualState) {
        Request::SendMessage(line) => assert_eq!(line, "Partida terminada, la palabra era sol"),
        other => panic!("{other:?}"),
    }
    assert_eq!(console.state(), State::GameCompleted);
    assert!(matches!(console.update(Event::GetActualState), Request::Idle));
    assert_eq!(console.state(), State::GameCompleted);
}

#[test]
fn another_round_clears_the_console() {
    let mut console = playing("sol");
    console.update(Event::ActualState(Some(GameView::new("sol".to_owned(), "x ".to_owned(), true))));
    console.update(Event::GetActualState);
    assert!(matches!(console.update(Event::NewGame), Request::Idle));
    assert_eq!(console.state(), State::NewWord);
    assert_eq!(console.game().word, "");
    assert_eq!(console.game().letters, "");
    assert!(console.game().is_completed);
    assert_eq!(console.command(), Some("!guess"));
}

#[test]
fn closing_and_idling() {
    let mut console = playing("sol");
    assert!(matches!(console.update(Event::Close), Request::Close));
    assert_eq!(console.state(), State::Playing);
    assert!(matches!(console.update(Event::Idle), Request::Idle));
    assert_eq!(console.state(), State::Playing);
}
