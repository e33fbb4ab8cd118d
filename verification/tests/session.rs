use colgado::models::messages::{CommandMessage, GeneralMessage, TwitchMessage};
use colgado::session::{Action, CommandReply, GameSession};

fn session() -> GameSession {
    GameSession::new("1234".to_owned(), "!guess".to_owned())
}

fn chat_line(text: &str) -> TwitchMessage {
    TwitchMessage::PlayerMessage {
        message_text: text.to_owned(),
        message_id: "m-7".to_owned(),
        player_id: "42".to_owned(),
        player_name: "ana".to_owned(),
    }
}

fn start(session: &mut GameSession, word: &str) -> String {
    match session.handle_command_message(CommandMessage::SetGameWord { word: word.to_owned() }) {
        CommandReply::Word(word) => word,
        other => panic!("{other:?}"),
    }
}

fn state(session: &mut GameSession) -> Option<(String, String, bool)> {
    match session.handle_command_message(CommandMessage::GetGameState) {
        CommandReply::GameState(view) => view.map(|v| (v.word, v.letters, v.is_completed)),
        other => panic!("{other:?}"),
    }
}

fn shown(word: &str, letters: &str, is_completed: bool) -> Option<(String, String, bool)> {
    Some((word.to_owned(), letters.to_owned(), is_completed))
}

#[test]
fn the_command_gates_what_counts_as_a_guess() {
    let session = session();
    assert_eq!(session.valid_player_message("!guess a"), Some(vec!["a"]));
    assert_eq!(session.valid_player_message("a"), Some(vec!["a"]));
    assert_eq!(session.valid_player_message("ab"), None);
    assert_eq!(session.valid_player_message("!guessab"), None);
}

#[test]
fn what_follows_the_command_is_cut_into_graphemes() {
    let session = session();
    assert_eq!(
        session.valid_player_message("!guess camión"),
        Some(vec!["c", "a", "m", "i", "ó", "n"])
    );
    assert_eq!(session.valid_player_message("!guess  a"), Some(vec![" ", "a"]));
    assert_eq!(session.valid_player_message("ó"), Some(vec!["ó"]));
    assert_eq!(session.valid_player_message("o\u{301}"), Some(vec!["o\u{301}"]));
}

#[test]
fn lines_that_are_no_guess() {
    let session = session();
    assert_eq!(session.valid_player_message(""), None);
    assert_eq!(session.valid_player_message("!guess"), None);
    assert_eq!(session.valid_player_message("!guess "), None);
    assert_eq!(session.valid_player_message("hola a todos"), None);
    assert_eq!(session.valid_player_message("!GUESS a"), None);
    assert_eq!(session.valid_player_message(" !guess a"), None);
    assert_eq!(session.valid_player_message("éa"), None);
    assert_eq!(session.valid_player_message("abcdefé y más"), None);
    assert_eq!(session.valid_player_message("!guessé a"), None);
}

#[test]
fn a_new_session_has_no_identity_and_no_round() {
    let mut session = session();
    assert!(!session.has_session_id());
    assert!(matches!(
        session.handle_command_message(CommandMessage::GetSessionId),
        CommandReply::SessionId(None)
    ));
    assert_eq!(state(&mut session), None);
}

#[test]
fn the_greeting_asks_for_the_subscription() {
    let mut session = session();
    let welcome = TwitchMessage::WelcomeMessage { session_id: "s-1".to_owned() };
    match session.handle_twitch_message(welcome) {
        Action::Subscribe { session_id, broadcaster_id, user_id } => {
            assert_eq!(session_id, "s-1");
            assert_eq!(broadcaster_id, "1234");
            assert_eq!(user_id, "1234");
        }
        other => panic!("{other:?}"),
    }
    assert!(!session.has_session_id());
    session.set_session_id("s-1".to_owned());
    assert!(session.has_session_id());
    match session.handle_command_message(CommandMessage::GetSessionId) {
        CommandReply::SessionId(id) => assert_eq!(id.as_deref(), Some("s-1")),
        other => panic!("{other:?}"),
    }
}

#[test]
fn starting_a_round_answers_with_the_hidden_phrase() {
    let mut session = session();
    assert_eq!(start(&mut session, "el camión"), "________");
    assert_eq!(state(&mut session), shown("________", "", false));
}

#[test]
fn a_new_round_takes_the_place_of_the_old_one() {
    let mut session = session();
    start(&mut session, "sol");
    assert!(matches!(session.handle_twitch_message(chat_line("s")), Action::Nothing));
    assert!(matches!(session.handle_twitch_message(chat_line("x")), Action::Nothing));
    assert_eq!(state(&mut session), shown("s__", "x ", false));
    assert_eq!(start(&mut session, "luna"), "____");
    assert_eq!(state(&mut session), shown("____", "", false));
}

#[test]
fn commands_are_answered_in_the_order_sent() {
    let mut session = session();
    let first = session.handle(GeneralMessage::CommandMessage(CommandMessage::GetGameState));
    let second = session.handle(GeneralMessage::CommandMessage(CommandMessage::SetGameWord {
        word: "sol".to_owned(),
    }));
    let third = session.handle(GeneralMessage::CommandMessage(CommandMessage::GetGameState));
    assert!(matches!(first, Action::Reply(CommandReply::GameState(None))));
    match second {
        Action::Reply(CommandReply::Word(word)) => assert_eq!(word, "___"),
        other => panic!("{other:?}"),
    }
    match third {
        Action::Reply(CommandReply::GameState(Some(view))) => {
            assert_eq!(view.word, "___");
            assert_eq!(view.letters, "");
            assert!(!view.is_completed);
        }
        other => panic!("{other:?}"),
    }
}

#[test]
fn chat_lines_play_the_round() {
    let mut session = session();
    start(&mut session, "camión");
    assert!(matches!(session.handle_twitch_message(chat_line("a")), Action::Nothing));
    assert_eq!(state(&mut session), shown("_a____", "", false));
    assert!(matches!(session.handle_twitch_message(chat_line("!guess món")), Action::Nothing));
    assert_eq!(state(&mut session), shown("_am_ón", "", false));
    assert!(matches!(session.handle_twitch_message(chat_line("hola")), Action::Nothing));
    assert!(matches!(session.handle_twitch_message(chat_line("!guessci")), Action::Nothing));
    assert_eq!(state(&mut session), shown("_am_ón", "", false));
    assert!(matches!(session.handle_twitch_message(chat_line("z")), Action::Nothing));
    assert_eq!(state(&mut session), shown("_am_ón", "z ", false));
    assert!(matches!(session.handle_twitch_message(chat_line("!guess ci")), Action::Nothing));
    assert_eq!(state(&mut session), shown("camión", "z ", true));
}

#[test]
fn a_guess_that_is_too_long_is_answered_in_chat() {
    let mut session = session();
    start(&mut session, "sol");
    session.handle_twitch_message(chat_line("s"));
    match session.handle_twitch_message(chat_line("!guess soles")) {
        Action::Send(request) => {
            assert_eq!(request.message, "La palabra es demasiado larga");
            assert_eq!(request.reply_to.as_deref(), Some("m-7"));
            assert_eq!(request.broadcaster_id, "1234");
            assert_eq!(request.sender_id, "1234");
        }
        other => panic!("{other:?}"),
    }
    assert_eq!(state(&mut session), shown("s__", "", false));
}

#[test]
fn chat_lines_count_only_while_a_round_is_played() {
    let mut session = session();
    assert!(matches!(session.handle_twitch_message(chat_line("a")), Action::Nothing));
    assert!(matches!(session.handle_twitch_message(chat_line("!guess abcdef")), Action::Nothing));
    assert_eq!(state(&mut session), None);
    start(&mut session, "a");
    assert!(matches!(session.handle_twitch_message(chat_line("a")), Action::Nothing));
    assert_eq!(state(&mut session), shown("a", "", true));
    assert!(matches!(session.handle_twitch_message(chat_line("b")), Action::Nothing));
    assert!(matches!(session.handle_twitch_message(chat_line("!guess abc")), Action::Nothing));
    assert_eq!(state(&mut session), shown("a", "", true));
}

#[test]
fn other_events_are_let_pass() {
    let mut session = session();
    start(&mut session, "sol");
    assert!(matches!(session.handle_twitch_message(TwitchMessage::Unrecognized), Action::Nothing));
    assert!(matches!(
        session.handle_twitch_message(TwitchMessage::OtherText { text: "s".to_owned() }),
        Action::Nothing
    ));
    assert_eq!(state(&mut session), shown("___", "", false));
}

#[test]
fn a_line_to_send_goes_out_in_the_operators_name() {
    let mut session = session();
    match session.handle(GeneralMessage::TwitchSendMessage("Comenzando partida".to_owned())) {
        Action::Send(request) => {
            assert_eq!(request.message, "Comenzando partida");
            assert_eq!(request.reply_to, None);
            assert_eq!(request.broadcaster_id, "1234");
            assert_eq!(request.sender_id, "1234");
        }
        other => panic!("{other:?}"),
    }
}

#[test]
fn the_inbox_takes_every_family_of_message() {
    let mut session = session();
    start(&mut session, "sol");
    assert!(matches!(
        session.handle(GeneralMessage::TwitchMessage(chat_line("o"))),
        Action::Nothing
    ));
    assert!(matches!(
        session.handle(GeneralMessage::TwitchMessage(TwitchMessage::WelcomeMessage {
            session_id: "s-2".to_owned()
        })),
        Action::Subscribe { .. }
    ));
    assert!(matches!(
        session.handle(GeneralMessage::CommandMessage(CommandMessage::GetSessionId)),
        Action::Reply(CommandReply::SessionId(None))
    ));
    assert_eq!(state(&mut session), shown("_o_", "", false));
}
