use colgado::errors::GameError;
use colgado::models::game_view::GameView;
use colgado::word::Game;

#[test]
fn a_snapshot_holds_what_it_was_given() {
    let view = GameView::new("c_m".to_owned(), "x y ".to_owned(), false);
    assert_eq!(view.word, "c_m");
    assert_eq!(view.letters, "x y ");
    assert!(!view.is_completed);
}

#[test]
fn the_default_snapshot_is_empty_and_completed() {
    let view = GameView::default();
    assert_eq!(view.word, "");
    assert_eq!(view.letters, "");
    assert!(view.is_completed);
}

#[test]
fn a_snapshot_shows_the_round_as_it_stands() {
    let mut game = Game::new("sol".to_owned());
    game.check_word_chars(&["o", "x"]).unwrap();
    let view = GameView::from(&game);
    assert_eq!(view.word, "_o_");
    assert_eq!(view.letters, "x ");
    assert!(!view.is_completed);
    game.check_word_chars(&["s", "l"]).unwrap();
    let view = GameView::from(&game);
    assert_eq!(view.word, "sol");
    assert!(view.is_completed);
}

#[test]
fn the_error_texts() {
    assert_eq!(GameError::InvalidWord.twitch_message_error(), "La palabra es demasiado larga");
    assert_eq!(GameError::InvalidWord.description(), "Word too long");
}

#[test]
fn a_copy_of_a_snapshot_holds_the_same() {
    let view = GameView::new("c_m".to_owned(), "x ".to_owned(), true);
    let copy = view.clone();
    assert_eq!(copy.word, view.word);
    assert_eq!(copy.letters, view.letters);
    assert_eq!(copy.is_completed, view.is_completed);
}
