//! The word engine: one round of the game, held in vectors, with every
//! operation tied to the mathematics of [`Round`].

use crate::errors::GameError;
use crate::round::{
    hidden, lemma_hidden_all, lemma_hidden_none, lemma_hidden_reveal, placeholder, Round,
};
use crate::text::{grapheme_clusters, graphemes, same_text, strip_whitespace, without_whitespace};
use vstd::prelude::*;
use vstd::seq_lib::*;

verus! {

/// The vectors of a round, with nothing said of how they fit together.
#[derive(Debug)]
struct Board {
    characters: Vec<String>,
    progress: Vec<bool>,
    tried: Vec<String>,
    cont: usize,
}

impl View for Board {
    type V = Round;

    closed spec fn view(&self) -> Round {
        Round {
            characters: self.characters.deep_view(),
            progress: self.progress@,
            tried: self.tried.deep_view(),
            remaining: self.cont as nat,
        }
    }
}

/// One round: the secret phrase, the progress on it and the wrong guesses.
/// Every `Game` is a round that the game can reach (see [`Round::wf`]).
#[derive(Debug)]
pub struct Game {
    board: Board,
}

impl View for Game {
    type V = Round;

    closed spec fn view(&self) -> Round {
        self.board@
    }
}

/// Whether `needle` is one of `items`.
fn contains_text(items: &Vec<String>, needle: &str) -> (found: bool)
    ensures
        found == items.deep_view().contains(needle@),
{
    let mut i: usize = 0;
    while i < items.len()
        invariant
            i <= items.len(),
            forall|j: int| 0 <= j < i ==> items.deep_view()[j] != needle@,
        decreases items.len() - i,
    {
        if same_text(items[i].as_str(), needle) {
            assert(items.deep_view()[i as int] == needle@);
            return true;
        }
        i += 1;
    }
    false
}

/// A copy of a list of texts.
fn copy_texts(items: &Vec<String>) -> (copy: Vec<String>)
    ensures
        copy.deep_view() == items.deep_view(),
{
    let mut copy: Vec<String> = Vec::new();
    let mut i: usize = 0;
    while i < items.len()
        invariant
            i <= items.len(),
            copy.len() == i,
            forall|j: int| 0 <= j < i ==> copy@[j]@ == items@[j]@,
        decreases items.len() - i,
    {
        copy.push(items[i].clone());
        i += 1;
    }
    assert(copy.deep_view() =~= items.deep_view());
    copy
}

impl Board {
    /// The board of a round on the empty phrase.
    fn empty() -> (board: Self)
        ensures
            board@.wf(),
            board@ == Round::start(Seq::empty()),
    {
        let board = Board { characters: Vec::new(), progress: Vec::new(), tried: Vec::new(), cont: 0 };
        proof {
            let start = Round::start(Seq::empty());
            assert(board@.characters =~= start.characters);
            assert(board@.progress =~= start.progress);
            assert(board@.tried =~= start.tried);
            lemma_hidden_all(0);
        }
        board
    }

    /// Takes one guessed grapheme: nothing happens where it is known to be
    /// wrong; else the phrase is scanned from the left, each hidden position
    /// that holds it is revealed, and the scan halts at the first position that
    /// holds it and is revealed already; a grapheme that the phrase does not
    /// hold joins the tried ones. Returns how many positions were revealed.
    fn guess_one(&mut self, g: &str) -> (revealed: usize)
        requires
            old(self)@.wf(),
        ensures
            final(self)@.wf(),
            final(self)@ == old(self)@.guess(g@),
            revealed == old(self)@.remaining - final(self)@.remaining,
    {
        if contains_text(&self.tried, g) {
            return 0;
        }
        let ghost before = self@;
        let n = self.characters.len();
        let mut num: usize = 0;
        let mut i: usize = 0;
        let mut halted = false;
        while i < n && !halted
            invariant
                before.wf(),
                before.remaining <= usize::MAX,
                !before.tried.contains(g@),
                n == self.characters.len(),
                n == self.progress.len(),
                i <= n,
                self.characters.deep_view() == before.characters,
                self.cont == hidden(self.progress@),
                num + self.cont == before.remaining,
                forall|j: int| 0 <= j < i && before.characters[j] == g@ ==> !before.progress[j],
                halted ==> i < n && before.characters[i as int] == g@ && before.progress[i as int],
                forall|j: int|
                    0 <= j < n ==> self.progress@[j] == (before.progress[j] || (j < i
                        && before.characters[j] == g@)),
                self.tried.deep_view() == if i > 0 && !before.characters.contains(g@) {
                    before.tried.push(g@)
                } else {
                    before.tried
                },
            decreases n - i, if halted { 0int } else { 1int },
        {
            let same = same_text(self.characters[i].as_str(), g);
            assert(self.characters.deep_view()[i as int] == self.characters@[i as int]@);
            if same && self.progress[i] {
                halted = true;
            } else {
                if same {
                    proof {
                        lemma_hidden_reveal(self.progress@, i as int);
                    }
                    self.progress.set(i, true);
                    self.cont = self.cont - 1;
                    num = num + 1;
                } else {
                    let len = self.tried.len();
                    let repeated = len > 0 && same_text(self.tried[len - 1].as_str(), g);
                    proof {
                        if len > 0 {
                            assert(self.tried.deep_view()[len - 1] == self.tried@[len - 1]@);
                        }
                        if repeated && !(i > 0 && !before.characters.contains(g@)) {
                            assert(before.tried[len - 1] == g@);
                        }
                    }
                    if !repeated && !contains_text(&self.characters, g) {
                        let ghost shorter = self.tried.deep_view();
                        self.tried.push(g.to_owned());
                        assert(self.tried.deep_view() =~= shorter.push(g@));
                    }
                }
                i = i + 1;
            }
        }
        proof {
            let after = before.guess(g@);
            assert forall|j: int| 0 <= j < n implies self.progress@[j] == after.progress[j] by {
                if halted {
                    if j >= i {
                        assert(!before.reveals(g@, j));
                    }
                }
            }
            assert(self.progress@ =~= after.progress);
            assert(self@.tried == after.tried);
            assert(self@ == after);
        }
        num
    }

    /// Takes a guess, one grapheme cluster after another.
    fn check(&mut self, word_chars: &[&str]) -> (result: Result<usize, GameError>)
        requires
            old(self)@.wf(),
        ensures
            final(self)@.wf(),
            match result {
                Ok(revealed) => {
                    &&& word_chars@.len() <= old(self)@.characters.len()
                    &&& final(self)@ == old(self)@.guess_all(word_chars.deep_view())
                    &&& revealed == old(self)@.remaining - final(self)@.remaining
                },
                Err(GameError::InvalidWord) => {
                    &&& word_chars@.len() > old(self)@.characters.len()
                    &&& final(self)@ == old(self)@
                },
            },
    {
        if word_chars.len() > self.characters.len() {
            return Err(GameError::InvalidWord);
        }
        let ghost before = self@;
        let ghost guesses = word_chars.deep_view();
        let mut num: usize = 0;
        let mut k: usize = 0;
        while k < word_chars.len()
            invariant
                k <= word_chars.len(),
                guesses == word_chars.deep_view(),
                self@.wf(),
                self@ == before.guess_all(guesses.take(k as int)),
                num == before.remaining - self@.remaining,
                before.remaining <= usize::MAX,
            decreases word_chars.len() - k,
        {
            let revealed = self.guess_one(word_chars[k]);
            proof {
                let longer = guesses.take(k + 1);
                assert(longer.drop_last() =~= guesses.take(k as int));
                assert(longer.last() == word_chars@[k as int]@);
            }
            num = num + revealed;
            k = k + 1;
        }
        assert(guesses.take(k as int) =~= guesses);
        Ok(num)
    }
}

impl Game {
    /// Whether the round is one that the game can reach. It holds of every
    /// `Game`.
    #[verifier::type_invariant]
    pub open spec fn wf(&self) -> bool {
        self@.wf()
    }

    /// Starts a round on a phrase: whitespace is dropped, what is left is cut
    /// into grapheme clusters, and nothing is revealed or tried yet.
    pub fn new(word: String) -> (game: Self)
        ensures
            game.wf(),
            game@ == Round::start(grapheme_clusters(without_whitespace(word@))),
    {
        let stripped = strip_whitespace(word.as_str());
        let parts = graphemes(stripped.as_str());
        let mut characters: Vec<String> = Vec::new();
        let mut progress: Vec<bool> = Vec::new();
        let mut i: usize = 0;
        while i < parts.len()
            invariant
                i <= parts.len(),
                characters.len() == i,
                progress.len() == i,
                forall|j: int| 0 <= j < i ==> characters@[j]@ == parts@[j]@,
                forall|j: int| 0 <= j < i ==> !progress@[j],
            decreases parts.len() - i,
        {
            characters.push(parts[i].to_owned());
            progress.push(false);
            i += 1;
        }
        let cont = characters.len();
        let board = Board { characters, progress, tried: Vec::new(), cont };
        proof {
            let start = Round::start(grapheme_clusters(without_whitespace(word@)));
            assert(board@.characters =~= parts.deep_view());
            assert(board@.progress =~= start.progress);
            assert(board@.tried =~= start.tried);
            lemma_hidden_all(start.characters.len());
        }
        Game { board }
    }

    /// Splits a guess into the grapheme clusters that [`Game::check_word_chars`] takes.
    pub fn split_chars(word: &str) -> (parts: Vec<&str>)
        ensures
            parts.deep_view() == grapheme_clusters(word@),
    {
        graphemes(word)
    }

    /// Takes a guess, one grapheme cluster after another (see [`Round::guess`]),
    /// and returns how many positions it revealed. A guess with more clusters
    /// than the phrase has is refused, and nothing changes.
    pub fn check_word_chars(&mut self, word_chars: &[&str]) -> (result: Result<usize, GameError>)
        ensures
            final(self).wf(),
            match result {
                Ok(revealed) => {
                    &&& word_chars@.len() <= old(self)@.characters.len()
                    &&& final(self)@ == old(self)@.guess_all(word_chars.deep_view())
                    &&& revealed == old(self)@.remaining - final(self)@.remaining
                },
                Err(GameError::InvalidWord) => {
                    &&& word_chars@.len() > old(self)@.characters.len()
                    &&& final(self)@ == old(self)@
                },
            },
    {
        proof {
            use_type_invariant(&*self);
        }
        let mut board = Board::empty();
        std::mem::swap(&mut self.board, &mut board);
        let result = board.check(word_chars);
        std::mem::swap(&mut self.board, &mut board);
        result
    }

    /// The phrase as the players see it: each revealed grapheme as it is, an
    /// underscore for each hidden one, with nothing in between.
    pub fn get_actual_word(&self) -> (word: String)
        ensures
            word@ == self@.masked(),
    {
        let mut string = String::new();
        let mut i: usize = 0;
        while i < self.board.characters.len()
            invariant
                i <= self.board.characters.len(),
                string@ == Seq::new(i as nat, |j: int| self@.cell(j)).flatten(),
            decreases self.board.characters.len() - i,
        {
            proof {
                let cells = Seq::new(i as nat, |j: int| self@.cell(j));
                let more = Seq::new((i + 1) as nat, |j: int| self@.cell(j));
                assert(more =~= cells.push(self@.cell(i as int)));
                cells.lemma_flatten_push(self@.cell(i as int));
                reveal_strlit("_");
                assert("_"@ =~= placeholder());
            }
            if i < self.board.progress.len() && self.board.progress[i] {
                string.append(self.board.characters[i].as_str());
            } else {
                string.append("_");
            }
            i += 1;
        }
        string
    }

    /// The wrong guesses so far, oldest first, each followed by a space.
    pub fn get_letters(&self) -> (letters: String)
        ensures
            letters@ == self@.tried_line(),
    {
        let mut string = String::new();
        let mut i: usize = 0;
        while i < self.board.tried.len()
            invariant
                i <= self.board.tried.len(),
                string@ == Seq::new(i as nat, |j: int| self@.tried[j].push(' ')).flatten(),
            decreases self.board.tried.len() - i,
        {
            proof {
                let items = Seq::new(i as nat, |j: int| self@.tried[j].push(' '));
                let more = Seq::new((i + 1) as nat, |j: int| self@.tried[j].push(' '));
                assert(more =~= items.push(self@.tried[i as int].push(' ')));
                items.lemma_flatten_push(self@.tried[i as int].push(' '));
                reveal_strlit(" ");
                assert(" "@ =~= seq![' ']);
                assert(self@.tried[i as int] + seq![' '] =~= self@.tried[i as int].push(' '));
            }
            string.append(self.board.tried[i].as_str());
            string.append(" ");
            i += 1;
        }
        string
    }

    /// Whether the round is over: no position is left hidden, which is to
    /// say that every position of the phrase has been revealed.
    pub fn is_completed(&self) -> (done: bool)
        ensures
            done == (self@.remaining == 0),
            done == self@.completed(),
            done <==> forall|i: int| 0 <= i < self@.characters.len() ==> self@.progress[i],
    {
        proof {
            use_type_invariant(self);
            lemma_hidden_none(self@.progress);
        }
        self.board.cont == 0
    }
}

impl Clone for Game {
    /// A second round that stands as this one does.
    fn clone(&self) -> (copy: Self)
        ensures
            copy@ == self@,
    {
        proof {
            use_type_invariant(self);
        }
        let board = Board {
            characters: copy_texts(&self.board.characters),
            progress: self.board.progress.clone(),
            tried: copy_texts(&self.board.tried),
            cont: self.board.cont,
        };
        assert(board@.progress =~= self@.progress);
        Game { board }
    }
}

} // verus!
