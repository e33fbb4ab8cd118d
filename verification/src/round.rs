//! The word game as mathematics: what a round is, what a guess does to it,
//! how it is shown, and the laws that hold of every round.

use vstd::prelude::*;
use vstd::seq_lib::*;

verus! {

/// One round of the game: a secret phrase and the progress made on it.
#[verifier::ext_equal]
pub struct Round {
    /// The grapheme clusters of the secret phrase, in order.
    pub characters: Seq<Seq<char>>,
    /// For each position of `characters`, whether it has been revealed.
    pub progress: Seq<bool>,
    /// The graphemes that were guessed and are not in the phrase, oldest first.
    pub tried: Seq<Seq<char>>,
    /// How many positions are still hidden.
    pub remaining: nat,
}

/// How many positions of a progress sequence are still hidden.
pub open spec fn hidden(progress: Seq<bool>) -> nat {
    progress.to_multiset().count(false)
}

/// How often a grapheme occurs in a phrase.
pub open spec fn occurrences(characters: Seq<Seq<char>>, g: Seq<char>) -> nat {
    characters.to_multiset().count(g)
}

/// The placeholder shown for a hidden position.
pub open spec fn placeholder() -> Seq<char> {
    seq!['_']
}

impl Round {
    /// The round that starts on a phrase: nothing revealed, nothing tried.
    pub open spec fn start(characters: Seq<Seq<char>>) -> Round {
        Round {
            characters,
            progress: Seq::new(characters.len(), |i: int| false),
            tried: Seq::empty(),
            remaining: characters.len(),
        }
    }

    /// What holds of every round that the game can reach.
    pub open spec fn wf(self) -> bool {
        &&& self.progress.len() == self.characters.len()
        &&& self.remaining == hidden(self.progress)
        &&& self.tried.no_duplicates()
        &&& forall|g: Seq<char>| self.tried.contains(g) ==> !self.characters.contains(g)
    }

    /// Whether a guess of `g` turns position `i` over: the position holds `g`,
    /// and neither it nor an earlier position that holds `g` is revealed yet.
    /// The scan of a guess runs left to right and halts at the first position
    /// that holds `g` and is already revealed.
    pub open spec fn reveals(self, g: Seq<char>, i: int) -> bool {
        &&& 0 <= i < self.characters.len()
        &&& self.characters[i] == g
        &&& forall|j: int| 0 <= j <= i && self.characters[j] == g ==> !self.progress[j]
    }

    /// The progress after a guess of `g` that is not among the tried graphemes.
    pub open spec fn progress_after(self, g: Seq<char>) -> Seq<bool> {
        Seq::new(self.progress.len(), |i: int| self.progress[i] || self.reveals(g, i))
    }

    /// The round after one guessed grapheme.
    pub open spec fn guess(self, g: Seq<char>) -> Round {
        if self.tried.contains(g) {
            self
        } else {
            Round {
                characters: self.characters,
                progress: self.progress_after(g),
                tried: if self.characters.len() > 0 && !self.characters.contains(g) {
                    self.tried.push(g)
                } else {
                    self.tried
                },
                remaining: hidden(self.progress_after(g)),
            }
        }
    }

    /// The round after a sequence of guessed graphemes, taken in order.
    pub open spec fn guess_all(self, guesses: Seq<Seq<char>>) -> Round
        decreases guesses.len(),
    {
        if guesses.len() == 0 {
            self
        } else {
            self.guess_all(guesses.drop_last()).guess(guesses.last())
        }
    }

    /// What position `i` shows: its grapheme once revealed, else the placeholder.
    pub open spec fn cell(self, i: int) -> Seq<char> {
        if 0 <= i < self.progress.len() && self.progress[i] {
            self.characters[i]
        } else {
            placeholder()
        }
    }

    /// The phrase as the players see it: the cells one after another.
    pub open spec fn masked(self) -> Seq<char> {
        Seq::new(self.characters.len(), |i: int| self.cell(i)).flatten()
    }

    /// The tried graphemes as one line, each followed by a space.
    pub open spec fn tried_line(self) -> Seq<char> {
        Seq::new(self.tried.len(), |i: int| self.tried[i].push(' ')).flatten()
    }

    /// Whether nothing is left to reveal.
    pub open spec fn completed(self) -> bool {
        self.remaining == 0
    }

    /// Whether positions that hold the same grapheme are revealed together.
    pub open spec fn uniform(self) -> bool {
        forall|i: int, j: int|
            0 <= i < self.characters.len() && 0 <= j < self.characters.len()
                && self.characters[i] == self.characters[j] ==> self.progress[i]
                == self.progress[j]
    }
}

/// A progress sequence with nothing revealed hides every position.
pub proof fn lemma_hidden_all(n: nat)
    ensures
        hidden(Seq::new(n, |i: int| false)) == n,
    decreases n,
{
    let s = Seq::new(n, |i: int| false);
    if n == 0 {
        s.to_multiset_ensures();
        assert(s.to_multiset().len() == 0);
    } else {
        let shorter = Seq::new((n - 1) as nat, |i: int| false);
        lemma_hidden_all((n - 1) as nat);
        assert(s =~= shorter.push(false));
        to_multiset_build(shorter, false);
    }
}

/// Revealing a hidden position leaves one hidden position less.
pub proof fn lemma_hidden_reveal(progress: Seq<bool>, i: int)
    requires
        0 <= i < progress.len(),
        !progress[i],
    ensures
        hidden(progress) >= 1,
        hidden(progress.update(i, true)) == hidden(progress) - 1,
{
    to_multiset_update(progress, i, true);
    to_multiset_contains(progress, false);
    assert(progress.contains(false));
}

/// No position is hidden exactly when every position is revealed.
pub proof fn lemma_hidden_none(progress: Seq<bool>)
    ensures
        hidden(progress) == 0 <==> forall|i: int| 0 <= i < progress.len() ==> progress[i],
{
    to_multiset_contains(progress, false);
    if hidden(progress) != 0 {
        let i = choose|i: int| 0 <= i < progress.len() && progress[i] == false;
        assert(!progress[i]);
    }
    if !(forall|i: int| 0 <= i < progress.len() ==> progress[i]) {
        let i = choose|i: int| 0 <= i < progress.len() && !progress[i];
        assert(progress[i] == false);
        assert(progress.contains(false));
    }
}

/// Revealing, in a progress sequence that hides every position that holds
/// `g`, all those positions leaves as many hidden positions less as `g`
/// occurs in the phrase.
proof fn lemma_hidden_after_reveal_all(characters: Seq<Seq<char>>, progress: Seq<bool>, g: Seq<char>)
    requires
        progress.len() == characters.len(),
        forall|i: int| 0 <= i < characters.len() && characters[i] == g ==> !progress[i],
    ensures
        hidden(Seq::new(progress.len(), |i: int| progress[i] || characters[i] == g)) + occurrences(
            characters,
            g,
        ) == hidden(progress),
    decreases characters.len(),
{
    let after = Seq::new(progress.len(), |i: int| progress[i] || characters[i] == g);
    if characters.len() == 0 {
        assert(after =~= progress);
        to_multiset_contains(characters, g);
    } else {
        let shorter = characters.drop_last();
        let earlier = progress.drop_last();
        let revealed = Seq::new(earlier.len(), |i: int| earlier[i] || shorter[i] == g);
        lemma_hidden_after_reveal_all(shorter, earlier, g);
        assert(characters =~= shorter.push(characters.last()));
        assert(progress =~= earlier.push(progress.last()));
        assert(after =~= revealed.push(progress.last() || characters.last() == g));
        to_multiset_build(shorter, characters.last());
        to_multiset_build(earlier, progress.last());
        to_multiset_build(revealed, progress.last() || characters.last() == g);
    }
}

/// A guess of one grapheme cluster is a guess of that grapheme.
pub proof fn lemma_guess_all_of_one(round: Round, g: Seq<char>)
    ensures
        round.guess_all(seq![g]) == round.guess(g),
{
    assert(seq![g].drop_last() =~= Seq::<Seq<char>>::empty());
    assert(round.guess_all(Seq::<Seq<char>>::empty()) == round);
    assert(seq![g].last() == g);
}

/// The round that a phrase starts is one that the game can reach.
pub proof fn law_start_is_wf(characters: Seq<Seq<char>>)
    ensures
        Round::start(characters).wf(),
{
    lemma_hidden_all(characters.len());
}

/// A guess keeps a round within what the game can reach: the count of
/// hidden positions stays true, no tried grapheme comes twice, and none of
/// them is in the phrase. The phrase stays as it was.
pub proof fn law_guess_keeps_wf(round: Round, g: Seq<char>)
    requires
        round.wf(),
    ensures
        round.guess(g).wf(),
        round.guess(g).characters == round.characters,
{
    let after = round.guess(g);
    if !round.tried.contains(g) && round.characters.len() > 0 && !round.characters.contains(g) {
        assert forall|x: Seq<char>| after.tried.contains(x) implies !after.characters.contains(
            x,
        ) by {
            if x != g {
                let i = choose|i: int| 0 <= i < after.tried.len() && after.tried[i] == x;
                assert(round.tried[i] == x);
            }
        }
    }
}

/// A sequence of guesses keeps a round within what the game can reach.
pub proof fn law_guess_all_keeps_wf(round: Round, guesses: Seq<Seq<char>>)
    requires
        round.wf(),
    ensures
        round.guess_all(guesses).wf(),
        round.guess_all(guesses).characters == round.characters,
    decreases guesses.len(),
{
    if guesses.len() > 0 {
        law_guess_all_keeps_wf(round, guesses.drop_last());
        law_guess_keeps_wf(round.guess_all(guesses.drop_last()), guesses.last());
    }
}

/// A correct guess of a grapheme that is still hidden reveals every position
/// that holds it and no other: the count of hidden positions falls by the
/// number of times that the grapheme occurs in the phrase, those positions
/// show the grapheme, every other position shows what it showed, and the
/// tried graphemes stay as they were.
pub proof fn law_correct_guess_reveals_occurrences(round: Round, g: Seq<char>)
    requires
        round.wf(),
        round.characters.contains(g),
        forall|i: int| 0 <= i < round.characters.len() && round.characters[i] == g
            ==> !round.progress[i],
    ensures
        round.guess_all(seq![g]) == round.guess(g),
        round.guess(g).remaining + occurrences(round.characters, g) == round.remaining,
        round.guess(g).characters == round.characters,
        round.guess(g).tried == round.tried,
        forall|i: int|
            0 <= i < round.characters.len() ==> round.guess(g).progress[i] == (round.progress[i]
                || round.characters[i] == g),
        forall|i: int|
            0 <= i < round.characters.len() ==> round.guess(g).cell(i) == if round.characters[i]
                == g {
                g
            } else {
                round.cell(i)
            },
{
    let after = Seq::new(
        round.progress.len(),
        |i: int| round.progress[i] || round.characters[i] == g,
    );
    lemma_hidden_after_reveal_all(round.characters, round.progress, g);
    lemma_guess_all_of_one(round, g);
    assert(round.progress_after(g) =~= after);
}

/// The first guess of a round, where it is correct: of a phrase of `n`
/// graphemes, `n` less the occurrences of the guessed one stay hidden, and
/// the phrase shows the guessed grapheme where it stands and the placeholder
/// everywhere else.
pub proof fn law_first_correct_guess(characters: Seq<Seq<char>>, g: Seq<char>)
    requires
        characters.contains(g),
    ensures
        Round::start(characters).guess_all(seq![g]) == Round::start(characters).guess(g),
        Round::start(characters).guess(g).remaining + occurrences(characters, g)
            == characters.len(),
        forall|i: int|
            0 <= i < characters.len() ==> Round::start(characters).guess(g).progress[i] == (
            characters[i] == g),
        forall|i: int|
            0 <= i < characters.len() ==> Round::start(characters).guess(g).cell(i) == if characters[i]
                == g {
                g
            } else {
                placeholder()
            },
{
    law_start_is_wf(characters);
    law_correct_guess_reveals_occurrences(Round::start(characters), g);
}

/// Guessing again a grapheme that is known to be wrong changes nothing:
/// not the progress, not the count of hidden positions, not the tried
/// graphemes.
pub proof fn law_known_wrong_guess_changes_nothing(round: Round, g: Seq<char>)
    requires
        round.tried.contains(g),
    ensures
        round.guess(g) == round,
        round.guess_all(seq![g]) == round,
{
    lemma_guess_all_of_one(round, g);
}

/// A round is completed exactly when every position is revealed.
pub proof fn law_completed_iff_all_revealed(round: Round)
    requires
        round.wf(),
    ensures
        round.completed() <==> round.remaining == 0,
        round.completed() <==> forall|i: int|
            0 <= i < round.characters.len() ==> round.progress[i],
{
    lemma_hidden_none(round.progress);
}

/// A round that has just started shows one placeholder for each grapheme of
/// its phrase, and nothing else.
pub proof fn law_fresh_round_shows_placeholders(characters: Seq<Seq<char>>)
    ensures
        Round::start(characters).masked() == Seq::new(characters.len(), |i: int| '_'),
    decreases characters.len(),
{
    let round = Round::start(characters);
    let cells = Seq::new(characters.len(), |i: int| round.cell(i));
    if characters.len() == 0 {
        assert(cells =~= Seq::<Seq<char>>::empty());
        assert(round.masked() =~= Seq::<char>::empty());
    } else {
        let shorter = Round::start(characters.drop_last());
        let fewer = Seq::new(shorter.characters.len(), |i: int| shorter.cell(i));
        law_fresh_round_shows_placeholders(characters.drop_last());
        assert(cells =~= fewer.push(placeholder()));
        fewer.lemma_flatten_push(placeholder());
        assert(round.masked() =~= Seq::new(characters.len(), |i: int| '_'));
    }
}

/// Positions that hold the same grapheme are revealed together: so it is in
/// a round that has just started, and a guess keeps it so. In such a round
/// the scan of a guess is never cut short with something left to reveal: a
/// guess of a grapheme of the phrase reveals all its positions or, where they
/// are revealed already, none.
pub proof fn law_same_grapheme_revealed_together(round: Round, g: Seq<char>)
    requires
        round.progress.len() == round.characters.len(),
        round.uniform(),
    ensures
        Round::start(round.characters).uniform(),
        round.guess(g).uniform(),
        !round.tried.contains(g) ==> forall|i: int|
            0 <= i < round.characters.len() ==> round.guess(g).progress[i] == (round.progress[i]
                || round.characters[i] == g),
{
    if !round.tried.contains(g) {
        assert forall|i: int| 0 <= i < round.characters.len() implies round.guess(g).progress[i]
            == (round.progress[i] || round.characters[i] == g) by {
            if round.characters[i] == g && !round.progress[i] {
                assert(round.reveals(g, i));
            }
        }
    }
}

/// A guess never hides a position again, and never takes a tried grapheme
/// back.
pub proof fn law_guess_only_adds(round: Round, g: Seq<char>)
    ensures
        forall|i: int|
            0 <= i < round.progress.len() && round.progress[i] ==> round.guess(g).progress[i],
        round.tried.is_prefix_of(round.guess(g).tried),
{
}

} // verus!
