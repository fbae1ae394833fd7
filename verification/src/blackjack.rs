//! One round of Blackjack as a state machine: the player's turn, the dealer's
//! turn, and the verdict.

use crate::cards::Card;
use crate::deck::Deck;
use crate::hand::{ace_count, fixed_total, lemma_score_is_bounded, score, Hand, BLACKJACK};
use crate::text::trimmed;
use vstd::prelude::*;

verus! {

/// What the player can do on their turn.
#[derive(Debug, Clone, Copy, PartialEq, Eq, Structural)]
pub enum Move {
    Hit,
    Stand,
}

/// How a round ended.
#[derive(Debug, Clone, Copy, PartialEq, Eq, Structural)]
pub enum Verdict {
    /// The player's score is the higher one.
    PlayerWins,
    /// The dealer's score is the higher one.
    DealerWins,
    /// Both scores are equal.
    Tie,
    /// The player went over 21: a loss without any comparison.
    Bust,
    /// The player asked for a card and the deck had none left.
    OutOfCards,
}

/// Where a round stands.
#[derive(Debug, Clone, Copy, PartialEq, Eq, Structural)]
pub enum Phase {
    PlayerTurn,
    DealerTurn,
    Resolved(Verdict),
}

/// The move that a line of input asks for: `H` to hit, `S` to stand, white
/// space around it ignored.
pub open spec fn move_of(word: Seq<char>) -> Option<Move> {
    if word == "H"@ {
        Some(Move::Hit)
    } else if word == "S"@ {
        Some(Move::Stand)
    } else {
        None
    }
}

/// The move that `word` asks for, taken as it is.
pub fn move_from_word(word: &str) -> (mv: Option<Move>)
    ensures
        mv == move_of(word@),
{
    if word.eq("H") {
        Some(Move::Hit)
    } else if word.eq("S") {
        Some(Move::Stand)
    } else {
        None
    }
}

/// Reads a move from a line of input; `None` where the line is neither `H`
/// nor `S`.
pub fn parse_move(input: &str) -> (mv: Option<Move>)
    ensures
        mv == move_of(trimmed(input@)),
{
    move_from_word(input.trim())
}

/// The verdict of comparing two scores: the higher one wins, equal scores
/// tie.
pub open spec fn showdown(player: nat, dealer: nat) -> Verdict {
    if player < dealer {
        Verdict::DealerWins
    } else if player == dealer {
        Verdict::Tie
    } else {
        Verdict::PlayerWins
    }
}

/// Compares the two final scores.
pub fn settle(player_score: u32, dealer_score: u32) -> (verdict: Verdict)
    ensures
        verdict == showdown(player_score as nat, dealer_score as nat),
{
    if player_score < dealer_score {
        Verdict::DealerWins
    } else if player_score == dealer_score {
        Verdict::Tie
    } else {
        Verdict::PlayerWins
    }
}

/// Two cards never go over 21.
pub proof fn lemma_two_cards_are_no_bust(first: Card, second: Card)
    ensures
        score(seq![first, second]) <= 21,
{
    let cards = seq![first, second];
    assert(cards.drop_last() == seq![first]);
    assert(cards.drop_last().drop_last() == Seq::<Card>::empty());
    reveal_with_fuel(fixed_total, 3);
    reveal_with_fuel(ace_count, 3);
}

/// A round: the deck, both hands and the phase.
pub struct Round {
    pub deck: Deck,
    pub player: Hand,
    pub dealer: Hand,
    pub phase: Phase,
}

impl Round {
    /// What holds of every round that `start` made and the moves below
    /// changed: the cards come from one deck of at most 52, the dealer has
    /// none before the round is resolved, and a player who can still move is
    /// not bust.
    pub open spec fn wf(&self) -> bool {
        &&& self.player@.len() + self.dealer@.len() + self.deck@.len() <= 52
        &&& !(self.phase is Resolved) ==> self.dealer@.len() == 0 && score(self.player@) <= 21
    }

    /// Starts a round: the player gets the two top cards of the deck.
    pub fn start(deck: Deck) -> (round: Round)
        requires
            deck@.len() >= 2,
        ensures
            round.wf(),
            round.phase == Phase::PlayerTurn,
            round.player@ == seq![deck@[deck@.len() - 1], deck@[deck@.len() - 2]],
            round.dealer@.len() == 0,
            round.deck@ == deck@.take(deck@.len() - 2),
    {
        let mut deck = deck;
        let ghost all = deck@;
        let size = deck.len();
        assert(size <= 52);
        let mut player = Hand::new();
        let first = deck.deal();
        let second = deck.deal();
        match (first, second) {
            (Some(a), Some(b)) => {
                player.add_card(a);
                player.add_card(b);
                proof {
                    lemma_two_cards_are_no_bust(a, b);
                    assert(player@ == seq![a, b]);
                    assert(deck@ == all.take(all.len() - 2));
                }
            },
            _ => {
                assert(false);
            },
        }
        Round { deck, player, dealer: Hand::new(), phase: Phase::PlayerTurn }
    }

    /// The player draws the top card. Over 21 the round is lost at once; with
    /// no card left the round ends without one.
    pub fn hit(&mut self)
        requires
            old(self).wf(),
            old(self).phase == Phase::PlayerTurn,
        ensures
            final(self).wf(),
            final(self).dealer@ == old(self).dealer@,
            old(self).deck@.len() == 0 ==> {
                &&& final(self).phase == Phase::Resolved(Verdict::OutOfCards)
                &&& final(self).player@ == old(self).player@
                &&& final(self).deck@ == old(self).deck@
            },
            old(self).deck@.len() > 0 ==> {
                &&& final(self).player@ == old(self).player@.push(old(self).deck@.last())
                &&& final(self).deck@ == old(self).deck@.drop_last()
                &&& final(self).phase == if score(final(self).player@) > 21 {
                    Phase::Resolved(Verdict::Bust)
                } else {
                    Phase::PlayerTurn
                }
            },
    {
        match self.deck.deal() {
            Some(card) => {
                self.player.add_card(card);
                proof {
                    lemma_score_is_bounded(self.player@);
                }
                if self.player.evaluate() > BLACKJACK {
                    self.phase = Phase::Resolved(Verdict::Bust);
                }
            },
            None => {
                self.phase = Phase::Resolved(Verdict::OutOfCards);
            },
        }
    }

    /// The player takes no more cards: it is the dealer's turn.
    pub fn stand(&mut self)
        requires
            old(self).wf(),
            old(self).phase == Phase::PlayerTurn,
        ensures
            final(self).wf(),
            final(self).phase == Phase::DealerTurn,
            final(self).player@ == old(self).player@,
            final(self).dealer@ == old(self).dealer@,
            final(self).deck@ == old(self).deck@,
    {
        self.phase = Phase::DealerTurn;
    }

    /// The dealer takes the two top cards, and the scores are compared: the
    /// higher one wins, equal scores tie. Neither hand is bust here.
    pub fn dealer_turn(&mut self)
        requires
            old(self).wf(),
            old(self).phase == Phase::DealerTurn,
            old(self).deck@.len() >= 2,
        ensures
            final(self).wf(),
            final(self).player@ == old(self).player@,
            final(self).dealer@ == seq![
                old(self).deck@[old(self).deck@.len() - 1],
                old(self).deck@[old(self).deck@.len() - 2],
            ],
            final(self).deck@ == old(self).deck@.take(old(self).deck@.len() - 2),
            final(self).phase == Phase::Resolved(
                showdown(score(final(self).player@), score(final(self).dealer@)),
            ),
            score(final(self).player@) <= 21,
            score(final(self).dealer@) <= 21,
    {
        let ghost all = self.deck@;
        let first = self.deck.deal();
        let second = self.deck.deal();
        match (first, second) {
            (Some(a), Some(b)) => {
                self.dealer.add_card(a);
                self.dealer.add_card(b);
                proof {
                    lemma_two_cards_are_no_bust(a, b);
                    assert(self.dealer@ == seq![a, b]);
                    assert(self.deck@ == all.take(all.len() - 2));
                    lemma_score_is_bounded(self.player@);
                }
                let player_score = self.player.evaluate();
                let dealer_score = self.dealer.evaluate();
                self.phase = Phase::Resolved(settle(player_score, dealer_score));
            },
            _ => {
                assert(false);
            },
        }
    }
}

} // verus!
