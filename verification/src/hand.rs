//! A Blackjack hand and its score.

use crate::cards::{Card, Rank};
use vstd::prelude::*;

verus! {

/// The highest total that is no bust.
pub const BLACKJACK: u32 = 21;

/// The cards of one participant, in the order in which they were added.
pub struct Hand {
    pub cards: Vec<Card>,
}

impl View for Hand {
    type V = Seq<Card>;

    open spec fn view(&self) -> Seq<Card> {
        self.cards@
    }
}

/// Sum of the fixed values of the cards that are no Ace: the number on a
/// numbered card, 10 for Jack, Queen and King.
pub open spec fn fixed_total(cards: Seq<Card>) -> nat
    decreases cards.len(),
{
    if cards.len() == 0 {
        0
    } else {
        fixed_total(cards.drop_last()) + cards.last().value.fixed_points()
    }
}

/// How many of the cards are Aces.
pub open spec fn ace_count(cards: Seq<Card>) -> nat
    decreases cards.len(),
{
    if cards.len() == 0 {
        0
    } else {
        ace_count(cards.drop_last()) + if cards.last().value == Rank::Ace {
            1nat
        } else {
            0nat
        }
    }
}

/// The Blackjack score of the cards. Every Ace counts 1, except that one Ace
/// counts 11 where the total then stays at 21 or below.
pub open spec fn score(cards: Seq<Card>) -> nat {
    let low = fixed_total(cards) + ace_count(cards);
    if ace_count(cards) > 0 && low + 10 <= 21 {
        low + 10
    } else {
        low
    }
}

/// Both sums grow with the hand: those of the first `n` cards are at most
/// those of all cards.
pub proof fn lemma_totals_grow(cards: Seq<Card>, n: int)
    requires
        0 <= n <= cards.len(),
    ensures
        fixed_total(cards.take(n)) <= fixed_total(cards),
        ace_count(cards.take(n)) <= ace_count(cards),
    decreases cards.len() - n,
{
    if n == cards.len() {
        assert(cards.take(n) == cards);
    } else {
        lemma_totals_grow(cards.drop_last(), n);
        assert(cards.drop_last().take(n) == cards.take(n));
    }
}

/// No card counts more than 11, so a hand of `n` cards scores at most `11 * n`.
pub proof fn lemma_score_is_bounded(cards: Seq<Card>)
    ensures
        fixed_total(cards) + 11 * ace_count(cards) <= 11 * cards.len(),
        score(cards) <= 11 * cards.len(),
    decreases cards.len(),
{
    if cards.len() > 0 {
        lemma_score_is_bounded(cards.drop_last());
    }
}

/// A hand without an Ace scores the sum of its cards' fixed values.
pub proof fn lemma_score_without_ace(cards: Seq<Card>)
    requires
        ace_count(cards) == 0,
    ensures
        score(cards) == fixed_total(cards),
{
}

/// With exactly one Ace, the Ace counts 11 while the other cards sum to 10 or
/// less, and 1 when they sum to more.
pub proof fn lemma_score_with_one_ace(cards: Seq<Card>)
    requires
        ace_count(cards) == 1,
    ensures
        fixed_total(cards) <= 10 ==> score(cards) == fixed_total(cards) + 11,
        fixed_total(cards) > 10 ==> score(cards) == fixed_total(cards) + 1,
{
}

/// The score is the best total that the Aces allow: it is reached with every
/// Ace at 1 or at 11, and wherever some choice of Ace values stays at 21 or
/// below, the score is the highest such total.
pub proof fn lemma_score_is_best(cards: Seq<Card>, elevens: nat)
    requires
        elevens <= ace_count(cards),
    ensures
        fixed_total(cards) + ace_count(cards) + 10 * elevens <= 21 ==> fixed_total(cards)
            + ace_count(cards) + 10 * elevens <= score(cards) <= 21,
        fixed_total(cards) + ace_count(cards) > 21 ==> score(cards) == fixed_total(cards)
            + ace_count(cards),
{
}

/// The hand in words: a line for each card, a tab in front of its name.
pub open spec fn hand_text(cards: Seq<Card>) -> Seq<char>
    decreases cards.len(),
{
    if cards.len() == 0 {
        Seq::empty()
    } else {
        hand_text(cards.drop_last()) + "\t"@ + cards.last().name_text() + "\n"@
    }
}

impl Hand {
    /// The hand in words, a line for each card.
    pub fn describe(&self) -> (text: String)
        ensures
            text@ == hand_text(self@),
    {
        let mut text = String::new();
        for i in 0..self.cards.len()
            invariant
                text@ == hand_text(self@.take(i as int)),
        {
            assert(self@.take(i + 1).drop_last() == self@.take(i as int));
            text.append("\t");
            text.append(self.cards[i].name().as_str());
            text.append("\n");
        }
        assert(self@.take(self@.len() as int) == self@);
        text
    }

    /// An empty hand.
    pub fn new() -> (hand: Hand)
        ensures
            hand@ == Seq::<Card>::empty(),
    {
        Hand { cards: Vec::new() }
    }

    /// Adds a card at the end of the hand. Any card is accepted.
    pub fn add_card(&mut self, card: Card)
        ensures
            final(self)@ == old(self)@.push(card),
    {
        self.cards.push(card);
    }

    /// The Blackjack score of the hand: 0 for an empty hand; the sum of the
    /// fixed values where the hand holds no Ace.
    ///
    /// The cards that are no Ace are summed first. Then each Ace adds 11 if
    /// the running total stays at 21 or below, else 1. Last, while the total
    /// is over 21, an Ace that was counted 11 is counted 1 instead.
    pub fn evaluate(&self) -> (total: u32)
        requires
            score(self@) <= u32::MAX,
        ensures
            total == score(self@),
            ace_count(self@) == 0 ==> total == fixed_total(self@),
            self@.len() == 0 ==> total == 0,
    {
        let mut sum: u64 = 0;
        let mut aces: u64 = 0;
        let n = self.cards.len();
        for i in 0..n
            invariant
                n == self.cards@.len(),
                score(self@) <= u32::MAX,
                sum == fixed_total(self@.take(i as int)),
                aces == ace_count(self@.take(i as int)),
        {
            proof {
                lemma_totals_grow(self@, i + 1);
                assert(self@.take(i + 1).drop_last() == self@.take(i as int));
            }
            match self.cards[i].value {
                Rank::Ace => aces += 1,
                Rank::Two => sum += 2,
                Rank::Three => sum += 3,
                Rank::Four => sum += 4,
                Rank::Five => sum += 5,
                Rank::Six => sum += 6,
                Rank::Seven => sum += 7,
                Rank::Eight => sum += 8,
                Rank::Nine => sum += 9,
                Rank::Ten | Rank::Jack | Rank::Queen | Rank::King => sum += 10,
            }
        }
        assert(self@.take(n as int) == self@);
        let ghost fixed = sum;

        let mut elevens: u64 = 0;
        for k in 0..aces
            invariant
                fixed + aces <= u32::MAX,
                fixed <= 10 && k > 0 ==> elevens == 1 && sum == fixed + 10 + k,
                fixed > 10 || k == 0 ==> elevens == 0 && sum == fixed + k,
        {
            if sum + 11 <= 21 {
                sum += 11;
                elevens += 1;
            } else {
                sum += 1;
            }
        }

        while sum > 21 && elevens > 0
            invariant
                fixed + aces <= u32::MAX,
                elevens <= 1,
                elevens == 1 ==> aces > 0 && sum == fixed + aces + 10,
                elevens == 0 ==> sum == score(self@),
                fixed == fixed_total(self@),
                aces == ace_count(self@),
            decreases elevens,
        {
            sum -= 10;
            elevens -= 1;
        }
        sum as u32
    }
}

} // verus!
