//! A deck of distinct cards that is dealt from the top.

use crate::cards::{full_deck, lemma_card_index, lemma_full_deck_is_complete, Card, Rank, Suite};
use rand::seq::SliceRandom;
use vstd::prelude::*;
use vstd::seq_lib::*;
use vstd::set_lib::*;

verus! {

/// The cards not yet dealt. The last card of the sequence is the top of the
/// deck. No card occurs twice.
pub struct Deck {
    cards: Vec<Card>,
}

/// `SliceRandom::shuffle` of `rand`, with the thread's generator: reorders the
/// slice in place by swapping its elements, so the cards afterwards are the
/// cards before, each as often as before. Nothing is said of the new order.
#[verifier::external_body]
fn shuffle_cards(cards: &mut Vec<Card>)
    ensures
        final(cards)@.to_multiset() == old(cards)@.to_multiset(),
{
    cards.shuffle(&mut rand::rng());
}

/// A sequence without duplicates holds at most 52 cards.
pub proof fn lemma_distinct_cards_are_at_most_52(cards: Seq<Card>)
    requires
        cards.no_duplicates(),
    ensures
        cards.len() <= 52,
{
    let indices = cards.map_values(|c: Card| c.index());
    assert forall|i: int, j: int|
        0 <= i < indices.len() && 0 <= j < indices.len() && i != j implies indices[i]
        != indices[j] by {
        lemma_card_index(cards[i]);
        lemma_card_index(cards[j]);
    }
    indices.unique_seq_to_set();
    let range = set_int_range(0, 52);
    lemma_int_range(0, 52);
    assert forall|x: int| indices.to_set().contains(x) implies range.contains(x) by {
        let i = choose|i: int| 0 <= i < indices.len() && indices[i] == x;
        lemma_card_index(cards[i]);
    }
    lemma_len_subset(indices.to_set(), range);
}

/// Reordering keeps a sequence free of duplicates.
pub proof fn lemma_reordering_keeps_cards_distinct(before: Seq<Card>, after: Seq<Card>)
    requires
        before.no_duplicates(),
        before.to_multiset() == after.to_multiset(),
    ensures
        after.no_duplicates(),
        after.len() == before.len(),
{
    broadcast use vstd::multiset::group_multiset_axioms;
    before.to_multiset_ensures();
    after.to_multiset_ensures();
    before.lemma_multiset_has_no_duplicates();
    after.lemma_multiset_has_no_duplicates_conv();
}

/// The card on top of a deck: the last one; none on an empty deck.
pub open spec fn top(cards: Seq<Card>) -> Option<Card> {
    if cards.len() == 0 {
        None
    } else {
        Some(cards.last())
    }
}

/// What is left of a deck once the top card is dealt. An empty deck stays as
/// it is.
pub open spec fn rest(cards: Seq<Card>) -> Seq<Card> {
    if cards.len() == 0 {
        cards
    } else {
        cards.drop_last()
    }
}

/// What is left of a deck after `n` deals.
pub open spec fn rest_after(cards: Seq<Card>, n: nat) -> Seq<Card>
    decreases n,
{
    if n == 0 {
        cards
    } else {
        rest_after(rest(cards), (n - 1) as nat)
    }
}

/// Each deal takes one card while there is one, and from then on every deal
/// finds the deck empty and leaves it so.
pub proof fn lemma_deals_exhaust_the_deck(cards: Seq<Card>, n: nat)
    ensures
        n <= cards.len() ==> rest_after(cards, n) == cards.take(cards.len() - n),
        n >= cards.len() ==> rest_after(cards, n).len() == 0 && top(rest_after(cards, n)) is None,
    decreases n,
{
    if n > 0 {
        lemma_deals_exhaust_the_deck(rest(cards), (n - 1) as nat);
        if n <= cards.len() {
            assert(cards.drop_last().take(cards.len() - n) == cards.take(cards.len() - n));
        }
    } else {
        assert(cards.take(cards.len() as int) == cards);
    }
}

impl View for Deck {
    type V = Seq<Card>;

    closed spec fn view(&self) -> Seq<Card> {
        self.cards@
    }
}

impl Deck {
    #[verifier::type_invariant]
    spec fn distinct(&self) -> bool {
        self.cards@.no_duplicates()
    }

    /// The 52 cards in canonical order, not shuffled: suit by suit, each suit
    /// from Ace to King.
    pub fn new() -> (deck: Deck)
        ensures
            deck@ == full_deck(),
            deck@.len() == 52,
            deck@.no_duplicates(),
            forall|c: Card| deck@.contains(c),
    {
        let mut cards: Vec<Card> = Vec::new();
        for s in 0..4usize
            invariant
                cards@ == full_deck().take(13 * s),
        {
            for r in 0..13usize
                invariant
                    s < 4,
                    cards@ == full_deck().take(13 * s + r),
            {
                let card = Card { suit: Suite::nth(s), value: Rank::nth(r) };
                cards.push(card);
                assert(full_deck()[13 * s + r] == card);
            }
        }
        proof {
            lemma_full_deck_is_complete();
            assert(cards@ == full_deck());
        }
        Deck { cards }
    }

    /// Puts the cards in a random order. The deck holds the same cards
    /// afterwards.
    pub fn shuffle(&mut self)
        ensures
            final(self)@.to_multiset() == old(self)@.to_multiset(),
            final(self)@.len() == old(self)@.len(),
            final(self)@.no_duplicates(),
    {
        proof {
            use_type_invariant(&*self);
        }
        let ghost before = self.cards@;
        let mut cards: Vec<Card> = Vec::new();
        std::mem::swap(&mut self.cards, &mut cards);
        shuffle_cards(&mut cards);
        proof {
            lemma_reordering_keeps_cards_distinct(before, cards@);
        }
        self.cards = cards;
    }

    /// Takes the top card, or returns `None` when no card is left. An empty
    /// deck stays empty, however often it is asked.
    pub fn deal(&mut self) -> (card: Option<Card>)
        ensures
            card == top(old(self)@),
            final(self)@ == rest(old(self)@),
            final(self)@.no_duplicates(),
            card matches Some(c) ==> !final(self)@.contains(c),
    {
        proof {
            use_type_invariant(&*self);
        }
        let mut cards: Vec<Card> = Vec::new();
        std::mem::swap(&mut self.cards, &mut cards);
        let card = cards.pop();
        self.cards = cards;
        proof {
            if card is Some {
                let c = card->0;
                let before = old(self)@;
                assert(before[before.len() - 1] == c);
                if self.cards@.contains(c) {
                    let i = choose|i: int| 0 <= i < self.cards@.len() && self.cards@[i] == c;
                    assert(before[i] == c);
                }
            }
        }
        card
    }

    /// How many cards are left.
    pub fn len(&self) -> (n: usize)
        ensures
            n == self@.len(),
            n <= 52,
            self@.no_duplicates(),
    {
        proof {
            use_type_invariant(self);
            lemma_distinct_cards_are_at_most_52(self.cards@);
        }
        self.cards.len()
    }

    /// The cards that are left, the top of the deck last.
    pub fn cards(&self) -> (cards: &Vec<Card>)
        ensures
            cards@ == self@,
            cards@.no_duplicates(),
    {
        proof {
            use_type_invariant(self);
        }
        &self.cards
    }
}

} // verus!
