//! Playing cards: suits, ranks, the 52 cards and their canonical order.

use vstd::prelude::*;

verus! {

/// The four suits.
#[derive(Debug, Clone, Copy, Hash, PartialEq, Eq, Structural)]
pub enum Suite {
    Hearts,
    Diamonds,
    Clubs,
    Spades,
}

/// The thirteen ranks.
#[derive(Debug, Clone, Copy, Hash, PartialEq, Eq, Structural)]
pub enum Rank {
    Ace,
    Two,
    Three,
    Four,
    Five,
    Six,
    Seven,
    Eight,
    Nine,
    Ten,
    Jack,
    Queen,
    King,
}

/// A card: one suit and one rank.
#[derive(Hash, Eq, PartialEq, Debug, Clone, Copy, Structural)]
pub struct Card {
    pub suit: Suite,
    pub value: Rank,
}

impl Suite {
    /// Position of the suit in the canonical order, 0 to 3.
    pub open spec fn index(self) -> int {
        match self {
            Suite::Hearts => 0,
            Suite::Diamonds => 1,
            Suite::Clubs => 2,
            Suite::Spades => 3,
        }
    }

    /// The suit at position `i` of the canonical order.
    pub open spec fn at(i: int) -> Suite {
        if i == 0 {
            Suite::Hearts
        } else if i == 1 {
            Suite::Diamonds
        } else if i == 2 {
            Suite::Clubs
        } else {
            Suite::Spades
        }
    }

    /// The suit's English name.
    pub open spec fn name_text(self) -> Seq<char> {
        match self {
            Suite::Hearts => "Hearts"@,
            Suite::Diamonds => "Diamonds"@,
            Suite::Clubs => "Clubs"@,
            Suite::Spades => "Spades"@,
        }
    }

    /// The suit at position `i` of the canonical order.
    pub fn nth(i: usize) -> (suit: Suite)
        requires
            i < 4,
        ensures
            suit == Suite::at(i as int),
            suit.index() == i,
    {
        if i == 0 {
            Suite::Hearts
        } else if i == 1 {
            Suite::Diamonds
        } else if i == 2 {
            Suite::Clubs
        } else {
            Suite::Spades
        }
    }

    /// The suit's English name.
    pub fn name(&self) -> (text: &'static str)
        ensures
            text@ == self.name_text(),
    {
        match self {
            Suite::Hearts => "Hearts",
            Suite::Diamonds => "Diamonds",
            Suite::Clubs => "Clubs",
            Suite::Spades => "Spades",
        }
    }
}

impl Rank {
    /// Position of the rank in the canonical order, 0 (Ace) to 12 (King).
    pub open spec fn index(self) -> int {
        match self {
            Rank::Ace => 0,
            Rank::Two => 1,
            Rank::Three => 2,
            Rank::Four => 3,
            Rank::Five => 4,
            Rank::Six => 5,
            Rank::Seven => 6,
            Rank::Eight => 7,
            Rank::Nine => 8,
            Rank::Ten => 9,
            Rank::Jack => 10,
            Rank::Queen => 11,
            Rank::King => 12,
        }
    }

    /// The rank at position `i` of the canonical order.
    pub open spec fn at(i: int) -> Rank {
        if i == 0 {
            Rank::Ace
        } else if i == 1 {
            Rank::Two
        } else if i == 2 {
            Rank::Three
        } else if i == 3 {
            Rank::Four
        } else if i == 4 {
            Rank::Five
        } else if i == 5 {
            Rank::Six
        } else if i == 6 {
            Rank::Seven
        } else if i == 7 {
            Rank::Eight
        } else if i == 8 {
            Rank::Nine
        } else if i == 9 {
            Rank::Ten
        } else if i == 10 {
            Rank::Jack
        } else if i == 11 {
            Rank::Queen
        } else {
            Rank::King
        }
    }

    /// Points of a rank that is no Ace: the number on a numbered card, 10 for
    /// Jack, Queen and King. An Ace has no fixed value, and counts 0 here.
    pub open spec fn fixed_points(self) -> nat {
        match self {
            Rank::Ace => 0,
            Rank::Two => 2,
            Rank::Three => 3,
            Rank::Four => 4,
            Rank::Five => 5,
            Rank::Six => 6,
            Rank::Seven => 7,
            Rank::Eight => 8,
            Rank::Nine => 9,
            Rank::Ten => 10,
            Rank::Jack => 10,
            Rank::Queen => 10,
            Rank::King => 10,
        }
    }

    /// The rank's English name.
    pub open spec fn name_text(self) -> Seq<char> {
        match self {
            Rank::Ace => "Ace"@,
            Rank::Two => "Two"@,
            Rank::Three => "Three"@,
            Rank::Four => "Four"@,
            Rank::Five => "Five"@,
            Rank::Six => "Six"@,
            Rank::Seven => "Seven"@,
            Rank::Eight => "Eight"@,
            Rank::Nine => "Nine"@,
            Rank::Ten => "Ten"@,
            Rank::Jack => "Jack"@,
            Rank::Queen => "Queen"@,
            Rank::King => "King"@,
        }
    }

    /// The rank at position `i` of the canonical order.
    pub fn nth(i: usize) -> (rank: Rank)
        requires
            i < 13,
        ensures
            rank == Rank::at(i as int),
            rank.index() == i,
    {
        if i == 0 {
            Rank::Ace
        } else if i == 1 {
            Rank::Two
        } else if i == 2 {
            Rank::Three
        } else if i == 3 {
            Rank::Four
        } else if i == 4 {
            Rank::Five
        } else if i == 5 {
            Rank::Six
        } else if i == 6 {
            Rank::Seven
        } else if i == 7 {
            Rank::Eight
        } else if i == 8 {
            Rank::Nine
        } else if i == 9 {
            Rank::Ten
        } else if i == 10 {
            Rank::Jack
        } else if i == 11 {
            Rank::Queen
        } else {
            Rank::King
        }
    }

    /// The rank's English name.
    pub fn name(&self) -> (text: &'static str)
        ensures
            text@ == self.name_text(),
    {
        match self {
            Rank::Ace => "Ace",
            Rank::Two => "Two",
            Rank::Three => "Three",
            Rank::Four => "Four",
            Rank::Five => "Five",
            Rank::Six => "Six",
            Rank::Seven => "Seven",
            Rank::Eight => "Eight",
            Rank::Nine => "Nine",
            Rank::Ten => "Ten",
            Rank::Jack => "Jack",
            Rank::Queen => "Queen",
            Rank::King => "King",
        }
    }
}

impl Card {
    /// Position of the card in the canonical order of the 52 cards: suit by
    /// suit, each suit from Ace to King.
    pub open spec fn index(self) -> int {
        self.suit.index() * 13 + self.value.index()
    }

    /// The card at position `i` of the canonical order.
    pub open spec fn at(i: int) -> Card {
        Card { suit: Suite::at(i / 13), value: Rank::at(i % 13) }
    }

    /// The card's name, such as "Ace of Spades".
    pub open spec fn name_text(self) -> Seq<char> {
        self.value.name_text() + " of "@ + self.suit.name_text()
    }

    /// The card's name, such as "Ace of Spades".
    pub fn name(&self) -> (text: String)
        ensures
            text@ == self.name_text(),
    {
        let mut text = String::from_str(self.value.name());
        text.append(" of ");
        text.append(self.suit.name());
        text
    }
}

/// The 52 cards in canonical order.
pub open spec fn full_deck() -> Seq<Card> {
    Seq::new(52, |i: int| Card::at(i))
}

/// Every card has a position from 0 to 51, and stands at that position of the
/// canonical order.
pub proof fn lemma_card_index(c: Card)
    ensures
        0 <= c.index() < 52,
        Card::at(c.index()) == c,
{
}

/// Each position from 0 to 51 holds the card with that index.
pub proof fn lemma_card_at(i: int)
    requires
        0 <= i < 52,
    ensures
        Card::at(i).index() == i,
{
}

/// The canonical deck holds 52 cards, no card twice, and every card there is.
pub proof fn lemma_full_deck_is_complete()
    ensures
        full_deck().len() == 52,
        full_deck().no_duplicates(),
        forall|c: Card| full_deck().contains(c),
{
    assert forall|i: int, j: int|
        0 <= i < 52 && 0 <= j < 52 && i != j implies full_deck()[i] != full_deck()[j] by {
        lemma_card_at(i);
        lemma_card_at(j);
    }
    assert forall|c: Card| full_deck().contains(c) by {
        lemma_card_index(c);
        assert(full_deck()[c.index()] == c);
    }
}

} // verus!
