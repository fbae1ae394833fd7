use challenges::blackjack::{move_from_word, parse_move, settle, Move, Phase, Round, Verdict};
use challenges::cards::{Card, Rank, Suite};
use challenges::deck::Deck;
use challenges::hand::Hand;

const SUITS: [Suite; 4] = [Suite::Hearts, Suite::Diamonds, Suite::Clubs, Suite::Spades];
const RANKS: [Rank; 13] = [
    Rank::Ace,
    Rank::Two,
    Rank::Three,
    Rank::Four,
    Rank::Five,
    Rank::Six,
    Rank::Seven,
    Rank::Eight,
    Rank::Nine,
    Rank::Ten,
    Rank::Jack,
    Rank::Queen,
    Rank::King,
];

fn hand_of(ranks: &[Rank]) -> Hand {
    let mut hand = Hand::new();
    for (i, rank) in ranks.iter().enumerate() {
        hand.add_card(Card { suit: SUITS[i % 4], value: *rank });
    }
    hand
}

#[test]
fn new_creates_deck_with_correct_number_of_cards() {
    let deck = Deck::new();
    // 13 cards per suit (2-14) * 4 suits = 52 cards
    assert_eq!(deck.cards().len(), 52);
    assert_eq!(deck.len(), 52);
}

#[test]
fn new_creates_deck_with_all_values_for_each_suit() {
    let deck = Deck::new();
    let seen_cards = deck.cards().iter().collect::<std::collections::HashSet<_>>();

    for suit in SUITS {
        for value in RANKS {
            assert!(seen_cards.contains(&&Card { suit: suit.clone(), value: value.clone() }));
        }
    }
}

#[test]
fn new_creates_deck_without_duplicates() {
    let mut deck = Deck::new();
    let mut seen_cards = std::collections::HashSet::new();
    while let Some(card) = deck.deal() {
        assert!(!seen_cards.contains(&card));
        seen_cards.insert(card);
    }
}

#[test]
fn evaluate_returns_correct_value_for_empty_hand() {
    let hand = Hand::new();
    assert_eq!(hand.evaluate(), 0);
}

#[test]
fn evaluate_calculates_numbered_cards_correctly() {
    let mut hand = Hand::new();
    hand.add_card(Card { suit: Suite::Hearts, value: Rank::Two });
    hand.add_card(Card { suit: Suite::Diamonds, value: Rank::Three });
    hand.add_card(Card { suit: Suite::Clubs, value: Rank::Four });
    assert_eq!(hand.evaluate(), 9);
}

#[test]
fn evaluate_calculates_face_cards_correctly() {
    let mut hand = Hand::new();
    hand.add_card(Card { suit: Suite::Hearts, value: Rank::Jack });
    hand.add_card(Card { suit: Suite::Diamonds, value: Rank::Queen });
    hand.add_card(Card { suit: Suite::Clubs, value: Rank::King });
    assert_eq!(hand.evaluate(), 30);
}

#[test]
fn evaluate_calculates_mixed_cards_correctly() {
    let mut hand = Hand::new();
    hand.add_card(Card { suit: Suite::Hearts, value: Rank::Two });
    hand.add_card(Card { suit: Suite::Diamonds, value: Rank::Queen });
    hand.add_card(Card { suit: Suite::Clubs, value: Rank::Seven });
    assert_eq!(hand.evaluate(), 19);
}

#[test]
fn evaluate_handles_single_ace_as_eleven_when_possible() {
    let mut hand = Hand::new();
    hand.add_card(Card { suit: Suite::Hearts, value: Rank::Ace });
    hand.add_card(Card { suit: Suite::Diamonds, value: Rank::Five });
    assert_eq!(hand.evaluate(), 16); // Ace should be 11
}

#[test]
fn evaluate_handles_single_ace_as_one_when_necessary() {
    let mut hand = Hand::new();
    hand.add_card(Card { suit: Suite::Hearts, value: Rank::Ace });
    hand.add_card(Card { suit: Suite::Diamonds, value: Rank::Ten });
    hand.add_card(Card { suit: Suite::Clubs, value: Rank::Queen });
    assert_eq!(hand.evaluate(), 21); // Ace must be 1 to avoid bust
}

#[test]
fn evaluate_handles_multiple_aces_correctly() {
    let mut hand = Hand::new();
    hand.add_card(Card { suit: Suite::Hearts, value: Rank::Ace });
    hand.add_card(Card { suit: Suite::Diamonds, value: Rank::Ace });
    hand.add_card(Card { suit: Suite::Clubs, value: Rank::Nine });

    // First Ace as 11, second Ace as 1: 11 + 1 + 9 = 21
    assert_eq!(hand.evaluate(), 21);
}

#[test]
fn evaluate_handles_all_aces_as_one_when_necessary() {
    let mut hand = Hand::new();
    hand.add_card(Card { suit: Suite::Hearts, value: Rank::Ace });
    hand.add_card(Card { suit: Suite::Diamonds, value: Rank::Ace });
    hand.add_card(Card { suit: Suite::Clubs, value: Rank::Ace });
    hand.add_card(Card { suit: Suite::Spades, value: Rank::King });

    // All Aces must be 1 to avoid bust: 1 + 1 + 1 + 10 = 13
    assert_eq!(hand.evaluate(), 13);
}

#[test]
fn evaluate_counts_four_aces_and_a_king_as_fourteen() {
    // Four Aces and a King: every Ace at 1.
    let hand = hand_of(&[Rank::Ace, Rank::Ace, Rank::Ace, Rank::Ace, Rank::King]);
    assert_eq!(hand.evaluate(), 14);
}

#[test]
fn evaluate_sums_fixed_values_of_every_rank_without_ace() {
    let hand = hand_of(&RANKS[1..]);
    assert_eq!(hand.evaluate(), 2 + 3 + 4 + 5 + 6 + 7 + 8 + 9 + 10 + 10 + 10 + 10);
}

#[test]
fn evaluate_counts_an_ace_as_one_beside_a_bust() {
    // The other cards are over 21 already: the Ace adds 1, nothing is taken off.
    let hand = hand_of(&[Rank::King, Rank::Queen, Rank::Five, Rank::Ace]);
    assert_eq!(hand.evaluate(), 26);
}

#[test]
fn evaluate_counts_an_ace_as_eleven_up_to_exactly_twenty_one() {
    assert_eq!(hand_of(&[Rank::Ace, Rank::King]).evaluate(), 21);
    assert_eq!(hand_of(&[Rank::Ace, Rank::Five, Rank::Five]).evaluate(), 21);
    assert_eq!(hand_of(&[Rank::Ace, Rank::Five, Rank::Six]).evaluate(), 12);
    assert_eq!(hand_of(&[Rank::Ace]).evaluate(), 11);
    assert_eq!(hand_of(&[Rank::Ace, Rank::Ace]).evaluate(), 12);
}

#[test]
fn deck_is_in_canonical_order_and_deals_from_the_end() {
    let mut deck = Deck::new();
    assert_eq!(deck.cards()[0], Card { suit: Suite::Hearts, value: Rank::Ace });
    assert_eq!(deck.cards()[13], Card { suit: Suite::Diamonds, value: Rank::Ace });
    assert_eq!(deck.cards()[51], Card { suit: Suite::Spades, value: Rank::King });
    assert_eq!(deck.deal(), Some(Card { suit: Suite::Spades, value: Rank::King }));
    assert_eq!(deck.deal(), Some(Card { suit: Suite::Spades, value: Rank::Queen }));
    assert_eq!(deck.len(), 50);
}

#[test]
fn deal_on_an_empty_deck_keeps_signalling_emptiness() {
    let mut deck = Deck::new();
    for _ in 0..52 {
        assert!(deck.deal().is_some());
    }
    for _ in 0..5 {
        assert_eq!(deck.deal(), None);
        assert_eq!(deck.len(), 0);
    }
}

#[test]
fn shuffle_keeps_the_same_cards() {
    let mut deck = Deck::new();
    deck.shuffle();
    assert_eq!(deck.len(), 52);
    let seen = deck.cards().iter().collect::<std::collections::HashSet<_>>();
    assert_eq!(seen.len(), 52);
}

#[test]
fn shuffle_changes_the_order() {
    // One shuffle leaves 52 cards in place with probability 1/52!; five in a
    // row never do.
    let fresh = Deck::new();
    let mut moved = false;
    for _ in 0..5 {
        let mut deck = Deck::new();
        deck.shuffle();
        if deck.cards() != fresh.cards() {
            moved = true;
        }
    }
    assert!(moved);
}

#[test]
fn card_and_rank_names_read_as_english() {
    assert_eq!(Suite::Hearts.name(), "Hearts");
    assert_eq!(Suite::Spades.name(), "Spades");
    assert_eq!(Rank::Ace.name(), "Ace");
    assert_eq!(Rank::Ten.name(), "Ten");
    assert_eq!(Card { suit: Suite::Spades, value: Rank::Ace }.name(), "Ace of Spades");
    assert_eq!(Card { suit: Suite::Diamonds, value: Rank::Seven }.name(), "Seven of Diamonds");
}

#[test]
fn parse_move_reads_h_and_s_only() {
    assert_eq!(parse_move("H"), Some(Move::Hit));
    assert_eq!(parse_move("S\n"), Some(Move::Stand));
    assert_eq!(parse_move("  H  "), Some(Move::Hit));
    assert_eq!(parse_move("h"), None);
    assert_eq!(parse_move("Hit"), None);
    assert_eq!(parse_move(""), None);
}

#[test]
fn settle_lets_the_higher_score_win() {
    assert_eq!(settle(20, 19), Verdict::PlayerWins);
    assert_eq!(settle(17, 21), Verdict::DealerWins);
    assert_eq!(settle(18, 18), Verdict::Tie);
}

#[test]
fn round_on_a_fresh_deck_stands_and_loses_to_the_dealer() {
    // Top of a fresh deck: King, Queen, Jack, Ten of Spades.
    let mut round = Round::start(Deck::new());
    assert_eq!(round.phase, Phase::PlayerTurn);
    assert_eq!(round.player.cards.len(), 2);
    assert_eq!(round.player.evaluate(), 20);
    assert_eq!(round.deck.len(), 50);
    round.stand();
    assert_eq!(round.phase, Phase::DealerTurn);
    round.dealer_turn();
    assert_eq!(round.dealer.evaluate(), 20);
    assert_eq!(round.phase, Phase::Resolved(Verdict::Tie));
    assert_eq!(round.deck.len(), 48);
}

#[test]
fn round_on_a_fresh_deck_busts_on_the_first_hit() {
    let mut round = Round::start(Deck::new());
    round.hit();
    assert_eq!(round.player.cards.len(), 3);
    assert_eq!(round.player.evaluate(), 30);
    assert_eq!(round.phase, Phase::Resolved(Verdict::Bust));
    assert_eq!(round.dealer.cards.len(), 0);
}

#[test]
fn hand_describe_writes_a_line_for_each_card() {
    let hand = hand_of(&[Rank::Ace, Rank::Ten]);
    assert_eq!(hand.describe(), "\tAce of Hearts\n\tTen of Diamonds\n");
    assert_eq!(Hand::new().describe(), "");
}

#[test]
fn blackjack_move_from_word_takes_the_word_as_it_is() {
    assert_eq!(move_from_word("H"), Some(Move::Hit));
    assert_eq!(move_from_word("S"), Some(Move::Stand));
    assert_eq!(move_from_word("S\n"), None);
}

#[test]
fn round_ends_without_a_verdict_when_the_deck_runs_out() {
    let mut deck = Deck::new();
    // keep the two lowest cards: Ace and Two of Hearts
    for _ in 0..50 {
        deck.deal();
    }
    let mut round = Round::start(deck);
    assert_eq!(round.player.evaluate(), 13);
    round.hit();
    assert_eq!(round.phase, Phase::Resolved(Verdict::OutOfCards));
    assert_eq!(round.player.cards.len(), 2);
}

#[test]
fn round_lets_the_player_win_with_the_higher_score() {
    let mut deck = Deck::new();
    // top of the deck now: Four, Three, Two, Ace of Hearts
    for _ in 0..48 {
        deck.deal();
    }
    let mut round = Round::start(deck);
    assert_eq!(round.player.evaluate(), 7);
    round.stand();
    round.dealer_turn();
    assert_eq!(round.dealer.evaluate(), 13);
    assert_eq!(round.phase, Phase::Resolved(Verdict::DealerWins));

    let mut deck = Deck::new();
    for _ in 0..46 {
        deck.deal();
    }
    // Six and Five for the player, then a hit of Four: 15 against Three and Two
    let mut round = Round::start(deck);
    round.hit();
    assert_eq!(round.phase, Phase::PlayerTurn);
    assert_eq!(round.player.evaluate(), 15);
    round.stand();
    round.dealer_turn();
    assert_eq!(round.dealer.evaluate(), 5);
    assert_eq!(round.phase, Phase::Resolved(Verdict::PlayerWins));
}
