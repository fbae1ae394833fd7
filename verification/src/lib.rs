//! Small games and calculators for the terminal, as a library: the rules of
//! each one, with a contract that is proved for every input.
//!
//! Card games: [`cards`], [`deck`], [`hand`], [`blackjack`], [`card_draw`].
//! Guessing games: [`rps`], [`subtraction`], [`higher_lower`], [`guessing`],
//! [`treasure`], [`mastermind`], [`hangman`], [`typing`].
//! Calculators: [`factors`], [`fib`], [`grades`], [`pyramid`], [`dates`],
//! [`gates`], [`shapes`].
//! Text: [`cipher`], [`text_query`], [`names`], [`results`], [`grid`],
//! [`colors`], [`input`].
//!
//! What is taken on trust from the standard library and from other crates
//! stands in [`text`], [`numbers`], [`random`], [`dates`], [`deck`] and
//! [`factors`], each item with a comment that says what is assumed of it.

pub mod blackjack;
pub mod card_draw;
pub mod cards;
pub mod cipher;
pub mod colors;
pub mod dates;
pub mod deck;
pub mod factors;
pub mod fib;
pub mod gates;
pub mod grades;
pub mod grid;
pub mod guessing;
pub mod hand;
pub mod hangman;
pub mod higher_lower;
pub mod input;
pub mod mastermind;
pub mod names;
pub mod numbers;
pub mod pyramid;
pub mod random;
pub mod results;
pub mod rps;
pub mod shapes;
pub mod subtraction;
pub mod text;
pub mod text_query;
pub mod treasure;
pub mod typing;
