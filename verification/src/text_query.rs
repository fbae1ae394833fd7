//! Questions about a sentence: how many words it has, and how it reads
//! backwards.

use crate::text::{from_chars, to_chars, trimmed, uppercase, white_space};
use vstd::prelude::*;

verus! {

/// What is asked of a sentence.
#[derive(Debug, Clone, Copy, PartialEq, Eq, Structural)]
pub enum QueryType {
    Count,
    Reverse,
}

/// The question that a word asks: `C` to count words, `R` to reverse.
pub open spec fn query_of(word: Seq<char>) -> Option<QueryType> {
    if word == "C"@ {
        Some(QueryType::Count)
    } else if word == "R"@ {
        Some(QueryType::Reverse)
    } else {
        None
    }
}

/// The question that `word` asks, taken as it is.
pub fn query_from_word(word: &str) -> (query: Option<QueryType>)
    ensures
        query == query_of(word@),
{
    if word.eq("C") {
        Some(QueryType::Count)
    } else if word.eq("R") {
        Some(QueryType::Reverse)
    } else {
        None
    }
}

/// Reads the question from a line of input: white space around the letter is
/// dropped and lower case accepted.
pub fn parse_query_type(input: &str) -> (query: Option<QueryType>)
    ensures
        query == query_of(uppercase(trimmed(input@))),
{
    let word = input.trim().to_uppercase();
    query_from_word(word.as_str())
}

/// Whether a word starts at position `i`: the character there is no white
/// space, and it is the first or follows white space.
pub open spec fn starts_word(text: Seq<char>, i: int) -> bool {
    !white_space(text[i]) && (i == 0 || white_space(text[i - 1]))
}

/// How many words start among the first `n` characters.
pub open spec fn words_below(text: Seq<char>, n: int) -> nat
    decreases n,
{
    if n <= 0 {
        0
    } else {
        words_below(text, n - 1) + if starts_word(text, n - 1) {
            1nat
        } else {
            0nat
        }
    }
}

/// The number of words: runs of characters that are no white space.
pub open spec fn word_count(text: Seq<char>) -> nat {
    words_below(text, text.len() as int)
}

/// Counts the words of a sentence, white space of any length between them.
pub fn count_words(sentence: &str) -> (count: usize)
    ensures
        count == word_count(sentence@),
{
    let chars = to_chars(sentence);
    let mut count: usize = 0;
    let mut in_word = false;
    for i in 0..chars.len()
        invariant
            chars@ == sentence@,
            count == words_below(chars@, i as int),
            count <= i,
            in_word == (i > 0 && !white_space(chars@[i - 1])),
    {
        let blank = chars[i].is_whitespace();
        if !blank && !in_word {
            count += 1;
        }
        in_word = !blank;
    }
    count
}

/// The sentence read backwards, the white space around it dropped first.
pub fn reverse_sentence(sentence: &str) -> (reversed: String)
    ensures
        reversed@ == trimmed(sentence@).reverse(),
{
    let chars = to_chars(sentence.trim());
    let mut backwards: Vec<char> = Vec::new();
    let mut k: usize = chars.len();
    while k > 0
        invariant
            k <= chars@.len(),
            backwards@ == chars@.subrange(k as int, chars@.len() as int).reverse(),
        decreases k,
    {
        k = k - 1;
        backwards.push(chars[k]);
        proof {
            let tail = chars@.subrange(k as int, chars@.len() as int);
            let rest = chars@.subrange(k as int + 1, chars@.len() as int);
            assert(tail.reverse() == rest.reverse().push(chars@[k as int]));
        }
    }
    assert(chars@.subrange(0, chars@.len() as int) == chars@);
    from_chars(&backwards)
}

} // verus!
