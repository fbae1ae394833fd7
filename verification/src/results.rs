//! A list of match results that can be searched by team.

use crate::numbers::{decimal_text, read_u32, to_decimal};
use crate::text::trimmed;
use vstd::prelude::*;

verus! {

/// What the user wants to do.
#[derive(Debug, Clone, Copy, PartialEq, Eq, Structural)]
pub enum MenuOption {
    Add,
    Search,
}

/// The result of one match.
#[derive(Debug)]
pub struct Results {
    pub home_team: String,
    pub home_score: u32,
    pub away_team: String,
    pub away_score: u32,
}

/// A match result as plain values.
pub struct ResultsView {
    pub home_team: Seq<char>,
    pub home_score: u32,
    pub away_team: Seq<char>,
    pub away_score: u32,
}

impl View for Results {
    type V = ResultsView;

    open spec fn view(&self) -> ResultsView {
        ResultsView {
            home_team: self.home_team@,
            home_score: self.home_score,
            away_team: self.away_team@,
            away_score: self.away_score,
        }
    }
}

impl Clone for Results {
    fn clone(&self) -> (copy: Results)
        ensures
            copy@ == self@,
    {
        Results {
            home_team: self.home_team.clone(),
            home_score: self.home_score,
            away_team: self.away_team.clone(),
            away_score: self.away_score,
        }
    }
}

/// Why the lines that were entered give no result.
#[derive(Debug, Clone, Copy, PartialEq, Eq, Structural)]
pub enum ResultError {
    /// A score is no number that fits in 32 bits.
    InvalidScore,
}

impl ResultsView {
    /// Whether `team` played in this match, at home or away.
    pub open spec fn involves(self, team: Seq<char>) -> bool {
        self.home_team == team || self.away_team == team
    }

    /// The result in one line: home team and score, a hyphen, away team and
    /// score.
    pub open spec fn line(self) -> Seq<char> {
        self.home_team + " "@ + decimal_text(self.home_score as nat) + " - "@ + self.away_team
            + " "@ + decimal_text(self.away_score as nat)
    }
}

impl Results {
    /// The result in one line, such as `Lions 3 - Tigers 1`.
    pub fn describe(&self) -> (text: String)
        ensures
            text@ == self@.line(),
    {
        let mut text = self.home_team.clone();
        text.append(" ");
        text.append(to_decimal(self.home_score as u64).as_str());
        text.append(" - ");
        text.append(self.away_team.as_str());
        text.append(" ");
        text.append(to_decimal(self.away_score as u64).as_str());
        text
    }

    /// Whether `team` played in this match.
    pub fn involves(&self, team: &str) -> (played: bool)
        ensures
            played == self@.involves(team@),
    {
        self.home_team.as_str().eq(team) || self.away_team.as_str().eq(team)
    }
}

/// The choice that a line of input makes: `1` to add a result, `2` to
/// search.
pub open spec fn option_of(word: Seq<char>) -> Option<MenuOption> {
    if word == "1"@ {
        Some(MenuOption::Add)
    } else if word == "2"@ {
        Some(MenuOption::Search)
    } else {
        None
    }
}

/// The choice that `word` makes, taken as it is.
pub fn option_from_word(word: &str) -> (option: Option<MenuOption>)
    ensures
        option == option_of(word@),
{
    if word.eq("1") {
        Some(MenuOption::Add)
    } else if word.eq("2") {
        Some(MenuOption::Search)
    } else {
        None
    }
}

/// Reads the menu choice from a line of input, white space around it
/// dropped.
pub fn parse_menu_option(input: &str) -> (option: Option<MenuOption>)
    ensures
        option == option_of(trimmed(input@)),
{
    option_from_word(input.trim())
}

/// The score that a line of input gives, white space around it dropped.
pub open spec fn score_written(line: Seq<char>) -> Option<u32> {
    match crate::numbers::number_written(trimmed(line)) {
        Some(n) if n <= u32::MAX => Some(n as u32),
        _ => None,
    }
}

/// Reads a score from a line of input, white space around it dropped.
pub fn read_score(line: &str) -> (score: Result<u32, ResultError>)
    ensures
        match score {
            Ok(n) => score_written(line@) == Some(n),
            Err(e) => score_written(line@) is None && e == ResultError::InvalidScore,
        },
{
    match read_u32(line.trim()) {
        Some(score) => Ok(score),
        None => Err(ResultError::InvalidScore),
    }
}

/// Builds a result from the four lines that were entered: team names and
/// scores, each with the white space around it dropped.
pub fn read_result(
    home_team: &str,
    home_score: &str,
    away_team: &str,
    away_score: &str,
) -> (result: Result<Results, ResultError>)
    ensures
        match result {
            Ok(r) => {
                &&& r.home_team@ == trimmed(home_team@)
                &&& r.away_team@ == trimmed(away_team@)
                &&& score_written(home_score@) == Some(r.home_score)
                &&& score_written(away_score@) == Some(r.away_score)
            },
            Err(e) => (score_written(home_score@) is None || score_written(away_score@) is None)
                && e == ResultError::InvalidScore,
        },
{
    let home = read_score(home_score)?;
    let away = read_score(away_score)?;
    Ok(
        Results {
            home_team: home_team.trim().to_owned(),
            home_score: home,
            away_team: away_team.trim().to_owned(),
            away_score: away,
        },
    )
}

/// The results in which `team` played, in the order of the list.
pub open spec fn matches_of(results: Seq<ResultsView>, team: Seq<char>) -> Seq<ResultsView> {
    results.filter(|r: ResultsView| r.involves(team))
}

/// Finds the results in which the team called `query` played, at home or
/// away, in the order in which they were added.
pub fn search(results: &Vec<Results>, query: &str) -> (found: Vec<Results>)
    ensures
        found@.map_values(|r: Results| r@) == matches_of(
            results@.map_values(|r: Results| r@),
            query@,
        ),
{
    let ghost all = results@.map_values(|r: Results| r@);
    let mut found: Vec<Results> = Vec::new();
    for i in 0..results.len()
        invariant
            all == results@.map_values(|r: Results| r@),
            found@.map_values(|r: Results| r@) == matches_of(all.take(i as int), query@),
    {
        proof {
            reveal(Seq::filter);
            assert(all.take(i + 1).drop_last() == all.take(i as int));
        }
        if results[i].involves(query) {
            let copy = results[i].clone();
            let ghost before = found@.map_values(|r: Results| r@);
            found.push(copy);
            assert(found@.map_values(|r: Results| r@) == before.push(copy@));
        }
    }
    assert(all.take(all.len() as int) == all);
    found
}

} // verus!
