use challenges::results::{
    parse_menu_option, read_result, read_score, search, MenuOption, ResultError, Results,
};

fn result(home: &str, home_score: u32, away: &str, away_score: u32) -> Results {
    Results {
        home_team: home.to_string(),
        home_score,
        away_team: away.to_string(),
        away_score,
    }
}

#[test]
fn describe_writes_teams_and_scores() {
    assert_eq!(result("Lions", 3, "Tigers", 1).describe(), "Lions 3 - Tigers 1");
    assert_eq!(result("A B", 0, "", 120).describe(), "A B 0 -  120");
    let r = result("Home", 10, "Away", 4294967295);
    assert_eq!(
        r.describe(),
        format!("{} {} - {} {}", r.home_team, r.home_score, r.away_team, r.away_score)
    );
}

#[test]
fn parse_menu_option_reads_one_and_two() {
    assert_eq!(parse_menu_option("1\n"), Some(MenuOption::Add));
    assert_eq!(parse_menu_option(" 2 "), Some(MenuOption::Search));
    assert_eq!(parse_menu_option("3"), None);
    assert_eq!(parse_menu_option(""), None);
}

#[test]
fn read_result_trims_names_and_reads_scores() {
    let r = read_result(" Lions \n", "3\n", "Tigers\n", " 1\n").unwrap();
    assert_eq!(r.home_team, "Lions");
    assert_eq!(r.home_score, 3);
    assert_eq!(r.away_team, "Tigers");
    assert_eq!(r.away_score, 1);
}

#[test]
fn read_result_rejects_a_score_that_is_no_number() {
    assert_eq!(read_result("Lions", "three", "Tigers", "1").unwrap_err(), ResultError::InvalidScore);
    assert_eq!(read_result("Lions", "3", "Tigers", "-1").unwrap_err(), ResultError::InvalidScore);
    assert_eq!(read_result("Lions", "3", "Tigers", "").unwrap_err(), ResultError::InvalidScore);
    assert_eq!(read_score("4294967296"), Err(ResultError::InvalidScore));
    assert_eq!(read_score(" 12 "), Ok(12));
}

#[test]
fn search_finds_home_and_away_matches_in_order() {
    let results = vec![
        result("Lions", 3, "Tigers", 1),
        result("Bears", 0, "Wolves", 0),
        result("Tigers", 2, "Bears", 2),
        result("Wolves", 1, "Lions", 4),
    ];
    let found: Vec<String> = search(&results, "Lions").iter().map(|r| r.describe()).collect();
    assert_eq!(found, vec!["Lions 3 - Tigers 1", "Wolves 1 - Lions 4"]);
    let found: Vec<String> = search(&results, "Bears").iter().map(|r| r.describe()).collect();
    assert_eq!(found, vec!["Bears 0 - Wolves 0", "Tigers 2 - Bears 2"]);
    assert!(search(&results, "lions").is_empty());
    assert!(search(&results, "Lion").is_empty());
    assert!(search(&Vec::new(), "Lions").is_empty());
}
