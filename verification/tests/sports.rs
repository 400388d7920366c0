use scrollr::sports::games::{
    clean_game, clean_games, Competition, Competitor, CompetitorTeam, Game, GameLink, GameStatus,
    StatusType,
};
use scrollr::sports::ingest::{IngestProgress, LeagueFetch};
use scrollr::sports::leagues::{
    clear_plan, league_names, scoreboard_url, select_leagues, LeagueConfigs, LiveByLeague,
    LiveLeagueList,
};

fn side(name: &str, score: &str) -> Competitor {
    Competitor {
        team: CompetitorTeam {
            short_display_name: name.to_string(),
            logo: format!("{}.png", name),
        },
        score: score.to_string(),
    }
}

fn game(id: &str, date: &str, home: &str, away: &str) -> Game {
    Game {
        id: id.to_string(),
        date: date.to_string(),
        competitions: vec![Competition { competitors: vec![side("Bears", home), side("Lions", away)] }],
        links: vec![GameLink { href: format!("https://games/{}", id) }],
        status: GameStatus {
            status_type: StatusType { short_detail: "Final".to_string(), state: "post".to_string() },
        },
    }
}

fn league(name: &str) -> LeagueConfigs {
    LeagueConfigs { name: name.to_string(), slug: format!("slug/{}", name) }
}

fn names(leagues: &Vec<LeagueConfigs>) -> Vec<String> {
    leagues.iter().map(|l| l.name.clone()).collect()
}

#[test]
fn games_become_rows() {
    let games = vec![game("1", "2024-09-08T17:00Z", "21", "-3"), game("2", "1970-01-01T00:01Z", "0", "0")];
    let rows = clean_games("NFL", &games).unwrap().unwrap();
    assert_eq!(rows.len(), 2);
    let first = &rows[0];
    assert_eq!(first.league, "NFL");
    assert_eq!(first.external_game_id, "1");
    assert_eq!(first.link, "https://games/1");
    assert_eq!(first.home_team.name, "Bears");
    assert_eq!(first.home_team.logo, "Bears.png");
    assert_eq!(first.home_team.score, 21);
    assert_eq!(first.away_team.name, "Lions");
    assert_eq!(first.away_team.score, -3);
    assert_eq!(first.start_time, 1725814800);
    assert_eq!(first.short_detail, "Final");
    assert_eq!(first.state, "post");
    assert_eq!(rows[1].start_time, 60);
    assert!(clean_games("NFL", &vec![]).unwrap().unwrap().is_empty());
}

#[test]
fn start_times_agree_with_chrono() {
    for date in ["2024-02-29T23:59Z", "2025-01-01T00:00Z", "1969-12-31T23:59Z"] {
        let expected = chrono::NaiveDateTime::parse_from_str(date, "%Y-%m-%dT%H:%M%Z")
            .unwrap()
            .and_utc();
        let rows = clean_games("L", &vec![game("1", date, "0", "0")]).unwrap().unwrap();
        assert_eq!(rows[0].start_time, expected.timestamp());
        assert_eq!(expected.timestamp_subsec_nanos(), 0);
    }
}

#[test]
fn first_unreadable_part_is_reported() {
    let error = |games: Vec<Game>| clean_games("L", &games).unwrap().unwrap_err();
    let chrono_error = chrono::NaiveDateTime::parse_from_str("tomorrow", "%Y-%m-%dT%H:%M%Z")
        .unwrap_err()
        .to_string();
    assert_eq!(
        error(vec![game("9", "tomorrow", "x", "y")]),
        format!("Date parse error for game 9: {}", chrono_error)
    );
    assert_eq!(
        error(vec![game("9", "2024-09-08T17:00Z", "x", "y")]),
        "Score parse error for team Bears: invalid digit found in string"
    );
    assert_eq!(
        error(vec![game("9", "2024-09-08T17:00Z", "1", "")]),
        "Score parse error for team Lions: cannot parse integer from empty string"
    );
    assert_eq!(
        error(vec![
            game("8", "2024-09-08T17:00Z", "1", "2"),
            game("9", "2024-09-08T17:00Z", "1", "2147483648"),
            game("10", "never", "1", "2"),
        ]),
        "Score parse error for team Lions: number too large to fit in target type"
    );
}

#[test]
fn missing_parts_give_no_result() {
    let mut empty = game("1", "2024-09-08T17:00Z", "1", "2");
    empty.competitions.clear();
    assert!(clean_games("L", &vec![empty]).is_none());
    let mut lonely = game("1", "2024-09-08T17:00Z", "1", "2");
    lonely.competitions[0].competitors.pop();
    assert!(clean_games("L", &vec![lonely]).is_none());
    let mut unlinked = game("1", "2024-09-08T17:00Z", "1", "2");
    unlinked.links.clear();
    assert!(clean_games("L", &vec![unlinked]).is_none());
    let mut unread = game("1", "2024-09-08T17:00Z", "1", "?");
    unread.links.clear();
    assert!(clean_games("L", &vec![unread]).unwrap().is_err());
}

#[test]
fn one_game_is_cleaned_with_a_given_start() {
    let g = game("1", "whatever", "3", "4");
    let row = clean_game("L", &g, Ok(12)).unwrap();
    assert_eq!((row.start_time, row.home_team.score, row.away_team.score), (12, 3, 4));
    assert_eq!(
        clean_game("L", &g, Err("bad".to_string())).unwrap_err(),
        "Date parse error for game 1: bad"
    );
}

#[test]
fn leagues_add_up_or_report() {
    let mut progress = IngestProgress::new();
    let good = LeagueFetch::Games(vec![
        game("1", "2024-09-08T17:00Z", "1", "2"),
        game("2", "2024-09-08T17:00Z", "3", "4"),
    ]);
    let result = progress.take_league("NFL", good).unwrap();
    assert_eq!(result.rows.len(), 2);
    assert_eq!(result.error, None);
    assert_eq!(progress.total_games, 2);

    let bad = LeagueFetch::Games(vec![
        game("1", "2024-09-08T17:00Z", "1", "2"),
        game("2", "2024-09-08T17:00Z", "", "4"),
    ]);
    let result = progress.take_league("NBA", bad).unwrap();
    assert!(result.rows.is_empty());
    assert_eq!(
        result.error.unwrap(),
        "Processing error for NBA: Score parse error for team Bears: cannot parse integer from empty string"
    );
    assert_eq!(progress.total_games, 2);

    let report = |progress: &mut IngestProgress, fetch: LeagueFetch| {
        let result = progress.take_league("NHL", fetch).unwrap();
        assert!(result.rows.is_empty());
        result.error.unwrap()
    };
    assert_eq!(
        report(&mut progress, LeagueFetch::BuildFailed("e1".to_string())),
        "Build error for NHL: e1"
    );
    assert_eq!(
        report(&mut progress, LeagueFetch::RequestFailed("e2".to_string())),
        "Request error for NHL: e2"
    );
    assert_eq!(
        report(&mut progress, LeagueFetch::ParseFailed("e3".to_string())),
        "Parse error for NHL: e3"
    );
    let mut empty = game("1", "2024-09-08T17:00Z", "1", "2");
    empty.competitions.clear();
    assert!(progress.take_league("NHL", LeagueFetch::Games(vec![empty])).is_none());
    assert_eq!(progress.total_games, 2);
}

#[test]
fn clearing_names_each_league_once() {
    assert!(clear_plan(&vec![]).is_none());
    let one = clear_plan(&vec![league("NFL")]).unwrap();
    assert_eq!(one.statement, "DELETE FROM games WHERE league IN ($1);");
    let leagues: Vec<LeagueConfigs> = (1..=11).map(|i| league(&format!("L{}", i))).collect();
    let many = clear_plan(&leagues).unwrap();
    assert_eq!(
        many.statement,
        "DELETE FROM games WHERE league IN ($1, $2, $3, $4, $5, $6, $7, $8, $9, $10, $11);"
    );
    assert_eq!(many.league_names, names(&leagues));
    assert_eq!(league_names(&leagues), names(&leagues));
}

#[test]
fn named_leagues_are_selected_in_order() {
    let all = || vec![league("NFL"), league("NBA"), league("NHL")];
    let wanted = vec!["NHL".to_string(), "NFL".to_string(), "MLB".to_string()];
    assert_eq!(names(&select_leagues(all(), &wanted)), vec!["NFL", "NHL"]);
    assert_eq!(names(&select_leagues(all(), &vec![])), vec!["NFL", "NBA", "NHL"]);
    assert!(select_leagues(all(), &vec!["nfl".to_string()]).is_empty());
}

#[test]
fn live_counts_read_as_pairs() {
    let item = |league: &str, count: i64| LiveByLeague { league: league.to_string(), count };
    assert_eq!(item("NFL", 12).to_text(), "(NFL, 12)");
    assert_eq!(item("NFL", -1).to_text(), "(NFL, -1)");
    let list = LiveLeagueList::new(vec![item("NFL", 1), item("NBA", 20)]);
    assert_eq!(list.to_text(), "(NFL, 1) (NBA, 20) ");
    assert_eq!(LiveLeagueList::new(vec![]).to_text(), "");
}

#[test]
fn scoreboards_are_found_by_slug() {
    assert_eq!(
        scoreboard_url("football/nfl"),
        "https://site.api.espn.com/apis/site/v2/sports/football/nfl/scoreboard"
    );
}

#[test]
fn joined_live_counts_read_as_both_lists() {
    let item = |league: &str, count: i64| LiveByLeague { league: league.to_string(), count };
    let text = |items: Vec<LiveByLeague>| LiveLeagueList::new(items).to_text();
    let first = text(vec![item("NFL", 1)]);
    let second = text(vec![item("NBA", 2), item("NHL", 3)]);
    assert_eq!(
        text(vec![item("NFL", 1), item("NBA", 2), item("NHL", 3)]),
        format!("{}{}", first, second)
    );
}
