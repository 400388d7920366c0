use scrollr::yahoo::api::{
    league_keys, league_of_team, roster, sort_leagues, sort_matchups, standings, stat_pairs_file,
    wants_stat_reload, League, LeagueGame, LeagueUser, MatchupEntry, MatchupEntryTeam,
    OutcomeTotals, RosterFetch, RosterStep, StandingsTeam, StatsRun, TeamStandings,
};
use scrollr::yahoo::error::{ResponseCheck, YahooError};
use scrollr::yahoo::request::{
    leagues_endpoint, matchups_endpoint, request_failed_text, retries_exceeded_text,
    roster_endpoint, settings_endpoint, standings_endpoint, strip_date, AccessToken, RequestState,
    RequestStep,
};
use scrollr::yahoo::types::LeagueStats;
use scrollr::yahoo::xml_roster::{
    sport_mismatch_text, team_field, EligiblePositions, FantasyContent, Headshot, Name, Player,
    PlayerPoints, PlayerStats, Players, Points, Roster, SelectedPosition, Stat, Stats, Team,
    TeamEntry, TeamField, TeamFieldError, TeamFields,
};

const DATE_REFUSED: &str = "This game does not support accessing a roster by date";

fn kind(message: &str) -> String {
    YahooError::handle_checks(message.to_string())
}

fn league(key: &str, game_code: &str) -> League {
    League {
        league_key: key.to_string(),
        league_id: 7,
        name: format!("name of {}", key),
        url: "https://league".to_string(),
        logo_url: Some("logo".to_string()),
        draft_status: "postdraft".to_string(),
        num_teams: 12,
        scoring_type: "head".to_string(),
        league_type: "private".to_string(),
        current_week: Some(3),
        start_week: None,
        end_week: Some(17),
        season: "2024".to_string(),
        game_code: game_code.to_string(),
    }
}

fn users(games: Vec<Option<Vec<League>>>) -> Vec<LeagueUser> {
    let games = games.into_iter().map(|leagues| LeagueGame { leagues }).collect();
    vec![LeagueUser { games }, LeagueUser { games: vec![LeagueGame { leagues: Some(vec![league("z", "nba")]) }] }]
}

fn empty_roster<T>() -> Roster<T> {
    Roster { players: Players { player: None } }
}

fn player(number: Option<&str>) -> Player<u32> {
    Player {
        player_key: "nfl.p.1".to_string(),
        player_id: 1,
        name: Name {
            full: "Ann Example".to_string(),
            first: "Ann".to_string(),
            last: "Example".to_string(),
        },
        editorial_team_abbr: "EX".to_string(),
        editorial_team_full_name: "Examples".to_string(),
        uniform_number: number.map(|n| n.to_string()),
        display_position: "QB".to_string(),
        selected_position: SelectedPosition { position: "BN".to_string() },
        eligible_positions: EligiblePositions {
            position: vec!["QB".to_string(), "BN".to_string()],
        },
        image_url: "image".to_string(),
        headshot: Headshot { url: "head".to_string() },
        is_undroppable: true,
        position_type: "O".to_string(),
        player_stats: PlayerStats { stats: Stats { stat: vec![Stat { stat_name: 4, value: 9 }] } },
        player_points: Some(PlayerPoints {
            coverage_type: "week".to_string(),
            week: Some(2),
            date: None,
            total: Points { bits: 12.5f32.to_bits() },
        }),
    }
}

#[test]
fn error_kinds_are_told_apart() {
    assert_eq!(kind("No such league"), "No such league");
    assert_eq!(
        kind("Please provide valid credentials. OAuth oauth_problem=\"token_expired\", realm=\"yahooapis.com\""),
        "token_expired"
    );
    assert_eq!(kind("x OAuth oauth_problem=token_expired,y"), "token_expired");
    assert_eq!(
        kind("x OAuth oauth_problem=\"unable_to_determine_oauth_type\",y"),
        "OAuth logic error, this should not be reachable."
    );
    assert_eq!(
        kind("x OAuth oauth_problem=\"other\",y"),
        "Unexpected yahoo error: (key: oauth_problem, value: \"other\")"
    );
    assert_eq!(
        kind("x OAuth realm=\"token_expired\",y"),
        "Unexpected yahoo error: (key: realm, value: \"token_expired\")"
    );
    assert_eq!(kind("x OAuth oauth_problem=\"token_expired\""), "x OAuth oauth_problem=\"token_expired\"");
    assert_eq!(kind("x OAuth problem,y"), "x OAuth problem,y");
    assert_eq!(
        kind("x OAuth oauth_problem=\",y"),
        "Unexpected yahoo error: (key: oauth_problem, value: \")"
    );
}

#[test]
fn replies_are_taken_by_their_error() {
    let check = |namespaced: Option<&str>, plain: Option<&str>, can_refresh: bool| {
        YahooError::check_response(
            namespaced.map(|m| m.to_string()),
            plain.map(|m| m.to_string()),
            can_refresh,
        )
    };
    assert!(matches!(check(None, None, true), ResponseCheck::Final(YahooError::Accepted)));
    let expired = Some("x OAuth oauth_problem=\"token_expired\",y");
    assert!(matches!(check(expired, None, true), ResponseCheck::RefreshTokens));
    assert!(matches!(check(expired, None, false), ResponseCheck::Final(YahooError::Failed)));
    assert!(matches!(
        check(None, Some(DATE_REFUSED), true),
        ResponseCheck::Final(YahooError::Error(e)) if e == "date unsupported"
    ));
    assert!(matches!(
        check(Some("first"), Some("second"), true),
        ResponseCheck::Final(YahooError::Error(e)) if e == "first"
    ));
    assert!(matches!(
        check(None, Some("token_expired"), true),
        ResponseCheck::RefreshTokens
    ));
}

#[test]
fn errors_read_without_tokens() {
    assert_eq!(YahooError::Accepted.to_text(), "YahooError::Ok");
    assert_eq!(
        YahooError::NewTokens("a".to_string(), "b".to_string()).to_text(),
        "YahooError::NewTokens([REDACTED], [REDACTED])"
    );
    assert_eq!(YahooError::Failed.to_text(), "YahooError::Failed");
    assert_eq!(YahooError::Error("e".to_string()).to_text(), "YahooError(e)");
    let renewed = YahooError::after_refresh(Some(("a".to_string(), "b".to_string())));
    assert!(matches!(renewed, YahooError::NewTokens(a, b) if a == "a" && b == "b"));
    assert!(matches!(YahooError::after_refresh(None), YahooError::Failed));
}

#[test]
fn dates_are_taken_out_of_endpoints() {
    assert_eq!(strip_date("/team/1/roster;date=2024-01-01/players/stats"), "/team/1/roster/players/stats");
    assert_eq!(strip_date("/team/1/roster/players"), "/team/1/roster/players");
    assert_eq!(strip_date("/team/1;date=2024"), "/team/1;date=2024");
    assert_eq!(strip_date("/users;use_login=1/games/leagues"), "/users/games/leagues");
    let dated = roster_endpoint("461.l.1.t.2", Some("2024-01-01"));
    assert_eq!(dated, "/team/461.l.1.t.2/roster;date=2024-01-01/players/stats");
    assert_eq!(strip_date(&dated), roster_endpoint("461.l.1.t.2", None));
}

#[test]
fn endpoints_read_as_expected() {
    assert_eq!(leagues_endpoint(), "/users;use_login=1/games/leagues");
    assert_eq!(standings_endpoint("k"), "/league/k/standings");
    assert_eq!(settings_endpoint("k"), "/league/k/settings");
    assert_eq!(matchups_endpoint("t"), "/team/t/matchups");
    assert_eq!(roster_endpoint("t", None), "/team/t/roster/players/stats");
    assert_eq!(request_failed_text(), "Request failed and could not be recovered");
    assert_eq!(retries_exceeded_text(), "Exceeded number of retries allowed");
}

#[test]
fn expired_token_is_renewed_for_the_next_attempt() {
    let mut state = RequestState::new(2);
    let first = state.next_request("/x").unwrap();
    assert_eq!(first.url, "https://fantasysports.yahooapis.com/fantasy/v2/x");
    assert!(matches!(first.access_token, AccessToken::Original));
    let renewed = YahooError::NewTokens("a".to_string(), "b".to_string());
    assert_eq!(state.on_reply(renewed), RequestStep::Again);
    let second = state.next_request("/x").unwrap();
    assert!(matches!(second.access_token, AccessToken::Renewed(token) if token == "a"));
    assert_eq!(state.on_reply(YahooError::Accepted), RequestStep::Done);
    assert_eq!(state.new_tokens, Some(("a".to_string(), "b".to_string())));
    assert!(state.next_request("/x").is_none());
}

#[test]
fn refused_date_is_left_out_of_the_next_attempt() {
    let mut state = RequestState::new(2);
    let endpoint = "/team/1/roster;date=2024-01-01/players/stats";
    assert!(state.next_request(endpoint).unwrap().url.ends_with(endpoint));
    let refused = YahooError::Error("date unsupported".to_string());
    assert_eq!(state.on_reply(refused), RequestStep::Again);
    assert_eq!(
        state.next_request(endpoint).unwrap().url,
        "https://fantasysports.yahooapis.com/fantasy/v2/team/1/roster/players/stats"
    );
}

#[test]
fn attempts_run_out() {
    let mut state = RequestState::new(2);
    assert_eq!(state.on_reply(YahooError::Error("busy".to_string())), RequestStep::Again);
    assert!(state.roster_date);
    assert_eq!(state.on_reply(YahooError::Failed), RequestStep::Failed);
    assert_eq!(state.retries_allowed, 0);
    assert!(state.next_request("/x").is_none());
    assert!(RequestState::new(0).next_request("/x").is_none());
}

#[test]
fn leagues_are_sorted_by_sport() {
    let sorted = sort_leagues(users(vec![
        Some(vec![league("a", "nfl"), league("b", "mlb"), league("c", "nba")]),
        None,
        Some(vec![league("d", "nhl"), league("e", "nba")]),
    ]));
    let keys = |leagues: &Vec<scrollr::yahoo::types::UserLeague>| -> Vec<String> {
        leagues.iter().map(|l| l.league_key.clone()).collect()
    };
    assert_eq!(keys(&sorted.nfl), vec!["a"]);
    assert_eq!(keys(&sorted.nba), vec!["c", "e"]);
    assert_eq!(keys(&sorted.nhl), vec!["d"]);
    assert_eq!(league_keys(&sorted), vec!["c", "e", "a", "d"]);
    let first = &sorted.nfl[0];
    assert_eq!(first.league_id, 7);
    assert_eq!(first.name, "name of a");
    assert_eq!(first.url, "https://league");
    assert_eq!(first.logo_url, Some("logo".to_string()));
    assert_eq!(first.draft_status, "postdraft");
    assert_eq!(first.num_teams, 12);
    assert_eq!(first.scoring_type, "head");
    assert_eq!(first.league_type, "private");
    assert_eq!((first.current_week, first.start_week, first.end_week), (Some(3), None, Some(17)));
    assert_eq!(first.season, "2024");
    assert_eq!(first.game_code, "nfl");
}

#[test]
fn standings_fill_in_what_is_missing() {
    let team = |totals: Option<OutcomeTotals>, text: Option<&str>| StandingsTeam {
        team_key: "k".to_string(),
        team_id: 3,
        name: "n".to_string(),
        url: "u".to_string(),
        team_logos: vec!["first".to_string(), "second".to_string()],
        team_standings: TeamStandings {
            outcome_totals: totals,
            games_back: text.map(|t| t.to_string()),
            points_for: text.map(|t| t.to_string()),
            points_against: text.map(|t| t.to_string()),
        },
    };
    let totals = |percentage: Option<&str>| OutcomeTotals {
        wins: 4,
        losses: 5,
        ties: 6,
        percentage: percentage.map(|p| p.to_string()),
    };
    let table = standings(vec![
        team(Some(totals(Some(".400"))), Some("1.5")),
        team(Some(totals(None)), None),
        team(None, None),
    ]);
    assert_eq!(table.len(), 3);
    assert_eq!(table[0].team_key, "k");
    assert_eq!(table[0].team_id, 3);
    assert_eq!(table[0].name, "n");
    assert_eq!(table[0].url, "u");
    assert_eq!(table[0].team_logo, "first");
    assert_eq!((table[0].wins, table[0].losses, table[0].ties), (4, 5, 6));
    assert_eq!(table[0].percentage, ".400");
    assert_eq!(table[0].games_back, "1.5");
    assert_eq!(table[0].points_for, "1.5");
    assert_eq!(table[0].points_against, "1.5");
    assert_eq!((table[1].wins, table[1].percentage.as_str()), (4, "0.0"));
    assert_eq!(table[1].games_back, "0.0");
    assert_eq!(table[1].points_for, "0");
    assert_eq!(table[1].points_against, "0");
    assert_eq!((table[2].wins, table[2].losses, table[2].ties), (0, 0, 0));
    assert_eq!(table[2].percentage, "0.0");
}

#[test]
fn rosters_list_their_players() {
    let content = FantasyContent {
        team: Team {
            roster: Roster {
                players: Players { player: Some(vec![player(Some("12")), player(None)]) },
            },
            url: None,
        },
    };
    let entries = roster(content);
    assert_eq!(entries.len(), 2);
    let entry = &entries[0];
    assert_eq!(entry.id, 1);
    assert_eq!(entry.key, "nfl.p.1");
    assert_eq!(entry.name, "Ann Example");
    assert_eq!((entry.first_name.as_str(), entry.last_name.as_str()), ("Ann", "Example"));
    assert_eq!(entry.team_abbreviation, "EX");
    assert_eq!(entry.team_full_name, "Examples");
    assert_eq!(entry.uniform_number, "12");
    assert_eq!(entry.position, "QB");
    assert_eq!(entry.selected_position, "BN");
    assert_eq!(entry.eligible_positions, vec!["QB", "BN"]);
    assert_eq!(entry.image_url, "image");
    assert_eq!(entry.headshot, "head");
    assert!(entry.is_undroppable);
    assert_eq!(entry.position_type, "O");
    assert_eq!((entry.stats[0].stat_name, entry.stats[0].value), (4, 9));
    assert_eq!(entry.player_points.as_ref().unwrap().total, Points { bits: 12.5f32.to_bits() });
    assert_eq!(entries[1].uniform_number, "None");
    let none = FantasyContent { team: Team { roster: empty_roster::<u32>(), url: None } };
    assert!(roster(none).is_empty());
}

#[test]
fn unknown_statistics_are_loaded_once() {
    let error = "custom: 'Stat ID 99: TryFrom not implemented'";
    assert!(wants_stat_reload(error));
    assert!(!wants_stat_reload("Stat ID 99"));
    assert!(!wants_stat_reload("TryFrom not implemented"));
    let mut fetch = RosterFetch::new(Some(("a".to_string(), "b".to_string())));
    assert!(matches!(
        fetch.on_unreadable("461.l.1.t.2", error),
        RosterStep::LoadStats { league_key } if league_key == "461.l.1"
    ));
    assert!(matches!(
        fetch.on_unreadable("461.l.1.t.2", "bad"),
        RosterStep::Failed { message } if message == "Failed to deserialize roster: bad"
    ));
    fetch.on_stats_loaded(None);
    assert_eq!(fetch.new_tokens, Some(("a".to_string(), "b".to_string())));
    assert!(matches!(
        fetch.on_unreadable("461.l.1.t.2", error),
        RosterStep::Failed { message } if message == error
    ));
    let mut other = RosterFetch::new(None);
    other.on_stats_loaded(Some(("c".to_string(), "d".to_string())));
    assert_eq!(other.new_tokens, Some(("c".to_string(), "d".to_string())));
    assert_eq!(league_of_team("461.l.1.t.2"), Some("461.l.1".to_string()));
    assert_eq!(league_of_team("461.l.1"), None);
    assert_eq!(stat_pairs_file("nfl"), "./configs/stat_pairs_nfl.json");
}

#[test]
fn matchups_are_sorted_by_status() {
    let entry = |status: &str, name: &str| MatchupEntry {
        status: status.to_string(),
        teams: vec![
            MatchupEntryTeam {
                team_key: format!("{}.1", name),
                name: name.to_string(),
                total: Points { bits: 1.5f32.to_bits() },
            },
            MatchupEntryTeam {
                team_key: format!("{}.2", name),
                name: "other".to_string(),
                total: Points { bits: 0 },
            },
        ],
    };
    let matchups = sort_matchups(vec![
        entry("postevent", "a"),
        entry("preevent", "b"),
        entry("midevent", "c"),
        entry("postevent", "d"),
        entry("cancelled", "e"),
    ]);
    assert_eq!(matchups.completed_matches.len(), 2);
    assert_eq!(matchups.active_matches.len(), 1);
    assert_eq!(matchups.future_matches.len(), 1);
    let first = &matchups.completed_matches[0].teams[0];
    assert_eq!((first.team_key.as_str(), first.team_name.as_str()), ("a.1", "a"));
    assert_eq!(first.team_points, Points { bits: 1.5f32.to_bits() });
    assert_eq!(matchups.completed_matches[1].teams[1].team_key, "d.2");
    assert_eq!(matchups.active_matches[0].teams[0].team_name, "c");
    assert_eq!(matchups.future_matches[0].teams[0].team_name, "b");
}

#[test]
fn statistics_are_collected_league_by_league() {
    let sorted = sort_leagues(users(vec![Some(vec![
        league("f", "nfl"),
        league("b", "nba"),
        league("h", "nhl"),
    ])]));
    let mut run: StatsRun<u32> = StatsRun::start(&sorted);
    let first = run.next_request().unwrap();
    assert_eq!(first.endpoint, "/league/b/settings");
    assert_eq!(first.tokens, None);
    run.on_settings(Some(("a".to_string(), "r".to_string())), "nba", vec![1, 2]);
    let second = run.next_request().unwrap();
    assert_eq!(second.endpoint, "/league/f/settings");
    assert_eq!(second.tokens, Some(("a".to_string(), "r".to_string())));
    run.on_settings(None, "nfl", vec![3]);
    assert_eq!(run.next_request().unwrap().endpoint, "/league/h/settings");
    run.on_settings(None, "mlb", vec![4]);
    assert!(run.next_request().is_none());
    assert_eq!(run.done, 3);
    assert_eq!(run.new_tokens, Some(("a".to_string(), "r".to_string())));
    assert_eq!(run.stats.nba, vec![vec![1, 2]]);
    assert_eq!(run.stats.nfl, vec![vec![3]]);
    assert!(run.stats.nhl.is_empty());

    let mut stats: LeagueStats<u32> = LeagueStats::new();
    stats.add("nhl", vec![5]);
    stats.add("nhl", vec![]);
    assert_eq!(stats.nhl, vec![vec![5], vec![]]);
}

#[test]
fn team_needs_one_roster_of_its_sport() {
    assert_eq!(team_field("roster"), TeamField::Roster);
    assert_eq!(team_field("url"), TeamField::Url);
    assert_eq!(team_field("Roster"), TeamField::Other);

    let mut fields: TeamFields<u32> = TeamFields::new();
    assert_eq!(fields.accepts(TeamField::Url), Ok(()));
    assert_eq!(
        fields.put(TeamEntry::Url("https://hockey.example".to_string()), "football"),
        Err(TeamFieldError::SportMismatch)
    );
    assert!(fields.url.is_none());
    assert_eq!(fields.put(TeamEntry::Url("https://football.example".to_string()), "football"), Ok(()));
    assert_eq!(fields.accepts(TeamField::Url), Err(TeamFieldError::DuplicateUrl));
    assert_eq!(
        fields.put(TeamEntry::Url("https://football.example".to_string()), "football"),
        Err(TeamFieldError::DuplicateUrl)
    );
    assert_eq!(fields.put(TeamEntry::Other, "football"), Ok(()));
    assert_eq!(fields.accepts(TeamField::Roster), Ok(()));
    assert_eq!(fields.put(TeamEntry::Roster(empty_roster()), "football"), Ok(()));
    assert_eq!(fields.accepts(TeamField::Roster), Err(TeamFieldError::DuplicateRoster));
    assert_eq!(
        fields.put(TeamEntry::Roster(empty_roster()), "football"),
        Err(TeamFieldError::DuplicateRoster)
    );
    assert_eq!(fields.accepts(TeamField::Other), Ok(()));
    let team = fields.finish().unwrap();
    assert_eq!(team.url, Some("https://football.example".to_string()));
    assert!(team.roster.players.player.is_none());
    let bare: TeamFields<u32> = TeamFields::new();
    assert_eq!(bare.finish().unwrap_err(), TeamFieldError::MissingRoster);
}

#[test]
fn mismatch_is_put_in_words() {
    assert_eq!(
        sport_mismatch_text("https://hockey.example", "football"),
        "Sport validation failed: URL 'https://hockey.example' does not match expected sport \
         'football'. You requested football stats but this team plays a different sport."
    );
}

#[test]
fn statistic_values_default_to_zero() {
    let value = |text: &str| Stat::<u8>::read::<String>(Ok(1), text).unwrap().value;
    assert_eq!(value("12"), 12);
    assert_eq!(value("-"), 0);
    assert_eq!(value("-/-"), 0);
    assert_eq!(value("3.5"), 0);
    assert_eq!(value("4294967296"), 0);
    let unknown: Result<u8, String> = Err("unknown".to_string());
    assert_eq!(Stat::read(unknown, "12").unwrap_err(), "unknown");
}

#[test]
fn refused_date_is_asked_again_without_it() {
    let mut state = RequestState::new(2);
    let endpoint = roster_endpoint("461.l.1.t.2", Some("2024-01-01"));
    let message = format!("{}.", DATE_REFUSED);
    let status = match YahooError::check_response(None, Some(message), true) {
        ResponseCheck::Final(status) => status,
        ResponseCheck::RefreshTokens => panic!("tokens"),
    };
    assert_eq!(state.on_reply(status), RequestStep::Again);
    assert!(state
        .next_request(&endpoint)
        .unwrap()
        .url
        .ends_with("/fantasy/v2/team/461.l.1.t.2/roster/players/stats"));
}

#[test]
fn expired_token_is_replaced_before_the_next_attempt() {
    let mut state = RequestState::new(2);
    let message = "x OAuth oauth_problem=\"token_expired\", realm=\"y\"".to_string();
    assert!(matches!(
        YahooError::check_response(Some(message), None, true),
        ResponseCheck::RefreshTokens
    ));
    let status = YahooError::after_refresh(Some(("new".to_string(), "r".to_string())));
    assert_eq!(state.on_reply(status), RequestStep::Again);
    assert!(matches!(
        state.next_request("/x").unwrap().access_token,
        AccessToken::Renewed(token) if token == "new"
    ));
}

#[test]
fn classified_errors_are_kept() {
    let messages = [
        "No such league",
        "x OAuth oauth_problem=\"token_expired\",y",
        "x OAuth oauth_problem=\"unable_to_determine_oauth_type\",y",
        "x OAuth a OAuth b=c,y",
        "x OAuth OAuth a= OAuth b=c,y",
    ];
    for message in messages {
        assert_eq!(kind(&kind(message)), kind(message));
    }
}
