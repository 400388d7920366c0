//! From a game of a scoreboard to a row of the table of games.

use vstd::prelude::*;
use crate::number::{parse_i32, parsed};
use crate::outside::{parse_utc_seconds, utc_seconds};

verus! {

/// A team of a game, as the scoreboard names it.
#[derive(Debug)]
pub struct CompetitorTeam {
    pub short_display_name: String,
    pub logo: String,
}

/// A side of a game.
#[derive(Debug)]
pub struct Competitor {
    pub team: CompetitorTeam,
    pub score: String,
}

/// A meeting of two sides.
#[derive(Debug)]
pub struct Competition {
    pub competitors: Vec<Competitor>,
}

/// A link to more on a game.
#[derive(Debug)]
pub struct GameLink {
    pub href: String,
}

/// How a game stands, in words.
#[derive(Debug)]
pub struct StatusType {
    pub short_detail: String,
    pub state: String,
}

/// How a game stands.
#[derive(Debug)]
pub struct GameStatus {
    pub status_type: StatusType,
}

/// A game of a scoreboard.
#[derive(Debug)]
pub struct Game {
    pub id: String,
    pub date: String,
    pub competitions: Vec<Competition>,
    pub links: Vec<GameLink>,
    pub status: GameStatus,
}

/// A scoreboard.
#[derive(Debug)]
pub struct ScoreboardResponse {
    pub events: Vec<Game>,
}

/// A team in the table of games.
#[derive(Debug)]
pub struct Team {
    pub name: String,
    pub logo: String,
    pub score: i32,
}

/// A row of the table of games.
#[derive(Debug)]
pub struct CleanedData {
    pub league: String,
    pub external_game_id: String,
    pub link: String,
    pub home_team: Team,
    pub away_team: Team,
    /// Seconds since the start of 1970.
    pub start_time: i64,
    pub short_detail: String,
    pub state: String,
}

/// What becomes of a game.
pub enum GameOutcome {
    /// The scoreboard leaves out a part that the row needs.
    Incomplete,
    /// A part cannot be read, with the text of the error.
    Fails(Seq<char>),
    /// There is a row.
    Cleans,
}

/// How the scoreboard writes the start of a game.
pub open spec fn date_format() -> Seq<char> {
    "%Y-%m-%dT%H:%M%Z"@
}

impl Game {
    /// Whether the game has two sides.
    pub open spec fn has_sides(self) -> bool {
        self.competitions@.len() > 0 && self.competitions@[0].competitors@.len() >= 2
    }

    /// One of the two sides: the first is at home.
    pub open spec fn side(self, at: int) -> Competitor {
        self.competitions@[0].competitors@[at]
    }
}

/// The error of a score that is no number.
pub open spec fn score_error(side: Competitor) -> Option<Seq<char>> {
    match parsed(side.score@, i32::MIN as int, i32::MAX as int) {
        Ok(_) => None,
        Err(e) => Some(
            "Score parse error for team "@ + side.team.short_display_name@ + ": "@ + e.words(),
        ),
    }
}

/// The first error of a game, given what its date was read as.
pub open spec fn game_error(game: Game, start_time: Result<i64, Seq<char>>) -> Option<Seq<char>> {
    match start_time {
        Err(e) => Some("Date parse error for game "@ + game.id@ + ": "@ + e),
        Ok(_) => match score_error(game.side(0)) {
            Some(e) => Some(e),
            None => score_error(game.side(1)),
        },
    }
}

/// What becomes of a game, given what its date was read as.
pub open spec fn game_outcome(game: Game, start_time: Result<i64, Seq<char>>) -> GameOutcome {
    if !game.has_sides() {
        GameOutcome::Incomplete
    } else {
        match game_error(game, start_time) {
            Some(e) => GameOutcome::Fails(e),
            None => if game.links@.len() == 0 {
                GameOutcome::Incomplete
            } else {
                GameOutcome::Cleans
            },
        }
    }
}

/// Whether a team of the table is a side of a game.
pub open spec fn is_team_of(side: Competitor, team: Team) -> bool {
    &&& team.name == side.team.short_display_name
    &&& team.logo == side.team.logo
    &&& parsed(side.score@, i32::MIN as int, i32::MAX as int) == Ok::<
        int,
        crate::number::IntError,
    >(team.score as int)
}

/// Whether a row is that of a game of a league which starts at that time.
pub open spec fn is_row_of_game(
    league: Seq<char>,
    game: Game,
    start_time: i64,
    row: CleanedData,
) -> bool {
    &&& row.league@ == league
    &&& row.external_game_id == game.id
    &&& row.link == game.links@[0].href
    &&& is_team_of(game.side(0), row.home_team)
    &&& is_team_of(game.side(1), row.away_team)
    &&& row.start_time == start_time
    &&& row.short_detail == game.status.status_type.short_detail
    &&& row.state == game.status.status_type.state
}

/// Whether those are the rows of the games of a league: one for each, in their order.
pub open spec fn are_rows_of(
    league: Seq<char>,
    games: Seq<Game>,
    rows: Seq<CleanedData>,
) -> bool {
    &&& rows.len() == games.len()
    &&& forall|i: int|
        0 <= i < games.len() ==> {
            &&& game_outcome(#[trigger] games[i], start_of(games[i])) == GameOutcome::Cleans
            &&& is_row_of_game(league, games[i], start_of(games[i])->Ok_0, rows[i])
        }
}

/// Whether a game is the first of a list that has no row, with what becomes of it.
pub open spec fn decided_at(games: Seq<Game>, at: int, outcome: GameOutcome) -> bool {
    &&& 0 <= at < games.len()
    &&& game_outcome(games[at], start_of(games[at])) == outcome
    &&& forall|i: int|
        0 <= i < at ==> game_outcome(#[trigger] games[i], start_of(games[i]))
            == GameOutcome::Cleans
}

/// Whether that becomes of the first game of a list that has no row.
pub open spec fn is_decided(games: Seq<Game>, outcome: GameOutcome) -> bool {
    exists|at: int| #[trigger] decided_at(games, at, outcome)
}

/// Whether that is what the games of a league come to: a row for each, or what becomes of the first
/// that has no row.
pub open spec fn is_cleaning_of(
    league: Seq<char>,
    games: Seq<Game>,
    r: Option<Result<Vec<CleanedData>, String>>,
) -> bool {
    match r {
        Some(Ok(rows)) => are_rows_of(league, games, rows@),
        Some(Err(e)) => is_decided(games, GameOutcome::Fails(e@)),
        None => is_decided(games, GameOutcome::Incomplete),
    }
}

/// What the date of a game is read as.
pub open spec fn start_of(game: Game) -> Result<i64, Seq<char>> {
    utc_seconds(game.date@, date_format())
}

/// The view of what a date was read as.
pub open spec fn start_view(start_time: Result<i64, String>) -> Result<i64, Seq<char>> {
    match start_time {
        Ok(seconds) => Ok(seconds),
        Err(e) => Err(e@),
    }
}

/// The score of a side, or the error that names its team.
fn side_score(side: &Competitor) -> (r: Result<i32, String>)
    ensures
        match r {
            Ok(score) => parsed(side.score@, i32::MIN as int, i32::MAX as int) == Ok::<
                int,
                crate::number::IntError,
            >(score as int),
            Err(e) => score_error(*side) == Some(e@),
        },
{
    match parse_i32(side.score.as_str()) {
        Ok(score) => Ok(score),
        Err(e) => {
            let mut text: String = "Score parse error for team ".to_owned();
            text.append(side.team.short_display_name.as_str());
            text.append(": ");
            text.append(e.message().as_str());
            Err(text)
        },
    }
}

/// The row of a game, given what its date was read as, or the error of the first part that
/// cannot be read.
pub fn clean_game(league: &str, game: &Game, start_time: Result<i64, String>) -> (r: Result<
    CleanedData,
    String,
>)
    requires
        game_outcome(*game, start_view(start_time)) != GameOutcome::Incomplete,
    ensures
        match r {
            Ok(row) => {
                &&& game_outcome(*game, start_view(start_time)) == GameOutcome::Cleans
                &&& is_row_of_game(league@, *game, start_time->Ok_0, row)
                &&& row.home_team.name == game.competitions@[0].competitors@[0].team.short_display_name
                &&& row.home_team.logo == game.competitions@[0].competitors@[0].team.logo
                &&& row.away_team.name == game.competitions@[0].competitors@[1].team.short_display_name
                &&& row.away_team.logo == game.competitions@[0].competitors@[1].team.logo
            },
            Err(e) => game_outcome(*game, start_view(start_time)) == GameOutcome::Fails(e@),
        },
{
    let home: &Competitor = &game.competitions[0].competitors[0];
    let away: &Competitor = &game.competitions[0].competitors[1];
    let seconds: i64 = match start_time {
        Ok(seconds) => seconds,
        Err(e) => {
            let mut text: String = "Date parse error for game ".to_owned();
            text.append(game.id.as_str());
            text.append(": ");
            text.append(e.as_str());
            return Err(text);
        },
    };
    let home_score: i32 = match side_score(home) {
        Ok(score) => score,
        Err(e) => {
            return Err(e);
        },
    };
    let away_score: i32 = match side_score(away) {
        Ok(score) => score,
        Err(e) => {
            return Err(e);
        },
    };
    Ok(
        CleanedData {
            league: league.to_owned(),
            external_game_id: game.id.clone(),
            link: game.links[0].href.clone(),
            home_team: Team {
                name: home.team.short_display_name.clone(),
                logo: home.team.logo.clone(),
                score: home_score,
            },
            away_team: Team {
                name: away.team.short_display_name.clone(),
                logo: away.team.logo.clone(),
                score: away_score,
            },
            start_time: seconds,
            short_detail: game.status.status_type.short_detail.clone(),
            state: game.status.status_type.state.clone(),
        },
    )
}

/// Whether the row of a game can be attempted: the scoreboard leaves out no part of the game
/// that is reached.
fn is_complete(game: &Game, start_time: &Result<i64, String>) -> (r: bool)
    ensures
        r == (game_outcome(*game, start_view(*start_time)) != GameOutcome::Incomplete),
{
    if game.competitions.len() == 0 {
        return false;
    }
    if game.competitions[0].competitors.len() < 2 {
        return false;
    }
    if game.links.len() > 0 || start_time.is_err() {
        return true;
    }
    side_score(&game.competitions[0].competitors[0]).is_err() || side_score(
        &game.competitions[0].competitors[1],
    ).is_err()
}

/// The rows of the games of a league, in their order. The first game that has no row decides:
/// where a part of it cannot be read, its error is the result; where the scoreboard leaves out
/// a part of it, there is no result.
pub fn clean_games(league: &str, games: &Vec<Game>) -> (r: Option<
    Result<Vec<CleanedData>, String>,
>)
    ensures
        is_cleaning_of(league@, games@, r),
        r matches Some(Ok(rows)) ==> forall|i: int|
            0 <= i < games@.len() ==> {
                &&& rows@[i].home_team.logo == (
                #[trigger] games@[i]).competitions@[0].competitors@[0].team.logo
                &&& rows@[i].away_team.logo == games@[i].competitions@[0].competitors@[1].team.logo
            },
{
    let mut rows: Vec<CleanedData> = Vec::new();
    let mut at: usize = 0;
    while at < games.len()
        invariant
            at <= games@.len(),
            rows@.len() == at,
            forall|i: int|
                0 <= i < at ==> {
                    &&& game_outcome(#[trigger] games@[i], start_of(games@[i]))
                        == GameOutcome::Cleans
                    &&& is_row_of_game(
                        league@,
                        games@[i],
                        start_of(games@[i])->Ok_0,
                        rows@[i],
                    )
                },
        decreases games@.len() - at,
    {
        let game: &Game = &games[at];
        let start_time = parse_utc_seconds(game.date.as_str(), "%Y-%m-%dT%H:%M%Z");
        assert(start_view(start_time) == start_of(games@[at as int]));
        if !is_complete(game, &start_time) {
            assert(decided_at(games@, at as int, GameOutcome::Incomplete));
            return None;
        }
        match clean_game(league, game, start_time) {
            Ok(row) => {
                rows.push(row);
            },
            Err(e) => {
                assert(decided_at(games@, at as int, GameOutcome::Fails(e@)));
                return Some(Err(e));
            },
        }
        at += 1;
    }
    Some(Ok(rows))
}

/// Each row shows its own game, and each team of a row its own side: the home team the first side and
/// the away team the second, with their names, logos and scores; and the rows stand in the order of
/// the games.
pub proof fn rows_show_their_games(league: Seq<char>, games: Seq<Game>, rows: Seq<CleanedData>)
    requires
        are_rows_of(league, games, rows),
    ensures
        rows.len() == games.len(),
        forall|i: int|
            0 <= i < games.len() ==> {
                let game = #[trigger] games[i];
                let home = game.competitions@[0].competitors@[0];
                let away = game.competitions@[0].competitors@[1];
                &&& rows[i].league@ == league
                &&& rows[i].external_game_id == game.id
                &&& rows[i].link == game.links@[0].href
                &&& rows[i].home_team.name == home.team.short_display_name
                &&& rows[i].home_team.logo == home.team.logo
                &&& parsed(home.score@, -0x8000_0000, 0x7fff_ffff) == Ok::<
                    int,
                    crate::number::IntError,
                >(rows[i].home_team.score as int)
                &&& rows[i].away_team.name == away.team.short_display_name
                &&& rows[i].away_team.logo == away.team.logo
                &&& parsed(away.score@, -0x8000_0000, 0x7fff_ffff) == Ok::<
                    int,
                    crate::number::IntError,
                >(rows[i].away_team.score as int)
                &&& utc_seconds(game.date@, "%Y-%m-%dT%H:%M%Z"@) == Ok::<i64, Seq<char>>(
                    rows[i].start_time,
                )
                &&& rows[i].short_detail == game.status.status_type.short_detail
                &&& rows[i].state == game.status.status_type.state
            },
{
}

/// A game with its two sides exchanged gives the row with its two teams exchanged, and nothing else of
/// the row changes.
pub proof fn exchanged_sides_exchange_teams(
    league: Seq<char>,
    game: Game,
    mirrored: Game,
    start_time: i64,
    row: CleanedData,
    other: CleanedData,
)
    requires
        mirrored.competitions@[0].competitors@[0] == game.competitions@[0].competitors@[1],
        mirrored.competitions@[0].competitors@[1] == game.competitions@[0].competitors@[0],
        mirrored.id == game.id,
        mirrored.links == game.links,
        mirrored.status == game.status,
        is_row_of_game(league, game, start_time, row),
        is_row_of_game(league, mirrored, start_time, other),
    ensures
        other.home_team == row.away_team,
        other.away_team == row.home_team,
        other.league@ == row.league@,
        other.external_game_id == row.external_game_id,
        other.link == row.link,
        other.start_time == row.start_time,
        other.short_detail == row.short_detail,
        other.state == row.state,
{
}

/// The first part of a game that cannot be read is the one that is reported: its date, with the name
/// of the game, then the score of the home team, then that of the away team, each with the name of
/// that team.
pub proof fn first_unreadable_part_is_reported(game: Game, start_time: Result<i64, Seq<char>>)
    requires
        game.competitions@.len() > 0,
        game.competitions@[0].competitors@.len() >= 2,
    ensures
        ({
            let home = game.competitions@[0].competitors@[0];
            let away = game.competitions@[0].competitors@[1];
            let home_score = parsed(home.score@, -0x8000_0000, 0x7fff_ffff);
            let away_score = parsed(away.score@, -0x8000_0000, 0x7fff_ffff);
            &&& start_time matches Err(e) ==> game_outcome(game, start_time) == GameOutcome::Fails(
                "Date parse error for game "@ + game.id@ + ": "@ + e,
            )
            &&& start_time is Ok ==> (home_score matches Err(e) ==> game_outcome(game, start_time)
                == GameOutcome::Fails(
                "Score parse error for team "@ + home.team.short_display_name@ + ": "@ + e.words(),
            ))
            &&& start_time is Ok && home_score is Ok ==> (away_score matches Err(e)
                ==> game_outcome(game, start_time) == GameOutcome::Fails(
                "Score parse error for team "@ + away.team.short_display_name@ + ": "@ + e.words(),
            ))
            &&& start_time is Ok && home_score is Ok && away_score is Ok && game.links@.len() > 0
                ==> game_outcome(game, start_time) == GameOutcome::Cleans
            &&& start_time is Ok && home_score is Ok && away_score is Ok && game.links@.len() == 0
                ==> game_outcome(game, start_time) == GameOutcome::Incomplete
        }),
{
}

/// A game without two sides has no row and no error.
pub proof fn lonely_game_is_incomplete(game: Game, start_time: Result<i64, Seq<char>>)
    requires
        game.competitions@.len() == 0 || game.competitions@[0].competitors@.len() < 2,
    ensures
        game_outcome(game, start_time) == GameOutcome::Incomplete,
{
}

/// All games of a league come to rows, or none does: where every game has a row, there are as many rows
/// as games; else the first game without one decides, with its own error, or with no result where it
/// lacks a part. Games after it have no say.
pub proof fn first_game_without_row_decides(
    league: Seq<char>,
    games: Seq<Game>,
    r: Option<Result<Vec<CleanedData>, String>>,
    at: int,
)
    requires
        is_cleaning_of(league, games, r),
        forall|i: int|
            0 <= i < games.len() && i < at ==> game_outcome(
                #[trigger] games[i],
                start_of(games[i]),
            ) == GameOutcome::Cleans,
    ensures
        at >= games.len() ==> (r matches Some(Ok(rows)) && rows@.len() == games.len()),
        0 <= at < games.len() ==> (game_outcome(
            games[at],
            start_of(games[at]),
        ) matches GameOutcome::Fails(error) ==> (r matches Some(Err(text)) && text@ == error)),
        0 <= at < games.len() && game_outcome(games[at], start_of(games[at]))
            == GameOutcome::Incomplete ==> r is None,
{
    match r {
        Some(Ok(_)) => {
            if 0 <= at < games.len() {
                assert(game_outcome(games[at], start_of(games[at])) == GameOutcome::Cleans);
            }
        },
        Some(Err(e)) => {
            let place = choose|place: int| #[trigger]
                decided_at(games, place, GameOutcome::Fails(e@));
            assert(game_outcome(games[place], start_of(games[place])) == GameOutcome::Fails(e@));
        },
        None => {
            let place = choose|place: int| #[trigger]
                decided_at(games, place, GameOutcome::Incomplete);
            assert(game_outcome(games[place], start_of(games[place])) == GameOutcome::Incomplete);
        },
    }
}

} // verus!
