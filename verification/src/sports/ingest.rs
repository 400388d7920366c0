//! The reading of scoreboards, league by league.

use vstd::prelude::*;
use crate::sports::games::{
    are_rows_of, clean_games, decided_at, game_outcome, is_decided, start_of, CleanedData, Game,
    GameOutcome,
};

verus! {

/// What came of asking for the scoreboard of a league.
#[derive(Debug)]
pub enum LeagueFetch {
    /// The request could not be put together, with the text of the error.
    BuildFailed(String),
    /// The request could not be sent, with the text of the error.
    RequestFailed(String),
    /// The reply could not be read, with the text of the error.
    ParseFailed(String),
    /// The games of the scoreboard.
    Games(Vec<Game>),
}

/// What a league comes to: rows to put into the table, and an error to report, if any.
#[derive(Debug)]
pub struct LeagueResult {
    pub rows: Vec<CleanedData>,
    pub error: Option<String>,
}

/// How far the reading has come.
#[derive(Debug)]
pub struct IngestProgress {
    /// How many games went to the table.
    pub total_games: u64,
}

/// The report on a league that failed at some stage.
pub open spec fn league_error(stage: Seq<char>, league: Seq<char>, error: Seq<char>) -> Seq<char> {
    stage + " error for "@ + league + ": "@ + error
}

/// The report on a league that failed at some stage.
fn league_error_text(stage: &str, league: &str, error: &str) -> (r: String)
    ensures
        r@ == league_error(stage@, league@, error@),
{
    let mut text: String = stage.to_owned();
    text.append(" error for ");
    text.append(league);
    text.append(": ");
    text.append(error);
    text
}

/// Whether a league comes to no row and to a report of that stage and error.
pub open spec fn only_reports(
    result: LeagueResult,
    stage: Seq<char>,
    league: Seq<char>,
    error: Seq<char>,
) -> bool {
    &&& result.rows@.len() == 0
    &&& result.error is Some
    &&& result.error->0@ == league_error(stage, league, error)
}

impl IngestProgress {
    /// The step that the scoreboard of a league takes: its rows count, and what failed is reported.
    /// There is no result where the first game that has no row lacks a part of it.
    pub open spec fn league_step(
        before: Self,
        league: Seq<char>,
        fetch: LeagueFetch,
        after: Self,
        r: Option<LeagueResult>,
    ) -> bool {
        &&& after.total_games == before.total_games + match r {
            Some(result) => result.rows@.len(),
            None => 0,
        }
        &&& match fetch {
            LeagueFetch::BuildFailed(e) => r is Some && only_reports(r->0, "Build"@, league, e@),
            LeagueFetch::RequestFailed(e) => r is Some && only_reports(
                r->0,
                "Request"@,
                league,
                e@,
            ),
            LeagueFetch::ParseFailed(e) => r is Some && only_reports(r->0, "Parse"@, league, e@),
            LeagueFetch::Games(games) => match r {
                Some(result) => if result.error is None {
                    are_rows_of(league, games@, result.rows@)
                } else {
                    exists|e: Seq<char>| #[trigger]
                        only_reports(result, "Processing"@, league, e) && is_decided(
                            games@,
                            GameOutcome::Fails(e),
                        )
                },
                None => is_decided(games@, GameOutcome::Incomplete),
            },
        }
    }

    /// Nothing was read yet.
    pub fn new() -> (r: Self)
        ensures
            r.total_games == 0,
    {
        IngestProgress { total_games: 0 }
    }

    /// Takes in the games of a league, cleaned: all of their rows go to the table, or, where a
    /// game failed, none does and the error is reported.
    pub fn take_cleaned(
        &mut self,
        league: &str,
        cleaned: Result<Vec<CleanedData>, String>,
    ) -> (r: LeagueResult)
        requires
            cleaned matches Ok(rows) ==> old(self).total_games + rows@.len() <= u64::MAX,
        ensures
            final(self).total_games == old(self).total_games + r.rows@.len(),
            match cleaned {
                Ok(rows) => r.rows == rows && r.error is None,
                Err(e) => only_reports(r, "Processing"@, league@, e@),
            },
    {
        match cleaned {
            Ok(rows) => {
                self.total_games = self.total_games + rows.len() as u64;
                LeagueResult { rows, error: None }
            },
            Err(e) => LeagueResult {
                rows: Vec::new(),
                error: Some(league_error_text("Processing", league, e.as_str())),
            },
        }
    }

    /// Takes in what came of asking for the scoreboard of a league. There is no result where
    /// the first game that has no row lacks a part of it.
    pub fn take_league(&mut self, league: &str, fetch: LeagueFetch) -> (r: Option<LeagueResult>)
        requires
            fetch matches LeagueFetch::Games(games) ==> old(self).total_games + games@.len()
                <= u64::MAX,
        ensures
            Self::league_step(*old(self), league@, fetch, *final(self), r),
    {
        match fetch {
            LeagueFetch::BuildFailed(e) => Some(
                LeagueResult {
                    rows: Vec::new(),
                    error: Some(league_error_text("Build", league, e.as_str())),
                },
            ),
            LeagueFetch::RequestFailed(e) => Some(
                LeagueResult {
                    rows: Vec::new(),
                    error: Some(league_error_text("Request", league, e.as_str())),
                },
            ),
            LeagueFetch::ParseFailed(e) => Some(
                LeagueResult {
                    rows: Vec::new(),
                    error: Some(league_error_text("Parse", league, e.as_str())),
                },
            ),
            LeagueFetch::Games(games) => match clean_games(league, &games) {
                Some(cleaned) => Some(self.take_cleaned(league, cleaned)),
                None => None,
            },
        }
    }
}

/// A league that fails sends no row to the table, and its report names the stage, the league and the
/// error, in this order.
pub proof fn report_names_stage_league_and_error(
    result: LeagueResult,
    stage: Seq<char>,
    league: Seq<char>,
    error: Seq<char>,
)
    requires
        only_reports(result, stage, league, error),
    ensures
        result.rows@.len() == 0,
        result.error matches Some(text) && text@ == stage + " error for "@ + league + ": "@
            + error,
{
}

/// A league adds its games to the total where all of them have rows, and nothing where one fails: its
/// rows are then left out as a whole, and the error of its first failing game is reported.
pub proof fn league_counts_as_a_whole(
    before: IngestProgress,
    league: Seq<char>,
    games: Vec<Game>,
    after: IngestProgress,
    r: Option<LeagueResult>,
    at: int,
)
    requires
        IngestProgress::league_step(before, league, LeagueFetch::Games(games), after, r),
        forall|i: int|
            0 <= i < games@.len() && i < at ==> game_outcome(
                #[trigger] games@[i],
                start_of(games@[i]),
            ) == GameOutcome::Cleans,
    ensures
        at >= games@.len() ==> {
            &&& after.total_games == before.total_games + games@.len()
            &&& r matches Some(result) && result.error is None && result.rows@.len()
                == games@.len()
        },
        0 <= at < games@.len() ==> (game_outcome(
            games@[at],
            start_of(games@[at]),
        ) matches GameOutcome::Fails(error) ==> {
            &&& after.total_games == before.total_games
            &&& r matches Some(result) && result.rows@.len() == 0 && (
            result.error matches Some(text) && text@ == "Processing error for "@ + league + ": "@
                + error)
        }),
{
    reveal_strlit("Processing");
    reveal_strlit(" error for ");
    reveal_strlit("Processing error for ");
    assert("Processing"@ + " error for "@ =~= "Processing error for "@);
    match r {
        Some(result) => {
            if result.error is None {
                if 0 <= at < games@.len() {
                    assert(game_outcome(games@[at], start_of(games@[at])) == GameOutcome::Cleans);
                }
            } else {
                let e = choose|e: Seq<char>| #[trigger]
                    only_reports(result, "Processing"@, league, e) && is_decided(
                        games@,
                        GameOutcome::Fails(e),
                    );
                let place = choose|place: int| #[trigger]
                    decided_at(games@, place, GameOutcome::Fails(e));
                assert(game_outcome(games@[place], start_of(games@[place])) == GameOutcome::Fails(
                    e,
                ));
            }
        },
        None => {
            let place = choose|place: int| #[trigger]
                decided_at(games@, place, GameOutcome::Incomplete);
            assert(game_outcome(games@[place], start_of(games@[place]))
                == GameOutcome::Incomplete);
        },
    }
}

/// A scoreboard that could not be had adds no game, and the report says at which stage it failed, for
/// which league and why.
pub proof fn lost_scoreboard_is_reported(
    before: IngestProgress,
    league: Seq<char>,
    fetch: LeagueFetch,
    after: IngestProgress,
    r: Option<LeagueResult>,
)
    requires
        IngestProgress::league_step(before, league, fetch, after, r),
        !(fetch is Games),
    ensures
        after.total_games == before.total_games,
        r matches Some(result) && result.rows@.len() == 0 && result.error is Some,
        fetch matches LeagueFetch::BuildFailed(e) ==> r->0.error->0@ == "Build"@ + " error for "@
            + league + ": "@ + e@,
        fetch matches LeagueFetch::RequestFailed(e) ==> r->0.error->0@ == "Request"@
            + " error for "@ + league + ": "@ + e@,
        fetch matches LeagueFetch::ParseFailed(e) ==> r->0.error->0@ == "Parse"@ + " error for "@
            + league + ": "@ + e@,
{
}

} // verus!
