//! What the replies of the fantasy service come to.

use vstd::prelude::*;
use crate::yahoo::xml_roster::{PlayerPoints, Points, Stat};

verus! {

/// A league of the user.
#[derive(Debug)]
pub struct UserLeague {
    pub league_key: String,
    pub league_id: u32,
    pub name: String,
    pub url: String,
    pub logo_url: Option<String>,
    pub draft_status: String,
    pub num_teams: u32,
    pub scoring_type: String,
    pub league_type: String,
    pub current_week: Option<u32>,
    pub start_week: Option<u32>,
    pub end_week: Option<u32>,
    pub season: String,
    pub game_code: String,
}

/// The leagues of the user, by sport.
#[derive(Debug)]
pub struct Leagues {
    pub nba: Vec<UserLeague>,
    pub nfl: Vec<UserLeague>,
    pub nhl: Vec<UserLeague>,
}

/// How a team stands in its league.
#[derive(Debug)]
pub struct LeagueStandings {
    pub team_key: String,
    pub team_id: u32,
    pub name: String,
    pub url: String,
    pub team_logo: String,
    pub wins: u32,
    pub losses: u32,
    pub ties: u32,
    pub percentage: String,
    pub games_back: String,
    pub points_for: String,
    pub points_against: String,
}

/// A player of a roster.
#[derive(Debug)]
pub struct Roster<T> {
    pub id: u32,
    pub key: String,
    pub name: String,
    pub first_name: String,
    pub last_name: String,
    pub team_abbreviation: String,
    pub team_full_name: String,
    pub uniform_number: String,
    pub position: String,
    pub selected_position: String,
    pub eligible_positions: Vec<String>,
    pub image_url: String,
    pub headshot: String,
    pub is_undroppable: bool,
    pub position_type: String,
    pub stats: Vec<Stat<T>>,
    pub player_points: Option<PlayerPoints>,
}

/// A team in a matchup.
#[derive(Debug)]
pub struct MatchupTeam {
    pub team_key: String,
    pub team_name: String,
    pub team_points: Points,
}

/// A matchup.
#[derive(Debug)]
pub struct Matchup {
    pub teams: Vec<MatchupTeam>,
}

/// The matchups of a team, by how far they are.
#[derive(Debug)]
pub struct Matchups {
    pub completed_matches: Vec<Matchup>,
    pub active_matches: Vec<Matchup>,
    pub future_matches: Vec<Matchup>,
}

/// The statistics that leagues count, by sport; one list for each league.
#[derive(Debug)]
pub struct LeagueStats<S> {
    pub nfl: Vec<Vec<S>>,
    pub nba: Vec<Vec<S>>,
    pub nhl: Vec<Vec<S>>,
}

} // verus!
