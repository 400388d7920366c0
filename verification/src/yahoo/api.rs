//! From the replies of the fantasy service to what the users see.

use vstd::prelude::*;
use crate::text::{contains, occurs, same, split, split_once, views};
use crate::yahoo::request::settings_endpoint;
use crate::yahoo::types::{
    LeagueStandings, LeagueStats, Leagues, Matchup, MatchupTeam, Matchups, Roster, UserLeague,
};
use crate::yahoo::xml_roster::{FantasyContent, Player, Points};

verus! {

/// A league, as the service sends it.
#[derive(Debug)]
pub struct League {
    pub league_key: String,
    pub league_id: u32,
    pub name: String,
    pub url: String,
    pub logo_url: Option<String>,
    pub draft_status: String,
    pub num_teams: u32,
    pub scoring_type: String,
    pub league_type: String,
    pub current_week: Option<u32>,
    pub start_week: Option<u32>,
    pub end_week: Option<u32>,
    pub season: String,
    pub game_code: String,
}

/// A season of a sport, with the leagues of the user in it, if there are any.
#[derive(Debug)]
pub struct LeagueGame {
    pub leagues: Option<Vec<League>>,
}

/// A user, as the service sends it.
#[derive(Debug)]
pub struct LeagueUser {
    pub games: Vec<LeagueGame>,
}

/// How often a team won, lost and tied.
#[derive(Debug)]
pub struct OutcomeTotals {
    pub wins: u32,
    pub losses: u32,
    pub ties: u32,
    pub percentage: Option<String>,
}

/// The standing of a team, as the service sends it.
#[derive(Debug)]
pub struct TeamStandings {
    pub outcome_totals: Option<OutcomeTotals>,
    pub games_back: Option<String>,
    pub points_for: Option<String>,
    pub points_against: Option<String>,
}

/// A team of a league, as the service sends it.
#[derive(Debug)]
pub struct StandingsTeam {
    pub team_key: String,
    pub team_id: u32,
    pub name: String,
    pub url: String,
    /// The addresses of its logos.
    pub team_logos: Vec<String>,
    pub team_standings: TeamStandings,
}

/// A team in a matchup, as the service sends it.
#[derive(Debug)]
pub struct MatchupEntryTeam {
    pub team_key: String,
    pub name: String,
    pub total: Points,
}

/// A matchup, as the service sends it.
#[derive(Debug)]
pub struct MatchupEntry {
    pub status: String,
    pub teams: Vec<MatchupEntryTeam>,
}

/// A league as the users see it.
pub open spec fn user_league(league: League) -> UserLeague {
    UserLeague {
        league_key: league.league_key,
        league_id: league.league_id,
        name: league.name,
        url: league.url,
        logo_url: league.logo_url,
        draft_status: league.draft_status,
        num_teams: league.num_teams,
        scoring_type: league.scoring_type,
        league_type: league.league_type,
        current_week: league.current_week,
        start_week: league.start_week,
        end_week: league.end_week,
        season: league.season,
        game_code: league.game_code,
    }
}

/// The leagues of all seasons, one after the other.
pub open spec fn all_leagues(games: Seq<LeagueGame>) -> Seq<League>
    decreases games.len(),
{
    if games.len() == 0 {
        seq![]
    } else {
        all_leagues(games.drop_last()) + match games.last().leagues {
            Some(leagues) => leagues@,
            None => seq![],
        }
    }
}

/// The leagues of one sport, in their order, as the users see them.
pub open spec fn leagues_of(leagues: Seq<League>, game_code: Seq<char>) -> Seq<UserLeague> {
    leagues.filter(|league: League| league.game_code@ == game_code).map_values(
        |league: League| user_league(league),
    )
}

/// A text, or what stands for it where it is missing.
pub open spec fn text_or(text: Option<String>, default: Seq<char>) -> Seq<char> {
    match text {
        Some(t) => t@,
        None => default,
    }
}

/// Whether a standing is that of a team.
pub open spec fn is_standing_of(team: StandingsTeam, standing: LeagueStandings) -> bool {
    &&& standing.team_key == team.team_key
    &&& standing.team_id == team.team_id
    &&& standing.name == team.name
    &&& standing.url == team.url
    &&& standing.team_logo == team.team_logos@[0]
    &&& match team.team_standings.outcome_totals {
        Some(totals) => {
            &&& standing.wins == totals.wins
            &&& standing.losses == totals.losses
            &&& standing.ties == totals.ties
            &&& standing.percentage@ == text_or(totals.percentage, "0.0"@)
        },
        None => {
            &&& standing.wins == 0
            &&& standing.losses == 0
            &&& standing.ties == 0
            &&& standing.percentage@ == "0.0"@
        },
    }
    &&& standing.games_back@ == text_or(team.team_standings.games_back, "0.0"@)
    &&& standing.points_for@ == text_or(team.team_standings.points_for, "0"@)
    &&& standing.points_against@ == text_or(team.team_standings.points_against, "0"@)
}

/// Whether an entry of a roster is that of a player.
pub open spec fn is_entry_of<T>(player: Player<T>, entry: Roster<T>) -> bool {
    &&& entry.id == player.player_id
    &&& entry.key == player.player_key
    &&& entry.name == player.name.full
    &&& entry.first_name == player.name.first
    &&& entry.last_name == player.name.last
    &&& entry.team_abbreviation == player.editorial_team_abbr
    &&& entry.team_full_name == player.editorial_team_full_name
    &&& entry.uniform_number@ == text_or(player.uniform_number, "None"@)
    &&& entry.position == player.display_position
    &&& entry.selected_position == player.selected_position.position
    &&& entry.eligible_positions == player.eligible_positions.position
    &&& entry.image_url == player.image_url
    &&& entry.headshot == player.headshot.url
    &&& entry.is_undroppable == player.is_undroppable
    &&& entry.position_type == player.position_type
    &&& entry.stats == player.player_stats.stats.stat
    &&& entry.player_points == player.player_points
}

/// Whether a table is that of a list of teams: a standing for each, in their order.
pub open spec fn are_standings_of(
    teams: Seq<StandingsTeam>,
    table: Seq<LeagueStandings>,
) -> bool {
    &&& table.len() == teams.len()
    &&& forall|i: int| 0 <= i < teams.len() ==> is_standing_of(#[trigger] teams[i], table[i])
}

/// Whether a list of entries is the roster of a reply: an entry for each player, in their order.
pub open spec fn is_roster_of<T>(content: FantasyContent<T>, entries: Seq<Roster<T>>) -> bool {
    &&& entries.len() == players_of(content).len()
    &&& forall|i: int|
        0 <= i < entries.len() ==> is_entry_of(players_of(content)[i], #[trigger] entries[i])
}

/// The players of a reply.
pub open spec fn players_of<T>(content: FantasyContent<T>) -> Seq<Player<T>> {
    match content.team.roster.players.player {
        Some(players) => players@,
        None => seq![],
    }
}

/// A team of a matchup as the users see it.
pub open spec fn matchup_team(team: MatchupEntryTeam) -> MatchupTeam {
    MatchupTeam { team_key: team.team_key, team_name: team.name, team_points: team.total }
}

/// The teams of a matchup as the users see them.
pub open spec fn matchup_teams(entry: MatchupEntry) -> Seq<MatchupTeam> {
    entry.teams@.map_values(|team: MatchupEntryTeam| matchup_team(team))
}

/// The matchups of one status, in their order, each by its teams.
pub open spec fn matchups_of(entries: Seq<MatchupEntry>, status: Seq<char>) -> Seq<
    Seq<MatchupTeam>,
> {
    entries.filter(|entry: MatchupEntry| entry.status@ == status).map_values(
        |entry: MatchupEntry| matchup_teams(entry),
    )
}

/// Whether a matchup shows an entry: team by team the same key, the same name and the same points.
pub open spec fn shows_teams(matchup: Matchup, entry: MatchupEntry) -> bool {
    &&& matchup.teams@.len() == entry.teams@.len()
    &&& forall|k: int|
        0 <= k < entry.teams@.len() ==> {
            &&& (#[trigger] matchup.teams@[k]).team_key == entry.teams@[k].team_key
            &&& matchup.teams@[k].team_name == entry.teams@[k].name
            &&& matchup.teams@[k].team_points == entry.teams@[k].total
        }
}

/// Whether a matchup shows one of the entries of a status.
pub open spec fn comes_from(
    matchup: Matchup,
    entries: Seq<MatchupEntry>,
    status: Seq<char>,
) -> bool {
    exists|j: int|
        0 <= j < entries.len() && (#[trigger] entries[j]).status@ == status && shows_teams(
            matchup,
            entries[j],
        )
}

/// The teams of each matchup of a list.
pub open spec fn teams_of(matchups: Seq<Matchup>) -> Seq<Seq<MatchupTeam>> {
    matchups.map_values(|matchup: Matchup| matchup.teams@)
}

/// The keys of a list of leagues.
pub open spec fn keys_of(leagues: Seq<UserLeague>) -> Seq<Seq<char>> {
    leagues.map_values(|league: UserLeague| league.league_key@)
}

/// The codes of the three sports are different texts.
proof fn sport_codes_differ()
    ensures
        "nba"@ != "nfl"@,
        "nba"@ != "nhl"@,
        "nfl"@ != "nhl"@,
{
    reveal_strlit("nba");
    reveal_strlit("nfl");
    reveal_strlit("nhl");
    assert("nba"@[1] != "nfl"@[1] && "nba"@[1] != "nhl"@[1] && "nfl"@[1] != "nhl"@[1]);
}

proof fn leagues_of_push(leagues: Seq<League>, league: League, game_code: Seq<char>)
    ensures
        leagues_of(leagues.push(league), game_code) == if league.game_code@ == game_code {
            leagues_of(leagues, game_code).push(user_league(league))
        } else {
            leagues_of(leagues, game_code)
        },
{
    reveal(Seq::filter);
    assert(leagues.push(league).drop_last() =~= leagues);
    assert(leagues_of(leagues.push(league), game_code) =~= if league.game_code@ == game_code {
        leagues_of(leagues, game_code).push(user_league(league))
    } else {
        leagues_of(leagues, game_code)
    });
}

proof fn matchups_of_push(entries: Seq<MatchupEntry>, entry: MatchupEntry, status: Seq<char>)
    ensures
        matchups_of(entries.push(entry), status) == if entry.status@ == status {
            matchups_of(entries, status).push(matchup_teams(entry))
        } else {
            matchups_of(entries, status)
        },
{
    reveal(Seq::filter);
    assert(entries.push(entry).drop_last() =~= entries);
    assert(matchups_of(entries.push(entry), status) =~= if entry.status@ == status {
        matchups_of(entries, status).push(matchup_teams(entry))
    } else {
        matchups_of(entries, status)
    });
}

/// A text, or `default` where it is missing.
fn or_default(text: Option<String>, default: &str) -> (r: String)
    ensures
        r@ == text_or(text, default@),
{
    match text {
        Some(t) => t,
        None => default.to_owned(),
    }
}

impl Leagues {
    /// Whether the lists hold the leagues of their sports, in their order.
    pub open spec fn sorts(self, leagues: Seq<League>) -> bool {
        &&& self.nba@ == leagues_of(leagues, "nba"@)
        &&& self.nfl@ == leagues_of(leagues, "nfl"@)
        &&& self.nhl@ == leagues_of(leagues, "nhl"@)
    }

    /// Puts one more league into the list of its sport; a league of another sport is left out.
    fn add(&mut self, league: League, Ghost(before): Ghost<Seq<League>>)
        requires
            old(self).sorts(before),
        ensures
            final(self).sorts(before.push(league)),
    {
        proof {
            leagues_of_push(before, league, "nba"@);
            leagues_of_push(before, league, "nfl"@);
            leagues_of_push(before, league, "nhl"@);
            sport_codes_differ();
        }
        let user = UserLeague {
            league_key: league.league_key,
            league_id: league.league_id,
            name: league.name,
            url: league.url,
            logo_url: league.logo_url,
            draft_status: league.draft_status,
            num_teams: league.num_teams,
            scoring_type: league.scoring_type,
            league_type: league.league_type,
            current_week: league.current_week,
            start_week: league.start_week,
            end_week: league.end_week,
            season: league.season,
            game_code: league.game_code,
        };
        if same(user.game_code.as_str(), "nba") {
            self.nba.push(user);
        } else if same(user.game_code.as_str(), "nfl") {
            self.nfl.push(user);
        } else if same(user.game_code.as_str(), "nhl") {
            self.nhl.push(user);
        }
    }
}

/// The leagues of the first user, by sport; leagues of other sports are left out.
pub fn sort_leagues(users: Vec<LeagueUser>) -> (r: Leagues)
    requires
        users@.len() > 0,
    ensures
        r.sorts(all_leagues(users@[0].games@)),
{
    let mut users = users;
    let user: LeagueUser = users.swap_remove(0);
    let games = user.games;
    let ghost all = games@;
    let mut leagues = Leagues { nba: Vec::new(), nfl: Vec::new(), nhl: Vec::new() };
    let ghost mut done: Seq<League> = seq![];
    proof {
        reveal(Seq::filter);
        assert(leagues.nba@ =~= leagues_of(done, "nba"@));
        assert(leagues.nfl@ =~= leagues_of(done, "nfl"@));
        assert(leagues.nhl@ =~= leagues_of(done, "nhl"@));
        assert(done =~= all_leagues(all.take(0)));
    }
    for game in it: games
        invariant
            it.seq() == all,
            done == all_leagues(all.take(it.index() as int)),
            leagues.sorts(done),
    {
        let ghost n = it.index() as int;
        let ghost start = done;
        proof {
            assert(all.take(n + 1).drop_last() =~= all.take(n));
            assert(all.take(n + 1).last() == game);
        }
        if let Some(list) = game.leagues {
            let ghost more = list@;
            assert(start + more.take(0) =~= start);
            for league in inner: list
                invariant
                    inner.seq() == more,
                    done == start + more.take(inner.index() as int),
                    leagues.sorts(done),
            {
                leagues.add(league, Ghost(done));
                proof {
                    let k = inner.index() as int;
                    assert(start + more.take(k + 1) =~= done.push(league));
                    done = done.push(league);
                }
            }
            assert(more.take(more.len() as int) =~= more);
        } else {
            assert(start + Seq::<League>::empty() =~= start);
        }
    }
    assert(all.take(all.len() as int) =~= all);
    leagues
}

/// The standings of the teams of a league, in their order. Each team has a logo.
pub fn standings(teams: Vec<StandingsTeam>) -> (r: Vec<LeagueStandings>)
    requires
        forall|i: int| 0 <= i < teams@.len() ==> (#[trigger] teams@[i]).team_logos@.len() > 0,
    ensures
        are_standings_of(teams@, r@),
        forall|i: int|
            0 <= i < teams@.len() ==> {
                &&& (#[trigger] teams@[i]).team_standings.points_for matches Some(points)
                    ==> r@[i].points_for@ == points@
                &&& teams@[i].team_standings.points_against matches Some(points)
                    ==> r@[i].points_against@ == points@
            },
{
    let ghost all = teams@;
    let mut out: Vec<LeagueStandings> = Vec::new();
    for team in it: teams
        invariant
            it.seq() == all,
            forall|i: int| 0 <= i < all.len() ==> (#[trigger] all[i]).team_logos@.len() > 0,
            out@.len() == it.index(),
            forall|i: int| 0 <= i < it.index() ==> is_standing_of(#[trigger] all[i], out@[i]),
    {
        assert(all[it.index() as int] == team);
        let mut logos = team.team_logos;
        let standing = team.team_standings;
        let team_logo: String = logos.swap_remove(0);
        let mut wins: u32 = 0;
        let mut losses: u32 = 0;
        let mut ties: u32 = 0;
        let mut percentage: Option<String> = None;
        if let Some(totals) = standing.outcome_totals {
            wins = totals.wins;
            losses = totals.losses;
            ties = totals.ties;
            percentage = totals.percentage;
        }
        out.push(
            LeagueStandings {
                team_key: team.team_key,
                team_id: team.team_id,
                name: team.name,
                url: team.url,
                team_logo,
                wins,
                losses,
                ties,
                percentage: or_default(percentage, "0.0"),
                games_back: or_default(standing.games_back, "0.0"),
                points_for: or_default(standing.points_for, "0"),
                points_against: or_default(standing.points_against, "0"),
            },
        );
    }
    out
}

/// The players of a reply, in their order.
pub fn roster<T>(content: FantasyContent<T>) -> (r: Vec<Roster<T>>)
    ensures
        is_roster_of(content, r@),
        content.team.roster.players.player matches Some(players) ==> r@.len() == players@.len()
            && forall|i: int|
            0 <= i < r@.len() ==> (#[trigger] r@[i]).stats@
                == players@[i].player_stats.stats.stat@,
{
    let ghost all = players_of(content);
    let players: Vec<Player<T>> = match content.team.roster.players.player {
        Some(players) => players,
        None => Vec::new(),
    };
    assert(players@ =~= all);
    let mut out: Vec<Roster<T>> = Vec::new();
    for player in it: players
        invariant
            it.seq() == all,
            out@.len() == it.index(),
            forall|i: int| 0 <= i < it.index() ==> is_entry_of(all[i], #[trigger] out@[i]),
    {
        assert(all[it.index() as int] == player);
        out.push(
            Roster {
                id: player.player_id,
                key: player.player_key,
                name: player.name.full,
                first_name: player.name.first,
                last_name: player.name.last,
                team_abbreviation: player.editorial_team_abbr,
                team_full_name: player.editorial_team_full_name,
                uniform_number: or_default(player.uniform_number, "None"),
                position: player.display_position,
                selected_position: player.selected_position.position,
                eligible_positions: player.eligible_positions.position,
                image_url: player.image_url,
                headshot: player.headshot.url,
                is_undroppable: player.is_undroppable,
                position_type: player.position_type,
                stats: player.player_stats.stats.stat,
                player_points: player.player_points,
            },
        );
    }
    out
}

impl Matchups {
    /// Whether the lists hold the matchups of their status, in their order.
    pub open spec fn sorts(self, entries: Seq<MatchupEntry>) -> bool {
        &&& teams_of(self.completed_matches@) == matchups_of(entries, "postevent"@)
        &&& teams_of(self.active_matches@) == matchups_of(entries, "midevent"@)
        &&& teams_of(self.future_matches@) == matchups_of(entries, "preevent"@)
    }

    /// Puts one more matchup into the list of its status; one of another status is left out.
    fn add(&mut self, entry: MatchupEntry, Ghost(before): Ghost<Seq<MatchupEntry>>)
        requires
            old(self).sorts(before),
        ensures
            final(self).sorts(before.push(entry)),
    {
        proof {
            matchups_of_push(before, entry, "postevent"@);
            matchups_of_push(before, entry, "midevent"@);
            matchups_of_push(before, entry, "preevent"@);
            reveal_strlit("postevent");
            reveal_strlit("midevent");
            reveal_strlit("preevent");
            assert("postevent"@[1] == 'o' && "midevent"@[1] == 'i' && "preevent"@[1] == 'r');
        }
        let ghost expected = matchup_teams(entry);
        let ghost all = entry.teams@;
        let mut teams: Vec<MatchupTeam> = Vec::new();
        for team in it: entry.teams
            invariant
                it.seq() == all,
                teams@.len() == it.index(),
                forall|i: int| 0 <= i < it.index() ==> #[trigger] teams@[i] == matchup_team(all[i]),
        {
            teams.push(
                MatchupTeam {
                    team_key: team.team_key,
                    team_name: team.name,
                    team_points: team.total,
                },
            );
        }
        assert(teams@ =~= expected);
        let matchup = Matchup { teams };
        if same(entry.status.as_str(), "postevent") {
            proof {
                assert(teams_of(self.completed_matches@.push(matchup)) =~= teams_of(
                    self.completed_matches@,
                ).push(expected));
            }
            self.completed_matches.push(matchup);
        } else if same(entry.status.as_str(), "midevent") {
            proof {
                assert(teams_of(self.active_matches@.push(matchup)) =~= teams_of(
                    self.active_matches@,
                ).push(expected));
            }
            self.active_matches.push(matchup);
        } else if same(entry.status.as_str(), "preevent") {
            proof {
                assert(teams_of(self.future_matches@.push(matchup)) =~= teams_of(
                    self.future_matches@,
                ).push(expected));
            }
            self.future_matches.push(matchup);
        }
    }
}

/// The matchups of a team, by how far they are; matchups of another status are left out.
pub fn sort_matchups(entries: Vec<MatchupEntry>) -> (r: Matchups)
    ensures
        r.sorts(entries@),
        forall|i: int|
            0 <= i < r.completed_matches@.len() ==> comes_from(
                #[trigger] r.completed_matches@[i],
                entries@,
                "postevent"@,
            ),
        forall|i: int|
            0 <= i < r.active_matches@.len() ==> comes_from(
                #[trigger] r.active_matches@[i],
                entries@,
                "midevent"@,
            ),
        forall|i: int|
            0 <= i < r.future_matches@.len() ==> comes_from(
                #[trigger] r.future_matches@[i],
                entries@,
                "preevent"@,
            ),
{
    let ghost all = entries@;
    let mut matchups = Matchups {
        completed_matches: Vec::new(),
        active_matches: Vec::new(),
        future_matches: Vec::new(),
    };
    proof {
        reveal(Seq::filter);
        assert(teams_of(matchups.completed_matches@) =~= matchups_of(all.take(0), "postevent"@));
        assert(teams_of(matchups.active_matches@) =~= matchups_of(all.take(0), "midevent"@));
        assert(teams_of(matchups.future_matches@) =~= matchups_of(all.take(0), "preevent"@));
    }
    for entry in it: entries
        invariant
            it.seq() == all,
            matchups.sorts(all.take(it.index() as int)),
    {
        let ghost n = it.index() as int;
        assert(all.take(n).push(entry) =~= all.take(n + 1));
        matchups.add(entry, Ghost(all.take(n)));
    }
    assert(all.take(all.len() as int) =~= all);
    proof {
        listed_matchups_come_from_entries(matchups.completed_matches@, all, "postevent"@);
        listed_matchups_come_from_entries(matchups.active_matches@, all, "midevent"@);
        listed_matchups_come_from_entries(matchups.future_matches@, all, "preevent"@);
    }
    matchups
}

/// The keys of the leagues of the user, by sport: basketball, football, hockey.
pub fn league_keys(leagues: &Leagues) -> (r: Vec<String>)
    ensures
        views(r@) == keys_of(leagues.nba@) + keys_of(leagues.nfl@) + keys_of(
            leagues.nhl@,
        ),
{
    let mut keys: Vec<String> = Vec::new();
    assert(views(keys@) =~= Seq::<Seq<char>>::empty());
    append_keys(&mut keys, &leagues.nba);
    append_keys(&mut keys, &leagues.nfl);
    append_keys(&mut keys, &leagues.nhl);
    assert(views(keys@) =~= keys_of(leagues.nba@) + keys_of(leagues.nfl@) + keys_of(
        leagues.nhl@,
    ));
    keys
}

fn append_keys(keys: &mut Vec<String>, leagues: &Vec<UserLeague>)
    ensures
        views(final(keys)@) == views(old(keys)@) + keys_of(leagues@),
{
    let ghost start = keys@;
    let mut i: usize = 0;
    while i < leagues.len()
        invariant
            i <= leagues@.len(),
            keys@.len() == start.len() + i,
            forall|k: int| 0 <= k < start.len() ==> #[trigger] keys@[k] == start[k],
            forall|k: int|
                start.len() <= k < keys@.len() ==> (#[trigger] keys@[k])@ == leagues@[k
                    - start.len()].league_key@,
        decreases leagues@.len() - i,
    {
        keys.push(leagues[i].league_key.clone());
        i += 1;
    }
    assert(views(keys@) =~= views(start) + keys_of(leagues@));
}

impl<S> LeagueStats<S> {
    /// Whether these are earlier statistics with those of one more league: at the end of the list
    /// of its sport, and nowhere where its sport is another.
    pub open spec fn takes_in(self, before: Self, game_code: Seq<char>, stats: Vec<S>) -> bool {
        &&& self.nfl@ == if game_code == "nfl"@ {
            before.nfl@.push(stats)
        } else {
            before.nfl@
        }
        &&& self.nba@ == if game_code == "nba"@ {
            before.nba@.push(stats)
        } else {
            before.nba@
        }
        &&& self.nhl@ == if game_code == "nhl"@ {
            before.nhl@.push(stats)
        } else {
            before.nhl@
        }
    }

    /// No statistics yet.
    pub fn new() -> (r: Self)
        ensures
            r.nfl@.len() == 0,
            r.nba@.len() == 0,
            r.nhl@.len() == 0,
    {
        LeagueStats { nfl: Vec::new(), nba: Vec::new(), nhl: Vec::new() }
    }

    /// Adds the statistics of a league to those of its sport; of another sport, none are kept.
    pub fn add(&mut self, game_code: &str, stats: Vec<S>)
        ensures
            final(self).takes_in(*old(self), game_code@, stats),
    {
        proof {
            sport_codes_differ();
        }
        if same(game_code, "nfl") {
            self.nfl.push(stats);
        } else if same(game_code, "nba") {
            self.nba.push(stats);
        } else if same(game_code, "nhl") {
            self.nhl.push(stats);
        }
    }
}

/// Whether a roster failed on a statistic that is not known yet, so that the statistics of the
/// league are to be loaded before it is read again.
pub fn wants_stat_reload(error: &str) -> (r: bool)
    ensures
        r == (occurs(error@, "TryFrom not implemented"@) && occurs(error@, "Stat ID"@)),
{
    contains(error, "TryFrom not implemented") && contains(error, "Stat ID")
}

/// The key of the league in the key of a team: what stands before the first `.t`.
pub fn league_of_team(team_key: &str) -> (r: Option<String>)
    ensures
        match r {
            Some(key) => split(team_key@, ".t"@) matches Some((before, _)) && key@ == before,
            None => split(team_key@, ".t"@) is None,
        },
{
    match split_once(team_key, ".t") {
        Some((league_key, _)) => Some(league_key.to_owned()),
        None => None,
    }
}

/// What follows where the reply with a roster cannot be read.
#[derive(Debug)]
pub enum RosterStep {
    /// Load the statistics of the league, then read the same reply again.
    LoadStats { league_key: String },
    /// Give up, with these words.
    Failed { message: String },
}

/// A roster that was asked for, with the tokens that were got on the way.
#[derive(Debug)]
pub struct RosterFetch {
    pub new_tokens: Option<(String, String)>,
    /// Whether the statistics of the league were loaded for it.
    pub stats_loaded: bool,
}

impl RosterFetch {
    /// Whether a reply that cannot be read is worth loading the statistics of the league.
    pub open spec fn wants_stats(self, error: Seq<char>) -> bool {
        !self.stats_loaded && occurs(error, "TryFrom not implemented"@) && occurs(
            error,
            "Stat ID"@,
        )
    }

    /// Whether that follows an error in reading the reply.
    pub open spec fn follows_unreadable(
        self,
        team_key: Seq<char>,
        error: Seq<char>,
        step: RosterStep,
    ) -> bool {
        match step {
            RosterStep::LoadStats { league_key } => {
                &&& self.wants_stats(error)
                &&& split(team_key, ".t"@) matches Some((before, _)) && league_key@ == before
            },
            RosterStep::Failed { message } => {
                &&& !self.wants_stats(error)
                &&& message@ == if self.stats_loaded {
                    error
                } else {
                    "Failed to deserialize roster: "@ + error
                }
            },
        }
    }

    /// A roster whose request got those tokens, if any.
    pub fn new(new_tokens: Option<(String, String)>) -> (r: Self)
        ensures
            r == (RosterFetch { new_tokens, stats_loaded: false }),
    {
        RosterFetch { new_tokens, stats_loaded: false }
    }

    /// Says what follows an error in reading the reply. The key of the team names its league
    /// where the statistics of that are to be loaded.
    pub fn on_unreadable(&self, team_key: &str, error: &str) -> (r: RosterStep)
        requires
            self.wants_stats(error@) ==> split(team_key@, ".t"@) is Some,
        ensures
            self.follows_unreadable(team_key@, error@, r),
    {
        if self.stats_loaded {
            return RosterStep::Failed { message: error.to_owned() };
        }
        if wants_stat_reload(error) {
            if let Some(league_key) = league_of_team(team_key) {
                return RosterStep::LoadStats { league_key };
            }
        }
        let mut message: String = "Failed to deserialize roster: ".to_owned();
        message.append(error);
        RosterStep::Failed { message }
    }

    /// The statistics of the league were loaded, by a request that got those tokens, if any.
    pub fn on_stats_loaded(&mut self, new_tokens: Option<(String, String)>)
        ensures
            final(self).stats_loaded,
            final(self).new_tokens == match new_tokens {
                Some(tokens) => Some(tokens),
                None => old(self).new_tokens,
            },
    {
        self.stats_loaded = true;
        if let Some(tokens) = new_tokens {
            self.new_tokens = Some(tokens);
        }
    }
}

/// A request for the settings of a league.
#[derive(Debug)]
pub struct SettingsRequest {
    pub endpoint: String,
    /// The access and refresh tokens to use in place of those that the caller holds, if any.
    pub tokens: Option<(String, String)>,
}

/// The collecting of the statistics of all leagues of the user, one league after the other.
#[derive(Debug)]
pub struct StatsRun<S> {
    pub league_keys: Vec<String>,
    /// How many leagues are done.
    pub done: usize,
    pub new_tokens: Option<(String, String)>,
    pub stats: LeagueStats<S>,
}

impl<S> StatsRun<S> {
    /// The step that the settings of a league take.
    pub open spec fn settings_step(
        before: Self,
        new_tokens: Option<(String, String)>,
        game_code: Seq<char>,
        stats: Vec<S>,
        after: Self,
    ) -> bool {
        &&& after.league_keys == before.league_keys
        &&& after.done == before.done + 1
        &&& after.new_tokens == match new_tokens {
            Some(tokens) => Some(tokens),
            None => before.new_tokens,
        }
        &&& after.stats.takes_in(before.stats, game_code, stats)
    }

    /// No league is done yet.
    pub fn start(leagues: &Leagues) -> (r: Self)
        ensures
            views(r.league_keys@) == keys_of(leagues.nba@) + keys_of(leagues.nfl@)
                + keys_of(leagues.nhl@),
            r.done == 0,
            r.new_tokens is None,
            r.stats.nfl@.len() == 0,
            r.stats.nba@.len() == 0,
            r.stats.nhl@.len() == 0,
    {
        StatsRun {
            league_keys: league_keys(leagues),
            done: 0,
            new_tokens: None,
            stats: LeagueStats::new(),
        }
    }

    /// The request for the next league, or nothing where all are done.
    pub fn next_request(&self) -> (r: Option<SettingsRequest>)
        ensures
            r is Some <==> self.done < self.league_keys@.len(),
            r matches Some(request) ==> {
                &&& request.endpoint@ == "/league/"@ + self.league_keys@[self.done as int]@
                    + "/settings"@
                &&& request.tokens == self.new_tokens
            },
    {
        if self.done >= self.league_keys.len() {
            return None;
        }
        let tokens = match &self.new_tokens {
            Some(pair) => Some((pair.0.clone(), pair.1.clone())),
            None => None,
        };
        Some(
            SettingsRequest {
                endpoint: settings_endpoint(self.league_keys[self.done].as_str()),
                tokens,
            },
        )
    }

    /// Takes in the settings of the league that was asked for.
    pub fn on_settings(
        &mut self,
        new_tokens: Option<(String, String)>,
        game_code: &str,
        stats: Vec<S>,
    )
        requires
            old(self).done < old(self).league_keys@.len(),
        ensures
            Self::settings_step(*old(self), new_tokens, game_code@, stats, *final(self)),
    {
        let total: usize = self.league_keys.len();
        assert(self.done < total);
        self.done = self.done + 1;
        if let Some(tokens) = new_tokens {
            self.new_tokens = Some(tokens);
        }
        self.stats.add(game_code, stats);
    }
}

/// The file that holds the statistics of a sport.
pub fn stat_pairs_file(game_code: &str) -> (r: String)
    ensures
        r@ == "./configs/stat_pairs_"@ + game_code@ + ".json"@,
{
    let mut path: String = "./configs/stat_pairs_".to_owned();
    path.append(game_code);
    path.append(".json");
    path
}

/// The statistics of a league are loaded at most once for a roster, whatever the reply is read
/// as afterwards.
pub proof fn stats_are_loaded_once(fetch: RosterFetch, error: Seq<char>)
    requires
        fetch.stats_loaded,
    ensures
        !fetch.wants_stats(error),
{
}

/// The collecting asks for every league once and then ends: after a list of replies, as many
/// leagues are done as there were replies, and the collected statistics are no more than that.
pub proof fn run_asks_each_league_once<S>(
    runs: Seq<StatsRun<S>>,
    replies: Seq<(Option<(String, String)>, Seq<char>, Vec<S>)>,
)
    requires
        runs.len() == replies.len() + 1,
        runs[0].done == 0,
        runs[0].stats.nfl@.len() + runs[0].stats.nba@.len() + runs[0].stats.nhl@.len() == 0,
        forall|i: int|
            0 <= i < replies.len() ==> {
                &&& (#[trigger] runs[i]).done < runs[i].league_keys@.len()
                &&& StatsRun::settings_step(
                    runs[i],
                    replies[i].0,
                    replies[i].1,
                    replies[i].2,
                    runs[i + 1],
                )
            },
    ensures
        runs.last().league_keys == runs[0].league_keys,
        runs.last().done == replies.len(),
        replies.len() <= runs[0].league_keys@.len(),
        runs.last().stats.nfl@.len() + runs.last().stats.nba@.len() + runs.last().stats.nhl@.len()
            <= replies.len(),
    decreases replies.len(),
{
    if replies.len() > 0 {
        let n = replies.len() - 1;
        let front = runs.drop_last();
        let early = replies.drop_last();
        assert forall|i: int| 0 <= i < n implies {
            &&& (#[trigger] front[i]).done < front[i].league_keys@.len()
            &&& StatsRun::settings_step(
                front[i],
                early[i].0,
                early[i].1,
                early[i].2,
                front[i + 1],
            )
        } by {
            assert(runs[i].done < runs[i].league_keys@.len());
        }
        run_asks_each_league_once(front, early);
        assert(runs[n].done < runs[n].league_keys@.len());
        assert(front.last() == runs[n]);
        sport_codes_differ();
    }
}

/// Whether a league is of one of the three sports that are listed.
pub open spec fn is_listed_sport(league: League) -> bool {
    league.game_code@ == "nba"@ || league.game_code@ == "nfl"@ || league.game_code@ == "nhl"@
}

/// Every league of the three sports is listed once, and no other league is: the lists together
/// are as long as there are such leagues.
pub proof fn leagues_are_listed_once(leagues: Seq<League>, sorted: Leagues)
    requires
        sorted.sorts(leagues),
    ensures
        sorted.nba@.len() + sorted.nfl@.len() + sorted.nhl@.len() == leagues.filter(
            |league: League| is_listed_sport(league),
        ).len(),
{
    list_sizes(leagues);
}

proof fn list_sizes(leagues: Seq<League>)
    ensures
        leagues_of(leagues, "nba"@).len() + leagues_of(leagues, "nfl"@).len() + leagues_of(
            leagues,
            "nhl"@,
        ).len() == leagues.filter(|league: League| is_listed_sport(league)).len(),
    decreases leagues.len(),
{
    reveal(Seq::filter);
    sport_codes_differ();
    if leagues.len() > 0 {
        let front = leagues.drop_last();
        list_sizes(front);
        assert(leagues =~= front.push(leagues.last()));
        leagues_of_push(front, leagues.last(), "nba"@);
        leagues_of_push(front, leagues.last(), "nfl"@);
        leagues_of_push(front, leagues.last(), "nhl"@);
    }
}

/// A league is shown with its own fields.
pub proof fn league_shows_its_fields(league: League)
    ensures
        ({
            let shown = user_league(league);
            &&& shown.league_key == league.league_key
            &&& shown.league_id == league.league_id
            &&& shown.name == league.name
            &&& shown.url == league.url
            &&& shown.logo_url == league.logo_url
            &&& shown.draft_status == league.draft_status
            &&& shown.num_teams == league.num_teams
            &&& shown.scoring_type == league.scoring_type
            &&& shown.league_type == league.league_type
            &&& shown.current_week == league.current_week
            &&& shown.start_week == league.start_week
            &&& shown.end_week == league.end_week
            &&& shown.season == league.season
            &&& shown.game_code == league.game_code
        }),
{
}

/// The leagues of the seasons come one after the other: one more season adds its leagues at the end,
/// all of them in their order, and a season without leagues adds none.
pub proof fn seasons_add_their_leagues(games: Seq<LeagueGame>, leagues: Vec<League>)
    ensures
        all_leagues(seq![]) == Seq::<League>::empty(),
        all_leagues(games.push(LeagueGame { leagues: Some(leagues) })) == all_leagues(games)
            + leagues@,
        all_leagues(games.push(LeagueGame { leagues: None })) == all_leagues(games),
{
    let with = games.push(LeagueGame { leagues: Some(leagues) });
    let without = games.push(LeagueGame { leagues: None });
    assert(with.drop_last() =~= games);
    assert(without.drop_last() =~= games);
    assert(all_leagues(games) + Seq::<League>::empty() =~= all_leagues(games));
}

/// One more league goes to the end of the list of its sport and to no other list; a league of another
/// sport goes to none.
pub proof fn league_goes_to_its_sport(
    leagues: Seq<League>,
    league: League,
    before: Leagues,
    after: Leagues,
)
    requires
        before.sorts(leagues),
        after.sorts(leagues.push(league)),
    ensures
        league.game_code@ == "nba"@ ==> after.nba@ == before.nba@.push(user_league(league)),
        league.game_code@ != "nba"@ ==> after.nba@ == before.nba@,
        league.game_code@ == "nfl"@ ==> after.nfl@ == before.nfl@.push(user_league(league)),
        league.game_code@ != "nfl"@ ==> after.nfl@ == before.nfl@,
        league.game_code@ == "nhl"@ ==> after.nhl@ == before.nhl@.push(user_league(league)),
        league.game_code@ != "nhl"@ ==> after.nhl@ == before.nhl@,
{
    leagues_of_push(leagues, league, "nba"@);
    leagues_of_push(leagues, league, "nfl"@);
    leagues_of_push(leagues, league, "nhl"@);
}

/// Where there is no league, every list is empty.
pub proof fn no_league_is_listed(sorted: Leagues)
    requires
        sorted.sorts(seq![]),
    ensures
        sorted.nba@.len() == 0,
        sorted.nfl@.len() == 0,
        sorted.nhl@.len() == 0,
{
    reveal(Seq::filter);
}

/// Each team of a league has its own standing, in the order of the teams: its names, its first logo,
/// its own record, and in each column the text that was sent for that column; only a text that is
/// missing is filled in.
pub proof fn standings_show_each_team(
    teams: Seq<StandingsTeam>,
    table: Seq<LeagueStandings>,
    i: int,
)
    requires
        are_standings_of(teams, table),
        0 <= i < teams.len(),
    ensures
        table.len() == teams.len(),
        table[i].team_key == teams[i].team_key,
        table[i].team_id == teams[i].team_id,
        table[i].name == teams[i].name,
        table[i].url == teams[i].url,
        table[i].team_logo == teams[i].team_logos@[0],
        teams[i].team_standings.outcome_totals matches Some(totals) ==> {
            &&& table[i].wins == totals.wins
            &&& table[i].losses == totals.losses
            &&& table[i].ties == totals.ties
            &&& totals.percentage matches Some(text) ==> table[i].percentage@ == text@
            &&& totals.percentage is None ==> table[i].percentage@ == "0.0"@
        },
        teams[i].team_standings.outcome_totals is None ==> {
            &&& table[i].wins == 0
            &&& table[i].losses == 0
            &&& table[i].ties == 0
            &&& table[i].percentage@ == "0.0"@
        },
        teams[i].team_standings.games_back matches Some(text) ==> table[i].games_back@ == text@,
        teams[i].team_standings.games_back is None ==> table[i].games_back@ == "0.0"@,
        teams[i].team_standings.points_for matches Some(text) ==> table[i].points_for@ == text@,
        teams[i].team_standings.points_for is None ==> table[i].points_for@ == "0"@,
        teams[i].team_standings.points_against matches Some(text) ==> table[i].points_against@
            == text@,
        teams[i].team_standings.points_against is None ==> table[i].points_against@ == "0"@,
{
    assert(is_standing_of(teams[i], table[i]));
}

/// Two teams that differ in their points for and against by having them exchanged have standings that
/// differ in the same way, and in no other column of numbers.
pub proof fn exchanged_points_exchange_columns(
    team: StandingsTeam,
    other: StandingsTeam,
    standing: LeagueStandings,
    mirrored: LeagueStandings,
)
    requires
        other.team_standings.points_for == team.team_standings.points_against,
        other.team_standings.points_against == team.team_standings.points_for,
        other.team_standings.outcome_totals == team.team_standings.outcome_totals,
        other.team_standings.games_back == team.team_standings.games_back,
        is_standing_of(team, standing),
        is_standing_of(other, mirrored),
    ensures
        mirrored.points_for@ == standing.points_against@,
        mirrored.points_against@ == standing.points_for@,
        mirrored.games_back@ == standing.games_back@,
        mirrored.percentage@ == standing.percentage@,
        (mirrored.wins, mirrored.losses, mirrored.ties) == (
            standing.wins,
            standing.losses,
            standing.ties,
        ),
{
}

/// Every player of a reply has an entry, in the order of the players, with the player's own names,
/// team, positions and pictures, all of the player's statistics in their order, and the player's
/// points; only a missing number is filled in. A reply without players has no entry.
pub proof fn roster_shows_each_player<T>(
    content: FantasyContent<T>,
    entries: Seq<Roster<T>>,
    i: int,
)
    requires
        is_roster_of(content, entries),
    ensures
        content.team.roster.players.player is None ==> entries.len() == 0,
        content.team.roster.players.player matches Some(players) ==> {
            &&& entries.len() == players@.len()
            &&& 0 <= i < players@.len() ==> {
                &&& entries[i].id == players@[i].player_id
                &&& entries[i].key == players@[i].player_key
                &&& entries[i].name == players@[i].name.full
                &&& entries[i].first_name == players@[i].name.first
                &&& entries[i].last_name == players@[i].name.last
                &&& entries[i].team_abbreviation == players@[i].editorial_team_abbr
                &&& entries[i].team_full_name == players@[i].editorial_team_full_name
                &&& players@[i].uniform_number matches Some(number)
                    ==> entries[i].uniform_number@ == number@
                &&& players@[i].uniform_number is None ==> entries[i].uniform_number@ == "None"@
                &&& entries[i].position == players@[i].display_position
                &&& entries[i].selected_position == players@[i].selected_position.position
                &&& entries[i].eligible_positions@ == players@[i].eligible_positions.position@
                &&& entries[i].image_url == players@[i].image_url
                &&& entries[i].headshot == players@[i].headshot.url
                &&& entries[i].is_undroppable == players@[i].is_undroppable
                &&& entries[i].position_type == players@[i].position_type
                &&& entries[i].stats@.len() == players@[i].player_stats.stats.stat@.len()
                &&& entries[i].stats@ == players@[i].player_stats.stats.stat@
                &&& entries[i].player_points == players@[i].player_points
            }
        },
{
    if 0 <= i < entries.len() {
        assert(is_entry_of(players_of(content)[i], entries[i]));
    }
}

proof fn listed_matchups_come_from_entries(
    matchups: Seq<Matchup>,
    entries: Seq<MatchupEntry>,
    status: Seq<char>,
)
    requires
        teams_of(matchups) == matchups_of(entries, status),
    ensures
        forall|i: int|
            0 <= i < matchups.len() ==> comes_from(#[trigger] matchups[i], entries, status),
    decreases entries.len(),
{
    reveal(Seq::filter);
    assert(teams_of(matchups).len() == matchups.len());
    if entries.len() > 0 {
        let front = entries.drop_last();
        let last = entries.last();
        assert(entries =~= front.push(last));
        matchups_of_push(front, last, status);
        let early = if last.status@ == status {
            matchups.drop_last()
        } else {
            matchups
        };
        assert(teams_of(early) =~= matchups_of(front, status)) by {
            if last.status@ == status {
                assert(teams_of(early) =~= teams_of(matchups).drop_last());
                assert(matchups_of(front, status).push(matchup_teams(last)).drop_last()
                    =~= matchups_of(front, status));
            }
        }
        listed_matchups_come_from_entries(early, front, status);
        assert forall|i: int| 0 <= i < matchups.len() implies comes_from(
            #[trigger] matchups[i],
            entries,
            status,
        ) by {
            if i < early.len() {
                assert(comes_from(early[i], front, status));
                let j = choose|j: int|
                    0 <= j < front.len() && (#[trigger] front[j]).status@ == status && shows_teams(
                        early[i],
                        front[j],
                    );
                assert(entries[j] == front[j]);
            } else {
                let n = entries.len() - 1;
                assert(teams_of(matchups)[i] == matchup_teams(last));
                assert(matchups[i].teams@ == matchup_teams(last));
                assert forall|k: int| 0 <= k < last.teams@.len() implies {
                    &&& (#[trigger] matchups[i].teams@[k]).team_key == last.teams@[k].team_key
                    &&& matchups[i].teams@[k].team_name == last.teams@[k].name
                    &&& matchups[i].teams@[k].team_points == last.teams@[k].total
                } by {
                    assert(matchup_teams(last)[k] == matchup_team(last.teams@[k]));
                }
                assert(entries[n].status@ == status && shows_teams(matchups[i], entries[n]));
            }
        }
    }
}

/// Every listed matchup shows an entry of its status: team by team the key, the name and the points of
/// that very team.
pub proof fn matchups_show_their_teams(
    entries: Seq<MatchupEntry>,
    sorted: Matchups,
    list: Seq<Matchup>,
    status: Seq<char>,
    i: int,
) -> (j: int)
    requires
        sorted.sorts(entries),
        list == sorted.completed_matches@ && status == "postevent"@ || list
            == sorted.active_matches@ && status == "midevent"@ || list == sorted.future_matches@
            && status == "preevent"@,
        0 <= i < list.len(),
    ensures
        0 <= j < entries.len(),
        entries[j].status@ == status,
        list[i].teams@.len() == entries[j].teams@.len(),
        forall|k: int|
            0 <= k < entries[j].teams@.len() ==> {
                &&& (#[trigger] list[i].teams@[k]).team_key == entries[j].teams@[k].team_key
                &&& list[i].teams@[k].team_name == entries[j].teams@[k].name
                &&& list[i].teams@[k].team_points == entries[j].teams@[k].total
            },
{
    listed_matchups_come_from_entries(list, entries, status);
    assert(comes_from(list[i], entries, status));
    choose|j: int|
        0 <= j < entries.len() && (#[trigger] entries[j]).status@ == status && shows_teams(
            list[i],
            entries[j],
        )
}

/// One more entry goes to the end of the list of its status, as a matchup with the entry's own teams:
/// the k-th team has the key, the name and the points of the k-th team of the entry. It goes to no
/// other list, and an entry of another status to none.
pub proof fn entry_goes_to_its_status(
    entries: Seq<MatchupEntry>,
    entry: MatchupEntry,
    before: Matchups,
    after: Matchups,
)
    requires
        before.sorts(entries),
        after.sorts(entries.push(entry)),
    ensures
        is_extended_by(
            before.completed_matches@,
            after.completed_matches@,
            entry,
            entry.status@ == "postevent"@,
        ),
        is_extended_by(
            before.active_matches@,
            after.active_matches@,
            entry,
            entry.status@ == "midevent"@,
        ),
        is_extended_by(
            before.future_matches@,
            after.future_matches@,
            entry,
            entry.status@ == "preevent"@,
        ),
{
    matchups_of_push(entries, entry, "postevent"@);
    matchups_of_push(entries, entry, "midevent"@);
    matchups_of_push(entries, entry, "preevent"@);
    list_is_extended(before.completed_matches@, after.completed_matches@, entries, entry, "postevent"@);
    list_is_extended(before.active_matches@, after.active_matches@, entries, entry, "midevent"@);
    list_is_extended(before.future_matches@, after.future_matches@, entries, entry, "preevent"@);
}

/// Whether a list of matchups is an earlier one with an entry at the end, where that is wanted, and
/// else the earlier one.
pub open spec fn is_extended_by(
    before: Seq<Matchup>,
    after: Seq<Matchup>,
    entry: MatchupEntry,
    wanted: bool,
) -> bool {
    &&& after.len() == before.len() + if wanted {
        1nat
    } else {
        0nat
    }
    &&& forall|i: int|
        0 <= i < before.len() ==> (#[trigger] after[i]).teams@ == before[i].teams@
    &&& wanted ==> {
        let teams = after.last().teams@;
        &&& teams.len() == entry.teams@.len()
        &&& forall|k: int|
            0 <= k < teams.len() ==> (#[trigger] teams[k]).team_key == entry.teams@[k].team_key
                && teams[k].team_name == entry.teams@[k].name && teams[k].team_points
                == entry.teams@[k].total
    }
}

proof fn list_is_extended(
    before: Seq<Matchup>,
    after: Seq<Matchup>,
    entries: Seq<MatchupEntry>,
    entry: MatchupEntry,
    status: Seq<char>,
)
    requires
        teams_of(before) == matchups_of(entries, status),
        teams_of(after) == matchups_of(entries.push(entry), status),
    ensures
        is_extended_by(before, after, entry, entry.status@ == status),
{
    matchups_of_push(entries, entry, status);
    assert(teams_of(before).len() == before.len());
    assert(teams_of(after).len() == after.len());
    assert forall|i: int| 0 <= i < before.len() implies (#[trigger] after[i]).teams@
        == before[i].teams@ by {
        assert(teams_of(after)[i] == after[i].teams@);
        assert(teams_of(before)[i] == before[i].teams@);
    }
    if entry.status@ == status {
        assert(teams_of(after)[after.len() - 1] == after.last().teams@);
        assert(after.last().teams@ == matchup_teams(entry));
    }
}

/// Where there is no entry, every list of matchups is empty.
pub proof fn no_matchup_is_listed(sorted: Matchups)
    requires
        sorted.sorts(seq![]),
    ensures
        sorted.completed_matches@.len() == 0,
        sorted.active_matches@.len() == 0,
        sorted.future_matches@.len() == 0,
{
    reveal(Seq::filter);
    assert(teams_of(sorted.completed_matches@).len() == 0);
    assert(teams_of(sorted.active_matches@).len() == 0);
    assert(teams_of(sorted.future_matches@).len() == 0);
}

/// The keys of leagues are those of each league, in their order.
pub proof fn keys_follow_leagues(leagues: Seq<UserLeague>)
    ensures
        keys_of(leagues).len() == leagues.len(),
        forall|i: int| 0 <= i < leagues.len() ==> #[trigger] keys_of(leagues)[i]
            == leagues[i].league_key@,
{
}

/// The statistics of one more league go to the end of the list of its sport, as they are, and to no
/// other list.
pub proof fn statistics_go_to_their_sport<S>(
    before: LeagueStats<S>,
    game_code: Seq<char>,
    stats: Vec<S>,
    after: LeagueStats<S>,
)
    requires
        after.takes_in(before, game_code, stats),
    ensures
        game_code == "nfl"@ ==> after.nfl@ == before.nfl@.push(stats) && after.nba@ == before.nba@
            && after.nhl@ == before.nhl@,
        game_code == "nba"@ ==> after.nba@ == before.nba@.push(stats) && after.nfl@ == before.nfl@
            && after.nhl@ == before.nhl@,
        game_code == "nhl"@ ==> after.nhl@ == before.nhl@.push(stats) && after.nfl@ == before.nfl@
            && after.nba@ == before.nba@,
        game_code != "nfl"@ && game_code != "nba"@ && game_code != "nhl"@ ==> after.nfl@
            == before.nfl@ && after.nba@ == before.nba@ && after.nhl@ == before.nhl@,
{
    sport_codes_differ();
}

/// Statistics are loaded for a roster exactly where its error names a statistic that is not known, and
/// they were not loaded before.
pub proof fn unknown_statistic_is_looked_up(
    new_tokens: Option<(String, String)>,
    error: Seq<char>,
)
    ensures
        (RosterFetch { new_tokens, stats_loaded: false }).wants_stats(error) <==> occurs(
            error,
            "TryFrom not implemented"@,
        ) && occurs(error, "Stat ID"@),
        !(RosterFetch { new_tokens, stats_loaded: true }).wants_stats(error),
{
}

/// The settings of a league finish that league and no other, keep the leagues that are still to come,
/// and replace the tokens exactly where new ones came.
pub proof fn settings_finish_one_league<S>(
    before: StatsRun<S>,
    new_tokens: Option<(String, String)>,
    game_code: Seq<char>,
    stats: Vec<S>,
    after: StatsRun<S>,
)
    requires
        StatsRun::settings_step(before, new_tokens, game_code, stats, after),
    ensures
        new_tokens is Some ==> after.new_tokens == new_tokens,
        new_tokens is None ==> after.new_tokens == before.new_tokens,
        after.league_keys == before.league_keys,
        after.done == before.done + 1,
        game_code == "nfl"@ ==> after.stats.nfl@ == before.stats.nfl@.push(stats),
        game_code == "nba"@ ==> after.stats.nba@ == before.stats.nba@.push(stats),
        game_code == "nhl"@ ==> after.stats.nhl@ == before.stats.nhl@.push(stats),
{
}

/// Where the statistics of a league are loaded for a roster, it is the league of the team: what stands
/// before the first `.t` of the team's key. An error that loading does not help is passed on: with a
/// word on the roster at the first reading, and as it is at the second.
pub proof fn unreadable_roster_is_passed_on(
    fetch: RosterFetch,
    league: Seq<char>,
    team: Seq<char>,
    error: Seq<char>,
    step: RosterStep,
)
    requires
        fetch.follows_unreadable(league + ".t"@ + team, error, step),
        split(league + ".t"@ + team, ".t"@) == Some((league, team)),
    ensures
        !fetch.stats_loaded && occurs(error, "TryFrom not implemented"@) && occurs(
            error,
            "Stat ID"@,
        ) ==> (step matches RosterStep::LoadStats { league_key } && league_key@ == league),
        fetch.stats_loaded ==> (step matches RosterStep::Failed { message } && message@ == error),
        !fetch.stats_loaded && !(occurs(error, "TryFrom not implemented"@) && occurs(
            error,
            "Stat ID"@,
        )) ==> (step matches RosterStep::Failed { message } && message@
            == "Failed to deserialize roster: "@ + error),
{
}

} // verus!
