//! The roster of a team, as the fantasy service sends it.

use vstd::prelude::*;
use crate::number::{
    decimal, decimal_reads_back, is_digit, other_characters_are_no_number, parse_u32, parsed,
};
use crate::text::{contains, occurs, occurs_at, same};

verus! {

/// A reply with the roster of a team. `T` is the name of a statistic of the team's sport.
#[derive(Debug)]
pub struct FantasyContent<T> {
    pub team: Team<T>,
}

/// A team and its roster.
#[derive(Debug)]
pub struct Team<T> {
    pub roster: Roster<T>,
    pub url: Option<String>,
}

/// A roster.
#[derive(Debug)]
pub struct Roster<T> {
    pub players: Players<T>,
}

/// The players of a roster.
#[derive(Debug)]
pub struct Players<T> {
    pub player: Option<Vec<Player<T>>>,
}

/// A player.
#[derive(Debug)]
pub struct Player<T> {
    pub player_key: String,
    pub player_id: u32,
    pub name: Name,
    pub editorial_team_abbr: String,
    pub editorial_team_full_name: String,
    pub uniform_number: Option<String>,
    pub display_position: String,
    pub selected_position: SelectedPosition,
    pub eligible_positions: EligiblePositions,
    pub image_url: String,
    pub headshot: Headshot,
    pub is_undroppable: bool,
    pub position_type: String,
    pub player_stats: PlayerStats<T>,
    pub player_points: Option<PlayerPoints>,
}

/// The name of a player.
#[derive(Debug)]
pub struct Name {
    pub full: String,
    pub first: String,
    pub last: String,
}

/// The positions that a player may play.
#[derive(Debug)]
pub struct EligiblePositions {
    pub position: Vec<String>,
}

/// The position that a player is set to play.
#[derive(Debug)]
pub struct SelectedPosition {
    pub position: String,
}

/// A picture of a player.
#[derive(Debug)]
pub struct Headshot {
    pub url: String,
}

/// A number of points. The bits are those of an IEEE 754 binary32 number.
#[derive(Clone, Copy, Debug, PartialEq, Eq, Structural)]
pub struct Points {
    pub bits: u32,
}

/// The points of a player in a week or on a day.
#[derive(Debug)]
pub struct PlayerPoints {
    pub coverage_type: String,
    pub week: Option<u8>,
    pub date: Option<String>,
    pub total: Points,
}

/// The statistics of a player.
#[derive(Debug)]
pub struct PlayerStats<T> {
    pub stats: Stats<T>,
}

/// A list of statistics.
#[derive(Debug)]
pub struct Stats<T> {
    pub stat: Vec<Stat<T>>,
}

/// A statistic and its value.
#[derive(Debug)]
pub struct Stat<T> {
    pub stat_name: T,
    pub value: u32,
}

/// A field of a team.
#[derive(Clone, Copy, Debug, PartialEq, Eq, Structural)]
pub enum TeamField {
    Roster,
    Url,
    Other,
}

/// A field of a team with its value.
#[derive(Debug)]
pub enum TeamEntry<T> {
    Roster(Roster<T>),
    Url(String),
    Other,
}

/// Why fields do not make up a team.
#[derive(Clone, Copy, Debug, PartialEq, Eq, Structural)]
pub enum TeamFieldError {
    DuplicateRoster,
    DuplicateUrl,
    /// The address of the team is not one of the expected sport.
    SportMismatch,
    MissingRoster,
}

/// The fields of a team that were read so far.
#[derive(Debug)]
pub struct TeamFields<T> {
    pub roster: Option<Roster<T>>,
    pub url: Option<String>,
}

/// The value of a statistic: the number that the text denotes, and 0 where it denotes none.
pub open spec fn stat_value_of(text: Seq<char>) -> int {
    match parsed(text, 0, u32::MAX as int) {
        Ok(value) => value,
        Err(_) => 0,
    }
}

/// The words for a team whose address is not one of the expected sport.
pub open spec fn sport_mismatch(url: Seq<char>, expected_sport: Seq<char>) -> Seq<char> {
    "Sport validation failed: URL '"@ + url + "' does not match expected sport '"@
        + expected_sport + "'. You requested "@ + expected_sport
        + " stats but this team plays a different sport."@
}

impl<T> TeamEntry<T> {
    /// The field of the entry.
    pub open spec fn field(self) -> TeamField {
        match self {
            TeamEntry::Roster(_) => TeamField::Roster,
            TeamEntry::Url(_) => TeamField::Url,
            TeamEntry::Other => TeamField::Other,
        }
    }
}

impl<T> TeamFields<T> {
    /// Why a further field is not taken, if it is not.
    pub open spec fn refuses(self, field: TeamField) -> Option<TeamFieldError> {
        match field {
            TeamField::Roster => if self.roster is Some {
                Some(TeamFieldError::DuplicateRoster)
            } else {
                None
            },
            TeamField::Url => if self.url is Some {
                Some(TeamFieldError::DuplicateUrl)
            } else {
                None
            },
            TeamField::Other => None,
        }
    }

    /// The fields with one more entry.
    pub open spec fn with(self, entry: TeamEntry<T>, expected_sport: Seq<char>) -> Result<
        Self,
        TeamFieldError,
    > {
        match self.refuses(entry.field()) {
            Some(e) => Err(e),
            None => match entry {
                TeamEntry::Roster(roster) => Ok(TeamFields { roster: Some(roster), ..self }),
                TeamEntry::Url(url) => if occurs(url@, expected_sport) {
                    Ok(TeamFields { url: Some(url), ..self })
                } else {
                    Err(TeamFieldError::SportMismatch)
                },
                TeamEntry::Other => Ok(self),
            },
        }
    }

    /// The fields after a list of entries, from no field on, or the error of the first entry
    /// that is not taken.
    pub open spec fn after(entries: Seq<TeamEntry<T>>, expected_sport: Seq<char>) -> Result<
        Self,
        TeamFieldError,
    >
        decreases entries.len(),
    {
        if entries.len() == 0 {
            Ok(TeamFields { roster: None, url: None })
        } else {
            match Self::after(entries.drop_last(), expected_sport) {
                Ok(fields) => fields.with(entries.last(), expected_sport),
                Err(e) => Err(e),
            }
        }
    }

    /// The team that the fields make up.
    pub open spec fn team(self) -> Result<Team<T>, TeamFieldError> {
        match self.roster {
            Some(roster) => Ok(Team { roster, url: self.url }),
            None => Err(TeamFieldError::MissingRoster),
        }
    }

    /// No field.
    pub fn new() -> (r: Self)
        ensures
            r == (TeamFields::<T> { roster: None, url: None }),
    {
        TeamFields { roster: None, url: None }
    }

    /// Whether a further field is taken, before its value is read.
    pub fn accepts(&self, field: TeamField) -> (r: Result<(), TeamFieldError>)
        ensures
            r == match self.refuses(field) {
                Some(e) => Err::<(), TeamFieldError>(e),
                None => Ok::<(), TeamFieldError>(()),
            },
    {
        match field {
            TeamField::Roster => {
                if self.roster.is_some() {
                    return Err(TeamFieldError::DuplicateRoster);
                }
            },
            TeamField::Url => {
                if self.url.is_some() {
                    return Err(TeamFieldError::DuplicateUrl);
                }
            },
            TeamField::Other => {},
        }
        Ok(())
    }

    /// Takes a further field. Where it is not taken, the fields stay as they were.
    pub fn put(&mut self, entry: TeamEntry<T>, expected_sport: &str) -> (r: Result<
        (),
        TeamFieldError,
    >)
        ensures
            match r {
                Ok(_) => old(self).with(entry, expected_sport@) == Ok::<Self, TeamFieldError>(
                    *final(self),
                ),
                Err(e) => {
                    &&& old(self).with(entry, expected_sport@) == Err::<Self, TeamFieldError>(e)
                    &&& *final(self) == *old(self)
                },
            },
    {
        match entry {
            TeamEntry::Roster(roster) => {
                if self.roster.is_some() {
                    return Err(TeamFieldError::DuplicateRoster);
                }
                self.roster = Some(roster);
            },
            TeamEntry::Url(url) => {
                if self.url.is_some() {
                    return Err(TeamFieldError::DuplicateUrl);
                }
                if !contains(url.as_str(), expected_sport) {
                    return Err(TeamFieldError::SportMismatch);
                }
                self.url = Some(url);
            },
            TeamEntry::Other => {},
        }
        Ok(())
    }

    /// The team that the fields make up, which needs a roster.
    pub fn finish(self) -> (r: Result<Team<T>, TeamFieldError>)
        ensures
            r == self.team(),
    {
        match self.roster {
            Some(roster) => Ok(Team { roster, url: self.url }),
            None => Err(TeamFieldError::MissingRoster),
        }
    }
}

/// The field that a name stands for.
pub fn team_field(name: &str) -> (r: TeamField)
    ensures
        r == if name@ == "roster"@ {
            TeamField::Roster
        } else if name@ == "url"@ {
            TeamField::Url
        } else {
            TeamField::Other
        },
{
    if same(name, "roster") {
        TeamField::Roster
    } else if same(name, "url") {
        TeamField::Url
    } else {
        TeamField::Other
    }
}

/// The words for a team whose address is not one of the expected sport.
pub fn sport_mismatch_text(url: &str, expected_sport: &str) -> (r: String)
    ensures
        r@ == sport_mismatch(url@, expected_sport@),
{
    let mut text: String = "Sport validation failed: URL '".to_owned();
    text.append(url);
    text.append("' does not match expected sport '");
    text.append(expected_sport);
    text.append("'. You requested ");
    text.append(expected_sport);
    text.append(" stats but this team plays a different sport.");
    text
}

impl<T> Stat<T> {
    /// A statistic, where its name is known: with the number that its value denotes, or 0.
    pub fn read<E>(stat_name: Result<T, E>, value: &str) -> (r: Result<Self, E>)
        ensures
            match stat_name {
                Ok(name) => {
                    &&& r is Ok
                    &&& r->Ok_0.stat_name == name
                    &&& r->Ok_0.value == stat_value_of(value@)
                },
                Err(e) => r == Err::<Self, E>(e),
            },
    {
        match stat_name {
            Ok(name) => {
                let value: u32 = match parse_u32(value) {
                    Ok(number) => number,
                    Err(_) => 0,
                };
                Ok(Stat { stat_name: name, value })
            },
            Err(e) => Err(e),
        }
    }
}

/// How many entries of a list are of a field.
pub open spec fn count_of<T>(entries: Seq<TeamEntry<T>>, field: TeamField) -> nat
    decreases entries.len(),
{
    if entries.len() == 0 {
        0
    } else {
        count_of(entries.drop_last(), field) + if entries.last().field() == field {
            1nat
        } else {
            0nat
        }
    }
}

/// Entries make up a team exactly where there is one roster, at most one address, and no
/// address that is not one of the expected sport. Entries of other fields change nothing.
pub proof fn team_needs_one_roster<T>(entries: Seq<TeamEntry<T>>, expected_sport: Seq<char>)
    ensures
        (TeamFields::after(entries, expected_sport) matches Ok(fields) && fields.team() is Ok)
            <==> (count_of(entries, TeamField::Roster) == 1 && count_of(entries, TeamField::Url)
            <= 1 && all_urls_fit(entries, expected_sport)),
{
    fields_count(entries, expected_sport);
}

/// Whether every address in a list of entries is one of the sport.
pub open spec fn all_urls_fit<T>(entries: Seq<TeamEntry<T>>, expected_sport: Seq<char>) -> bool {
    forall|i: int|
        0 <= i < entries.len() ==> (#[trigger] entries[i] matches TeamEntry::Url(url) ==> occurs(
            url@,
            expected_sport,
        ))
}

proof fn fields_count<T>(entries: Seq<TeamEntry<T>>, expected_sport: Seq<char>)
    ensures
        TeamFields::after(entries, expected_sport) is Ok <==> (count_of(
            entries,
            TeamField::Roster,
        ) <= 1 && count_of(entries, TeamField::Url) <= 1 && all_urls_fit(entries, expected_sport)),
        TeamFields::after(entries, expected_sport) matches Ok(fields) ==> {
            &&& fields.roster is Some <==> count_of(entries, TeamField::Roster) == 1
            &&& fields.url is Some <==> count_of(entries, TeamField::Url) == 1
            &&& fields.url matches Some(url) ==> occurs(url@, expected_sport)
        },
    decreases entries.len(),
{
    if entries.len() > 0 {
        let front = entries.drop_last();
        fields_count(front, expected_sport);
        assert(all_urls_fit(entries, expected_sport) <==> (all_urls_fit(front, expected_sport) && (
        entries.last() matches TeamEntry::Url(url) ==> occurs(url@, expected_sport)))) by {
            if all_urls_fit(entries, expected_sport) {
                assert forall|i: int| 0 <= i < front.len() implies (
                #[trigger] front[i] matches TeamEntry::Url(url) ==> occurs(
                    url@,
                    expected_sport,
                )) by {
                    assert(front[i] == entries[i]);
                }
                assert(entries[entries.len() - 1] == entries.last());
            }
            if all_urls_fit(front, expected_sport) && (entries.last() matches TeamEntry::Url(url)
                ==> occurs(url@, expected_sport)) {
                assert forall|i: int| 0 <= i < entries.len() implies (
                #[trigger] entries[i] matches TeamEntry::Url(url) ==> occurs(
                    url@,
                    expected_sport,
                )) by {
                    if i < front.len() {
                        assert(front[i] == entries[i]);
                    }
                }
            }
        }
    }
}

/// A team that was made up has its address, if it has one, among those of the expected sport.
pub proof fn team_plays_expected_sport<T>(
    entries: Seq<TeamEntry<T>>,
    expected_sport: Seq<char>,
    team: Team<T>,
)
    requires
        TeamFields::after(entries, expected_sport) matches Ok(fields) && fields.team() == Ok::<
            Team<T>,
            TeamFieldError,
        >(team),
    ensures
        team.url matches Some(url) ==> occurs(url@, expected_sport),
{
    fields_count(entries, expected_sport);
}

/// The words for a mismatch hold the address and say that the validation failed.
pub proof fn mismatch_names_url(url: Seq<char>, expected_sport: Seq<char>)
    ensures
        occurs(sport_mismatch(url, expected_sport), url),
        occurs(sport_mismatch(url, expected_sport), "Sport validation failed"@),
{
    let text = sport_mismatch(url, expected_sport);
    let start = "Sport validation failed: URL '"@;
    reveal_strlit("Sport validation failed: URL '");
    reveal_strlit("Sport validation failed");
    assert(text.subrange(start.len() as int, (start.len() + url.len()) as int) =~= url);
    assert(occurs_at(text, url, start.len() as int));
    assert(text.subrange(0, 23) =~= "Sport validation failed"@);
    assert(occurs_at(text, "Sport validation failed"@, 0));
}

/// A team that was made up has the roster that was sent, and the address that was sent: the one entry
/// of each field, as it is.
pub proof fn team_has_what_was_sent<T>(
    entries: Seq<TeamEntry<T>>,
    expected_sport: Seq<char>,
    team: Team<T>,
    at: int,
)
    requires
        TeamFields::after(entries, expected_sport) matches Ok(fields) && fields.team() == Ok::<
            Team<T>,
            TeamFieldError,
        >(team),
        0 <= at < entries.len(),
    ensures
        entries[at] matches TeamEntry::Roster(roster) ==> team.roster == roster,
        entries[at] matches TeamEntry::Url(url) ==> team.url == Some(url),
{
    fields_hold_entries(entries, expected_sport, at);
}

proof fn fields_hold_entries<T>(entries: Seq<TeamEntry<T>>, expected_sport: Seq<char>, at: int)
    requires
        TeamFields::after(entries, expected_sport) is Ok,
        0 <= at < entries.len(),
    ensures
        entries[at] matches TeamEntry::Roster(roster) ==> TeamFields::after(
            entries,
            expected_sport,
        )->Ok_0.roster == Some(roster),
        entries[at] matches TeamEntry::Url(url) ==> TeamFields::after(
            entries,
            expected_sport,
        )->Ok_0.url == Some(url),
    decreases entries.len(),
{
    if at < entries.len() - 1 {
        let front = entries.drop_last();
        assert(front[at] == entries[at]);
        fields_hold_entries(front, expected_sport, at);
    }
}

/// What one more field does: a second roster and a second address are refused; an address that is not
/// one of the expected sport is refused; any other field is taken, and leaves the other field alone.
pub proof fn field_is_taken_or_refused<T>(
    fields: TeamFields<T>,
    roster: Roster<T>,
    url: String,
    expected_sport: Seq<char>,
)
    ensures
        fields.roster is Some ==> fields.with(TeamEntry::Roster(roster), expected_sport) == Err::<
            TeamFields<T>,
            TeamFieldError,
        >(TeamFieldError::DuplicateRoster),
        fields.roster is None ==> fields.with(TeamEntry::Roster(roster), expected_sport) == Ok::<
            TeamFields<T>,
            TeamFieldError,
        >(TeamFields { roster: Some(roster), url: fields.url }),
        fields.url is Some ==> fields.with(TeamEntry::Url(url), expected_sport) == Err::<
            TeamFields<T>,
            TeamFieldError,
        >(TeamFieldError::DuplicateUrl),
        fields.url is None && !occurs(url@, expected_sport) ==> fields.with(
            TeamEntry::Url(url),
            expected_sport,
        ) == Err::<TeamFields<T>, TeamFieldError>(TeamFieldError::SportMismatch),
        fields.url is None && occurs(url@, expected_sport) ==> fields.with(
            TeamEntry::Url(url),
            expected_sport,
        ) == Ok::<TeamFields<T>, TeamFieldError>(
            TeamFields { roster: fields.roster, url: Some(url) },
        ),
        fields.with(TeamEntry::Other, expected_sport) == Ok::<TeamFields<T>, TeamFieldError>(
            fields,
        ),
        fields.roster is None ==> fields.team() == Err::<Team<T>, TeamFieldError>(
            TeamFieldError::MissingRoster,
        ),
{
}

/// A statistic has the number that its text writes, and 0 where its text writes none.
pub proof fn statistic_has_its_number(n: u32, text: Seq<char>, place: int)
    requires
        1 <= place < text.len(),
        !is_digit(text[place]),
    ensures
        stat_value_of(decimal(n as nat)) == n,
        stat_value_of(text) == 0,
{
    decimal_reads_back(n as int, 0, u32::MAX as int);
    other_characters_are_no_number(text, 0, u32::MAX as int, place);
}

/// The words for a mismatch name the address, and the expected sport twice.
pub proof fn mismatch_reads_as_expected(url: Seq<char>, expected_sport: Seq<char>)
    ensures
        sport_mismatch(url, expected_sport) == "Sport validation failed: URL '"@ + url
            + "' does not match expected sport '"@ + expected_sport + "'. You requested "@
            + expected_sport + " stats but this team plays a different sport."@,
{
}

} // verus!
