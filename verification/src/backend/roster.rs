//! The page of a team's roster, which corrects a wrong sport by itself.

use vstd::prelude::*;
use crate::backend::reply::{Failure, HealthNote, PageReply, Status};
use crate::outside::{header_char, is_header_value};
use crate::text::{contains, occurs, occurs_transitive, same};
use crate::yahoo::xml_roster::{mismatch_names_url, sport_mismatch};

verus! {

/// A sport whose rosters can be shown.
#[derive(Clone, Copy, Debug, PartialEq, Eq, Structural)]
pub enum Sport {
    Football,
    Basketball,
    Hockey,
}

/// What follows the first request for a roster.
#[derive(Debug)]
pub enum RosterAnswer {
    /// Answer at once.
    Reply(PageReply),
    /// Ask once more, for the sport that the team plays.
    Retry(Sport),
}

/// What follows the second request for a roster: the answer, and, where the roster is shown, the
/// value of the header that tells of the correction.
#[derive(Debug)]
pub struct RetryAnswer {
    pub reply: PageReply,
    pub corrected: Option<String>,
}

impl Sport {
    /// The name of the sport.
    pub open spec fn name(self) -> Seq<char> {
        match self {
            Sport::Football => "football"@,
            Sport::Basketball => "basketball"@,
            Sport::Hockey => "hockey"@,
        }
    }

    /// The short name of its league.
    pub open spec fn short_name(self) -> Seq<char> {
        match self {
            Sport::Football => "nfl"@,
            Sport::Basketball => "nba"@,
            Sport::Hockey => "nhl"@,
        }
    }

    /// The host that the addresses of its teams name.
    pub open spec fn host(self) -> Seq<char> {
        match self {
            Sport::Football => "football.fantasysports.yahoo.com"@,
            Sport::Basketball => "basketball.fantasysports.yahoo.com"@,
            Sport::Hockey => "hockey.fantasysports.yahoo.com"@,
        }
    }

    /// The sport that a visitor asks for by that text.
    pub open spec fn requested(text: Seq<char>) -> Option<Sport> {
        if text == Sport::Football.short_name() || text == Sport::Football.name() {
            Some(Sport::Football)
        } else if text == Sport::Basketball.short_name() || text == Sport::Basketball.name() {
            Some(Sport::Basketball)
        } else if text == Sport::Hockey.short_name() || text == Sport::Hockey.name() {
            Some(Sport::Hockey)
        } else {
            None
        }
    }

    /// The sport whose host an error names, the first in the order of the sports should it name
    /// several.
    pub open spec fn named_in(error: Seq<char>) -> Option<Sport> {
        if occurs(error, Sport::Football.host()) {
            Some(Sport::Football)
        } else if occurs(error, Sport::Basketball.host()) {
            Some(Sport::Basketball)
        } else if occurs(error, Sport::Hockey.host()) {
            Some(Sport::Hockey)
        } else {
            None
        }
    }

    /// The name of the sport.
    pub fn word(&self) -> (r: &'static str)
        ensures
            r@ == self.name(),
    {
        match self {
            Sport::Football => "football",
            Sport::Basketball => "basketball",
            Sport::Hockey => "hockey",
        }
    }

    /// The sport that a visitor asks for by that text; by any other text, a refusal.
    pub fn from_query(text: &str) -> (r: Result<Self, Failure>)
        ensures
            match r {
                Ok(sport) => Sport::requested(text@) == Some(sport),
                Err(failure) => Sport::requested(text@) is None && failure.is_bare(
                    Status::BadRequest,
                ),
            },
    {
        if same(text, "nfl") || same(text, "football") {
            Ok(Sport::Football)
        } else if same(text, "nba") || same(text, "basketball") {
            Ok(Sport::Basketball)
        } else if same(text, "nhl") || same(text, "hockey") {
            Ok(Sport::Hockey)
        } else {
            Err(Failure::bare(Status::BadRequest))
        }
    }

    /// The sport whose host an error names.
    pub fn from_error(error: &str) -> (r: Option<Self>)
        ensures
            r == Sport::named_in(error@),
    {
        if contains(error, "football.fantasysports.yahoo.com") {
            Some(Sport::Football)
        } else if contains(error, "basketball.fantasysports.yahoo.com") {
            Some(Sport::Basketball)
        } else if contains(error, "hockey.fantasysports.yahoo.com") {
            Some(Sport::Hockey)
        } else {
            None
        }
    }
}

/// Whether an error says that the team plays another sport.
pub open spec fn tells_of_mismatch(error: Seq<char>) -> bool {
    occurs(error, "Sport validation failed"@)
}

/// Whether a reply shows what was asked for and reports a success.
pub open spec fn is_shown(reply: PageReply) -> bool {
    reply.failure is None && reply.health == HealthNote::Success
}

/// Whether a reply is an internal error without words, reported in those words.
pub open spec fn is_internal_error(reply: PageReply, note: Seq<char>) -> bool {
    &&& reply.failure matches Some(failure) && failure.is_bare(Status::InternalServerError)
    &&& reply.health.reports(note)
}

/// Whether that follows the first request for the roster of a team.
pub open spec fn follows_first(
    team_key: Seq<char>,
    error: Option<Seq<char>>,
    answer: RosterAnswer,
) -> bool {
    match error {
        None => answer matches RosterAnswer::Reply(reply) && is_shown(reply),
        Some(error) => if tells_of_mismatch(error) {
            match Sport::named_in(error) {
                Some(sport) => answer == RosterAnswer::Retry(sport),
                None => {
                    &&& answer matches RosterAnswer::Reply(reply)
                    &&& reply.failure matches Some(failure) && failure.says(
                        Status::BadRequest,
                        error,
                    )
                    &&& reply.health == HealthNote::Silent
                },
            }
        } else {
            answer matches RosterAnswer::Reply(reply) && is_internal_error(
                reply,
                "get_team_roster error for "@ + team_key + ": "@ + error,
            )
        },
    }
}

/// What a visitor is told who asked for the wrong sport.
pub open spec fn correction(requested: Seq<char>, sport: Sport) -> Seq<char> {
    "Requested '"@ + requested + "' but team plays '"@ + sport.name() + "'"@
}

/// The header that tells of the correction: what the visitor is told, where that can stand in a
/// header, and else only that there was a correction.
pub open spec fn correction_header(requested: Seq<char>, sport: Sport) -> Seq<char> {
    let text = correction(requested, sport);
    if forall|k: int| 0 <= k < text.len() ==> header_char(#[trigger] text[k]) {
        text
    } else {
        "true"@
    }
}

/// Whether that follows the second request for the roster of a team.
pub open spec fn follows_retry(
    team_key: Seq<char>,
    requested: Seq<char>,
    sport: Sport,
    error: Option<Seq<char>>,
    answer: RetryAnswer,
) -> bool {
    match error {
        None => {
            &&& is_shown(answer.reply)
            &&& answer.corrected matches Some(header) && header@ == correction_header(
                requested,
                sport,
            )
        },
        Some(error) => {
            &&& is_internal_error(
                answer.reply,
                "get_team_roster retry failed for "@ + team_key + ": "@ + error,
            )
            &&& answer.corrected is None
        },
    }
}

/// Says what follows the first request for the roster of a team, with its error, if any.
pub fn after_first_fetch(team_key: &str, error: Option<&str>) -> (r: RosterAnswer)
    ensures
        follows_first(
            team_key@,
            match error {
                Some(error) => Some(error@),
                None => None,
            },
            r,
        ),
{
    let error: &str = match error {
        None => {
            return RosterAnswer::Reply(
                PageReply { failure: None, health: HealthNote::Success },
            );
        },
        Some(error) => error,
    };
    if contains(error, "Sport validation failed") {
        return match Sport::from_error(error) {
            Some(sport) => RosterAnswer::Retry(sport),
            None => RosterAnswer::Reply(
                PageReply {
                    failure: Some(Failure::new(Status::BadRequest, error)),
                    health: HealthNote::Silent,
                },
            ),
        };
    }
    let mut note: String = "get_team_roster error for ".to_owned();
    note.append(team_key);
    note.append(": ");
    note.append(error);
    RosterAnswer::Reply(
        PageReply {
            failure: Some(Failure::bare(Status::InternalServerError)),
            health: HealthNote::Error(note),
        },
    )
}

/// The header that tells a visitor of the correction.
pub fn correction_header_text(requested: &str, sport: Sport) -> (r: String)
    ensures
        r@ == correction_header(requested@, sport),
{
    let mut text: String = "Requested '".to_owned();
    text.append(requested);
    text.append("' but team plays '");
    text.append(sport.word());
    text.append("'");
    if is_header_value(text.as_str()) {
        text
    } else {
        "true".to_owned()
    }
}

/// Says what follows the second request for the roster of a team, which was made for the sport
/// that the team plays, with its error, if any.
pub fn after_retry(team_key: &str, requested: &str, sport: Sport, error: Option<&str>) -> (r:
    RetryAnswer)
    ensures
        follows_retry(
            team_key@,
            requested@,
            sport,
            match error {
                Some(error) => Some(error@),
                None => None,
            },
            r,
        ),
{
    match error {
        None => RetryAnswer {
            reply: PageReply { failure: None, health: HealthNote::Success },
            corrected: Some(correction_header_text(requested, sport)),
        },
        Some(error) => {
            let mut note: String = "get_team_roster retry failed for ".to_owned();
            note.append(team_key);
            note.append(": ");
            note.append(error);
            RetryAnswer {
                reply: PageReply {
                    failure: Some(Failure::bare(Status::InternalServerError)),
                    health: HealthNote::Error(note),
                },
                corrected: None,
            }
        },
    }
}

/// A team that plays another sport than was asked for is asked for again under its own: where
/// the error holds the words for a mismatch, and the address in them names the host of a sport,
/// the next request is for that sport. The error names no host of a sport that comes before.
pub proof fn mismatch_is_corrected(
    team_key: Seq<char>,
    error: Seq<char>,
    url: Seq<char>,
    expected_sport: Seq<char>,
    sport: Sport,
    answer: RosterAnswer,
)
    requires
        occurs(error, sport_mismatch(url, expected_sport)),
        occurs(url, sport.host()),
        sport != Sport::Football ==> !occurs(error, Sport::Football.host()),
        sport == Sport::Hockey ==> !occurs(error, Sport::Basketball.host()),
        follows_first(team_key, Some(error), answer),
    ensures
        answer == RosterAnswer::Retry(sport),
{
    let words = sport_mismatch(url, expected_sport);
    mismatch_names_url(url, expected_sport);
    occurs_transitive(error, words, "Sport validation failed"@);
    occurs_transitive(error, words, url);
    occurs_transitive(error, url, sport.host());
}

/// A roster is asked for again only under a sport that the error names, and an error that names
/// no sport is never asked again.
pub proof fn retry_needs_named_sport(
    team_key: Seq<char>,
    error: Option<Seq<char>>,
    sport: Sport,
)
    requires
        follows_first(team_key, error, RosterAnswer::Retry(sport)),
    ensures
        error is Some,
        tells_of_mismatch(error->0),
        occurs(error->0, sport.host()),
{
}

/// Both names of a sport ask for it, and so does the name by which it is corrected.
pub proof fn sport_names_are_understood(sport: Sport)
    ensures
        Sport::requested(sport.name()) == Some(sport),
        Sport::requested(sport.short_name()) == Some(sport),
{
    reveal_strlit("nfl");
    reveal_strlit("nba");
    reveal_strlit("nhl");
    reveal_strlit("football");
    reveal_strlit("basketball");
    reveal_strlit("hockey");
    assert("nfl"@[1] == 'f' && "nba"@[1] == 'b' && "nhl"@[1] == 'h');
    assert("nfl"@.len() == 3 && "nba"@.len() == 3 && "nhl"@.len() == 3);
    assert("football"@.len() == 8 && "basketball"@.len() == 10 && "hockey"@.len() == 6);
}

/// What follows the first request: the roster where there was no error; another request where the error
/// tells of a wrong sport and names the right one; the error itself, as a bad request, where it names
/// none; and an internal error without words for every other error, of which the health page is told
/// with the team.
pub proof fn first_request_is_answered(
    team_key: Seq<char>,
    error: Seq<char>,
    answer: RosterAnswer,
    shown: RosterAnswer,
)
    requires
        follows_first(team_key, Some(error), answer),
        follows_first(team_key, None, shown),
    ensures
        shown matches RosterAnswer::Reply(reply) && reply.failure is None && reply.health is Success,
        answer is Retry <==> occurs(error, "Sport validation failed"@) && (occurs(
            error,
            "football.fantasysports.yahoo.com"@,
        ) || occurs(error, "basketball.fantasysports.yahoo.com"@) || occurs(
            error,
            "hockey.fantasysports.yahoo.com"@,
        )),
        answer matches RosterAnswer::Retry(Sport::Football) ==> occurs(
            error,
            "football.fantasysports.yahoo.com"@,
        ),
        answer matches RosterAnswer::Retry(Sport::Basketball) ==> occurs(
            error,
            "basketball.fantasysports.yahoo.com"@,
        ) && !occurs(error, "football.fantasysports.yahoo.com"@),
        answer matches RosterAnswer::Retry(Sport::Hockey) ==> occurs(
            error,
            "hockey.fantasysports.yahoo.com"@,
        ) && !occurs(error, "football.fantasysports.yahoo.com"@) && !occurs(
            error,
            "basketball.fantasysports.yahoo.com"@,
        ),
        answer matches RosterAnswer::Reply(reply) ==> (if occurs(
            error,
            "Sport validation failed"@,
        ) {
            &&& reply.failure matches Some(failure) && failure.status.number() == 400 && (
            failure.message matches Some(text) && text@ == error)
            &&& reply.health is Silent
        } else {
            &&& reply.failure matches Some(failure) && failure.status.number() == 500
                && failure.message is None
            &&& reply.health matches HealthNote::Error(note) && note@
                == "get_team_roster error for "@ + team_key + ": "@ + error
        }),
{
}

/// A sport is asked for by its own two names and by no other text.
pub proof fn only_sport_names_ask(text: Seq<char>, sport: Sport)
    requires
        Sport::requested(text) == Some(sport),
    ensures
        sport == Sport::Football ==> text == "nfl"@ || text == "football"@,
        sport == Sport::Basketball ==> text == "nba"@ || text == "basketball"@,
        sport == Sport::Hockey ==> text == "nhl"@ || text == "hockey"@,
{
}

/// A visitor who asked for the wrong sport is told the sport that was asked for and the one that the
/// team plays, where that can stand in a header, and else only that there was a correction.
pub proof fn correction_names_both_sports(
    requested: Seq<char>,
    sport: Sport,
    name: Seq<char>,
    text: Seq<char>,
    at: int,
)
    requires
        sport == Sport::Football ==> name == "football"@,
        sport == Sport::Basketball ==> name == "basketball"@,
        sport == Sport::Hockey ==> name == "hockey"@,
        text == "Requested '"@ + requested + "' but team plays '"@ + name + "'"@,
    ensures
        (forall|k: int| 0 <= k < text.len() ==> header_char(#[trigger] text[k]))
            ==> correction_header(requested, sport) == text,
        0 <= at < text.len() && !header_char(text[at]) ==> correction_header(requested, sport)
            == "true"@,
{
    assert(correction(requested, sport) == text);
}

/// The second request is answered in any case: with the roster and the header that tells of the
/// correction, and a success for the health page; or with an internal error without words and no such
/// header, and the team and the error for the health page.
pub proof fn second_request_is_answered(
    team_key: Seq<char>,
    requested: Seq<char>,
    sport: Sport,
    error: Seq<char>,
    failed: RetryAnswer,
    shown: RetryAnswer,
)
    requires
        follows_retry(team_key, requested, sport, Some(error), failed),
        follows_retry(team_key, requested, sport, None, shown),
    ensures
        shown.reply.failure is None,
        shown.reply.health is Success,
        shown.corrected matches Some(header) && header@ == correction_header(requested, sport),
        failed.reply.failure matches Some(failure) && failure.status.number() == 500
            && failure.message is None,
        failed.reply.health matches HealthNote::Error(note) && note@
            == "get_team_roster retry failed for "@ + team_key + ": "@ + error,
        failed.corrected is None,
{
}

} // verus!
