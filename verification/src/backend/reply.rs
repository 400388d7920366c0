//! What the pages answer, and what they report to the health page.

use vstd::prelude::*;
use crate::text::opt_view;

verus! {

/// The status of a refusal.
#[derive(Clone, Copy, Debug, PartialEq, Eq, Structural)]
pub enum Status {
    BadRequest,
    Unauthorized,
    InternalServerError,
}

/// A refusal: its status, and its words, if there are any.
#[derive(Debug)]
pub struct Failure {
    pub status: Status,
    pub message: Option<String>,
}

/// What the health page is told.
#[derive(Debug)]
pub enum HealthNote {
    /// Nothing.
    Silent,
    /// That a call succeeded.
    Success,
    /// That a call failed, with these words.
    Error(String),
}

/// A page that shows something of the fantasy service.
#[derive(Debug)]
pub enum Page {
    /// The leagues of the user.
    Leagues,
    /// The standings of a league, by its key.
    Standings(String),
    /// The matchups of a team, by its key.
    Matchups(String),
    /// The statistics of all leagues of the user.
    DebugStats,
}

/// What a page answers: a refusal, or what it was asked for, and what the health page is told.
#[derive(Debug)]
pub struct PageReply {
    pub failure: Option<Failure>,
    pub health: HealthNote,
}

impl Status {
    /// The number of the status.
    pub open spec fn number(self) -> u16 {
        match self {
            Status::BadRequest => 400,
            Status::Unauthorized => 401,
            Status::InternalServerError => 500,
        }
    }

    /// The number of the status.
    pub fn code(&self) -> (r: u16)
        ensures
            r == self.number(),
    {
        match self {
            Status::BadRequest => 400,
            Status::Unauthorized => 401,
            Status::InternalServerError => 500,
        }
    }
}

impl Failure {
    /// Whether this is a refusal of that status with those words.
    pub open spec fn says(self, status: Status, message: Seq<char>) -> bool {
        self.status == status && opt_view(self.message) == Some(message)
    }

    /// Whether this is a refusal of that status without words.
    pub open spec fn is_bare(self, status: Status) -> bool {
        self.status == status && self.message is None
    }

    /// A refusal with words.
    pub fn new(status: Status, message: &str) -> (r: Self)
        ensures
            r.says(status, message@),
    {
        Failure { status, message: Some(message.to_owned()) }
    }

    /// A refusal without words.
    pub fn bare(status: Status) -> (r: Self)
        ensures
            r.is_bare(status),
    {
        Failure { status, message: None }
    }
}

impl HealthNote {
    /// Whether the health page is told of a failure in those words.
    pub open spec fn reports(self, message: Seq<char>) -> bool {
        self matches HealthNote::Error(text) && text@ == message
    }
}

impl Page {
    /// The words for the health page where the page cannot be shown, if it is told.
    pub open spec fn error_note(self, error: Seq<char>) -> Option<Seq<char>> {
        match self {
            Page::Leagues => Some("get_user_leagues error: "@ + error),
            Page::Standings(key) => Some(
                "get_league_standings error for "@ + key@ + ": "@ + error,
            ),
            Page::Matchups(key) => Some("get_matchups error for "@ + key@ + ": "@ + error),
            Page::DebugStats => None,
        }
    }

    /// Whether the page answers like this: what it was asked for where there was no error, and
    /// else an internal error, of which only the page of leagues says more.
    pub open spec fn answers(self, error: Option<Seq<char>>, reply: PageReply) -> bool {
        match error {
            None => {
                &&& reply.failure is None
                &&& reply.health == if self is DebugStats {
                    HealthNote::Silent
                } else {
                    HealthNote::Success
                }
            },
            Some(error) => {
                &&& reply.failure matches Some(failure) && if self is Leagues {
                    failure.says(
                        Status::InternalServerError,
                        "Failed to fetch leagues: "@ + error,
                    )
                } else {
                    failure.is_bare(Status::InternalServerError)
                }
                &&& match self.error_note(error) {
                    Some(note) => reply.health.reports(note),
                    None => reply.health == HealthNote::Silent,
                }
            },
        }
    }
}

/// The refusal of a page to a visitor without an access token, if the visitor has none.
pub fn require_token(has_token: bool) -> (r: Option<Failure>)
    ensures
        r is None <==> has_token,
        r matches Some(failure) ==> failure.says(
            Status::Unauthorized,
            "Unauthorized, missing access_token"@,
        ),
{
    if has_token {
        None
    } else {
        Some(Failure::new(Status::Unauthorized, "Unauthorized, missing access_token"))
    }
}

/// What a page answers once the fantasy service was asked, with the error of that, if any.
pub fn page_reply(page: &Page, error: Option<&str>) -> (r: PageReply)
    ensures
        page.answers(
            match error {
                Some(error) => Some(error@),
                None => None,
            },
            r,
        ),
{
    match error {
        None => {
            let health = match page {
                Page::DebugStats => HealthNote::Silent,
                _ => HealthNote::Success,
            };
            PageReply { failure: None, health }
        },
        Some(error) => match page {
            Page::Leagues => {
                let mut note: String = "get_user_leagues error: ".to_owned();
                note.append(error);
                let mut message: String = "Failed to fetch leagues: ".to_owned();
                message.append(error);
                PageReply {
                    failure: Some(
                        Failure { status: Status::InternalServerError, message: Some(message) },
                    ),
                    health: HealthNote::Error(note),
                }
            },
            Page::Standings(key) => {
                let mut note: String = "get_league_standings error for ".to_owned();
                note.append(key.as_str());
                note.append(": ");
                note.append(error);
                PageReply {
                    failure: Some(Failure::bare(Status::InternalServerError)),
                    health: HealthNote::Error(note),
                }
            },
            Page::Matchups(key) => {
                let mut note: String = "get_matchups error for ".to_owned();
                note.append(key.as_str());
                note.append(": ");
                note.append(error);
                PageReply {
                    failure: Some(Failure::bare(Status::InternalServerError)),
                    health: HealthNote::Error(note),
                }
            },
            Page::DebugStats => PageReply {
                failure: Some(Failure::bare(Status::InternalServerError)),
                health: HealthNote::Silent,
            },
        },
    }
}

/// The health page is told of a success only where the page shows what it was asked for, and of
/// an error only where the page refuses.
pub proof fn health_agrees_with_answer(page: Page, error: Option<Seq<char>>, reply: PageReply)
    requires
        page.answers(error, reply),
    ensures
        reply.health is Success ==> reply.failure is None,
        reply.health is Error ==> reply.failure is Some,
        reply.failure is Some <==> error is Some,
{
}

/// A status has its number of HTTP, and two statuses with the same number are the same.
pub proof fn status_has_its_number(status: Status, other: Status)
    ensures
        status is BadRequest ==> status.number() == 400,
        status is Unauthorized ==> status.number() == 401,
        status is InternalServerError ==> status.number() == 500,
        status.number() == other.number() ==> status == other,
{
}

/// A page that cannot be shown answers with the status 500. The page of leagues says why; the others
/// say nothing. The health page is told which page failed, for which league or team, and why; only the
/// page of statistics tells it nothing.
pub proof fn failed_page_is_refused(page: Page, error: Seq<char>, reply: PageReply)
    requires
        page.answers(Some(error), reply),
    ensures
        reply.failure matches Some(failure) && failure.status.number() == 500,
        page is Leagues ==> (reply.failure->0.message matches Some(text) && text@
            == "Failed to fetch leagues: "@ + error),
        !(page is Leagues) ==> reply.failure->0.message is None,
        page is Leagues ==> (reply.health matches HealthNote::Error(note) && note@
            == "get_user_leagues error: "@ + error),
        page matches Page::Standings(key) ==> (reply.health matches HealthNote::Error(note)
            && note@ == "get_league_standings error for "@ + key@ + ": "@ + error),
        page matches Page::Matchups(key) ==> (reply.health matches HealthNote::Error(note) && note@
            == "get_matchups error for "@ + key@ + ": "@ + error),
        page is DebugStats ==> reply.health is Silent,
{
}

/// A page that can be shown is shown, and the health page is told of the success, except by the page of
/// statistics.
pub proof fn shown_page_is_counted(page: Page, reply: PageReply)
    requires
        page.answers(None, reply),
    ensures
        reply.failure is None,
        page is DebugStats ==> reply.health is Silent,
        !(page is DebugStats) ==> reply.health is Success,
{
}

/// What a refusal is said to be is what it holds: its status, and its words or none.
pub proof fn refusal_holds_what_it_says(failure: Failure, status: Status, message: Seq<char>)
    ensures
        failure.says(status, message) <==> failure.status == status && (
        failure.message matches Some(text) && text@ == message),
        failure.is_bare(status) <==> failure.status == status && failure.message is None,
{
}

} // verus!
