//! A request to the fantasy service, and its repetitions.

use vstd::prelude::*;
use crate::text::{
    chars_of, find_from, occurs, occurs_at, position, position_from, position_from_is_first,
    position_is_determined, position_is_first, same,
};
use crate::yahoo::error::{
    error_kind, is_check_of, plain_message_keeps_words, ResponseCheck, YahooError,
};

verus! {

/// Which access token a request goes out with.
#[derive(Debug)]
pub enum AccessToken {
    /// The one that the caller holds.
    Original,
    /// One that was got meanwhile.
    Renewed(String),
}

/// A request to be sent.
#[derive(Debug)]
pub struct RequestPlan {
    pub url: String,
    pub access_token: AccessToken,
}

/// What follows a reply.
#[derive(Clone, Copy, Debug, PartialEq, Eq, Structural)]
pub enum RequestStep {
    /// The reply is the result.
    Done,
    /// Try again, if an attempt is left.
    Again,
    /// Give up.
    Failed,
}

/// How far a request has come.
#[derive(Debug)]
pub struct RequestState {
    pub retries_allowed: u8,
    /// The access and refresh tokens that were got meanwhile.
    pub new_tokens: Option<(String, String)>,
    /// Whether the endpoint keeps its date.
    pub roster_date: bool,
}

/// An endpoint without what stands between its first semicolon and the next slash.
pub open spec fn without_date(endpoint: Seq<char>) -> Seq<char> {
    match position(endpoint, ";"@) {
        Some(semicolon) => match position_from(endpoint, "/"@, semicolon) {
            Some(slash) => endpoint.take(semicolon) + endpoint.skip(slash),
            None => endpoint,
        },
        None => endpoint,
    }
}

/// The address of an endpoint.
pub open spec fn endpoint_url(endpoint: Seq<char>) -> Seq<char> {
    "https://fantasysports.yahooapis.com/fantasy/v2"@ + endpoint
}

/// The endpoint of the roster of a team, on a date if one is given.
pub open spec fn roster_endpoint_of(team_key: Seq<char>, date: Option<Seq<char>>) -> Seq<char> {
    match date {
        Some(date) => "/team/"@ + team_key + "/roster;date="@ + date + "/players/stats"@,
        None => "/team/"@ + team_key + "/roster/players/stats"@,
    }
}

/// Takes out of an endpoint what stands between its first semicolon and the next slash.
pub fn strip_date(endpoint: &str) -> (r: String)
    ensures
        r@ == without_date(endpoint@),
{
    let hay = chars_of(endpoint);
    let semicolon = chars_of(";");
    let slash = chars_of("/");
    proof {
        position_is_first(endpoint@, ";"@);
    }
    if let Some(from) = find_from(&hay, &semicolon, 0) {
        proof {
            position_from_is_first(endpoint@, "/"@, from as int);
        }
        if let Some(to) = find_from(&hay, &slash, from) {
            let mut out: String = endpoint.substring_char(0, from).to_owned();
            out.append(endpoint.substring_char(to, hay.len()));
            return out;
        }
    }
    endpoint.to_owned()
}

impl RequestState {
    /// The endpoint that the next attempt uses.
    pub open spec fn next_endpoint(self, endpoint: Seq<char>) -> Seq<char> {
        if self.roster_date {
            endpoint
        } else {
            without_date(endpoint)
        }
    }

    /// The token that the next attempt uses.
    pub open spec fn uses_token(self, token: AccessToken) -> bool {
        match self.new_tokens {
            Some((access, _)) => token == AccessToken::Renewed(access),
            None => token == AccessToken::Original,
        }
    }

    /// The step that a reply takes: it uses up an attempt, and its tokens, or its refusal of
    /// dates, are remembered.
    pub open spec fn reply_step(before: Self, status: YahooError, after: Self, step: RequestStep) -> bool {
        &&& after.retries_allowed == before.retries_allowed - 1
        &&& after.new_tokens == match status {
            YahooError::NewTokens(access, refresh) => Some((access, refresh)),
            _ => before.new_tokens,
        }
        &&& after.roster_date == (before.roster_date && !(status matches YahooError::Error(e)
            && e@ == "date unsupported"@))
        &&& step == match status {
            YahooError::Accepted => RequestStep::Done,
            YahooError::Failed => RequestStep::Failed,
            _ => RequestStep::Again,
        }
    }

    /// A request that may be tried so often.
    pub fn new(retries_allowed: u8) -> (r: Self)
        ensures
            r.retries_allowed == retries_allowed,
            r.new_tokens is None,
            r.roster_date,
    {
        RequestState { retries_allowed, new_tokens: None, roster_date: true }
    }

    /// The next attempt, or nothing where all are used up.
    pub fn next_request(&self, endpoint: &str) -> (r: Option<RequestPlan>)
        ensures
            r is Some <==> self.retries_allowed > 0,
            r matches Some(plan) ==> {
                &&& plan.url@ == endpoint_url(self.next_endpoint(endpoint@))
                &&& self.uses_token(plan.access_token)
            },
    {
        if self.retries_allowed == 0 {
            return None;
        }
        let access_token = match &self.new_tokens {
            Some(tokens) => AccessToken::Renewed(tokens.0.clone()),
            None => AccessToken::Original,
        };
        let mut url: String = "https://fantasysports.yahooapis.com/fantasy/v2".to_owned();
        if self.roster_date {
            url.append(endpoint);
        } else {
            url.append(strip_date(endpoint).as_str());
        }
        Some(RequestPlan { url, access_token })
    }

    /// Takes in how the reply was taken.
    pub fn on_reply(&mut self, status: YahooError) -> (r: RequestStep)
        requires
            old(self).retries_allowed > 0,
        ensures
            Self::reply_step(*old(self), status, *final(self), r),
    {
        self.retries_allowed = self.retries_allowed - 1;
        match status {
            YahooError::Accepted => RequestStep::Done,
            YahooError::NewTokens(access, refresh) => {
                self.new_tokens = Some((access, refresh));
                RequestStep::Again
            },
            YahooError::Failed => RequestStep::Failed,
            YahooError::Error(e) => {
                if same(e.as_str(), "date unsupported") {
                    self.roster_date = false;
                }
                RequestStep::Again
            },
        }
    }
}

/// The words for a request that was given up.
pub fn request_failed_text() -> (r: &'static str)
    ensures
        r@ == "Request failed and could not be recovered"@,
{
    "Request failed and could not be recovered"
}

/// The words for a request whose attempts are used up.
pub fn retries_exceeded_text() -> (r: &'static str)
    ensures
        r@ == "Exceeded number of retries allowed"@,
{
    "Exceeded number of retries allowed"
}

/// The endpoint of the leagues of the user.
pub fn leagues_endpoint() -> (r: &'static str)
    ensures
        r@ == "/users;use_login=1/games/leagues"@,
{
    "/users;use_login=1/games/leagues"
}

/// The endpoint of the standings of a league.
pub fn standings_endpoint(league_key: &str) -> (r: String)
    ensures
        r@ == "/league/"@ + league_key@ + "/standings"@,
{
    let mut out: String = "/league/".to_owned();
    out.append(league_key);
    out.append("/standings");
    out
}

/// The endpoint of the settings of a league.
pub fn settings_endpoint(league_key: &str) -> (r: String)
    ensures
        r@ == "/league/"@ + league_key@ + "/settings"@,
{
    let mut out: String = "/league/".to_owned();
    out.append(league_key);
    out.append("/settings");
    out
}

/// The endpoint of the matchups of a team.
pub fn matchups_endpoint(team_key: &str) -> (r: String)
    ensures
        r@ == "/team/"@ + team_key@ + "/matchups"@,
{
    let mut out: String = "/team/".to_owned();
    out.append(team_key);
    out.append("/matchups");
    out
}

/// The endpoint of the roster of a team, on a date if one is given.
pub fn roster_endpoint(team_key: &str, date: Option<&str>) -> (r: String)
    ensures
        r@ == roster_endpoint_of(
            team_key@,
            match date {
                Some(date) => Some(date@),
                None => None,
            },
        ),
{
    let mut out: String = "/team/".to_owned();
    out.append(team_key);
    match date {
        Some(date) => {
            out.append("/roster;date=");
            out.append(date);
            out.append("/players/stats");
        },
        None => {
            out.append("/roster/players/stats");
        },
    }
    out
}

/// A sequence of replies takes at most as many attempts as were allowed: each reply uses one up,
/// and none is sent without one.
pub proof fn attempts_are_bounded(states: Seq<RequestState>, replies: Seq<YahooError>, steps: Seq<RequestStep>)
    requires
        states.len() == replies.len() + 1,
        steps.len() == replies.len(),
        forall|i: int|
            0 <= i < replies.len() ==> {
                &&& (#[trigger] states[i]).retries_allowed > 0
                &&& RequestState::reply_step(states[i], replies[i], states[i + 1], steps[i])
            },
    ensures
        replies.len() <= states[0].retries_allowed,
        states.last().retries_allowed == states[0].retries_allowed - replies.len(),
    decreases replies.len(),
{
    if replies.len() > 0 {
        let n = replies.len() - 1;
        let front = states.drop_last();
        assert forall|i: int| 0 <= i < n implies {
            &&& (#[trigger] front[i]).retries_allowed > 0
            &&& RequestState::reply_step(
                front[i],
                replies.drop_last()[i],
                front[i + 1],
                steps.drop_last()[i],
            )
        } by {
            assert(states[i].retries_allowed > 0);
        }
        attempts_are_bounded(front, replies.drop_last(), steps.drop_last());
        assert(states[n].retries_allowed > 0);
        assert(front.last() == states[n]);
    }
}

/// Once the service gave new tokens, every later attempt goes out with the newest ones.
pub proof fn renewed_token_is_kept(
    before: RequestState,
    access: String,
    refresh: String,
    renewed: RequestState,
    first: RequestStep,
    status: YahooError,
    after: RequestState,
    second: RequestStep,
)
    requires
        RequestState::reply_step(before, YahooError::NewTokens(access, refresh), renewed, first),
        RequestState::reply_step(renewed, status, after, second),
        !(status is NewTokens),
    ensures
        renewed.uses_token(AccessToken::Renewed(access)),
        after.uses_token(AccessToken::Renewed(access)),
        after.new_tokens == Some((access, refresh)),
{
}

/// An endpoint without its date is asked again as the endpoint that never had one: what the
/// service refuses with a date is repeated as the plain roster of the same team. The key of the
/// team holds no semicolon and the date no slash.
pub proof fn undated_roster_is_plain(team_key: Seq<char>, date: Seq<char>)
    requires
        !occurs(team_key, ";"@),
        !occurs(date, "/"@),
    ensures
        without_date(roster_endpoint_of(team_key, Some(date))) == roster_endpoint_of(team_key, None),
{
    let dated = roster_endpoint_of(team_key, Some(date));
    let plain = roster_endpoint_of(team_key, None);
    reveal_strlit("/team/");
    reveal_strlit("/roster;date=");
    reveal_strlit("/roster/players/stats");
    reveal_strlit("/players/stats");
    reveal_strlit(";");
    reveal_strlit("/");
    let semicolon: int = (6 + team_key.len() + 7) as int;
    let slash: int = (6 + team_key.len() + 13 + date.len()) as int;
    assert(dated.subrange(semicolon, semicolon + 1) =~= ";"@);
    assert forall|k: int| 0 <= k < semicolon implies !#[trigger] occurs_at(dated, ";"@, k) by {
        if occurs_at(dated, ";"@, k) {
            assert(dated.subrange(k, k + 1)[0] == ';');
            assert(dated[k] == ';');
            if k < 6 {
                assert(dated[k] == "/team/"@[k]);
            } else if k < 6 + team_key.len() {
                assert(dated[k] == team_key[k - 6]);
                assert(team_key.subrange(k - 6, k - 5) =~= ";"@);
                assert(occurs_at(team_key, ";"@, k - 6));
            } else {
                assert(dated[k] == "/roster;date="@[k - 6 - team_key.len()]);
            }
        }
    }
    position_is_determined(dated, ";"@, semicolon);
    assert(dated.subrange(slash, slash + 1) =~= "/"@);
    assert forall|k: int| semicolon <= k < slash implies !#[trigger] occurs_at(dated, "/"@, k) by {
        if occurs_at(dated, "/"@, k) {
            assert(dated.subrange(k, k + 1)[0] == '/');
            assert(dated[k] == '/');
            let d = k - 6 - team_key.len() - 13;
            if d < 0 {
                assert(dated[k] == "/roster;date="@[k - 6 - team_key.len()]);
            } else {
                assert(dated[k] == date[d]);
                assert(date.subrange(d, d + 1) =~= "/"@);
                assert(occurs_at(date, "/"@, d));
            }
        }
    }
    position_from_is_first(dated, "/"@, semicolon);
    assert(occurs_at(dated, "/"@, slash));
    assert(position_from(dated, "/"@, semicolon) == Some(slash));
    assert(dated.take(semicolon) + dated.skip(slash) =~= plain);
}

/// An endpoint without a semicolon is asked as it is, with or without its date.
pub proof fn plain_endpoint_is_kept(endpoint: Seq<char>)
    requires
        !occurs(endpoint, ";"@),
    ensures
        without_date(endpoint) == endpoint,
{
    position_is_first(endpoint, ";"@);
}

/// A roster that the service refuses because of its date is asked for again without it: after a
/// reply whose error says so, the next attempt goes to the plain roster of the same team. The
/// error is no OAuth error, the key of the team holds no semicolon and the date no slash.
pub proof fn refused_date_is_dropped(
    message: Seq<char>,
    can_refresh: bool,
    status: YahooError,
    before: RequestState,
    after: RequestState,
    step: RequestStep,
    team_key: Seq<char>,
    date: Seq<char>,
)
    requires
        occurs(message, "This game does not support accessing a roster by date"@),
        !occurs(message, " OAuth "@),
        is_check_of(Some(message), can_refresh, ResponseCheck::Final(status)),
        RequestState::reply_step(before, status, after, step),
        !occurs(team_key, ";"@),
        !occurs(date, "/"@),
    ensures
        step == RequestStep::Again,
        after.next_endpoint(roster_endpoint_of(team_key, Some(date))) == roster_endpoint_of(
            team_key,
            None,
        ),
{
    let phrase = "This game does not support accessing a roster by date"@;
    plain_message_keeps_words(message);
    assert(message != "token_expired"@) by {
        reveal_strlit("This game does not support accessing a roster by date");
        reveal_strlit("token_expired");
        let at = choose|at: int| occurs_at(message, phrase, at);
        assert(message.len() >= phrase.len());
    }
    undated_roster_is_plain(team_key, date);
}

/// A reply that reports an expired token, where it can be renewed, calls for new tokens; once
/// they came, the next attempt goes out with them.
pub proof fn expired_token_is_renewed_and_used(
    message: Seq<char>,
    check: ResponseCheck,
    access: String,
    refresh: String,
    before: RequestState,
    after: RequestState,
    step: RequestStep,
)
    requires
        error_kind(message) == "token_expired"@,
        is_check_of(Some(message), true, check),
        RequestState::reply_step(before, YahooError::NewTokens(access, refresh), after, step),
    ensures
        check is RefreshTokens,
        step == RequestStep::Again,
        after.uses_token(AccessToken::Renewed(access)),
{
}

/// What is taken out of an endpoint stands between its first semicolon and the next slash: the semicolon
/// goes, the slash stays. Without a slash after the semicolon nothing is taken out.
pub proof fn date_part_is_taken_out(front: Seq<char>, part: Seq<char>, rest: Seq<char>)
    requires
        !occurs(front, ";"@),
        !occurs(part, "/"@),
    ensures
        without_date(front + ";"@ + part + "/"@ + rest) == front + "/"@ + rest,
        without_date(front + ";"@ + part) == front + ";"@ + part,
{
    reveal_strlit(";");
    reveal_strlit("/");
    let semicolon = front.len() as int;
    let slash: int = (front.len() + 1 + part.len()) as int;
    let dated = front + ";"@ + part + "/"@ + rest;
    let open = front + ";"@ + part;
    assert(dated.subrange(semicolon, semicolon + 1) =~= ";"@);
    assert(open.subrange(semicolon, semicolon + 1) =~= ";"@);
    assert forall|k: int| 0 <= k < semicolon implies !#[trigger] occurs_at(dated, ";"@, k)
        && !occurs_at(open, ";"@, k) by {
        assert(front.subrange(k, k + 1) =~= dated.subrange(k, k + 1));
        assert(front.subrange(k, k + 1) =~= open.subrange(k, k + 1));
        assert(!occurs_at(front, ";"@, k));
    }
    assert forall|k: int| 0 <= k < semicolon implies !#[trigger] occurs_at(open, ";"@, k) by {
        assert(!occurs_at(dated, ";"@, k));
    }
    position_is_determined(dated, ";"@, semicolon);
    position_is_determined(open, ";"@, semicolon);
    assert forall|k: int| semicolon <= k < slash implies !#[trigger] occurs_at(dated, "/"@, k)
        && !occurs_at(open, "/"@, k) by {
        assert(dated.subrange(k, k + 1)[0] == dated[k]);
        assert(open.subrange(k, k + 1)[0] == open[k]);
        if k > semicolon {
            let p = k - semicolon - 1;
            assert(dated[k] == part[p] && open[k] == part[p]);
            if part[p] == '/' {
                assert(part.subrange(p, p + 1) =~= "/"@);
                assert(occurs_at(part, "/"@, p));
            }
        }
    }
    assert(dated.subrange(slash, slash + 1) =~= "/"@);
    assert(occurs_at(dated, "/"@, slash));
    position_from_is_first(dated, "/"@, semicolon);
    position_from_is_first(open, "/"@, semicolon);
    if let Some(at) = position_from(open, "/"@, semicolon) {
        assert(occurs_at(open, "/"@, at));
        assert(at < slash);
        assert(!occurs_at(dated, "/"@, at));
    }
    assert(position_from(dated, "/"@, semicolon) == Some(slash));
    assert(dated.take(semicolon) + dated.skip(slash) =~= front + "/"@ + rest);
}

/// What each reply leaves behind: it uses up one attempt; only new tokens replace the tokens, with
/// the access token first; only a refused date takes the date out, for good; and the request ends
/// where the reply is taken or given up on, and nowhere else.
pub proof fn reply_is_remembered(
    before: RequestState,
    status: YahooError,
    after: RequestState,
    step: RequestStep,
)
    requires
        RequestState::reply_step(before, status, after, step),
    ensures
        after.retries_allowed + 1 == before.retries_allowed,
        status matches YahooError::NewTokens(access, refresh) ==> after.new_tokens == Some(
            (access, refresh),
        ) && after.uses_token(AccessToken::Renewed(access)),
        !(status is NewTokens) ==> after.new_tokens == before.new_tokens,
        before.new_tokens is None && !(status is NewTokens) ==> after.uses_token(
            AccessToken::Original,
        ),
        status matches YahooError::Error(e) ==> (e@ == "date unsupported"@ ==> !after.roster_date)
            && (e@ != "date unsupported"@ ==> after.roster_date == before.roster_date),
        !(status is Error) ==> after.roster_date == before.roster_date,
        step == RequestStep::Done <==> status is Accepted,
        step == RequestStep::Failed <==> status is Failed,
        step == RequestStep::Again <==> status is NewTokens || status is Error,
{
}

/// Endpoints are asked for at the fantasy service, as they are while dates are kept; two endpoints
/// with the same address are the same.
pub proof fn endpoint_has_its_address(state: RequestState, a: Seq<char>, b: Seq<char>)
    ensures
        endpoint_url(a) == "https://fantasysports.yahooapis.com/fantasy/v2"@ + a,
        endpoint_url(a) == endpoint_url(b) ==> a == b,
        state.roster_date ==> state.next_endpoint(a) == a,
{
    let base = "https://fantasysports.yahooapis.com/fantasy/v2"@;
    if endpoint_url(a) == endpoint_url(b) {
        assert(endpoint_url(a).skip(base.len() as int) =~= a);
        assert(endpoint_url(b).skip(base.len() as int) =~= b);
    }
}

/// The roster of a team is asked for under its key, and with a date under that date.
pub proof fn roster_endpoint_names_team_and_date(team_key: Seq<char>, date: Seq<char>)
    ensures
        roster_endpoint_of(team_key, Some(date)) == "/team/"@ + team_key + "/roster;date="@ + date
            + "/players/stats"@,
        roster_endpoint_of(team_key, None) == "/team/"@ + team_key + "/roster/players/stats"@,
{
}

} // verus!
