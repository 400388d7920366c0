//! The errors of the fantasy service, and what each of them calls for.

use vstd::prelude::*;
use crate::text::{
    contains, occurs, occurs_at, position, position_is_determined, position_is_first, same, split,
    split_once, split_rejoins, strip_prefix, strip_suffix, unprefixed, unprefixed_rejoins,
    unsuffixed, unsuffixed_rejoins,
};

verus! {

/// How a reply of the service is taken.
#[derive(Debug)]
pub enum YahooError {
    /// It is no error.
    Accepted,
    /// The access token had expired; these are the new access and refresh tokens.
    NewTokens(String, String),
    /// The access token had expired and could not be renewed.
    Failed,
    /// Any other error, in words.
    Error(String),
}

/// How a reply is taken, or that new tokens are to be asked for first.
#[derive(Debug)]
pub enum ResponseCheck {
    Final(YahooError),
    RefreshTokens,
}

/// The name and the value of the first pair that an OAuth error lists.
pub open spec fn oauth_pair(message: Seq<char>) -> Option<(Seq<char>, Seq<char>)> {
    match split(message, " OAuth "@) {
        Some((_, pairs)) => match split(pairs, ","@) {
            Some((error, _)) => split(error, "="@),
            None => None,
        },
        None => None,
    }
}

/// A value without the quotes around it, if it has both.
pub open spec fn unquoted(value: Seq<char>) -> Seq<char> {
    match unprefixed(value, "\""@) {
        Some(rest) => match unsuffixed(rest, "\""@) {
            Some(inner) => inner,
            None => value,
        },
        None => value,
    }
}

/// The kind of error that a message reports: its own words, unless it is an OAuth error.
pub open spec fn error_kind(message: Seq<char>) -> Seq<char> {
    match oauth_pair(message) {
        Some((key, value)) => {
            if key == "oauth_problem"@ && unquoted(value) == "token_expired"@ {
                "token_expired"@
            } else if key == "oauth_problem"@ && unquoted(value)
                == "unable_to_determine_oauth_type"@ {
                "OAuth logic error, this should not be reachable."@
            } else {
                "Unexpected yahoo error: (key: "@ + key + ", value: "@ + value + ")"@
            }
        },
        None => message,
    }
}

/// What an error calls for.
pub open spec fn is_verdict_on(kind: Seq<char>, can_refresh: bool, check: ResponseCheck) -> bool {
    if kind == "token_expired"@ {
        if can_refresh {
            check is RefreshTokens
        } else {
            check == ResponseCheck::Final(YahooError::Failed)
        }
    } else if occurs(kind, "This game does not support accessing a roster by date"@) {
        check matches ResponseCheck::Final(YahooError::Error(e)) && e@ == "date unsupported"@
    } else {
        check matches ResponseCheck::Final(YahooError::Error(e)) && e@ == kind
    }
}

/// What a reply calls for, given the description of the error that it holds, if it holds one.
pub open spec fn is_check_of(
    description: Option<Seq<char>>,
    can_refresh: bool,
    check: ResponseCheck,
) -> bool {
    match description {
        Some(message) => is_verdict_on(error_kind(message), can_refresh, check),
        None => check == ResponseCheck::Final(YahooError::Accepted),
    }
}

impl YahooError {
    /// The error in words, without the tokens.
    pub open spec fn words(self) -> Seq<char> {
        match self {
            YahooError::Accepted => "YahooError::Ok"@,
            YahooError::NewTokens(_, _) => "YahooError::NewTokens([REDACTED], [REDACTED])"@,
            YahooError::Failed => "YahooError::Failed"@,
            YahooError::Error(e) => "YahooError("@ + e@ + ")"@,
        }
    }

    /// The error in words, without the tokens.
    pub fn to_text(&self) -> (r: String)
        ensures
            r@ == self.words(),
    {
        match self {
            YahooError::Accepted => "YahooError::Ok".to_owned(),
            YahooError::NewTokens(_, _) => "YahooError::NewTokens([REDACTED], [REDACTED])".to_owned(),
            YahooError::Failed => "YahooError::Failed".to_owned(),
            YahooError::Error(e) => {
                let mut text: String = "YahooError(".to_owned();
                text.append(e.as_str());
                text.append(")");
                text
            },
        }
    }

    /// The kind of error that a message reports.
    pub fn handle_checks(message: String) -> (r: String)
        ensures
            r@ == error_kind(message@),
    {
        if let Some((_, pairs)) = split_once(message.as_str(), " OAuth ") {
            if let Some((error, _)) = split_once(pairs, ",") {
                if let Some((key, value)) = split_once(error, "=") {
                    let trimmed: &str = match strip_prefix(value, "\"") {
                        Some(rest) => match strip_suffix(rest, "\"") {
                            Some(inner) => inner,
                            None => value,
                        },
                        None => value,
                    };
                    if same(key, "oauth_problem") {
                        if same(trimmed, "token_expired") {
                            return "token_expired".to_owned();
                        }
                        if same(trimmed, "unable_to_determine_oauth_type") {
                            return "OAuth logic error, this should not be reachable.".to_owned();
                        }
                    }
                    let mut text: String = "Unexpected yahoo error: (key: ".to_owned();
                    text.append(key);
                    text.append(", value: ");
                    text.append(value);
                    text.append(")");
                    return text;
                }
            }
        }
        message
    }

    /// What a reply calls for. The two descriptions are what the reply holds when it is read as
    /// an error of the OAuth kind and as one of the other kind; the first counts.
    pub fn check_response(
        namespaced: Option<String>,
        plain: Option<String>,
        can_refresh: bool,
    ) -> (r: ResponseCheck)
        ensures
            match namespaced {
                Some(message) => is_check_of(Some(message@), can_refresh, r),
                None => match plain {
                    Some(message) => is_check_of(Some(message@), can_refresh, r),
                    None => is_check_of(None, can_refresh, r),
                },
            },
    {
        let description: Option<String> = match namespaced {
            Some(message) => Some(message),
            None => plain,
        };
        match description {
            Some(message) => {
                let kind: String = Self::handle_checks(message);
                if same(kind.as_str(), "token_expired") {
                    if can_refresh {
                        ResponseCheck::RefreshTokens
                    } else {
                        ResponseCheck::Final(YahooError::Failed)
                    }
                } else if contains(
                    kind.as_str(),
                    "This game does not support accessing a roster by date",
                ) {
                    ResponseCheck::Final(YahooError::Error("date unsupported".to_owned()))
                } else {
                    ResponseCheck::Final(YahooError::Error(kind))
                }
            },
            None => ResponseCheck::Final(YahooError::Accepted),
        }
    }

    /// How the reply is taken once new tokens were asked for: with them, if they came.
    pub fn after_refresh(tokens: Option<(String, String)>) -> (r: Self)
        ensures
            match tokens {
                Some((access, refresh)) => r == YahooError::NewTokens(access, refresh),
                None => r == YahooError::Failed,
            },
    {
        match tokens {
            Some((access, refresh)) => YahooError::NewTokens(access, refresh),
            None => YahooError::Failed,
        }
    }
}

/// A message that is no OAuth error keeps its words.
pub proof fn plain_message_keeps_words(message: Seq<char>)
    requires
        !occurs(message, " OAuth "@),
    ensures
        error_kind(message) == message,
{
    position_is_first(message, " OAuth "@);
}

/// An expired token is recognised in whatever surrounds it: a message whose first OAuth mark is
/// followed by that problem, in quotes and before a comma, is of that kind.
pub proof fn expired_token_is_recognised(before: Seq<char>, after: Seq<char>)
    requires
        position(
            before + " OAuth "@ + "oauth_problem=\"token_expired\","@ + after,
            " OAuth "@,
        ) == Some(before.len() as int),
    ensures
        error_kind(before + " OAuth "@ + "oauth_problem=\"token_expired\","@ + after)
            == "token_expired"@,
{
    let message = before + " OAuth "@ + "oauth_problem=\"token_expired\","@ + after;
    let pairs = "oauth_problem=\"token_expired\","@ + after;
    let error = "oauth_problem=\"token_expired\""@;
    let value = "\"token_expired\""@;
    reveal_strlit(" OAuth ");
    reveal_strlit("oauth_problem=\"token_expired\",");
    reveal_strlit("oauth_problem=\"token_expired\"");
    reveal_strlit("\"token_expired\"");
    reveal_strlit("oauth_problem");
    reveal_strlit("token_expired");
    reveal_strlit(",");
    reveal_strlit("=");
    reveal_strlit("\"");
    assert(message.skip((before.len() + " OAuth "@.len()) as int) =~= pairs);
    assert(split(message, " OAuth "@) == Some((message.take(before.len() as int), pairs)));
    assert(pairs.subrange(29, 30) =~= ","@);
    assert forall|k: int| 0 <= k < 29 implies !#[trigger] occurs_at(pairs, ","@, k) by {
        assert(pairs.subrange(k, k + 1)[0] == pairs[k]);
        assert(pairs[k] == "oauth_problem=\"token_expired\","@[k]);
    }
    position_is_determined(pairs, ","@, 29);
    assert(pairs.take(29) =~= error);
    assert(error.subrange(13, 14) =~= "="@);
    assert forall|k: int| 0 <= k < 13 implies !#[trigger] occurs_at(error, "="@, k) by {
        assert(error.subrange(k, k + 1)[0] == error[k]);
    }
    position_is_determined(error, "="@, 13);
    assert(error.take(13) =~= "oauth_problem"@);
    assert(error.skip(14) =~= value);
    assert(value.subrange(0, 1) =~= "\""@);
    let rest = value.skip(1);
    assert(rest.subrange(13, 14) =~= "\""@);
    assert(rest.take(13) =~= "token_expired"@);
}

/// A text that does not hold a text of one character has that character nowhere.
proof fn lacks_character(text: Seq<char>, needle: Seq<char>, c: char)
    requires
        needle.len() == 1,
        needle[0] == c,
        !occurs(text, needle),
    ensures
        forall|i: int| 0 <= i < text.len() ==> #[trigger] text[i] != c,
{
    assert forall|i: int| 0 <= i < text.len() implies #[trigger] text[i] != c by {
        if text[i] == c {
            assert(text.subrange(i, i + 1) =~= needle);
            assert(occurs_at(text, needle, i));
        }
    }
}

/// A text holds another only if it has the other's character of position `at` there or later.
proof fn character_is_needed(text: Seq<char>, needle: Seq<char>, at: int)
    requires
        0 <= at < needle.len(),
        forall|i: int| at <= i < text.len() ==> #[trigger] text[i] != needle[at],
    ensures
        !occurs(text, needle),
{
    assert forall|k: int| !#[trigger] occurs_at(text, needle, k) by {
        if occurs_at(text, needle, k) {
            assert(text.subrange(k, k + needle.len())[at] == text[k + at]);
        }
    }
}

proof fn unexpected_pair_is_no_oauth_error(key: Seq<char>, value: Seq<char>)
    requires
        forall|i: int| 0 <= i < key.len() ==> #[trigger] key[i] != ',' && key[i] != '=',
        forall|i: int| 0 <= i < value.len() ==> #[trigger] value[i] != ',',
    ensures
        oauth_pair("Unexpected yahoo error: (key: "@ + key + ", value: "@ + value + ")"@) is None,
{
    let start = "Unexpected yahoo error: (key: "@;
    let kind = start + key + ", value: "@ + value + ")"@;
    reveal_strlit("Unexpected yahoo error: (key: ");
    reveal_strlit(", value: ");
    reveal_strlit(")");
    reveal_strlit(" OAuth ");
    reveal_strlit(",");
    reveal_strlit("=");
    position_is_first(kind, " OAuth "@);
    if let Some(at) = position(kind, " OAuth "@) {
        let comma: int = (start.len() + key.len()) as int;
        let pairs = kind.skip(at + 7);
        let mark = kind.subrange(at, at + 7);
        assert(mark == " OAuth "@);
        assert(mark[1] == kind[at + 1]);
        if at + 1 < start.len() {
            assert(kind[at + 1] == start[at + 1]);
        }
        assert(kind[comma] == ", value: "@[0]);
        if at <= comma < at + 7 {
            assert(mark[comma - at] == kind[comma]);
        }
        if at + 7 <= comma {
            let end = comma - (at + 7);
            assert(pairs.subrange(end, end + 1) =~= ","@);
            assert forall|k: int| 0 <= k < end implies !#[trigger] occurs_at(pairs, ","@, k) by {
                assert(pairs.subrange(k, k + 1)[0] == pairs[k]);
                assert(pairs[k] == key[k + at + 7 - start.len()]);
            }
            position_is_determined(pairs, ","@, end);
            let error = pairs.take(end);
            assert forall|i: int| 0 <= i < error.len() implies #[trigger] error[i] != '=' by {
                assert(error[i] == key[i + at + 7 - start.len()]);
            }
            character_is_needed(error, "="@, 0);
            position_is_first(error, "="@);
        } else {
            assert forall|i: int| 0 <= i < pairs.len() implies #[trigger] pairs[i] != ',' by {
                let place = i + at + 7 - comma;
                assert(pairs[i] == kind[i + at + 7]);
                if place < 9 {
                    assert(pairs[i] == ", value: "@[place]);
                } else if place < 9 + value.len() {
                    assert(pairs[i] == value[place - 9]);
                } else {
                    assert(pairs[i] == ")"@[0]);
                }
            }
            character_is_needed(pairs, ","@, 0);
            position_is_first(pairs, ","@);
        }
    }
}

/// An error that was classified is not classified again: the kind of a kind is that kind, whatever
/// the message holds.
pub proof fn kind_is_kept(message: Seq<char>)
    ensures
        error_kind(error_kind(message)) == error_kind(message),
{
    reveal_strlit(" OAuth ");
    reveal_strlit(",");
    reveal_strlit("=");
    if let Some((key, value)) = oauth_pair(message) {
        let (_, pairs) = split(message, " OAuth "@)->0;
        let (error, _) = split(pairs, ","@)->0;
        split_rejoins(pairs, ","@);
        split_rejoins(error, "="@);
        lacks_character(error, ","@, ',');
        lacks_character(key, "="@, '=');
        assert(error == key + "="@ + value);
        assert forall|i: int| 0 <= i < key.len() implies #[trigger] key[i] != ',' && key[i]
            != '=' by {
            assert(error[i] == key[i]);
        }
        assert forall|i: int| 0 <= i < value.len() implies #[trigger] value[i] != ',' by {
            assert(error[key.len() + 1 + i] == value[i]);
        }
        unexpected_pair_is_no_oauth_error(key, value);
        reveal_strlit("token_expired");
        reveal_strlit("OAuth logic error, this should not be reachable.");
        character_is_needed("token_expired"@, " OAuth "@, 1);
        character_is_needed("OAuth logic error, this should not be reachable."@, " OAuth "@, 1);
        plain_message_keeps_words("token_expired"@);
        plain_message_keeps_words("OAuth logic error, this should not be reachable."@);
    }
}

/// A value in quotes is taken without them, and a value that does not start with one as it is.
pub proof fn quotes_are_taken_off(value: Seq<char>)
    ensures
        unquoted("\""@ + value + "\""@) == value,
        value.len() > 0 && value[0] != '"' ==> unquoted(value) == value,
{
    reveal_strlit("\"");
    let quoted = "\""@ + value + "\""@;
    assert(quoted =~= "\""@ + (value + "\""@));
    unprefixed_rejoins(value + "\""@, "\""@);
    unsuffixed_rejoins(value, "\""@);
    if value.len() > 0 && value[0] != '"' {
        if occurs_at(value, "\""@, 0) {
            assert(value.subrange(0, 1)[0] == value[0]);
        }
    }
}

/// An OAuth error is classified by the first pair after its mark: the name before the equals sign and
/// the value up to the comma. The name `oauth_problem` with the value `token_expired` is an expired
/// token, with `unable_to_determine_oauth_type` an error of our own; any other pair is reported with
/// its name and its value as they stand.
pub proof fn oauth_error_is_classified_by_its_pair(
    before: Seq<char>,
    key: Seq<char>,
    value: Seq<char>,
    after: Seq<char>,
    problem: Seq<char>,
)
    requires
        position(before + " OAuth "@ + (key + "="@ + value + ","@ + after), " OAuth "@) == Some(
            before.len() as int,
        ),
        forall|i: int| 0 <= i < key.len() ==> #[trigger] key[i] != ',' && key[i] != '=',
        forall|i: int| 0 <= i < value.len() ==> #[trigger] value[i] != ',',
        value == problem && problem.len() > 0 && problem[0] != '"' || value == "\""@ + problem
            + "\""@,
    ensures
        ({
            let kind = error_kind(
                before + " OAuth "@ + (key + "="@ + value + ","@ + after),
            );
            &&& key == "oauth_problem"@ && problem == "token_expired"@ ==> kind
                == "token_expired"@
            &&& key == "oauth_problem"@ && problem == "unable_to_determine_oauth_type"@ ==> kind
                == "OAuth logic error, this should not be reachable."@
            &&& key != "oauth_problem"@ || (problem != "token_expired"@ && problem
                != "unable_to_determine_oauth_type"@) ==> kind
                == "Unexpected yahoo error: (key: "@ + key + ", value: "@ + value + ")"@
        }),
{
    reveal_strlit(" OAuth ");
    reveal_strlit(",");
    reveal_strlit("=");
    let pairs = key + "="@ + value + ","@ + after;
    let message = before + " OAuth "@ + pairs;
    assert(message.skip(before.len() as int + 7) =~= pairs);
    let error = key + "="@ + value;
    let comma = error.len() as int;
    assert(pairs.subrange(comma, comma + 1) =~= ","@);
    assert forall|k: int| 0 <= k < comma implies !#[trigger] occurs_at(pairs, ","@, k) by {
        assert(pairs.subrange(k, k + 1)[0] == pairs[k]);
        if k < key.len() {
            assert(pairs[k] == key[k]);
        } else if k > key.len() {
            assert(pairs[k] == value[k - key.len() - 1]);
        }
    }
    position_is_determined(pairs, ","@, comma);
    assert(pairs.take(comma) =~= error);
    let equals = key.len() as int;
    assert(error.subrange(equals, equals + 1) =~= "="@);
    assert forall|k: int| 0 <= k < equals implies !#[trigger] occurs_at(error, "="@, k) by {
        assert(error.subrange(k, k + 1)[0] == error[k]);
        assert(error[k] == key[k]);
    }
    position_is_determined(error, "="@, equals);
    assert(error.take(equals) =~= key);
    assert(error.skip(equals + 1) =~= value);
    quotes_are_taken_off(problem);
    reveal_strlit("token_expired");
    reveal_strlit("unable_to_determine_oauth_type");
    assert("token_expired"@[0] != "unable_to_determine_oauth_type"@[0]);
}

/// What a reply calls for: nothing where it holds no error; new tokens for an expired token, or
/// giving up where they cannot be asked for; leaving out the date where dates are refused; and for
/// any other error its own words.
pub proof fn reply_calls_for_its_error(
    message: Seq<char>,
    can_refresh: bool,
    check: ResponseCheck,
    clean: ResponseCheck,
)
    requires
        is_check_of(Some(message), can_refresh, check),
        is_check_of(None, can_refresh, clean),
    ensures
        clean == ResponseCheck::Final(YahooError::Accepted),
        error_kind(message) == "token_expired"@ && can_refresh ==> check
            == ResponseCheck::RefreshTokens,
        error_kind(message) == "token_expired"@ && !can_refresh ==> check == ResponseCheck::Final(
            YahooError::Failed,
        ),
        error_kind(message) != "token_expired"@ && occurs(
            error_kind(message),
            "This game does not support accessing a roster by date"@,
        ) ==> (check matches ResponseCheck::Final(YahooError::Error(e)) && e@
            == "date unsupported"@),
        error_kind(message) != "token_expired"@ && !occurs(
            error_kind(message),
            "This game does not support accessing a roster by date"@,
        ) ==> (check matches ResponseCheck::Final(YahooError::Error(e)) && e@ == error_kind(
            message,
        )),
{
}

/// New tokens are never put in words: two errors with new tokens read alike, whatever the tokens.
pub proof fn words_hide_tokens(a: String, b: String, c: String, d: String)
    ensures
        YahooError::NewTokens(a, b).words() == YahooError::NewTokens(c, d).words(),
{
}

} // verus!
