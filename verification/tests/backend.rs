use scrollr::backend::auth::{
    after_exchange, check_csrf, csrf_key, sign_in, sign_in_failure, AuthCookie, SignInError,
    CSRF_LIFETIME,
};
use scrollr::backend::reply::{page_reply, require_token, Failure, HealthNote, Page, Status};
use scrollr::backend::roster::{
    after_first_fetch, after_retry, correction_header_text, RosterAnswer, Sport,
};
use scrollr::yahoo::xml_roster::sport_mismatch_text;

fn parts(failure: &Failure) -> (u16, Option<&str>) {
    (failure.status.code(), failure.message.as_deref())
}

#[test]
fn statuses_have_their_numbers() {
    assert_eq!(Status::BadRequest.code(), 400);
    assert_eq!(Status::Unauthorized.code(), 401);
    assert_eq!(Status::InternalServerError.code(), 500);
}

#[test]
fn pages_need_a_token() {
    assert!(require_token(true).is_none());
    let refusal = require_token(false).unwrap();
    assert_eq!(parts(&refusal), (401, Some("Unauthorized, missing access_token")));
}

#[test]
fn pages_answer_and_report() {
    for page in [Page::Leagues, Page::Standings("k".to_string()), Page::Matchups("t".to_string())] {
        let reply = page_reply(&page, None);
        assert!(reply.failure.is_none());
        assert!(matches!(reply.health, HealthNote::Success));
    }
    let stats = page_reply(&Page::DebugStats, None);
    assert!(stats.failure.is_none());
    assert!(matches!(stats.health, HealthNote::Silent));

    let leagues = page_reply(&Page::Leagues, Some("down"));
    assert_eq!(
        parts(&leagues.failure.unwrap()),
        (500, Some("Failed to fetch leagues: down"))
    );
    assert!(matches!(leagues.health, HealthNote::Error(note) if note == "get_user_leagues error: down"));

    let standings = page_reply(&Page::Standings("k".to_string()), Some("down"));
    assert_eq!(parts(&standings.failure.unwrap()), (500, None));
    assert!(matches!(standings.health, HealthNote::Error(note) if note == "get_league_standings error for k: down"));

    let matchups = page_reply(&Page::Matchups("t".to_string()), Some("down"));
    assert_eq!(parts(&matchups.failure.unwrap()), (500, None));
    assert!(matches!(matchups.health, HealthNote::Error(note) if note == "get_matchups error for t: down"));

    let stats = page_reply(&Page::DebugStats, Some("down"));
    assert_eq!(parts(&stats.failure.unwrap()), (500, None));
    assert!(matches!(stats.health, HealthNote::Silent));
}

#[test]
fn sports_are_understood_by_both_names() {
    let sport = |text: &str| Sport::from_query(text).ok();
    assert_eq!(sport("nfl"), Some(Sport::Football));
    assert_eq!(sport("football"), Some(Sport::Football));
    assert_eq!(sport("nba"), Some(Sport::Basketball));
    assert_eq!(sport("basketball"), Some(Sport::Basketball));
    assert_eq!(sport("nhl"), Some(Sport::Hockey));
    assert_eq!(sport("hockey"), Some(Sport::Hockey));
    assert_eq!(parts(&Sport::from_query("NFL").unwrap_err()), (400, None));
    assert_eq!(parts(&Sport::from_query("").unwrap_err()), (400, None));
    for sport in [Sport::Football, Sport::Basketball, Sport::Hockey] {
        assert_eq!(Sport::from_query(sport.word()).ok(), Some(sport));
    }
}

#[test]
fn roster_is_shown_or_fails() {
    let shown = match after_first_fetch("t", None) {
        RosterAnswer::Reply(reply) => reply,
        RosterAnswer::Retry(_) => panic!("retry"),
    };
    assert!(shown.failure.is_none());
    assert!(matches!(shown.health, HealthNote::Success));
    let failed = match after_first_fetch("t", Some("football.fantasysports.yahoo.com is down")) {
        RosterAnswer::Reply(reply) => reply,
        RosterAnswer::Retry(_) => panic!("retry"),
    };
    assert_eq!(parts(&failed.failure.unwrap()), (500, None));
    assert!(matches!(
        failed.health,
        HealthNote::Error(note)
            if note == "get_team_roster error for t: football.fantasysports.yahoo.com is down"
    ));
}

#[test]
fn wrong_sport_is_corrected() {
    for sport in [Sport::Football, Sport::Basketball, Sport::Hockey] {
        let url = format!("https://{}.fantasysports.yahoo.com/team/1", sport.word());
        let error = format!(
            "Failed to deserialize roster: custom: '{}'",
            sport_mismatch_text(&url, "golf")
        );
        assert!(matches!(
            after_first_fetch("t", Some(&error)),
            RosterAnswer::Retry(corrected) if corrected == sport
        ));
        assert_eq!(Sport::from_error(&error), Some(sport));
    }
    let both = "Sport validation failed: hockey.fantasysports.yahoo.com basketball.fantasysports.yahoo.com";
    assert!(matches!(
        after_first_fetch("t", Some(both)),
        RosterAnswer::Retry(Sport::Basketball)
    ));
    let unknown = "Sport validation failed: URL 'https://cricket.example'";
    match after_first_fetch("t", Some(unknown)) {
        RosterAnswer::Reply(reply) => {
            assert_eq!(parts(&reply.failure.unwrap()), (400, Some(unknown)));
            assert!(matches!(reply.health, HealthNote::Silent));
        }
        RosterAnswer::Retry(_) => panic!("retry"),
    }
}

#[test]
fn correction_is_told_in_a_header() {
    let told = after_retry("t", "nfl", Sport::Hockey, None);
    assert!(told.reply.failure.is_none());
    assert!(matches!(told.reply.health, HealthNote::Success));
    assert_eq!(told.corrected, Some("Requested 'nfl' but team plays 'hockey'".to_string()));
    assert_eq!(correction_header_text("n\nfl", Sport::Hockey), "true");
    assert_eq!(correction_header_text("n\u{0}fl", Sport::Hockey), "true");
    for requested in ["tab\t", "ümlaut", "\u{80}", "\u{7f}", "\u{1f}", " ", "~"] {
        let text = format!("Requested '{}' but team plays 'football'", requested);
        let expected = match axum::http::HeaderValue::from_str(&text) {
            Ok(_) => text,
            Err(_) => "true".to_string(),
        };
        assert_eq!(correction_header_text(requested, Sport::Football), expected);
    }
    let failed = after_retry("t", "nfl", Sport::Hockey, Some("down"));
    assert_eq!(parts(&failed.reply.failure.unwrap()), (500, None));
    assert!(matches!(
        failed.reply.health,
        HealthNote::Error(note) if note == "get_team_roster retry failed for t: down"
    ));
    assert_eq!(failed.corrected, None);
}

#[test]
fn sign_ins_are_stored_and_checked() {
    assert_eq!(csrf_key("abc"), "csrf:abc");
    assert_eq!(CSRF_LIFETIME, 600);
    assert_eq!(
        parts(&sign_in_failure(SignInError::NoAddress)),
        (500, Some("Failed to initiate authentication"))
    );
    assert_eq!(parts(&sign_in_failure(SignInError::NoStore)), (500, Some("Internal server error")));
    assert!(check_csrf(Some(1)).is_none());
    assert!(check_csrf(Some(2)).is_none());
    for count in [0, -1] {
        assert_eq!(
            parts(&check_csrf(Some(count)).unwrap()),
            (400, Some("Invalid or expired CSRF token"))
        );
    }
    assert_eq!(parts(&check_csrf(None).unwrap()), (500, Some("Internal server error")));
}

fn cookie_is(cookie: &AuthCookie, name: &str, value: &str) -> bool {
    cookie.name == name
        && cookie.value == value
        && cookie.path == "/yahoo"
        && cookie.secure
        && cookie.http_only
        && cookie.same_site_lax
}

#[test]
fn tokens_are_handed_over() {
    let access = "a\"b\\c\n\u{1}\u{1f}é/</script>\u{7f}";
    let page = after_exchange(Some((access.to_string(), Some("r".to_string())))).unwrap();
    assert!(cookie_is(&page.cookie_auth, "yahoo-auth", access));
    assert!(cookie_is(&page.cookie_refresh, "yahoo-refresh", "r"));
    let quoted = serde_json::to_string(access).unwrap();
    assert_eq!(quoted, "\"a\\\"b\\\\c\\n\\u0001\\u001fé/</script>\u{7f}\"");
    assert!(page.html.contains(&format!("accessToken: {},\n", quoted)));
    assert!(page.html.contains("refreshToken: \"r\"\n"));
    assert_eq!(serde_json::from_str::<String>(&quoted).unwrap(), access);

    let single = after_exchange(Some(("a".to_string(), None))).unwrap();
    assert!(cookie_is(&single.cookie_refresh, "yahoo-refresh", ""));
    let expected = "<!doctype html><html><head><meta charset=\"utf-8\"><title>Auth Complete</title></head>\n            <body style=\"font-family: ui-sans-serif, system-ui;\">\n                <script>\n                (function() { \n                    try { \n                        if (window.opener) { \n                            // POST MESSAGE: Sending the access token back to the main app window\n                            window.opener.postMessage({ \n                                type: 'yahoo-auth', \n                                accessToken: \"a\",\n                                refreshToken: \"\"\n                            }, '*'); \n                        }\n                    } catch(e) { \n                        console.error(\"Error sending token via postMessage:\", e);\n                    }\n                    // Always close the popup window after a brief delay\n                    setTimeout(function(){ window.close(); }, 1500);\n                })();\n                </script>\n                <p>Authentication successful. You can close this window.</p>\n            </body></html>";
    assert_eq!(single.html, expected);

    let refusal = after_exchange(None).unwrap_err();
    assert_eq!(parts(&refusal), (500, Some("Failed to retrieve tokens")));
}

#[test]
fn visitors_are_sent_off_once_stored() {
    let address = || Some("https://login".to_string());
    assert_eq!(sign_in(address(), true).unwrap(), "https://login");
    assert_eq!(
        parts(&sign_in(address(), false).unwrap_err()),
        (500, Some("Internal server error"))
    );
    for stored in [true, false] {
        assert_eq!(
            parts(&sign_in(None, stored).unwrap_err()),
            (500, Some("Failed to initiate authentication"))
        );
    }
}
