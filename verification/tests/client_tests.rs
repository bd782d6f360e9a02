use akinator::client::{Akinator, AkinatorBuilder, HttpMethod, HttpRequest, Timeout};
use akinator::enums::{Answer, Language, Theme};
use akinator::error::Error;
use akinator::models::{Guess, JsonValue, Progression, RawStepResponse, SessionData, StepResult};

const UA: &str = "Mozilla/5.0 (Windows NT 10.0; Win64; x64) AppleWebKit/537.36 (KHTML, like Gecko) Chrome/130.0.0.0 Safari/537.36";

fn pairs(v: &[(&str, &str)]) -> Vec<(String, String)> {
    v.iter().map(|(a, b)| (a.to_string(), b.to_string())).collect()
}

fn empty_response() -> RawStepResponse {
    RawStepResponse {
        completion: None,
        step: None,
        progression: None,
        question: None,
        akitude: None,
        step_last_proposition: None,
        id_proposition: None,
        id_base_proposition: None,
        name_proposition: None,
        description_proposition: None,
        photo: None,
        pseudo: None,
        flag_photo: None,
    }
}

fn progression(v: f32) -> Progression {
    Progression { bits: v.to_bits(), text: v.to_string() }
}

fn started_session(step: usize) -> SessionData {
    SessionData {
        session: "S1".to_string(),
        signature: "G1".to_string(),
        url: "https://en.akinator.com".to_string(),
        identifiant: "I1".to_string(),
        question: "Is it real?".to_string(),
        step,
        progression: progression(12.5),
        step_last_proposition: "".to_string(),
        akitude: "defi.png".to_string(),
        won: false,
        ko: false,
        started: true,
        language: Language::English,
        theme: Theme::Characters,
        child_mode: false,
        current_guess: None,
    }
}

const START_PAGE: &str = "<html><body>\
<input type=\"hidden\" name=\"session\" id=\"session\" value=\"sess-123\">\
<input type=\"hidden\" name=\"signature\" id=\"signature\" value=\"sig-456\">\
<div class=\"bubble-body\"><p class=\"question-text\" id=\"question-label\">  Is your character real?  </p></div>\
<script>localStorage.setItem('identifiant', 'ident-789');</script>\
<script>var akitude = \"inspiration_legere.png\";</script>\
</body></html>";

#[test]
fn new_game_defaults() {
    let a = Akinator::new();
    assert_eq!(a.language(), Language::English);
    assert_eq!(a.theme(), Theme::Characters);
    assert!(!a.child_mode());
    assert_eq!(a.url(), "https://en.akinator.com");
    assert_eq!(a.user_agent(), UA);
    assert_eq!(a.akitude(), "defi.png");
    assert_eq!(a.current_question(), "");
    assert_eq!(a.step(), 0);
    assert_eq!(a.progression(), &progression(0.0));
    assert!(!a.is_started() && !a.is_won() && !a.is_given_up());
    assert!(a.current_guess().is_none());
    assert_eq!(a.answers()[2], "Don't know");
}

#[test]
fn builder_rejects_unsupported_theme() {
    match Akinator::builder().language(Language::Arabic).theme(Theme::Objects).build() {
        Err(Error::ThemeNotSupportedForLanguage { theme, language }) => {
            assert_eq!(theme, Theme::Objects);
            assert_eq!(language, Language::Arabic);
        }
        other => panic!("unexpected {:?}", other),
    }
}

#[test]
fn builder_settings_reach_the_game() {
    let a = AkinatorBuilder::new()
        .language(Language::French)
        .theme(Theme::Animals)
        .child_mode(true)
        .user_agent("Bot/1.0".to_string())
        .build()
        .unwrap();
    assert_eq!(a.language(), Language::French);
    assert_eq!(a.theme(), Theme::Animals);
    assert!(a.child_mode());
    assert_eq!(a.user_agent(), "Bot/1.0");
    assert_eq!(a.url(), "https://fr.akinator.com");
    let b = AkinatorBuilder::default()
        .timeout(Timeout { secs: 5, nanos: 250 })
        .proxy("socks5://p:1".to_string());
    assert_eq!(b.timeout, Timeout { secs: 5, nanos: 250 });
    assert_eq!(b.proxy.as_deref(), Some("socks5://p:1"));
    assert_eq!(AkinatorBuilder::new().timeout, Timeout { secs: 30, nanos: 0 });
    assert_eq!(Akinator::builder().timeout, Timeout { secs: 30, nanos: 0 });
}

#[test]
fn proxy_choice() {
    let b = AkinatorBuilder::new();
    assert_eq!(b.proxy_for(None, None, None), None);
    assert_eq!(
        b.proxy_for(None, Some(" http://a:1 ".to_string()), Some("http://b:2".to_string())).as_deref(),
        Some("http://a:1")
    );
    assert_eq!(b.proxy_for(None, None, Some("http://b:2".to_string())).as_deref(), Some("http://b:2"));
    assert_eq!(b.proxy_for(None, None, None).as_deref(), None);
    assert_eq!(b.proxy_for(Some("  ".to_string()), None, None), None);
    assert_eq!(b.proxy_for(None, Some("   ".to_string()), Some("http://b:2".to_string())), None);
    assert_eq!(b.proxy_for(None, None, Some("x".to_string())).as_deref(), Some("x"));
    let c = AkinatorBuilder::new().proxy(" http://c:3 ".to_string());
    assert_eq!(
        c.proxy_for(Some("http://a:1".to_string()), None, None).as_deref(),
        Some(" http://c:3 ")
    );
}

#[test]
fn start_requests_point_at_the_language_site() {
    let mut data = started_session(3);
    data.url = "https://elsewhere.example".to_string();
    data.language = Language::German;
    data.theme = Theme::Animals;
    data.child_mode = true;
    let mut a = Akinator::from_session(data);
    let (home, game) = a.start_requests().unwrap();
    assert_eq!(a.url(), "https://de.akinator.com");
    let headers = pairs(&[
        ("user-agent", UA),
        ("accept-language", "ar,en-US;q=0.9,en;q=0.8"),
        (
            "accept",
            "text/html,application/xhtml+xml,application/xml;q=0.9,image/avif,image/webp,*/*;q=0.8",
        ),
        ("referer", "https://de.akinator.com/"),
        ("origin", "https://de.akinator.com"),
    ]);
    assert_eq!(
        home,
        HttpRequest {
            method: HttpMethod::Get,
            url: "https://de.akinator.com/".to_string(),
            headers: headers.clone(),
            form: vec![],
        }
    );
    assert_eq!(
        game,
        HttpRequest {
            method: HttpMethod::Post,
            url: "https://de.akinator.com/game".to_string(),
            headers,
            form: pairs(&[("sid", "14"), ("cm", "true")]),
        }
    );
}

#[test]
fn moves_refused_before_start() {
    let a = Akinator::new();
    assert!(matches!(a.answer_request(Answer::Yes), Err(Error::SessionNotStarted)));
    assert!(matches!(a.back_request(), Err(Error::SessionNotStarted)));
    assert!(matches!(a.continue_request(), Err(Error::SessionNotStarted)));
    assert!(matches!(a.submit_win_request(), Err(Error::SessionNotStarted)));
}

#[test]
fn start_page_needs_session_and_signature() {
    let mut a = Akinator::new();
    let r = a.apply_start_page(None, Some("g".to_string()), None, None, None);
    match r {
        Err(Error::ExtractionFailed(s)) => assert_eq!(s, "session ID"),
        other => panic!("unexpected {:?}", other),
    }
    let r = a.apply_start_page(Some("s".to_string()), None, None, None, None);
    match r {
        Err(Error::ExtractionFailed(s)) => assert_eq!(s, "signature"),
        other => panic!("unexpected {:?}", other),
    }
    assert!(!a.is_started());
    let r = a.apply_start_page(Some("s".to_string()), Some("g".to_string()), None, None, None).unwrap();
    assert_eq!(
        r,
        StepResult::Question {
            question: "Question 1".to_string(),
            step: 0,
            progression: progression(0.0),
            akitude: "defi.png".to_string(),
        }
    );
    assert!(a.is_started());
}

#[test]
fn finish_start_reads_the_page() {
    let mut a = Akinator::new();
    let r = a.finish_start(START_PAGE).unwrap();
    let akitude = regex::Regex::new(r#"akitude[^"]*"[^"]*([^/]+\.png)""#)
        .unwrap()
        .captures(START_PAGE)
        .unwrap()
        .get(1)
        .unwrap()
        .as_str()
        .to_string();
    assert_eq!(
        r,
        StepResult::Question {
            question: "Is your character real?".to_string(),
            step: 0,
            progression: progression(0.0),
            akitude: akitude.clone(),
        }
    );
    assert!(a.is_started());
    assert_eq!(a.current_question(), "Is your character real?");
    assert_eq!(a.akitude(), akitude);
    let data = a.export_session();
    assert_eq!(data.session, "sess-123");
    assert_eq!(data.signature, "sig-456");
    assert_eq!(data.identifiant, "ident-789");
    let req = a.answer_request(Answer::Probably).unwrap();
    assert_eq!(req.method, HttpMethod::Post);
    assert_eq!(req.url, "https://en.akinator.com/answer");
    assert_eq!(
        req.form,
        pairs(&[
            ("step", "0"),
            ("progression", "0"),
            ("sid", "1"),
            ("cm", "false"),
            ("answer", "3"),
            ("step_last_proposition", ""),
            ("session", "sess-123"),
            ("signature", "sig-456"),
            ("identifiant", "ident-789"),
        ])
    );
    assert_eq!(
        req.headers,
        pairs(&[
            ("user-agent", UA),
            ("accept-language", "ar,en-US;q=0.9,en;q=0.8"),
            ("accept", "application/json, text/javascript, */*; q=0.01"),
            ("referer", "https://en.akinator.com/game"),
            ("origin", "https://en.akinator.com"),
            ("x-requested-with", "XMLHttpRequest"),
        ])
    );
    assert!(matches!(a.back_request(), Err(Error::CantGoBack)));
}

#[test]
fn finish_start_without_session_fails() {
    let mut a = Akinator::new();
    match a.finish_start("<html><body>nothing here</body></html>") {
        Err(Error::ExtractionFailed(s)) => assert_eq!(s, "session ID"),
        other => panic!("unexpected {:?}", other),
    }
    assert!(!a.is_started());
}

#[test]
fn cloudflare_pages_are_refused() {
    let a = Akinator::new();
    let page = "  \n<!DOCTYPE html><html><head><title>Just a moment...</title></head></html>";
    match a.check_cloudflare(page, "/answer") {
        Err(Error::CloudflareBlocked { endpoint }) => assert_eq!(endpoint, "/answer"),
        other => panic!("unexpected {:?}", other),
    }
    assert!(a.check_cloudflare("<html>Sorry, you have been blocked</html>", "/x").is_err());
    assert!(a.check_cloudflare("<div class=\"cf-browser-verification\">", "/x").is_err());
    assert!(a.check_cloudflare("<p>Attention Required! | Cloudflare</p>", "/x").is_err());
    assert!(a.check_cloudflare("{\"note\": \"<title>Just a moment...</title>\"}", "/x").is_ok());
    assert!(a.check_cloudflare("<html><title>Akinator</title></html>", "/x").is_ok());
    assert!(a.check_cloudflare("", "/x").is_ok());
    let mut b = Akinator::new();
    match b.finish_start(page) {
        Err(Error::CloudflareBlocked { endpoint }) => assert_eq!(endpoint, "/game"),
        other => panic!("unexpected {:?}", other),
    }
    assert!(!b.is_started());
}

#[test]
fn step_response_next_question() {
    let mut a = Akinator::from_session(started_session(4));
    let mut d = empty_response();
    d.step = Some(JsonValue::Text("5".to_string()));
    d.progression = Some(JsonValue::Text("33.75".to_string()));
    d.question = Some("Is it a woman?".to_string());
    d.akitude = Some("serein.png".to_string());
    d.step_last_proposition = Some(JsonValue::Number { text: "3".to_string(), unsigned: Some(3) });
    let r = a.apply_step_response(d, Some(progression(33.75))).unwrap();
    assert_eq!(
        r,
        StepResult::Question {
            question: "Is it a woman?".to_string(),
            step: 5,
            progression: progression(33.75),
            akitude: "serein.png".to_string(),
        }
    );
    let snapshot = a.export_session();
    assert_eq!(snapshot.step_last_proposition, "3");
    assert_eq!(
        (snapshot.session.as_str(), snapshot.signature.as_str(), snapshot.identifiant.as_str()),
        ("S1", "G1", "I1")
    );
    assert!(snapshot.started && !snapshot.won && !snapshot.ko);
    assert_eq!(snapshot.url, "https://en.akinator.com");
    let back = a.back_request().unwrap();
    assert_eq!(back.url, "https://en.akinator.com/cancel_answer");
    assert_eq!(
        back.form,
        pairs(&[
            ("step", "5"),
            ("progression", "33.75"),
            ("sid", "1"),
            ("cm", "false"),
            ("session", "S1"),
            ("signature", "G1"),
            ("identifiant", "I1"),
        ])
    );
}

#[test]
fn step_response_fallbacks() {
    let mut a = Akinator::from_session(started_session(4));
    let mut d = empty_response();
    d.step = Some(JsonValue::Text("five".to_string()));
    d.progression = Some(JsonValue::Text("n/a".to_string()));
    let r = a.apply_step_response(d, None).unwrap();
    assert_eq!(
        r,
        StepResult::Question {
            question: "Is it real?".to_string(),
            step: 5,
            progression: progression(12.5),
            akitude: "defi.png".to_string(),
        }
    );
    let r = a.apply_step_response(empty_response(), Some(progression(99.0))).unwrap();
    assert!(matches!(r, StepResult::Question { step: 5, .. }));
    assert_eq!(a.progression(), &progression(12.5));
}

#[test]
fn guess_then_continue() {
    let mut a = Akinator::from_session(started_session(10));
    let mut d = empty_response();
    d.id_proposition = Some(JsonValue::Number { text: "123".to_string(), unsigned: Some(123) });
    d.name_proposition = Some("Ada Lovelace".to_string());
    d.photo = Some("".to_string());
    d.pseudo = Some("fan".to_string());
    d.flag_photo = Some(JsonValue::Number { text: "4294967301".to_string(), unsigned: Some(4294967301) });
    d.id_base_proposition = Some(JsonValue::Text("77".to_string()));
    let r = a.apply_step_response(d, None).unwrap();
    let expected = Guess {
        id: "123".to_string(),
        name: "Ada Lovelace".to_string(),
        description: "".to_string(),
        photo: None,
        pseudo: Some("fan".to_string()),
        flag_photo: 5,
        base_proposition_id: Some("77".to_string()),
    };
    assert_eq!(r, StepResult::Guess(expected.clone()));
    assert!(a.is_won());
    assert_eq!(a.current_guess(), Some(&expected));
    assert_eq!(a.guess_photo_url(), None);
    assert!(matches!(a.answer_request(Answer::No), Err(Error::SessionAlreadyWon)));
    let req = a.continue_request().unwrap();
    assert_eq!(req.url, "https://en.akinator.com/exclude");
    assert_eq!(req.form.len(), 8);
    assert_eq!(req.form[4], ("step_last_proposition".to_string(), "".to_string()));
    a.finish_continue("{\"completion\":\"OK\"}").unwrap();
    assert!(!a.is_won());
    assert!(a.current_guess().is_none());
    assert!(a.answer_request(Answer::No).is_ok());
}

#[test]
fn rejected_ids_are_not_guesses() {
    for id in [JsonValue::Text("0".to_string()), JsonValue::Text("null".to_string()), JsonValue::Other] {
        let mut a = Akinator::from_session(started_session(1));
        let mut d = empty_response();
        d.id_proposition = Some(id);
        let r = a.apply_step_response(d, None).unwrap();
        assert!(matches!(r, StepResult::Question { step: 1, .. }));
        assert!(!a.is_won());
    }
}

#[test]
fn give_up_blocks_answers() {
    let mut a = Akinator::from_session(started_session(7));
    let mut d = empty_response();
    d.completion = Some("kO".to_string());
    d.step = Some(JsonValue::Text("8".to_string()));
    let r = a.apply_step_response(d, None).unwrap();
    assert_eq!(r, StepResult::GiveUp);
    assert!(a.is_given_up());
    assert_eq!(a.step(), 7);
    assert!(matches!(a.answer_request(Answer::Yes), Err(Error::SessionGivenUp)));
}

#[test]
fn submit_win_marks_won() {
    let mut a = Akinator::from_session(started_session(2));
    let req = a.submit_win_request().unwrap();
    assert_eq!(req.url, "https://en.akinator.com/choice");
    assert!(a.finish_submit_win("<html><title>Just a moment...</title></html>").is_err());
    assert!(!a.is_won());
    a.finish_submit_win("{}").unwrap();
    assert!(a.is_won());
}

#[test]
fn session_round_trip() {
    let mut data = started_session(6);
    data.current_guess = Some(Guess {
        id: "1".to_string(),
        name: "N".to_string(),
        description: "D".to_string(),
        photo: Some("/p.png".to_string()),
        pseudo: None,
        flag_photo: 2,
        base_proposition_id: None,
    });
    let a = Akinator::from_session(data);
    let again = a.export_session();
    assert_eq!(again, {
        let mut d = started_session(6);
        d.current_guess = again.current_guess.clone();
        d
    });
    assert_eq!(a.user_agent(), UA);
    assert_eq!(a.guess_photo_url().as_deref(), Some("https://en.akinator.com/p.png"));
    let custom = Akinator::builder().user_agent("X".to_string()).build().unwrap();
    let restored = Akinator::from_session(custom.export_session());
    assert_eq!(restored.user_agent(), UA);
    assert_eq!(restored.export_session(), custom.export_session());
}

#[test]
fn image_requests() {
    let a = Akinator::from_session(started_session(0));
    assert_eq!(
        a.akitude_photo_url(),
        "https://en.akinator.com/assets/img/akitudes_670x1096/defi.png"
    );
    let r = a.image_request("https://picture.akinator.com/photos/a.jpg").unwrap();
    assert_eq!(r.method, HttpMethod::Get);
    assert_eq!(r.url, "https://picture.akinator.com/photos/a.jpg");
    assert_eq!(
        r.headers,
        pairs(&[
            ("user-agent", UA),
            ("accept", "image/avif,image/webp,image/apng,image/svg+xml,image/*,*/*;q=0.8"),
            ("referer", "https://en.akinator.com/"),
        ])
    );
    assert!(r.form.is_empty());
}

#[test]
fn step_overflow_is_detected() {
    let a = Akinator::from_session(started_session(usize::MAX));
    let mut d = empty_response();
    assert!(!a.step_overflow(&d));
    d.step = Some(JsonValue::Text("1".to_string()));
    assert!(a.step_overflow(&d));
    d.completion = Some("KO".to_string());
    assert!(!a.step_overflow(&d));
}

#[test]
fn page_headers_and_clone() {
    let a = Akinator::from_session(started_session(0));
    assert_eq!(a.build_headers(false).unwrap().len(), 5);
    assert_eq!(a.build_headers(true).unwrap().len(), 6);
    let b = a.clone();
    assert_eq!(b.export_session(), a.export_session());
}

#[test]
fn error_messages() {
    match Akinator::builder().language(Language::Arabic).theme(Theme::Animals).build() {
        Err(e) => assert_eq!(e.message(), "Theme 'Animals' is not supported for language 'ar'."),
        Ok(_) => panic!("expected an error"),
    }
    assert_eq!(
        Error::SessionNotStarted.message(),
        "Game session has not been started yet. Call start() first."
    );
    assert_eq!(Error::InvalidTheme("x".to_string()).message(), "Invalid theme input: 'x'.");
    assert_eq!(
        Error::InvalidAnswer("m".to_string()).message(),
        "Invalid answer input: 'm'. Expected values like 'yes', 'no', 'idk', 'probably', 'probably not', or 0..=4."
    );
    assert_eq!(
        Error::CloudflareBlocked { endpoint: "/game".to_string() }.message(),
        "Akinator served a Cloudflare anti-bot challenge on '/game'."
    );
    assert_eq!(Error::Regex("bad".to_string()).message(), "Regex compilation/matching error: bad");
    assert_eq!(Error::AkinatorError("full".to_string()).message(), "Akinator API error: full");
    assert_eq!(
        Error::ExtractionFailed("signature".to_string()).message(),
        "Failed to extract required session parameter: signature"
    );
}

#[test]
fn invalid_header_values_are_refused() {
    let mut a = Akinator::builder().user_agent("bad\nagent".to_string()).build().unwrap();
    match a.build_headers(true) {
        Err(Error::AkinatorError(m)) => assert_eq!(m, "failed to parse header value"),
        other => panic!("unexpected {:?}", other),
    }
    assert!(matches!(a.start_requests(), Err(Error::AkinatorError(_))));
    assert_eq!(a.url(), "https://en.akinator.com");
    assert!(a.image_request("https://x/y.png").is_err());
    let mut data = started_session(1);
    data.url = "https://en.akinator.com\u{7f}".to_string();
    let b = Akinator::from_session(data);
    assert!(matches!(b.answer_request(Answer::Yes), Err(Error::AkinatorError(_))));
    let mut data = started_session(1);
    data.won = true;
    data.url = "https://en.akinator.com\u{7f}".to_string();
    let c = Akinator::from_session(data);
    assert!(matches!(c.answer_request(Answer::Yes), Err(Error::SessionAlreadyWon)));
    let d = Akinator::builder().user_agent("Tab\tand ünïcode".to_string()).build().unwrap();
    assert!(d.build_headers(false).is_ok());
}
