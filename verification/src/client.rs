//! The game session: its state, the requests each move sends, and how each reply changes
//! the state. Sending the requests is left to the caller.
use vstd::prelude::*;

use crate::enums::{
    answer_id, language_answer_labels, language_code, language_themes, theme_id, Answer, Language,
    Theme,
};
use crate::error::{Error, ErrorView};
use crate::models::{
    copy_opt_string, opt_guess_view, opt_json_text, photo_url_spec, Guess, GuessView, JsonValue,
    Progression, ProgressionView, RawStepResponse, SessionData, SessionDataView, StepResult,
    StepResultView, progression_zero, json_value_to_string, json_text,
};
use crate::numtext::{decimal_spec, decimal_string, parse_usize, usize_from_text};
use crate::pattern::{first_capture, regex_compiles, regex_first_group};
use crate::text::{
    chars_contain, chars_of, lower_chars, lower_spec, occurs_in, opt_view, trim_bounds,
    trim_spec, trim_start_spec, has_prefix,
};

verus! {

/// The user agent sent when none is configured.
pub open spec fn default_user_agent() -> Seq<char> {
    "Mozilla/5.0 (Windows NT 10.0; Win64; x64) AppleWebKit/537.36 (KHTML, like Gecko) Chrome/130.0.0.0 Safari/537.36"@
}

fn default_user_agent_text() -> (r: &'static str)
    ensures
        r@ == default_user_agent(),
{
    "Mozilla/5.0 (Windows NT 10.0; Win64; x64) AppleWebKit/537.36 (KHTML, like Gecko) Chrome/130.0.0.0 Safari/537.36"
}

/// The site of a language: `https://<code>.akinator.com`.
pub open spec fn site_url(l: Language) -> Seq<char> {
    "https://"@ + language_code(l) + ".akinator.com"@
}

fn site_url_string(l: Language) -> (r: String)
    ensures
        r@ == site_url(l),
{
    String::from_str("https://").concat(l.code()).concat(".akinator.com")
}

/// The akitude shown before the first question.
pub open spec fn initial_akitude() -> Seq<char> {
    "defi.png"@
}

/// The content of an [`Akinator`]: the whole game state.
pub struct AkinatorView {
    pub language: Language,
    pub theme: Theme,
    pub child_mode: bool,
    pub user_agent: Seq<char>,
    pub url: Seq<char>,
    pub session: Seq<char>,
    pub signature: Seq<char>,
    pub identifiant: Seq<char>,
    pub question: Seq<char>,
    pub step: usize,
    pub progression: ProgressionView,
    pub step_last_proposition: Seq<char>,
    pub akitude: Seq<char>,
    pub started: bool,
    pub won: bool,
    pub ko: bool,
    pub current_guess: Option<GuessView>,
}

/// A game that has not started, with the given settings.
pub open spec fn fresh_state(
    language: Language,
    theme: Theme,
    child_mode: bool,
    user_agent: Seq<char>,
) -> AkinatorView {
    AkinatorView {
        language,
        theme,
        child_mode,
        user_agent,
        url: site_url(language),
        session: Seq::empty(),
        signature: Seq::empty(),
        identifiant: Seq::empty(),
        question: Seq::empty(),
        step: 0,
        progression: progression_zero(),
        step_last_proposition: Seq::empty(),
        akitude: initial_akitude(),
        started: false,
        won: false,
        ko: false,
        current_guess: None,
    }
}

/// The snapshot of a game state: everything but the user agent.
pub open spec fn export_spec(s: AkinatorView) -> SessionDataView {
    SessionDataView {
        session: s.session,
        signature: s.signature,
        url: s.url,
        identifiant: s.identifiant,
        question: s.question,
        step: s.step,
        progression: s.progression,
        step_last_proposition: s.step_last_proposition,
        akitude: s.akitude,
        won: s.won,
        ko: s.ko,
        started: s.started,
        language: s.language,
        theme: s.theme,
        child_mode: s.child_mode,
        current_guess: s.current_guess,
    }
}

/// The game state restored from a snapshot, with the default user agent.
pub open spec fn restore_spec(d: SessionDataView) -> AkinatorView {
    AkinatorView {
        language: d.language,
        theme: d.theme,
        child_mode: d.child_mode,
        user_agent: default_user_agent(),
        url: d.url,
        session: d.session,
        signature: d.signature,
        identifiant: d.identifiant,
        question: d.question,
        step: d.step,
        progression: d.progression,
        step_last_proposition: d.step_last_proposition,
        akitude: d.akitude,
        started: d.started,
        won: d.won,
        ko: d.ko,
        current_guess: d.current_guess,
    }
}


/// The HTTP method of a request.
#[derive(Debug, Clone, Copy, PartialEq, Eq, Structural)]
pub enum HttpMethod {
    Get,
    Post,
}

/// A request for the HTTP client to send: the form is sent URL-encoded in the body.
#[derive(Debug, PartialEq, Eq)]
pub struct HttpRequest {
    pub method: HttpMethod,
    pub url: String,
    pub headers: Vec<(String, String)>,
    pub form: Vec<(String, String)>,
}

/// Name and value pairs as text.
pub open spec fn pairs_view(v: Seq<(String, String)>) -> Seq<(Seq<char>, Seq<char>)> {
    v.map_values(|p: (String, String)| (p.0@, p.1@))
}

/// The content of an [`HttpRequest`].
pub struct HttpRequestView {
    pub method: HttpMethod,
    pub url: Seq<char>,
    pub headers: Seq<(Seq<char>, Seq<char>)>,
    pub form: Seq<(Seq<char>, Seq<char>)>,
}

impl View for HttpRequest {
    type V = HttpRequestView;

    open spec fn view(&self) -> HttpRequestView {
        HttpRequestView {
            method: self.method,
            url: self.url@,
            headers: pairs_view(self.headers@),
            form: pairs_view(self.form@),
        }
    }
}

/// `true` or `false`, as a flag is written in a form.
pub open spec fn bool_text(b: bool) -> Seq<char> {
    if b {
        "true"@
    } else {
        "false"@
    }
}

fn bool_string(b: bool) -> (r: String)
    ensures
        r@ == bool_text(b),
{
    if b {
        String::from_str("true")
    } else {
        String::from_str("false")
    }
}

/// The headers of a page request, or (`xhr`) of a request the game page makes by script.
pub open spec fn headers_spec(s: AkinatorView, xhr: bool) -> Seq<(Seq<char>, Seq<char>)> {
    if xhr {
        seq![
            ("user-agent"@, s.user_agent),
            ("accept-language"@, "ar,en-US;q=0.9,en;q=0.8"@),
            ("accept"@, "application/json, text/javascript, */*; q=0.01"@),
            ("referer"@, s.url + "/game"@),
            ("origin"@, s.url),
            ("x-requested-with"@, "XMLHttpRequest"@),
        ]
    } else {
        seq![
            ("user-agent"@, s.user_agent),
            ("accept-language"@, "ar,en-US;q=0.9,en;q=0.8"@),
            ("accept"@, "text/html,application/xhtml+xml,application/xml;q=0.9,image/avif,image/webp,*/*;q=0.8"@),
            ("referer"@, s.url + "/"@),
            ("origin"@, s.url),
        ]
    }
}

/// The headers of an image download.
pub open spec fn image_headers_spec(s: AkinatorView) -> Seq<(Seq<char>, Seq<char>)> {
    seq![
        ("user-agent"@, s.user_agent),
        ("accept"@, "image/avif,image/webp,image/apng,image/svg+xml,image/*,*/*;q=0.8"@),
        ("referer"@, s.url + "/"@),
    ]
}

/// The form that starts a game: the theme ID and the child-mode flag.
pub open spec fn start_form(s: AkinatorView) -> Seq<(Seq<char>, Seq<char>)> {
    seq![("sid"@, decimal_spec(theme_id(s.theme))), ("cm"@, bool_text(s.child_mode))]
}

/// The fields every move sends first: step, progression, theme ID and child-mode flag.
pub open spec fn move_head(s: AkinatorView) -> Seq<(Seq<char>, Seq<char>)> {
    seq![
        ("step"@, decimal_spec(s.step as nat)),
        ("progression"@, s.progression.text),
        ("sid"@, decimal_spec(theme_id(s.theme))),
        ("cm"@, bool_text(s.child_mode)),
    ]
}

/// The session fields every move sends last.
pub open spec fn session_tail(s: AkinatorView) -> Seq<(Seq<char>, Seq<char>)> {
    seq![("session"@, s.session), ("signature"@, s.signature), ("identifiant"@, s.identifiant)]
}

/// The form of an answer.
pub open spec fn answer_form(s: AkinatorView, a: Answer) -> Seq<(Seq<char>, Seq<char>)> {
    move_head(s) + seq![
        ("answer"@, decimal_spec(answer_id(a))),
        ("step_last_proposition"@, s.step_last_proposition),
    ] + session_tail(s)
}

/// The form that takes back the last answer.
pub open spec fn back_form(s: AkinatorView) -> Seq<(Seq<char>, Seq<char>)> {
    move_head(s) + session_tail(s)
}

/// The form that rejects or confirms a guess.
pub open spec fn proposal_form(s: AkinatorView) -> Seq<(Seq<char>, Seq<char>)> {
    move_head(s) + seq![("step_last_proposition"@, s.step_last_proposition)] + session_tail(s)
}

/// A POST of a form to a path of the game site, as the game page's script sends it.
pub open spec fn move_request(
    s: AkinatorView,
    path: Seq<char>,
    form: Seq<(Seq<char>, Seq<char>)>,
) -> HttpRequestView {
    HttpRequestView {
        method: HttpMethod::Post,
        url: s.url + path,
        headers: headers_spec(s, true),
        form,
    }
}

/// Why a move is refused in a state, if it is: answering needs a started game that has
/// neither guessed nor given up.
pub open spec fn answer_refusal(s: AkinatorView) -> Option<ErrorView> {
    if !s.started {
        Some(ErrorView::SessionNotStarted)
    } else if s.won {
        Some(ErrorView::SessionAlreadyWon)
    } else if s.ko {
        Some(ErrorView::SessionGivenUp)
    } else {
        None
    }
}

/// Taking an answer back needs a started game past its first question.
pub open spec fn back_refusal(s: AkinatorView) -> Option<ErrorView> {
    if !s.started {
        Some(ErrorView::SessionNotStarted)
    } else if s.step == 0 {
        Some(ErrorView::CantGoBack)
    } else {
        None
    }
}

/// Rejecting or confirming a guess needs a started game.
pub open spec fn proposal_refusal(s: AkinatorView) -> Option<ErrorView> {
    if !s.started {
        Some(ErrorView::SessionNotStarted)
    } else {
        None
    }
}

/// What `HeaderValue::from_str` of the `http` crate accepts: text whose every byte is a
/// tab, a visible ASCII character or space, or part of a non-ASCII character (any byte
/// of 32 or more but 127).
pub open spec fn header_text_ok(s: Seq<char>) -> bool {
    forall|i: int| 0 <= i < s.len() ==> #[trigger] header_char_ok(s[i])
}

/// A character whose UTF-8 bytes a header value may hold.
pub open spec fn header_char_ok(c: char) -> bool {
    c == '\t' || (32 <= (c as u32) && (c as u32) != 127)
}

/// The header values that come from the state, the user agent and the site (the referer
/// and the origin), are all valid header text.
pub open spec fn headers_valid(s: AkinatorView) -> bool {
    header_text_ok(s.user_agent) && header_text_ok(s.url)
}

/// The error for a header value that is not valid header text, with the message of the
/// `http` crate.
pub open spec fn header_error() -> ErrorView {
    ErrorView::AkinatorError("failed to parse header value"@)
}

/// A request as the result of a move: the refusal if there is one, else the header error
/// if a header value is not valid, else the request.
pub open spec fn move_outcome(
    r: Result<HttpRequest, Error>,
    refusal: Option<ErrorView>,
    s: AkinatorView,
    req: HttpRequestView,
) -> bool {
    match refusal {
        Some(e) => r matches Err(x) && x@ == e,
        None => if headers_valid(s) {
            r matches Ok(q) && q@ == req
        } else {
            r matches Err(x) && x@ == header_error()
        },
    }
}

/// Whether a text is valid header text.
fn is_header_text(s: &str) -> (r: bool)
    ensures
        r == header_text_ok(s@),
{
    let v = chars_of(s);
    for i in 0..v.len()
        invariant
            v@ == s@,
            forall|j: int| 0 <= j < i ==> header_char_ok(#[trigger] v@[j]),
    {
        let c = v[i];
        let u = c as u32;
        if !(c == '\t' || (32 <= u && u != 127)) {
            assert(!header_char_ok(v@[i as int]));
            return false;
        }
    }
    true
}

fn pair(name: &str, value: String) -> (r: (String, String))
    ensures
        r.0@ == name@,
        r.1@ == value@,
{
    (String::from_str(name), value)
}


/// A page is a Cloudflare challenge when, after leading white space, it starts with `<`
/// and it holds one of the challenge's telltale texts.
pub open spec fn cloudflare_page(body: Seq<char>) -> bool {
    &&& has_prefix(trim_start_spec(body), "<"@)
    &&& {
        ||| occurs_in(body, "<title>Just a moment...</title>"@)
        ||| occurs_in(body, "Attention Required! | Cloudflare"@)
        ||| occurs_in(body, "Sorry, you have been blocked"@)
        ||| occurs_in(body, "cf-browser-verification"@)
    }
}

/// The view of a step result or error.
pub open spec fn result_view(r: Result<StepResult, Error>) -> Result<StepResultView, ErrorView> {
    match r {
        Ok(v) => Ok(v@),
        Err(e) => Err(e@),
    }
}

/// The text or a default.
pub open spec fn text_or(o: Option<Seq<char>>, d: Seq<char>) -> Seq<char> {
    match o {
        Some(t) => t,
        None => d,
    }
}

/// What the start page gives: the session and signature are required, the question is
/// trimmed (`Question 1` when missing), the identifiant may be empty, and the akitude is
/// `defi.png` when missing. The game is then at its first question.
pub open spec fn start_page_outcome(
    s: AkinatorView,
    session: Option<Seq<char>>,
    signature: Option<Seq<char>>,
    question: Option<Seq<char>>,
    identifiant: Option<Seq<char>>,
    akitude: Option<Seq<char>>,
) -> (AkinatorView, Result<StepResultView, ErrorView>) {
    if session is None {
        (s, Err(ErrorView::ExtractionFailed("session ID"@)))
    } else if signature is None {
        (s, Err(ErrorView::ExtractionFailed("signature"@)))
    } else {
        let q = match question {
            Some(q) => trim_spec(q),
            None => "Question 1"@,
        };
        let a = text_or(akitude, initial_akitude());
        (
            AkinatorView {
                session: session->0,
                signature: signature->0,
                identifiant: text_or(identifiant, Seq::empty()),
                question: q,
                akitude: a,
                step: 0,
                progression: progression_zero(),
                step_last_proposition: Seq::empty(),
                started: true,
                won: false,
                ko: false,
                current_guess: None,
                ..s
            },
            Ok(StepResultView::Question { question: q, step: 0, progression: progression_zero(), akitude: a }),
        )
    }
}

/// The pattern of the session ID on the start page.
pub open spec fn session_pattern() -> Seq<char> {
    "name=\"session\" id=\"session\" value=\"([^\"]+)\""@
}

/// The pattern of the signature on the start page.
pub open spec fn signature_pattern() -> Seq<char> {
    "name=\"signature\" id=\"signature\" value=\"([^\"]+)\""@
}

/// The pattern of the first question on the start page.
pub open spec fn question_pattern() -> Seq<char> {
    "<div class=\"bubble-body\"><p class=\"question-text\" id=\"question-label\">(.*?)</p></div>"@
}

/// The pattern of the identifiant on the start page.
pub open spec fn identifiant_pattern() -> Seq<char> {
    "localStorage\\.setItem\\('identifiant', '([^']+)'\\);"@
}

/// The pattern of the akitude image on the start page.
pub open spec fn akitude_pattern() -> Seq<char> {
    "akitude[^\"]*\"[^\"]*([^/]+\\.png)\""@
}

/// The five start-page patterns all compile.
pub open spec fn start_patterns_compile() -> bool {
    &&& regex_compiles(session_pattern())
    &&& regex_compiles(signature_pattern())
    &&& regex_compiles(question_pattern())
    &&& regex_compiles(identifiant_pattern())
    &&& regex_compiles(akitude_pattern())
}

/// A guess ID names a proposition unless it is empty, `0` or `null`.
pub open spec fn accepted_guess_id(id: Seq<char>) -> bool {
    id.len() > 0 && id != "0"@ && id != "null"@
}

/// The text unless it is empty.
pub open spec fn non_empty(o: Option<Seq<char>>) -> Option<Seq<char>> {
    match o {
        Some(t) => if t.len() > 0 {
            Some(t)
        } else {
            None
        },
        None => None,
    }
}

/// The photo flag: the number's value cut to 32 bits when it is an unsigned integer, else 0.
pub open spec fn flag_value(v: Option<JsonValue>) -> u32 {
    match v {
        Some(JsonValue::Number { text: _, unsigned: Some(n) }) => n as u32,
        _ => 0,
    }
}

/// The guess that a step response proposes under the given ID.
pub open spec fn guess_of(d: RawStepResponse, id: Seq<char>) -> GuessView {
    GuessView {
        id,
        name: text_or(opt_view(d.name_proposition), Seq::empty()),
        description: text_or(opt_view(d.description_proposition), Seq::empty()),
        photo: non_empty(opt_view(d.photo)),
        pseudo: non_empty(opt_view(d.pseudo)),
        flag_photo: flag_value(d.flag_photo),
        base_proposition_id: opt_json_text(d.id_base_proposition),
    }
}

/// The response proposes a guess.
pub open spec fn proposes_guess(d: RawStepResponse) -> bool {
    d.id_proposition is Some && accepted_guess_id(json_text(d.id_proposition->0))
}

/// The response says Akinator gave up: its completion is `KO`, ignoring ASCII case.
pub open spec fn gives_up(d: RawStepResponse) -> bool {
    d.completion is Some && lower_spec(d.completion->0@) == "ko"@
}

/// The response is a next question whose step field asks for the step after the last
/// possible one (the fallback step is one past the current one).
pub open spec fn step_overflows(s: AkinatorView, d: RawStepResponse) -> bool {
    !proposes_guess(d) && !gives_up(d) && d.step is Some && s.step == usize::MAX
}

/// The view of an optional progression.
pub open spec fn opt_progression_view(p: Option<Progression>) -> Option<ProgressionView> {
    match p {
        Some(p) => Some(p@),
        None => None,
    }
}

/// How a step response changes the game, given what its progression text parses to as a
/// float (`parsed`): a proposal is recorded as the current guess and the game counts as
/// won; `KO` means Akinator gave up; otherwise every field present replaces the one held,
/// a step that does not parse counting as one past the current step and a progression that
/// does not parse leaving the current one.
pub open spec fn step_outcome(
    s: AkinatorView,
    d: RawStepResponse,
    parsed: Option<ProgressionView>,
) -> (AkinatorView, StepResultView) {
    if proposes_guess(d) {
        let g = guess_of(d, json_text(d.id_proposition->0));
        (AkinatorView { won: true, current_guess: Some(g), ..s }, StepResultView::Guess(g))
    } else if gives_up(d) {
        (AkinatorView { ko: true, ..s }, StepResultView::GiveUp)
    } else {
        let step = match d.step {
            Some(v) => match usize_from_text(json_text(v)) {
                Some(n) => n,
                None => (s.step + 1) as usize,
            },
            None => s.step,
        };
        let progression = if d.progression is Some && parsed is Some {
            parsed->0
        } else {
            s.progression
        };
        let question = text_or(opt_view(d.question), s.question);
        let akitude = text_or(opt_view(d.akitude), s.akitude);
        let slp = text_or(opt_json_text(d.step_last_proposition), s.step_last_proposition);
        (
            AkinatorView {
                step,
                progression,
                question,
                akitude,
                step_last_proposition: slp,
                ..s
            },
            StepResultView::Question { question, step, progression, akitude },
        )
    }
}

fn session_pattern_text() -> (r: &'static str)
    ensures
        r@ == session_pattern(),
{
    "name=\"session\" id=\"session\" value=\"([^\"]+)\""
}

fn signature_pattern_text() -> (r: &'static str)
    ensures
        r@ == signature_pattern(),
{
    "name=\"signature\" id=\"signature\" value=\"([^\"]+)\""
}

fn question_pattern_text() -> (r: &'static str)
    ensures
        r@ == question_pattern(),
{
    "<div class=\"bubble-body\"><p class=\"question-text\" id=\"question-label\">(.*?)</p></div>"
}

fn identifiant_pattern_text() -> (r: &'static str)
    ensures
        r@ == identifiant_pattern(),
{
    "localStorage\\.setItem\\('identifiant', '([^']+)'\\);"
}

fn akitude_pattern_text() -> (r: &'static str)
    ensures
        r@ == akitude_pattern(),
{
    "akitude[^\"]*\"[^\"]*([^/]+\\.png)\""
}

/// The first capture of a pattern, with a compilation failure turned into `Error::Regex`.
fn capture(pattern: &str, body: &str) -> (r: Result<Option<String>, Error>)
    ensures
        r is Ok <==> regex_compiles(pattern@),
        r matches Ok(g) ==> opt_view(g) == regex_first_group(pattern@, body@),
        r matches Err(e) ==> e is Regex,
{
    match first_capture(pattern, body) {
        Ok(g) => Ok(g),
        Err(m) => Err(Error::Regex(m)),
    }
}

/// The text unless it is empty.
fn keep_non_empty(o: Option<String>) -> (r: Option<String>)
    ensures
        opt_view(r) == non_empty(opt_view(o)),
{
    match o {
        Some(t) => if t.as_str().is_empty() {
            None
        } else {
            Some(t)
        },
        None => None,
    }
}

/// Whether the response's completion is `KO`, ignoring ASCII case.
fn gives_up_exec(data: &RawStepResponse) -> (r: bool)
    ensures
        r == gives_up(*data),
{
    match &data.completion {
        Some(c) => {
            let v = lower_chars(chars_of(c.as_str()).as_slice());
            crate::text::chars_eq_str(v.as_slice(), "ko")
        },
        None => false,
    }
}

/// Builder for configuring and initializing an [`Akinator`] instance.
#[derive(Debug)]
pub struct AkinatorBuilder {
    pub language: Language,
    pub theme: Theme,
    pub child_mode: bool,
    pub proxy: Option<String>,
    pub timeout: Timeout,
    pub user_agent: Option<String>,
}

/// A request timeout: whole seconds and the nanoseconds beyond them (below one second),
/// as a `Duration` is made of.
#[derive(Debug, Clone, Copy, PartialEq, Eq, Structural)]
pub struct Timeout {
    pub secs: u64,
    pub nanos: u32,
}

/// The timeout of a new builder: 30 seconds.
pub open spec fn default_timeout() -> Timeout {
    Timeout { secs: 30, nanos: 0 }
}

/// The proxy a client uses: the configured one if there is one; otherwise the first proxy
/// variable that is set (`AKINATOR_PROXY`, `HTTPS_PROXY`, `ALL_PROXY`, in this order),
/// trimmed, unless it is blank.
pub open spec fn proxy_choice(
    configured: Option<Seq<char>>,
    akinator_proxy: Option<Seq<char>>,
    https_proxy: Option<Seq<char>>,
    all_proxy: Option<Seq<char>>,
) -> Option<Seq<char>> {
    match configured {
        Some(p) => Some(p),
        None => {
            let first = if akinator_proxy is Some {
                akinator_proxy
            } else if https_proxy is Some {
                https_proxy
            } else {
                all_proxy
            };
            match first {
                Some(e) => if trim_spec(e).len() > 0 {
                    Some(trim_spec(e))
                } else {
                    None
                },
                None => None,
            }
        },
    }
}

/// The configured user agent, or the default one.
pub open spec fn chosen_user_agent(u: Option<Seq<char>>) -> Seq<char> {
    match u {
        Some(u) => u,
        None => default_user_agent(),
    }
}

impl AkinatorBuilder {
    /// Creates a new builder with default configuration: English, characters, child mode
    /// off, no proxy, a 30 second timeout and the default user agent.
    pub fn new() -> (r: AkinatorBuilder)
        ensures
            r.language == Language::English,
            r.theme == Theme::Characters,
            !r.child_mode,
            r.proxy is None,
            r.timeout == default_timeout(),
            r.user_agent is None,
    {
        AkinatorBuilder {
            language: Language::English,
            theme: Theme::Characters,
            child_mode: false,
            proxy: None,
            timeout: Timeout { secs: 30, nanos: 0 },
            user_agent: None,
        }
    }

    /// Sets the language for the Akinator game.
    pub fn language(self, language: Language) -> (r: AkinatorBuilder)
        ensures
            r == (AkinatorBuilder { language, ..self }),
    {
        AkinatorBuilder { language, ..self }
    }

    /// Sets the theme for the Akinator game (Characters, Objects, Animals).
    pub fn theme(self, theme: Theme) -> (r: AkinatorBuilder)
        ensures
            r == (AkinatorBuilder { theme, ..self }),
    {
        AkinatorBuilder { theme, ..self }
    }

    /// Enables or disables child mode (NSFW content filtering).
    pub fn child_mode(self, enabled: bool) -> (r: AkinatorBuilder)
        ensures
            r == (AkinatorBuilder { child_mode: enabled, ..self }),
    {
        AkinatorBuilder { child_mode: enabled, ..self }
    }

    /// Sets an HTTP/HTTPS/SOCKS proxy.
    pub fn proxy(self, proxy_url: String) -> (r: AkinatorBuilder)
        ensures
            r == (AkinatorBuilder { proxy: Some(proxy_url), ..self }),
    {
        AkinatorBuilder { proxy: Some(proxy_url), ..self }
    }

    /// Sets the request timeout duration.
    pub fn timeout(self, timeout: Timeout) -> (r: AkinatorBuilder)
        ensures
            r == (AkinatorBuilder { timeout, ..self }),
    {
        AkinatorBuilder { timeout, ..self }
    }

    /// Sets a custom User-Agent header string.
    pub fn user_agent(self, user_agent: String) -> (r: AkinatorBuilder)
        ensures
            r == (AkinatorBuilder { user_agent: Some(user_agent), ..self }),
    {
        AkinatorBuilder { user_agent: Some(user_agent), ..self }
    }

    /// The proxy the HTTP client is to use, given the proxy variables of the environment
    /// (each `None` when it is not set).
    pub fn proxy_for(
        &self,
        akinator_proxy: Option<String>,
        https_proxy: Option<String>,
        all_proxy: Option<String>,
    ) -> (r: Option<String>)
        ensures
            opt_view(r) == proxy_choice(
                opt_view(self.proxy),
                opt_view(akinator_proxy),
                opt_view(https_proxy),
                opt_view(all_proxy),
            ),
    {
        match &self.proxy {
            Some(p) => Some(p.clone()),
            None => {
                let first = if akinator_proxy.is_some() {
                    akinator_proxy
                } else if https_proxy.is_some() {
                    https_proxy
                } else {
                    all_proxy
                };
                match first {
                    Some(e) => {
                        let v = chars_of(e.as_str());
                        let (a, b) = trim_bounds(&v);
                        if a < b {
                            Some(e.as_str().substring_char(a, b).to_owned())
                        } else {
                            None
                        }
                    },
                    None => None,
                }
            },
        }
    }

    /// Builds the game state; fails with `ThemeNotSupportedForLanguage` when the language
    /// does not offer the theme.
    pub fn build(self) -> (r: Result<Akinator, Error>)
        ensures
            !language_themes(self.language).contains(self.theme) ==> (r matches Err(e) && e@
                == (ErrorView::ThemeNotSupportedForLanguage {
                theme: self.theme,
                language: self.language,
            })),
            language_themes(self.language).contains(self.theme) ==> (r matches Ok(a) && a@
                == fresh_state(
                self.language,
                self.theme,
                self.child_mode,
                chosen_user_agent(opt_view(self.user_agent)),
            )),
    {
        if !self.language.is_theme_supported(self.theme) {
            return Err(Error::ThemeNotSupportedForLanguage { theme: self.theme, language: self.language });
        }
        let user_agent = match self.user_agent {
            Some(u) => u,
            None => String::from_str(default_user_agent_text()),
        };
        Ok(Akinator::fresh(self.language, self.theme, self.child_mode, user_agent))
    }
}

impl Clone for AkinatorBuilder {
    fn clone(&self) -> (r: AkinatorBuilder)
        ensures
            r == *self,
    {
        AkinatorBuilder {
            language: self.language,
            theme: self.theme,
            child_mode: self.child_mode,
            proxy: copy_opt_string(&self.proxy),
            timeout: self.timeout,
            user_agent: copy_opt_string(&self.user_agent),
        }
    }
}

impl Default for AkinatorBuilder {
    fn default() -> (r: AkinatorBuilder)
        ensures
            r.language == Language::English,
            r.theme == Theme::Characters,
            !r.child_mode,
            r.proxy is None,
            r.timeout == default_timeout(),
            r.user_agent is None,
    {
        AkinatorBuilder::new()
    }
}

/// The core Akinator game session.
#[derive(Debug)]
pub struct Akinator {
    language: Language,
    theme: Theme,
    child_mode: bool,
    user_agent: String,
    url: String,
    session: String,
    signature: String,
    identifiant: String,
    question: String,
    step: usize,
    progression: Progression,
    step_last_proposition: String,
    akitude: String,
    started: bool,
    won: bool,
    ko: bool,
    current_guess: Option<Guess>,
}

impl View for Akinator {
    type V = AkinatorView;

    closed spec fn view(&self) -> AkinatorView {
        AkinatorView {
            language: self.language,
            theme: self.theme,
            child_mode: self.child_mode,
            user_agent: self.user_agent@,
            url: self.url@,
            session: self.session@,
            signature: self.signature@,
            identifiant: self.identifiant@,
            question: self.question@,
            step: self.step,
            progression: self.progression@,
            step_last_proposition: self.step_last_proposition@,
            akitude: self.akitude@,
            started: self.started,
            won: self.won,
            ko: self.ko,
            current_guess: opt_guess_view(self.current_guess),
        }
    }
}

impl Clone for Akinator {
    fn clone(&self) -> (r: Akinator)
        ensures
            r@ == self@,
    {
        Akinator {
            language: self.language,
            theme: self.theme,
            child_mode: self.child_mode,
            user_agent: self.user_agent.clone(),
            url: self.url.clone(),
            session: self.session.clone(),
            signature: self.signature.clone(),
            identifiant: self.identifiant.clone(),
            question: self.question.clone(),
            step: self.step,
            progression: self.progression.clone(),
            step_last_proposition: self.step_last_proposition.clone(),
            akitude: self.akitude.clone(),
            started: self.started,
            won: self.won,
            ko: self.ko,
            current_guess: match &self.current_guess {
                Some(g) => Some(g.clone()),
                None => None,
            },
        }
    }
}

impl Default for Akinator {
    fn default() -> (r: Akinator)
        ensures
            r@ == fresh_state(Language::English, Theme::Characters, false, default_user_agent()),
    {
        Akinator::fresh(
            Language::English,
            Theme::Characters,
            false,
            String::from_str(default_user_agent_text()),
        )
    }
}

impl Akinator {
    fn fresh(language: Language, theme: Theme, child_mode: bool, user_agent: String) -> (r:
        Akinator)
        ensures
            r@ == fresh_state(language, theme, child_mode, user_agent@),
    {
        Akinator {
            language,
            theme,
            child_mode,
            user_agent,
            url: site_url_string(language),
            session: String::new(),
            signature: String::new(),
            identifiant: String::new(),
            question: String::new(),
            step: 0,
            progression: Progression::zero(),
            step_last_proposition: String::new(),
            akitude: String::from_str("defi.png"),
            started: false,
            won: false,
            ko: false,
            current_guess: None,
        }
    }

    /// Creates a new [`Akinator`] instance with default English language and Characters theme.
    pub fn new() -> (r: Akinator)
        ensures
            r@ == fresh_state(Language::English, Theme::Characters, false, default_user_agent()),
    {
        Akinator::default()
    }

    /// Returns a new builder for customizing the Akinator instance.
    pub fn builder() -> (r: AkinatorBuilder)
        ensures
            r.language == Language::English,
            r.theme == Theme::Characters,
            !r.child_mode,
            r.proxy is None,
            r.timeout == default_timeout(),
            r.user_agent is None,
    {
        AkinatorBuilder::new()
    }

    /// The configured language.
    pub fn language(&self) -> (r: Language)
        ensures
            r == self@.language,
    {
        self.language
    }

    /// The configured theme.
    pub fn theme(&self) -> (r: Theme)
        ensures
            r == self@.theme,
    {
        self.theme
    }

    /// Whether child mode is enabled.
    pub fn child_mode(&self) -> (r: bool)
        ensures
            r == self@.child_mode,
    {
        self.child_mode
    }

    /// The user agent sent with every request.
    pub fn user_agent(&self) -> (r: &str)
        ensures
            r@ == self@.user_agent,
    {
        self.user_agent.as_str()
    }

    /// The site of the current game.
    pub fn url(&self) -> (r: &str)
        ensures
            r@ == self@.url,
    {
        self.url.as_str()
    }

    /// The current question text.
    pub fn current_question(&self) -> (r: &str)
        ensures
            r@ == self@.question,
    {
        self.question.as_str()
    }

    /// The current question number (starts at 0).
    pub fn step(&self) -> (r: usize)
        ensures
            r == self@.step,
    {
        self.step
    }

    /// Akinator's certainty progression percentage (0.0 to 100.0).
    pub fn progression(&self) -> (r: &Progression)
        ensures
            r@ == self@.progression,
    {
        &self.progression
    }

    /// Current visual mood/akitude filename.
    pub fn akitude(&self) -> (r: &str)
        ensures
            r@ == self@.akitude,
    {
        self.akitude.as_str()
    }

    /// The proposed character guess if Akinator has made a prediction.
    pub fn current_guess(&self) -> (r: Option<&Guess>)
        ensures
            match r {
                Some(g) => self@.current_guess == Some(g@),
                None => self@.current_guess is None,
            },
    {
        match &self.current_guess {
            Some(g) => Some(g),
            None => None,
        }
    }

    /// Returns whether the game has started.
    pub fn is_started(&self) -> (r: bool)
        ensures
            r == self@.started,
    {
        self.started
    }

    /// Returns whether Akinator has produced a winning guess.
    pub fn is_won(&self) -> (r: bool)
        ensures
            r == self@.won,
    {
        self.won
    }

    /// Returns whether Akinator has given up without finding a match.
    pub fn is_given_up(&self) -> (r: bool)
        ensures
            r == self@.ko,
    {
        self.ko
    }

    /// Returns the localized answer choices for the current language.
    pub fn answers(&self) -> (r: [&'static str; 5])
        ensures
            forall|i: int| 0 <= i < 5 ==> #[trigger] r@[i]@ == language_answer_labels(
                self@.language,
            )[i],
    {
        self.language.answer_labels()
    }

    /// The headers of a page request, or (`is_xhr`) of a request that the game page's
    /// script makes; fails with the header error when the user agent or the site is not
    /// valid header text.
    pub fn build_headers(&self, is_xhr: bool) -> (r: Result<Vec<(String, String)>, Error>)
        ensures
            headers_valid(self@) ==> (r matches Ok(h) && pairs_view(h@) == headers_spec(self@, is_xhr)),
            !headers_valid(self@) ==> (r matches Err(e) && e@ == header_error()),
    {
        match self.check_header_values() {
            Ok(()) => Ok(self.page_headers(is_xhr)),
            Err(e) => Err(e),
        }
    }

    fn check_header_values(&self) -> (r: Result<(), Error>)
        ensures
            r is Ok <==> headers_valid(self@),
            r matches Err(e) ==> e@ == header_error(),
    {
        if is_header_text(self.user_agent.as_str()) && is_header_text(self.url.as_str()) {
            Ok(())
        } else {
            Err(Error::AkinatorError(String::from_str("failed to parse header value")))
        }
    }

    fn page_headers(&self, is_xhr: bool) -> (r: Vec<(String, String)>)
        ensures
            pairs_view(r@) == headers_spec(self@, is_xhr),
    {
        let mut h: Vec<(String, String)> = Vec::new();
        h.push(pair("user-agent", self.user_agent.clone()));
        h.push(pair("accept-language", String::from_str("ar,en-US;q=0.9,en;q=0.8")));
        if is_xhr {
            h.push(pair("accept", String::from_str("application/json, text/javascript, */*; q=0.01")));
            h.push(pair("referer", self.url.clone().concat("/game")));
            h.push(pair("origin", self.url.clone()));
            h.push(pair("x-requested-with", String::from_str("XMLHttpRequest")));
        } else {
            h.push(pair("accept", String::from_str("text/html,application/xhtml+xml,application/xml;q=0.9,image/avif,image/webp,*/*;q=0.8")));
            h.push(pair("referer", self.url.clone().concat("/")));
            h.push(pair("origin", self.url.clone()));
        }
        assert(pairs_view(h@) =~= headers_spec(self@, is_xhr));
        h
    }

    fn move_head(&self) -> (r: Vec<(String, String)>)
        ensures
            pairs_view(r@) == move_head(self@),
    {
        let mut f: Vec<(String, String)> = Vec::new();
        f.push(pair("step", decimal_string(self.step)));
        f.push(pair("progression", self.progression.text.clone()));
        f.push(pair("sid", decimal_string(self.theme.id())));
        f.push(pair("cm", bool_string(self.child_mode)));
        assert(pairs_view(f@) =~= move_head(self@));
        f
    }

    fn push_session_tail(&self, f: &mut Vec<(String, String)>)
        ensures
            pairs_view(final(f)@) == pairs_view(old(f)@) + session_tail(self@),
    {
        f.push(pair("session", self.session.clone()));
        f.push(pair("signature", self.signature.clone()));
        f.push(pair("identifiant", self.identifiant.clone()));
        assert(pairs_view(f@) =~= pairs_view(old(f)@) + session_tail(self@));
    }

    fn post(&self, path: &str, form: Vec<(String, String)>) -> (r: Result<HttpRequest, Error>)
        ensures
            move_outcome(r, None, self@, move_request(self@, path@, pairs_view(form@))),
    {
        match self.check_header_values() {
            Ok(()) => {},
            Err(e) => return Err(e),
        }
        Ok(
            HttpRequest {
                method: HttpMethod::Post,
                url: self.url.clone().concat(path),
                headers: self.page_headers(true),
                form,
            },
        )
    }

    /// Begins a new game: points the session at the site of its language and returns the
    /// two requests to send in order, a GET of the home page and a POST of the start form;
    /// fails with the header error when the user agent or the site is not valid header text.
    pub fn start_requests(&mut self) -> (r: Result<(HttpRequest, HttpRequest), Error>)
        ensures
            final(self)@ == (AkinatorView { url: site_url(old(self)@.language), ..old(self)@ }),
            !headers_valid(final(self)@) ==> (r matches Err(e) && e@ == header_error()),
            headers_valid(final(self)@) ==> (r matches Ok(p) && p.0@ == (HttpRequestView {
                method: HttpMethod::Get,
                url: final(self)@.url + "/"@,
                headers: headers_spec(final(self)@, false),
                form: Seq::empty(),
            }) && p.1@ == (HttpRequestView {
                method: HttpMethod::Post,
                url: final(self)@.url + "/game"@,
                headers: headers_spec(final(self)@, false),
                form: start_form(final(self)@),
            })),
    {
        self.url = site_url_string(self.language);
        match self.check_header_values() {
            Ok(()) => {},
            Err(e) => return Err(e),
        }
        let empty: Vec<(String, String)> = Vec::new();
        assert(pairs_view(empty@) =~= Seq::empty());
        let home = HttpRequest {
            method: HttpMethod::Get,
            url: self.url.clone().concat("/"),
            headers: self.page_headers(false),
            form: empty,
        };
        let mut form: Vec<(String, String)> = Vec::new();
        form.push(pair("sid", decimal_string(self.theme.id())));
        form.push(pair("cm", bool_string(self.child_mode)));
        assert(pairs_view(form@) =~= start_form(self@));
        let game = HttpRequest {
            method: HttpMethod::Post,
            url: self.url.clone().concat("/game"),
            headers: self.page_headers(false),
            form,
        };
        Ok((home, game))
    }

    /// The request that submits an answer to the current question.
    pub fn answer_request(&self, answer: Answer) -> (r: Result<HttpRequest, Error>)
        ensures
            move_outcome(r, answer_refusal(self@), self@, move_request(self@, "/answer"@, answer_form(self@, answer))),
    {
        if !self.started {
            return Err(Error::SessionNotStarted);
        }
        if self.won {
            return Err(Error::SessionAlreadyWon);
        }
        if self.ko {
            return Err(Error::SessionGivenUp);
        }
        let mut f = self.move_head();
        f.push(pair("answer", decimal_string(answer.id() as usize)));
        f.push(pair("step_last_proposition", self.step_last_proposition.clone()));
        self.push_session_tail(&mut f);
        assert(pairs_view(f@) =~= answer_form(self@, answer));
        self.post("/answer", f)
    }

    /// The request that takes back the last answer.
    pub fn back_request(&self) -> (r: Result<HttpRequest, Error>)
        ensures
            move_outcome(r, back_refusal(self@), self@, move_request(self@, "/cancel_answer"@, back_form(self@))),
    {
        if !self.started {
            return Err(Error::SessionNotStarted);
        }
        if self.step == 0 {
            return Err(Error::CantGoBack);
        }
        let mut f = self.move_head();
        self.push_session_tail(&mut f);
        assert(pairs_view(f@) =~= back_form(self@));
        self.post("/cancel_answer", f)
    }

    fn proposal_request(&self, path: &str) -> (r: Result<HttpRequest, Error>)
        ensures
            move_outcome(r, proposal_refusal(self@), self@, move_request(self@, path@, proposal_form(self@))),
    {
        if !self.started {
            return Err(Error::SessionNotStarted);
        }
        let mut f = self.move_head();
        f.push(pair("step_last_proposition", self.step_last_proposition.clone()));
        self.push_session_tail(&mut f);
        assert(pairs_view(f@) =~= proposal_form(self@));
        self.post(path, f)
    }

    /// The request that rejects the current guess so that the game goes on.
    pub fn continue_request(&self) -> (r: Result<HttpRequest, Error>)
        ensures
            move_outcome(r, proposal_refusal(self@), self@, move_request(self@, "/exclude"@, proposal_form(self@))),
    {
        self.proposal_request("/exclude")
    }

    /// The request that confirms the current guess.
    pub fn submit_win_request(&self) -> (r: Result<HttpRequest, Error>)
        ensures
            move_outcome(r, proposal_refusal(self@), self@, move_request(self@, "/choice"@, proposal_form(self@))),
    {
        self.proposal_request("/choice")
    }

    /// The request that downloads an image; fails with the header error when the user agent
    /// or the site is not valid header text.
    pub fn image_request(&self, url: &str) -> (r: Result<HttpRequest, Error>)
        ensures
            !headers_valid(self@) ==> (r matches Err(e) && e@ == header_error()),
            headers_valid(self@) ==> (r matches Ok(q) && q@ == (HttpRequestView {
                method: HttpMethod::Get,
                url: url@,
                headers: image_headers_spec(self@),
                form: Seq::empty(),
            })),
    {
        match self.check_header_values() {
            Ok(()) => {},
            Err(e) => return Err(e),
        }
        let mut h: Vec<(String, String)> = Vec::new();
        h.push(pair("user-agent", self.user_agent.clone()));
        h.push(pair("accept", String::from_str("image/avif,image/webp,image/apng,image/svg+xml,image/*,*/*;q=0.8")));
        h.push(pair("referer", self.url.clone().concat("/")));
        assert(pairs_view(h@) =~= image_headers_spec(self@));
        let form: Vec<(String, String)> = Vec::new();
        assert(pairs_view(form@) =~= Seq::empty());
        Ok(HttpRequest { method: HttpMethod::Get, url: String::from_str(url), headers: h, form })
    }

    /// Where the photo of the current guess can be downloaded, if there is a guess with a photo.
    pub fn guess_photo_url(&self) -> (r: Option<String>)
        ensures
            opt_view(r) == match self@.current_guess {
                Some(g) => photo_url_spec(g.photo),
                None => None,
            },
    {
        match &self.current_guess {
            Some(g) => g.photo_url(),
            None => None,
        }
    }

    /// Where the image of the current akitude can be downloaded.
    pub fn akitude_photo_url(&self) -> (r: String)
        ensures
            r@ == self@.url + "/assets/img/akitudes_670x1096/"@ + self@.akitude,
    {
        self.url.clone().concat("/assets/img/akitudes_670x1096/").concat(self.akitude.as_str())
    }

    /// Fails with `CloudflareBlocked` (naming the endpoint) when the body is a Cloudflare
    /// challenge page.
    pub fn check_cloudflare(&self, body: &str, endpoint: &str) -> (r: Result<(), Error>)
        ensures
            cloudflare_page(body@) ==> (r matches Err(e) && e@ == (ErrorView::CloudflareBlocked {
                endpoint: endpoint@,
            })),
            !cloudflare_page(body@) ==> r is Ok,
    {
        let v = chars_of(body);
        let (a, _b) = trim_bounds(&v);
        let rest = vstd::slice::slice_subrange(v.as_slice(), a, v.len());
        if crate::text::chars_start_with(rest, "<") {
            let hay = v.as_slice();
            let blocked = chars_contain(hay, chars_of("<title>Just a moment...</title>").as_slice())
                || chars_contain(hay, chars_of("Attention Required! | Cloudflare").as_slice())
                || chars_contain(hay, chars_of("Sorry, you have been blocked").as_slice())
                || chars_contain(hay, chars_of("cf-browser-verification").as_slice());
            if blocked {
                return Err(Error::CloudflareBlocked { endpoint: String::from_str(endpoint) });
            }
        }
        Ok(())
    }

    /// Enters the first question from what the start page gave.
    pub fn apply_start_page(
        &mut self,
        session: Option<String>,
        signature: Option<String>,
        question: Option<String>,
        identifiant: Option<String>,
        akitude: Option<String>,
    ) -> (r: Result<StepResult, Error>)
        ensures
            (final(self)@, result_view(r)) == start_page_outcome(
                old(self)@,
                opt_view(session),
                opt_view(signature),
                opt_view(question),
                opt_view(identifiant),
                opt_view(akitude),
            ),
    {
        let session = match session {
            Some(s) => s,
            None => return Err(Error::ExtractionFailed(String::from_str("session ID"))),
        };
        let signature = match signature {
            Some(s) => s,
            None => return Err(Error::ExtractionFailed(String::from_str("signature"))),
        };
        let question = match question {
            Some(q) => {
                let v = chars_of(q.as_str());
                let (a, b) = trim_bounds(&v);
                q.as_str().substring_char(a, b).to_owned()
            },
            None => String::from_str("Question 1"),
        };
        let identifiant = match identifiant {
            Some(i) => i,
            None => String::new(),
        };
        let akitude = match akitude {
            Some(a) => a,
            None => String::from_str("defi.png"),
        };
        self.session = session;
        self.signature = signature;
        self.identifiant = identifiant;
        self.question = question.clone();
        self.akitude = akitude.clone();
        self.step = 0;
        self.progression = Progression::zero();
        self.step_last_proposition = String::new();
        self.started = true;
        self.won = false;
        self.ko = false;
        self.current_guess = None;
        Ok(StepResult::Question { question, step: 0, progression: Progression::zero(), akitude })
    }

    /// Handles the body of the start-form reply: refuses a Cloudflare challenge, extracts
    /// the session parameters with the start-page patterns, and enters the first question.
    pub fn finish_start(&mut self, body: &str) -> (r: Result<StepResult, Error>)
        ensures
            cloudflare_page(body@) ==> final(self)@ == old(self)@ && (r matches Err(e) && e@ == (
            ErrorView::CloudflareBlocked { endpoint: "/game"@ })),
            !cloudflare_page(body@) && !start_patterns_compile() ==> (r matches Err(e) && e is Regex
                && final(self)@ == old(self)@),
            !cloudflare_page(body@) && start_patterns_compile() ==> (final(self)@, result_view(r))
                == start_page_outcome(
                old(self)@,
                regex_first_group(session_pattern(), body@),
                regex_first_group(signature_pattern(), body@),
                regex_first_group(question_pattern(), body@),
                regex_first_group(identifiant_pattern(), body@),
                regex_first_group(akitude_pattern(), body@),
            ),
    {
        match self.check_cloudflare(body, "/game") {
            Ok(()) => {},
            Err(e) => return Err(e),
        }
        let session = match capture(session_pattern_text(), body) {
            Ok(g) => g,
            Err(e) => return Err(e),
        };
        let signature = match capture(signature_pattern_text(), body) {
            Ok(g) => g,
            Err(e) => return Err(e),
        };
        let question = match capture(question_pattern_text(), body) {
            Ok(g) => g,
            Err(e) => return Err(e),
        };
        let identifiant = match capture(identifiant_pattern_text(), body) {
            Ok(g) => g,
            Err(e) => return Err(e),
        };
        let akitude = match capture(akitude_pattern_text(), body) {
            Ok(g) => g,
            Err(e) => return Err(e),
        };
        self.apply_start_page(session, signature, question, identifiant, akitude)
    }

    /// Handles the body of the reply to a rejected guess: refuses a Cloudflare challenge,
    /// else drops the guess so that the game goes on.
    pub fn finish_continue(&mut self, body: &str) -> (r: Result<(), Error>)
        ensures
            cloudflare_page(body@) ==> final(self)@ == old(self)@ && (r matches Err(e) && e@ == (
            ErrorView::CloudflareBlocked { endpoint: "/exclude"@ })),
            !cloudflare_page(body@) ==> r is Ok && final(self)@ == (AkinatorView {
                won: false,
                current_guess: None,
                ..old(self)@
            }),
    {
        match self.check_cloudflare(body, "/exclude") {
            Ok(()) => {},
            Err(e) => return Err(e),
        }
        self.won = false;
        self.current_guess = None;
        Ok(())
    }

    /// Handles the body of the reply to a confirmed guess: refuses a Cloudflare challenge,
    /// else records the game as won.
    pub fn finish_submit_win(&mut self, body: &str) -> (r: Result<(), Error>)
        ensures
            cloudflare_page(body@) ==> final(self)@ == old(self)@ && (r matches Err(e) && e@ == (
            ErrorView::CloudflareBlocked { endpoint: "/choice"@ })),
            !cloudflare_page(body@) ==> r is Ok && final(self)@ == (AkinatorView {
                won: true,
                ..old(self)@
            }),
    {
        match self.check_cloudflare(body, "/choice") {
            Ok(()) => {},
            Err(e) => return Err(e),
        }
        self.won = true;
        Ok(())
    }

    /// Whether applying the response would step past the last possible step.
    pub fn step_overflow(&self, data: &RawStepResponse) -> (r: bool)
        ensures
            r == step_overflows(self@, *data),
    {
        !self.proposes_guess(data) && !gives_up_exec(data) && data.step.is_some() && self.step
            == usize::MAX
    }

    fn proposes_guess(&self, data: &RawStepResponse) -> (r: bool)
        ensures
            r == proposes_guess(*data),
    {
        match &data.id_proposition {
            Some(v) => {
                let id = json_value_to_string(v);
                let c = chars_of(id.as_str());
                !id.as_str().is_empty() && !crate::text::chars_eq_str(c.as_slice(), "0")
                    && !crate::text::chars_eq_str(c.as_slice(), "null")
            },
            None => false,
        }
    }

    /// Applies a step response; `parsed_progression` is what the response's progression
    /// text ([`RawStepResponse::progression_text`]) parses to as a float, if it parses.
    pub fn apply_step_response(
        &mut self,
        data: RawStepResponse,
        parsed_progression: Option<Progression>,
    ) -> (r: Result<StepResult, Error>)
        requires
            !step_overflows(old(self)@, data),
        ensures
            r matches Ok(sr) && (final(self)@, sr@) == step_outcome(
                old(self)@,
                data,
                opt_progression_view(parsed_progression),
            ),
    {
        let guessing = self.proposes_guess(&data);
        let giving_up = gives_up_exec(&data);
        let ghost d = data;
        let RawStepResponse {
            completion: _,
            step,
            progression,
            question,
            akitude,
            step_last_proposition,
            id_proposition,
            id_base_proposition,
            name_proposition,
            description_proposition,
            photo,
            pseudo,
            flag_photo,
        } = data;
        if guessing {
            let id = match &id_proposition {
                Some(v) => json_value_to_string(v),
                None => String::new(),
            };
            let guess = Guess {
                id,
                name: match name_proposition {
                    Some(n) => n,
                    None => String::new(),
                },
                description: match description_proposition {
                    Some(n) => n,
                    None => String::new(),
                },
                photo: keep_non_empty(photo),
                pseudo: keep_non_empty(pseudo),
                flag_photo: match &flag_photo {
                    Some(JsonValue::Number { text: _, unsigned: Some(n) }) => *n as u32,
                    _ => 0,
                },
                base_proposition_id: match &id_base_proposition {
                    Some(v) => Some(json_value_to_string(v)),
                    None => None,
                },
            };
            self.won = true;
            self.current_guess = Some(guess.clone());
            return Ok(StepResult::Guess(guess));
        }
        if giving_up {
            self.ko = true;
            return Ok(StepResult::GiveUp);
        }
        if let Some(v) = &step {
            let t = json_value_to_string(v);
            self.step = match parse_usize(t.as_str()) {
                Some(n) => n,
                None => self.step + 1,
            };
        }
        if progression.is_some() {
            if let Some(p) = parsed_progression {
                self.progression = p;
            }
        }
        if let Some(q) = question {
            self.question = q;
        }
        if let Some(a) = akitude {
            self.akitude = a;
        }
        if let Some(v) = &step_last_proposition {
            self.step_last_proposition = json_value_to_string(v);
        }
        Ok(StepResult::Question {
            question: self.question.clone(),
            step: self.step,
            progression: self.progression.clone(),
            akitude: self.akitude.clone(),
        })
    }

    /// Exports the current game state into a serializable [`SessionData`].
    pub fn export_session(&self) -> (r: SessionData)
        ensures
            r@ == export_spec(self@),
    {
        SessionData {
            language: self.language,
            theme: self.theme,
            child_mode: self.child_mode,
            url: self.url.clone(),
            session: self.session.clone(),
            signature: self.signature.clone(),
            identifiant: self.identifiant.clone(),
            question: self.question.clone(),
            step: self.step,
            progression: self.progression.clone(),
            step_last_proposition: self.step_last_proposition.clone(),
            akitude: self.akitude.clone(),
            started: self.started,
            won: self.won,
            ko: self.ko,
            current_guess: match &self.current_guess {
                Some(g) => Some(g.clone()),
                None => None,
            },
        }
    }

    /// Reconstructs an [`Akinator`] instance from previously exported [`SessionData`]; the
    /// user agent is the default one.
    pub fn from_session(data: SessionData) -> (r: Akinator)
        ensures
            r@ == restore_spec(data@),
    {
        Akinator {
            language: data.language,
            theme: data.theme,
            child_mode: data.child_mode,
            user_agent: String::from_str(default_user_agent_text()),
            url: data.url,
            session: data.session,
            signature: data.signature,
            identifiant: data.identifiant,
            question: data.question,
            step: data.step,
            progression: data.progression,
            step_last_proposition: data.step_last_proposition,
            akitude: data.akitude,
            started: data.started,
            won: data.won,
            ko: data.ko,
            current_guess: data.current_guess,
        }
    }
}

/// After the start page gives a session and a signature, the game stands at its first
/// question: started, neither guessed nor given up, answers accepted, no answer to take
/// back, and its settings as they were.
pub proof fn law_start_enters_first_question(
    s: AkinatorView,
    session: Option<Seq<char>>,
    signature: Option<Seq<char>>,
    question: Option<Seq<char>>,
    identifiant: Option<Seq<char>>,
    akitude: Option<Seq<char>>,
)
    requires
        session is Some,
        signature is Some,
    ensures
        ({
            let (t, r) = start_page_outcome(s, session, signature, question, identifiant, akitude);
            &&& r is Ok
            &&& t.started && !t.won && !t.ko && t.step == 0
            &&& answer_refusal(t) is None
            &&& back_refusal(t) == Some(ErrorView::CantGoBack)
            &&& proposal_refusal(t) is None
            &&& t.language == s.language && t.theme == s.theme && t.child_mode == s.child_mode
            &&& t.url == s.url && t.user_agent == s.user_agent
        }),
{
}

/// A start page without a session or signature changes nothing.
pub proof fn law_failed_start_keeps_state(
    s: AkinatorView,
    session: Option<Seq<char>>,
    signature: Option<Seq<char>>,
    question: Option<Seq<char>>,
    identifiant: Option<Seq<char>>,
    akitude: Option<Seq<char>>,
)
    requires
        session is None || signature is None,
    ensures
        start_page_outcome(s, session, signature, question, identifiant, akitude).0 == s,
        start_page_outcome(s, session, signature, question, identifiant, akitude).1 is Err,
{
}

/// Every move is refused in a game that has not started.
pub proof fn law_unstarted_refuses_moves(s: AkinatorView)
    requires
        !s.started,
    ensures
        answer_refusal(s) == Some(ErrorView::SessionNotStarted),
        back_refusal(s) == Some(ErrorView::SessionNotStarted),
        proposal_refusal(s) == Some(ErrorView::SessionNotStarted),
{
}

/// A new game has not started.
pub proof fn law_fresh_game_not_started(
    language: Language,
    theme: Theme,
    child_mode: bool,
    user_agent: Seq<char>,
)
    ensures
        !fresh_state(language, theme, child_mode, user_agent).started,
        answer_refusal(fresh_state(language, theme, child_mode, user_agent)) == Some(
            ErrorView::SessionNotStarted,
        ),
{
}

/// Once Akinator proposes a guess, the guess is held and answers are refused until it is
/// rejected.
pub proof fn law_guess_blocks_answers(s: AkinatorView, d: RawStepResponse, p: Option<ProgressionView>)
    requires
        s.started,
        proposes_guess(d),
    ensures
        step_outcome(s, d, p).0.won,
        step_outcome(s, d, p).0.current_guess is Some,
        step_outcome(s, d, p).1 is Guess,
        answer_refusal(step_outcome(s, d, p).0) == Some(ErrorView::SessionAlreadyWon),
{
}

/// Rejecting a guess drops it and lets a started game that has not given up take answers
/// again.
pub proof fn law_rejected_guess_reopens(s: AkinatorView)
    requires
        s.started,
        !s.ko,
    ensures
        answer_refusal(AkinatorView { won: false, current_guess: None, ..s }) is None,
{
}

/// A proposed guess carries what the response says of it: its ID, the name and description
/// sent (empty when missing), the photo and pseudo sent unless empty, the base proposition
/// ID, and the photo flag when it is an unsigned integer (cut to 32 bits; 0 otherwise). It is
/// then the game's current guess and the game counts as won.
pub proof fn law_guess_carries_proposal(s: AkinatorView, d: RawStepResponse, p: Option<ProgressionView>)
    requires
        proposes_guess(d),
    ensures
        ({
            let (t, r) = step_outcome(s, d, p);
            &&& r matches StepResultView::Guess(g)
            &&& t.current_guess == Some(g)
            &&& t.won
            &&& g.id == json_text(d.id_proposition->0)
            &&& match d.name_proposition {
                Some(n) => g.name == n@,
                None => g.name.len() == 0,
            }
            &&& match d.description_proposition {
                Some(n) => g.description == n@,
                None => g.description.len() == 0,
            }
            &&& match d.photo {
                Some(n) => if n@.len() > 0 {
                    g.photo == Some(n@)
                } else {
                    g.photo is None
                },
                None => g.photo is None,
            }
            &&& match d.pseudo {
                Some(n) => if n@.len() > 0 {
                    g.pseudo == Some(n@)
                } else {
                    g.pseudo is None
                },
                None => g.pseudo is None,
            }
            &&& match d.id_base_proposition {
                Some(v) => g.base_proposition_id == Some(json_text(v)),
                None => g.base_proposition_id is None,
            }
            &&& match d.flag_photo {
                Some(JsonValue::Number { text: _, unsigned: Some(n) }) => g.flag_photo == n as u32,
                _ => g.flag_photo == 0,
            }
        }),
{
}

/// An answer can be taken back in a started game past its first question, whether or not a
/// guess is pending or Akinator gave up; it is refused only before the game starts or on
/// the first question.
pub proof fn law_back_refused_only_at_start(s: AkinatorView, won: bool, ko: bool)
    ensures
        s.started && s.step > 0 ==> back_refusal(s) is None,
        !s.started ==> back_refusal(s) == Some(ErrorView::SessionNotStarted),
        s.started && s.step == 0 ==> back_refusal(s) == Some(ErrorView::CantGoBack),
        back_refusal(AkinatorView { won, ko, ..s }) == back_refusal(s),
{
}

/// An answer is taken exactly in a started game that has neither guessed nor given up.
pub proof fn law_answer_accepted_exactly(s: AkinatorView)
    ensures
        answer_refusal(s) is None <==> (s.started && !s.won && !s.ko),
        proposal_refusal(s) is None <==> s.started,
{
}

/// A next question takes each field the response sends: the question, the akitude and the
/// last-proposition step as sent, the step as parsed (one past the current step when it does
/// not parse) and the progression as parsed (the current one when it does not parse); a
/// field not sent keeps its value.
pub proof fn law_next_question_fields(s: AkinatorView, d: RawStepResponse, p: Option<ProgressionView>)
    requires
        !proposes_guess(d),
        !gives_up(d),
        !step_overflows(s, d),
    ensures
        ({
            let t = step_outcome(s, d, p).0;
            &&& match d.question {
                Some(q) => t.question == q@,
                None => t.question == s.question,
            }
            &&& match d.akitude {
                Some(a) => t.akitude == a@,
                None => t.akitude == s.akitude,
            }
            &&& match d.step_last_proposition {
                Some(v) => t.step_last_proposition == json_text(v),
                None => t.step_last_proposition == s.step_last_proposition,
            }
            &&& match d.step {
                Some(v) => match usize_from_text(json_text(v)) {
                    Some(n) => t.step == n,
                    None => t.step == s.step + 1,
                },
                None => t.step == s.step,
            }
            &&& match (d.progression, p) {
                (Some(_), Some(q)) => t.progression == q,
                _ => t.progression == s.progression,
            }
            &&& t.won == s.won && t.ko == s.ko && t.current_guess == s.current_guess
        }),
{
}

/// Once Akinator gives up, answers are refused.
pub proof fn law_give_up_blocks_answers(s: AkinatorView, d: RawStepResponse, p: Option<ProgressionView>)
    requires
        s.started,
        !s.won,
        !proposes_guess(d),
        gives_up(d),
    ensures
        step_outcome(s, d, p).1 is GiveUp,
        answer_refusal(step_outcome(s, d, p).0) == Some(ErrorView::SessionGivenUp),
{
}

/// A step response never changes the settings or the session parameters of a game.
pub proof fn law_step_keeps_session(s: AkinatorView, d: RawStepResponse, p: Option<ProgressionView>)
    ensures
        ({
            let t = step_outcome(s, d, p).0;
            &&& t.language == s.language && t.theme == s.theme && t.child_mode == s.child_mode
            &&& t.user_agent == s.user_agent && t.url == s.url
            &&& t.session == s.session && t.signature == s.signature
            &&& t.identifiant == s.identifiant && t.started == s.started
        }),
{
}

/// The result of a next question reports the state the game is then in.
pub proof fn law_question_reports_state(s: AkinatorView, d: RawStepResponse, p: Option<ProgressionView>)
    requires
        !proposes_guess(d),
        !gives_up(d),
    ensures
        ({
            let (t, r) = step_outcome(s, d, p);
            r == StepResultView::Question {
                question: t.question,
                step: t.step,
                progression: t.progression,
                akitude: t.akitude,
            }
        }),
{
}

/// A reply that does not start with `<` after white space is never taken for a Cloudflare
/// challenge.
pub proof fn law_non_html_never_blocked(body: Seq<char>)
    requires
        !has_prefix(trim_start_spec(body), "<"@),
    ensures
        !cloudflare_page(body),
{
}

/// Restoring a snapshot and exporting it again gives the same snapshot.
pub proof fn law_export_after_restore(d: SessionDataView)
    ensures
        export_spec(restore_spec(d)) == d,
{
}

/// Exporting a game and restoring the snapshot gives the same game, with the default user
/// agent.
pub proof fn law_restore_after_export(s: AkinatorView)
    ensures
        restore_spec(export_spec(s)) == (AkinatorView { user_agent: default_user_agent(), ..s }),
{
}

} // verus!
