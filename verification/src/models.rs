//! The values that the game hands out and takes back: guesses, step results, session
//! snapshots and the fields of a step response.
use vstd::prelude::*;

use crate::enums::{Language, Theme};
use crate::text::{chars_of, chars_start_with, has_prefix, opt_view};

verus! {

/// A copy of an optional string.
pub fn copy_opt_string(o: &Option<String>) -> (r: Option<String>)
    ensures
        r == *o,
{
    match o {
        Some(s) => Some(s.clone()),
        None => None,
    }
}

/// Represents Akinator's character or object prediction proposal.
#[derive(Debug, PartialEq, Eq)]
pub struct Guess {
    /// Proposition ID in Akinator database.
    pub id: String,
    /// Name of the guessed entity.
    pub name: String,
    /// Short description or role of the entity.
    pub description: String,
    /// Direct URL to the character/item image if available.
    pub photo: Option<String>,
    /// The user who submitted or confirmed this entity.
    pub pseudo: Option<String>,
    /// Photo flag status.
    pub flag_photo: u32,
    /// Base proposition identifier if applicable.
    pub base_proposition_id: Option<String>,
}

/// The content of a [`Guess`].
pub struct GuessView {
    pub id: Seq<char>,
    pub name: Seq<char>,
    pub description: Seq<char>,
    pub photo: Option<Seq<char>>,
    pub pseudo: Option<Seq<char>>,
    pub flag_photo: u32,
    pub base_proposition_id: Option<Seq<char>>,
}

impl View for Guess {
    type V = GuessView;

    open spec fn view(&self) -> GuessView {
        GuessView {
            id: self.id@,
            name: self.name@,
            description: self.description@,
            photo: opt_view(self.photo),
            pseudo: opt_view(self.pseudo),
            flag_photo: self.flag_photo,
            base_proposition_id: opt_view(self.base_proposition_id),
        }
    }
}

/// Where a guess photo can be downloaded: absolute links are kept, a path is resolved against
/// the English site, and a bare file name against the photo host.
pub open spec fn photo_url_spec(photo: Option<Seq<char>>) -> Option<Seq<char>> {
    match photo {
        None => None,
        Some(p) => Some(
            if has_prefix(p, "http://"@) || has_prefix(p, "https://"@) {
                p
            } else if has_prefix(p, "/"@) {
                "https://en.akinator.com"@ + p
            } else {
                "https://picture.akinator.com/photos/"@ + p
            },
        ),
    }
}

impl Clone for Guess {
    fn clone(&self) -> (r: Guess)
        ensures
            r == *self,
    {
        Guess {
            id: self.id.clone(),
            name: self.name.clone(),
            description: self.description.clone(),
            photo: copy_opt_string(&self.photo),
            pseudo: copy_opt_string(&self.pseudo),
            flag_photo: self.flag_photo,
            base_proposition_id: copy_opt_string(&self.base_proposition_id),
        }
    }
}

impl Guess {
    /// Formats and returns the full absolute URL to the guessed character's photo, if available.
    pub fn photo_url(&self) -> (r: Option<String>)
        ensures
            opt_view(r) == photo_url_spec(self@.photo),
    {
        match &self.photo {
            None => None,
            Some(p) => {
                let v = chars_of(p.as_str());
                if chars_start_with(v.as_slice(), "http://") || chars_start_with(
                    v.as_slice(),
                    "https://",
                ) {
                    Some(p.clone())
                } else if chars_start_with(v.as_slice(), "/") {
                    Some(String::from_str("https://en.akinator.com").concat(p.as_str()))
                } else {
                    Some(String::from_str("https://picture.akinator.com/photos/").concat(p.as_str()))
                }
            },
        }
    }
}

/// Akinator's certainty percentage, a 32-bit float, held as its bit pattern together with
/// its shortest decimal text (the text the service is sent back).
#[derive(Debug, PartialEq, Eq)]
pub struct Progression {
    /// The IEEE 754 bit pattern of the value.
    pub bits: u32,
    /// The value written in decimal.
    pub text: String,
}

/// The content of a [`Progression`].
pub struct ProgressionView {
    pub bits: u32,
    pub text: Seq<char>,
}

impl View for Progression {
    type V = ProgressionView;

    open spec fn view(&self) -> ProgressionView {
        ProgressionView { bits: self.bits, text: self.text@ }
    }
}

/// Progression zero: all bits clear, written `0`.
pub open spec fn progression_zero() -> ProgressionView {
    ProgressionView { bits: 0, text: "0"@ }
}

impl Clone for Progression {
    fn clone(&self) -> (r: Progression)
        ensures
            r == *self,
    {
        Progression { bits: self.bits, text: self.text.clone() }
    }
}

impl Progression {
    /// Progression zero.
    pub fn zero() -> (r: Progression)
        ensures
            r@ == progression_zero(),
    {
        Progression { bits: 0, text: String::from_str("0") }
    }
}

/// The result returned after initiating a game, submitting an answer, or backtracking.
#[derive(Debug, PartialEq, Eq)]
pub enum StepResult {
    /// Next question to answer.
    Question {
        /// The question text.
        question: String,
        /// Current question index (starts at 0).
        step: usize,
        /// Akinator's certainty progression percentage (0.0 to 100.0).
        progression: Progression,
        /// Current mood/akitude identifier or image filename.
        akitude: String,
    },
    /// Akinator has accumulated enough certainty to propose a guess.
    Guess(Guess),
    /// Akinator was unable to find a matching entity and gave up.
    GiveUp,
}

impl Clone for StepResult {
    fn clone(&self) -> (r: StepResult)
        ensures
            r == *self,
    {
        match self {
            StepResult::Question { question, step, progression, akitude } => StepResult::Question {
                question: question.clone(),
                step: *step,
                progression: progression.clone(),
                akitude: akitude.clone(),
            },
            StepResult::Guess(g) => StepResult::Guess(g.clone()),
            StepResult::GiveUp => StepResult::GiveUp,
        }
    }
}

/// The content of a [`StepResult`].
pub enum StepResultView {
    Question { question: Seq<char>, step: usize, progression: ProgressionView, akitude: Seq<char> },
    Guess(GuessView),
    GiveUp,
}

impl View for StepResult {
    type V = StepResultView;

    open spec fn view(&self) -> StepResultView {
        match self {
            StepResult::Question { question, step, progression, akitude } => StepResultView::Question {
                question: question@,
                step: *step,
                progression: progression@,
                akitude: akitude@,
            },
            StepResult::Guess(g) => StepResultView::Guess(g@),
            StepResult::GiveUp => StepResultView::GiveUp,
        }
    }
}

/// A fully serializable and persistent snapshot of an active Akinator session.
#[derive(Debug, PartialEq, Eq)]
pub struct SessionData {
    pub session: String,
    pub signature: String,
    pub url: String,
    pub identifiant: String,
    pub question: String,
    pub step: usize,
    pub progression: Progression,
    pub step_last_proposition: String,
    pub akitude: String,
    pub won: bool,
    pub ko: bool,
    pub started: bool,
    pub language: Language,
    pub theme: Theme,
    pub child_mode: bool,
    pub current_guess: Option<Guess>,
}

impl Clone for SessionData {
    fn clone(&self) -> (r: SessionData)
        ensures
            r == *self,
    {
        SessionData {
            session: self.session.clone(),
            signature: self.signature.clone(),
            url: self.url.clone(),
            identifiant: self.identifiant.clone(),
            question: self.question.clone(),
            step: self.step,
            progression: self.progression.clone(),
            step_last_proposition: self.step_last_proposition.clone(),
            akitude: self.akitude.clone(),
            won: self.won,
            ko: self.ko,
            started: self.started,
            language: self.language,
            theme: self.theme,
            child_mode: self.child_mode,
            current_guess: match &self.current_guess {
                Some(g) => Some(g.clone()),
                None => None,
            },
        }
    }
}

/// The view of an optional guess.
pub open spec fn opt_guess_view(g: Option<Guess>) -> Option<GuessView> {
    match g {
        Some(g) => Some(g@),
        None => None,
    }
}

/// The content of a [`SessionData`]: the whole game state but for the user agent.
pub struct SessionDataView {
    pub session: Seq<char>,
    pub signature: Seq<char>,
    pub url: Seq<char>,
    pub identifiant: Seq<char>,
    pub question: Seq<char>,
    pub step: usize,
    pub progression: ProgressionView,
    pub step_last_proposition: Seq<char>,
    pub akitude: Seq<char>,
    pub won: bool,
    pub ko: bool,
    pub started: bool,
    pub language: Language,
    pub theme: Theme,
    pub child_mode: bool,
    pub current_guess: Option<GuessView>,
}

impl View for SessionData {
    type V = SessionDataView;

    open spec fn view(&self) -> SessionDataView {
        SessionDataView {
            session: self.session@,
            signature: self.signature@,
            url: self.url@,
            identifiant: self.identifiant@,
            question: self.question@,
            step: self.step,
            progression: self.progression@,
            step_last_proposition: self.step_last_proposition@,
            akitude: self.akitude@,
            won: self.won,
            ko: self.ko,
            started: self.started,
            language: self.language,
            theme: self.theme,
            child_mode: self.child_mode,
            current_guess: opt_guess_view(self.current_guess),
        }
    }
}

/// A scalar of a JSON step response, as far as the game reads it.
#[derive(Debug, PartialEq, Eq)]
pub enum JsonValue {
    /// A JSON string.
    Text(String),
    /// A JSON number: its text as `serde_json` writes it, and its value when it is an
    /// integer that fits in a `u64`.
    Number { text: String, unsigned: Option<u64> },
    /// `null`, a boolean, an array or an object.
    Other,
}

/// The text of a JSON scalar: a string as it is, a number as written, anything else empty.
pub open spec fn json_text(v: JsonValue) -> Seq<char> {
    match v {
        JsonValue::Text(s) => s@,
        JsonValue::Number { text, unsigned: _ } => text@,
        JsonValue::Other => Seq::empty(),
    }
}

/// The text of an optional JSON scalar.
pub open spec fn opt_json_text(v: Option<JsonValue>) -> Option<Seq<char>> {
    match v {
        Some(v) => Some(json_text(v)),
        None => None,
    }
}

/// The fields of a step response from the service; every one of them may be missing.
#[derive(Debug, PartialEq, Eq)]
pub struct RawStepResponse {
    pub completion: Option<String>,
    pub step: Option<JsonValue>,
    pub progression: Option<JsonValue>,
    pub question: Option<String>,
    pub akitude: Option<String>,
    pub step_last_proposition: Option<JsonValue>,
    pub id_proposition: Option<JsonValue>,
    pub id_base_proposition: Option<JsonValue>,
    pub name_proposition: Option<String>,
    pub description_proposition: Option<String>,
    pub photo: Option<String>,
    pub pseudo: Option<String>,
    pub flag_photo: Option<JsonValue>,
}

/// The text of a JSON scalar.
pub fn json_value_to_string(value: &JsonValue) -> (r: String)
    ensures
        r@ == json_text(*value),
{
    match value {
        JsonValue::Text(s) => s.clone(),
        JsonValue::Number { text, unsigned: _ } => text.clone(),
        JsonValue::Other => String::new(),
    }
}

impl RawStepResponse {
    /// The text of the progression field, when there is one: what is parsed as a float.
    pub fn progression_text(&self) -> (r: Option<String>)
        ensures
            opt_view(r) == opt_json_text(self.progression),
    {
        match &self.progression {
            Some(v) => Some(json_value_to_string(v)),
            None => None,
        }
    }
}

} // verus!
