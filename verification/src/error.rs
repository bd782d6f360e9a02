//! Errors of the game logic.
use vstd::prelude::*;

use crate::enums::{language_code, theme_name, Language, Theme};

verus! {

/// Errors that can occur during Akinator interactions.
#[derive(Debug)]
pub enum Error {
    /// A pattern failed to compile; the message of the `regex` crate.
    Regex(String),
    /// The game has not been started yet.
    SessionNotStarted,
    /// A guess has already been made.
    SessionAlreadyWon,
    /// Akinator has given up and has no more questions.
    SessionGivenUp,
    /// Already on the first question.
    CantGoBack,
    /// The session has expired or returned an invalid state.
    SessionExpired,
    /// Answer input that names no answer.
    InvalidAnswer(String),
    /// Language input that names no language.
    InvalidLanguage(String),
    /// Theme input that names no theme.
    InvalidTheme(String),
    /// The theme is not offered in the language.
    ThemeNotSupportedForLanguage { theme: Theme, language: Language },
    /// A Cloudflare anti-bot page came back from the endpoint.
    CloudflareBlocked { endpoint: String },
    /// A required session parameter was missing from the game page.
    ExtractionFailed(String),
    /// Any other failure, with its message.
    AkinatorError(String),
}

/// The content of an [`Error`].
pub enum ErrorView {
    Regex(Seq<char>),
    SessionNotStarted,
    SessionAlreadyWon,
    SessionGivenUp,
    CantGoBack,
    SessionExpired,
    InvalidAnswer(Seq<char>),
    InvalidLanguage(Seq<char>),
    InvalidTheme(Seq<char>),
    ThemeNotSupportedForLanguage { theme: Theme, language: Language },
    CloudflareBlocked { endpoint: Seq<char> },
    ExtractionFailed(Seq<char>),
    AkinatorError(Seq<char>),
}

impl View for Error {
    type V = ErrorView;

    open spec fn view(&self) -> ErrorView {
        match self {
            Error::Regex(m) => ErrorView::Regex(m@),
            Error::SessionNotStarted => ErrorView::SessionNotStarted,
            Error::SessionAlreadyWon => ErrorView::SessionAlreadyWon,
            Error::SessionGivenUp => ErrorView::SessionGivenUp,
            Error::CantGoBack => ErrorView::CantGoBack,
            Error::SessionExpired => ErrorView::SessionExpired,
            Error::InvalidAnswer(m) => ErrorView::InvalidAnswer(m@),
            Error::InvalidLanguage(m) => ErrorView::InvalidLanguage(m@),
            Error::InvalidTheme(m) => ErrorView::InvalidTheme(m@),
            Error::ThemeNotSupportedForLanguage { theme, language } =>
                ErrorView::ThemeNotSupportedForLanguage { theme: *theme, language: *language },
            Error::CloudflareBlocked { endpoint } => ErrorView::CloudflareBlocked { endpoint: endpoint@ },
            Error::ExtractionFailed(m) => ErrorView::ExtractionFailed(m@),
            Error::AkinatorError(m) => ErrorView::AkinatorError(m@),
        }
    }
}

/// The message of an error, as the error is displayed.
pub open spec fn error_message(e: ErrorView) -> Seq<char> {
    match e {
        ErrorView::Regex(m) => "Regex compilation/matching error: "@ + m,
        ErrorView::SessionNotStarted => "Game session has not been started yet. Call start() first."@,
        ErrorView::SessionAlreadyWon => "A guess has already been made. Call continue_game() or submit_win()."@,
        ErrorView::SessionGivenUp => "Akinator has given up and has no more questions."@,
        ErrorView::CantGoBack => "Cannot go back any further. Already on the first question."@,
        ErrorView::SessionExpired => "Session has expired or returned an invalid state."@,
        ErrorView::InvalidAnswer(s) => "Invalid answer input: '"@ + s
            + "'. Expected values like 'yes', 'no', 'idk', 'probably', 'probably not', or 0..=4."@,
        ErrorView::InvalidLanguage(s) => "Invalid language input: '"@ + s + "'."@,
        ErrorView::InvalidTheme(s) => "Invalid theme input: '"@ + s + "'."@,
        ErrorView::ThemeNotSupportedForLanguage { theme, language } => "Theme '"@ + theme_name(theme)
            + "' is not supported for language '"@ + language_code(language) + "'."@,
        ErrorView::CloudflareBlocked { endpoint } => "Akinator served a Cloudflare anti-bot challenge on '"@
            + endpoint + "'."@,
        ErrorView::ExtractionFailed(s) => "Failed to extract required session parameter: "@ + s,
        ErrorView::AkinatorError(s) => "Akinator API error: "@ + s,
    }
}

impl Error {
    /// The message of this error, as it is displayed.
    pub fn message(&self) -> (r: String)
        ensures
            r@ == error_message(self@),
    {
        match self {
            Error::Regex(m) => String::from_str("Regex compilation/matching error: ").concat(m.as_str()),
            Error::SessionNotStarted => String::from_str(
                "Game session has not been started yet. Call start() first.",
            ),
            Error::SessionAlreadyWon => String::from_str(
                "A guess has already been made. Call continue_game() or submit_win().",
            ),
            Error::SessionGivenUp => String::from_str("Akinator has given up and has no more questions."),
            Error::CantGoBack => String::from_str(
                "Cannot go back any further. Already on the first question.",
            ),
            Error::SessionExpired => String::from_str(
                "Session has expired or returned an invalid state.",
            ),
            Error::InvalidAnswer(s) => String::from_str("Invalid answer input: '").concat(
                s.as_str(),
            ).concat(
                "'. Expected values like 'yes', 'no', 'idk', 'probably', 'probably not', or 0..=4.",
            ),
            Error::InvalidLanguage(s) => String::from_str("Invalid language input: '").concat(
                s.as_str(),
            ).concat("'."),
            Error::InvalidTheme(s) => String::from_str("Invalid theme input: '").concat(
                s.as_str(),
            ).concat("'."),
            Error::ThemeNotSupportedForLanguage { theme, language } => String::from_str(
                "Theme '",
            ).concat(theme.name()).concat("' is not supported for language '").concat(
                language.code(),
            ).concat("'."),
            Error::CloudflareBlocked { endpoint } => String::from_str(
                "Akinator served a Cloudflare anti-bot challenge on '",
            ).concat(endpoint.as_str()).concat("'."),
            Error::ExtractionFailed(s) => String::from_str(
                "Failed to extract required session parameter: ",
            ).concat(s.as_str()),
            Error::AkinatorError(s) => String::from_str("Akinator API error: ").concat(s.as_str()),
        }
    }
}

} // verus!
