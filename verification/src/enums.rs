//! The languages, themes and answers of the game, and how they are named and parsed.
use vstd::prelude::*;

use crate::error::Error;
use crate::text::{
    chars_eq_str, is_white, lemma_normalize_stable, lower_spec, normalize, normalize_spec, padded,
    trim_spec, upper_spec,
};
use crate::numtext::{decimal_spec, decimal_string};

verus! {

/// Languages supported by the Akinator service.
#[derive(Debug, Clone, Copy, PartialEq, Eq, Hash, Structural)]
pub enum Language {
    English,
    Arabic,
    French,
    Spanish,
    German,
    Italian,
    Japanese,
    Chinese,
    Russian,
    Portuguese,
    Turkish,
    Korean,
    Dutch,
    Polish,
    Indonesian,
    Hebrew,
}

/// The subdomain code of a language.
pub open spec fn language_code(l: Language) -> Seq<char> {
    match l {
        Language::English => "en"@,
        Language::Arabic => "ar"@,
        Language::French => "fr"@,
        Language::Spanish => "es"@,
        Language::German => "de"@,
        Language::Italian => "it"@,
        Language::Japanese => "jp"@,
        Language::Chinese => "cn"@,
        Language::Russian => "ru"@,
        Language::Portuguese => "pt"@,
        Language::Turkish => "tr"@,
        Language::Korean => "kr"@,
        Language::Dutch => "nl"@,
        Language::Polish => "pl"@,
        Language::Indonesian => "id"@,
        Language::Hebrew => "il"@,
    }
}

/// English name of a language.
pub open spec fn language_name(l: Language) -> Seq<char> {
    match l {
        Language::English => "English"@,
        Language::Arabic => "Arabic"@,
        Language::French => "French"@,
        Language::Spanish => "Spanish"@,
        Language::German => "German"@,
        Language::Italian => "Italian"@,
        Language::Japanese => "Japanese"@,
        Language::Chinese => "Chinese"@,
        Language::Russian => "Russian"@,
        Language::Portuguese => "Portuguese"@,
        Language::Turkish => "Turkish"@,
        Language::Korean => "Korean"@,
        Language::Dutch => "Dutch"@,
        Language::Polish => "Polish"@,
        Language::Indonesian => "Indonesian"@,
        Language::Hebrew => "Hebrew"@,
    }
}

/// Name of a language in that language.
pub open spec fn language_native_name(l: Language) -> Seq<char> {
    match l {
        Language::English => "English"@,
        Language::Arabic => "العربية"@,
        Language::French => "Français"@,
        Language::Spanish => "Español"@,
        Language::German => "Deutsch"@,
        Language::Italian => "Italiano"@,
        Language::Japanese => "日本語"@,
        Language::Chinese => "中文"@,
        Language::Russian => "Русский"@,
        Language::Portuguese => "Português"@,
        Language::Turkish => "Türkçe"@,
        Language::Korean => "한국어"@,
        Language::Dutch => "Nederlands"@,
        Language::Polish => "Polski"@,
        Language::Indonesian => "Bahasa Indonesia"@,
        Language::Hebrew => "עברית"@,
    }
}

/// The answer labels of a language, in the order Yes, No, Don't know, Probably, Probably not.
pub open spec fn language_answer_labels(l: Language) -> Seq<Seq<char>> {
    match l {
        Language::English => seq!["Yes"@, "No"@, "Don't know"@, "Probably"@, "Probably not"@],
        Language::Arabic => seq!["نعم"@, "لا"@, "لا أعرف"@, "غالباً نعم"@, "غالباً لا"@],
        Language::French => seq!["Oui"@, "Non"@, "Je ne sais pas"@, "Probablement oui"@, "Probablement non"@],
        Language::Spanish => seq!["Sí"@, "No"@, "No sé"@, "Probablemente sí"@, "Probablemente no"@],
        Language::German => seq!["Ja"@, "Nein"@, "Ich weiß nicht"@, "Wahrscheinlich ja"@, "Wahrscheinlich nein"@],
        Language::Italian => seq!["Sì"@, "No"@, "Non so"@, "Probabilmente sì"@, "Probabilmente no"@],
        Language::Japanese => seq!["はい"@, "いいえ"@, "分からない"@, "たぶんそう"@, "たぶん違う"@],
        Language::Chinese => seq!["是"@, "不是"@, "不知道"@, "可能是"@, "可能不是"@],
        Language::Russian => seq!["Да"@, "Нет"@, "Я не знаю"@, "Возможно да"@, "Возможно нет"@],
        Language::Portuguese => seq!["Sim"@, "Não"@, "Não sei"@, "Provavelmente sim"@, "Provavelmente não"@],
        Language::Turkish => seq!["Evet"@, "Hayır"@, "Bilmiyorum"@, "Muhtemelen"@, "Muhtemelen değil"@],
        Language::Korean => seq!["예"@, "아니오"@, "모르겠습니다"@, "그럴 겁니다"@, "아닐 겁니다"@],
        Language::Dutch => seq!["Ja"@, "Nee"@, "Ik weet het niet"@, "Waarschijnlijk wel"@, "Waarschijnlijk niet"@],
        Language::Polish => seq!["Tak"@, "Nie"@, "Nie wiem"@, "Chyba tak"@, "Chyba nie"@],
        Language::Indonesian => seq!["Ya"@, "Tidak"@, "Saya tidak tahu"@, "Mungkin"@, "Mungkin tidak"@],
        Language::Hebrew => seq!["כן"@, "לא"@, "אני לא יודע"@, "כנראה שכן"@, "כנראה שלא"@],
    }
}

/// The themes a language offers: all three for the six largest languages, characters only elsewhere.
pub open spec fn language_themes(l: Language) -> Seq<Theme> {
    match l {
        Language::English => seq![Theme::Characters, Theme::Objects, Theme::Animals],
        Language::Arabic => seq![Theme::Characters],
        Language::French => seq![Theme::Characters, Theme::Objects, Theme::Animals],
        Language::Spanish => seq![Theme::Characters, Theme::Objects, Theme::Animals],
        Language::German => seq![Theme::Characters, Theme::Objects, Theme::Animals],
        Language::Italian => seq![Theme::Characters, Theme::Objects, Theme::Animals],
        Language::Japanese => seq![Theme::Characters, Theme::Objects, Theme::Animals],
        Language::Chinese => seq![Theme::Characters],
        Language::Russian => seq![Theme::Characters],
        Language::Portuguese => seq![Theme::Characters],
        Language::Turkish => seq![Theme::Characters],
        Language::Korean => seq![Theme::Characters],
        Language::Dutch => seq![Theme::Characters],
        Language::Polish => seq![Theme::Characters],
        Language::Indonesian => seq![Theme::Characters],
        Language::Hebrew => seq![Theme::Characters],
    }
}

/// The language that a normalized (trimmed, ASCII-lowercased) code or name stands for.
pub open spec fn language_for_key(k: Seq<char>) -> Option<Language> {
    if k == "en"@ || k == "english"@ {
        Some(Language::English)
    } else if k == "ar"@ || k == "arabic"@ || k == "العربية"@ {
        Some(Language::Arabic)
    } else if k == "fr"@ || k == "french"@ || k == "français"@ {
        Some(Language::French)
    } else if k == "es"@ || k == "spanish"@ || k == "español"@ {
        Some(Language::Spanish)
    } else if k == "de"@ || k == "german"@ || k == "deutsch"@ {
        Some(Language::German)
    } else if k == "it"@ || k == "italian"@ || k == "italiano"@ {
        Some(Language::Italian)
    } else if k == "jp"@ || k == "ja"@ || k == "japanese"@ || k == "日本語"@ {
        Some(Language::Japanese)
    } else if k == "cn"@ || k == "zh"@ || k == "chinese"@ || k == "中文"@ {
        Some(Language::Chinese)
    } else if k == "ru"@ || k == "russian"@ || k == "русский"@ {
        Some(Language::Russian)
    } else if k == "pt"@ || k == "portuguese"@ || k == "português"@ {
        Some(Language::Portuguese)
    } else if k == "tr"@ || k == "turkish"@ || k == "türkçe"@ {
        Some(Language::Turkish)
    } else if k == "kr"@ || k == "ko"@ || k == "korean"@ || k == "한국어"@ {
        Some(Language::Korean)
    } else if k == "nl"@ || k == "dutch"@ || k == "nederlands"@ {
        Some(Language::Dutch)
    } else if k == "pl"@ || k == "polish"@ || k == "polski"@ {
        Some(Language::Polish)
    } else if k == "id"@ || k == "indonesian"@ || k == "bahasa indonesia"@ {
        Some(Language::Indonesian)
    } else if k == "il"@ || k == "he"@ || k == "hebrew"@ || k == "עבריت"@ || k == "עברית"@ {
        Some(Language::Hebrew)
    } else {
        None
    }
}

/// The language that free text names: its code or name, with white space around it and
/// ASCII case ignored.
pub open spec fn language_from_text(s: Seq<char>) -> Option<Language> {
    language_for_key(normalize_spec(s))
}

impl Language {
    /// Returns the subdomain language code used by Akinator servers.
    pub fn code(&self) -> (r: &'static str)
        ensures
            r@ == language_code(*self),
    {
        match self {
            Language::English => "en",
            Language::Arabic => "ar",
            Language::French => "fr",
            Language::Spanish => "es",
            Language::German => "de",
            Language::Italian => "it",
            Language::Japanese => "jp",
            Language::Chinese => "cn",
            Language::Russian => "ru",
            Language::Portuguese => "pt",
            Language::Turkish => "tr",
            Language::Korean => "kr",
            Language::Dutch => "nl",
            Language::Polish => "pl",
            Language::Indonesian => "id",
            Language::Hebrew => "il",
        }
    }

    /// Resolves a language from its ISO/Akinator code or name.
    pub fn from_code(code: &str) -> (r: Option<Language>)
        ensures
            r == language_from_text(code@),
    {
        let k = normalize(code);
        let k = k.as_slice();
        if chars_eq_str(k, "en") || chars_eq_str(k, "english") {
            Some(Language::English)
        } else if chars_eq_str(k, "ar") || chars_eq_str(k, "arabic") || chars_eq_str(k, "العربية") {
            Some(Language::Arabic)
        } else if chars_eq_str(k, "fr") || chars_eq_str(k, "french") || chars_eq_str(k, "français") {
            Some(Language::French)
        } else if chars_eq_str(k, "es") || chars_eq_str(k, "spanish") || chars_eq_str(k, "español") {
            Some(Language::Spanish)
        } else if chars_eq_str(k, "de") || chars_eq_str(k, "german") || chars_eq_str(k, "deutsch") {
            Some(Language::German)
        } else if chars_eq_str(k, "it") || chars_eq_str(k, "italian") || chars_eq_str(k, "italiano") {
            Some(Language::Italian)
        } else if chars_eq_str(k, "jp") || chars_eq_str(k, "ja") || chars_eq_str(k, "japanese") || chars_eq_str(k, "日本語") {
            Some(Language::Japanese)
        } else if chars_eq_str(k, "cn") || chars_eq_str(k, "zh") || chars_eq_str(k, "chinese") || chars_eq_str(k, "中文") {
            Some(Language::Chinese)
        } else if chars_eq_str(k, "ru") || chars_eq_str(k, "russian") || chars_eq_str(k, "русский") {
            Some(Language::Russian)
        } else if chars_eq_str(k, "pt") || chars_eq_str(k, "portuguese") || chars_eq_str(k, "português") {
            Some(Language::Portuguese)
        } else if chars_eq_str(k, "tr") || chars_eq_str(k, "turkish") || chars_eq_str(k, "türkçe") {
            Some(Language::Turkish)
        } else if chars_eq_str(k, "kr") || chars_eq_str(k, "ko") || chars_eq_str(k, "korean") || chars_eq_str(k, "한국어") {
            Some(Language::Korean)
        } else if chars_eq_str(k, "nl") || chars_eq_str(k, "dutch") || chars_eq_str(k, "nederlands") {
            Some(Language::Dutch)
        } else if chars_eq_str(k, "pl") || chars_eq_str(k, "polish") || chars_eq_str(k, "polski") {
            Some(Language::Polish)
        } else if chars_eq_str(k, "id") || chars_eq_str(k, "indonesian") || chars_eq_str(k, "bahasa indonesia") {
            Some(Language::Indonesian)
        } else if chars_eq_str(k, "il") || chars_eq_str(k, "he") || chars_eq_str(k, "hebrew") || chars_eq_str(k, "עבריت") || chars_eq_str(k, "עברית") {
            Some(Language::Hebrew)
        } else {
            None
        }
    }

    /// English display name.
    pub fn name(&self) -> (r: &'static str)
        ensures
            r@ == language_name(*self),
    {
        match self {
            Language::English => "English",
            Language::Arabic => "Arabic",
            Language::French => "French",
            Language::Spanish => "Spanish",
            Language::German => "German",
            Language::Italian => "Italian",
            Language::Japanese => "Japanese",
            Language::Chinese => "Chinese",
            Language::Russian => "Russian",
            Language::Portuguese => "Portuguese",
            Language::Turkish => "Turkish",
            Language::Korean => "Korean",
            Language::Dutch => "Dutch",
            Language::Polish => "Polish",
            Language::Indonesian => "Indonesian",
            Language::Hebrew => "Hebrew",
        }
    }

    /// Native language name.
    pub fn native_name(&self) -> (r: &'static str)
        ensures
            r@ == language_native_name(*self),
    {
        match self {
            Language::English => "English",
            Language::Arabic => "العربية",
            Language::French => "Français",
            Language::Spanish => "Español",
            Language::German => "Deutsch",
            Language::Italian => "Italiano",
            Language::Japanese => "日本語",
            Language::Chinese => "中文",
            Language::Russian => "Русский",
            Language::Portuguese => "Português",
            Language::Turkish => "Türkçe",
            Language::Korean => "한국어",
            Language::Dutch => "Nederlands",
            Language::Polish => "Polski",
            Language::Indonesian => "Bahasa Indonesia",
            Language::Hebrew => "עברית",
        }
    }

    /// Returns localized answer labels in the order: Yes, No, Don't know, Probably, Probably not.
    pub fn answer_labels(&self) -> (r: [&'static str; 5])
        ensures
            forall|i: int| 0 <= i < 5 ==> #[trigger] r@[i]@ == language_answer_labels(*self)[i],
    {
        match self {
            Language::English => ["Yes", "No", "Don't know", "Probably", "Probably not"],
            Language::Arabic => ["نعم", "لا", "لا أعرف", "غالباً نعم", "غالباً لا"],
            Language::French => ["Oui", "Non", "Je ne sais pas", "Probablement oui", "Probablement non"],
            Language::Spanish => ["Sí", "No", "No sé", "Probablemente sí", "Probablemente no"],
            Language::German => ["Ja", "Nein", "Ich weiß nicht", "Wahrscheinlich ja", "Wahrscheinlich nein"],
            Language::Italian => ["Sì", "No", "Non so", "Probabilmente sì", "Probabilmente no"],
            Language::Japanese => ["はい", "いいえ", "分からない", "たぶんそう", "たぶん違う"],
            Language::Chinese => ["是", "不是", "不知道", "可能是", "可能不是"],
            Language::Russian => ["Да", "Нет", "Я не знаю", "Возможно да", "Возможно нет"],
            Language::Portuguese => ["Sim", "Não", "Não sei", "Provavelmente sim", "Provavelmente não"],
            Language::Turkish => ["Evet", "Hayır", "Bilmiyorum", "Muhtemelen", "Muhtemelen değil"],
            Language::Korean => ["예", "아니오", "모르겠습니다", "그럴 겁니다", "아닐 겁니다"],
            Language::Dutch => ["Ja", "Nee", "Ik weet het niet", "Waarschijnlijk wel", "Waarschijnlijk niet"],
            Language::Polish => ["Tak", "Nie", "Nie wiem", "Chyba tak", "Chyba nie"],
            Language::Indonesian => ["Ya", "Tidak", "Saya tidak tahu", "Mungkin", "Mungkin tidak"],
            Language::Hebrew => ["כן", "לא", "אני לא יודע", "כנראה שכן", "כנראה שלא"],
        }
    }

    /// Returns list of themes supported for this language.
    pub fn available_themes(&self) -> (r: &'static [Theme])
        ensures
            r@ == language_themes(*self),
    {
        match self {
            Language::English | Language::French | Language::Spanish | Language::German | Language::Italian | Language::Japanese => &[Theme::Characters, Theme::Objects, Theme::Animals],
            Language::Arabic | Language::Chinese | Language::Russian | Language::Portuguese | Language::Turkish | Language::Korean | Language::Dutch | Language::Polish | Language::Indonesian | Language::Hebrew => &[Theme::Characters],
        }
    }

    /// Checks whether a given theme is supported by this language.
    pub fn is_theme_supported(&self, theme: Theme) -> (r: bool)
        ensures
            r == language_themes(*self).contains(theme),
    {
        let themes = self.available_themes();
        let mut i: usize = 0;
        while i < themes.len()
            invariant
                themes@ == language_themes(*self),
                i <= themes@.len(),
                forall|j: int| 0 <= j < i ==> themes@[j] != theme,
            decreases themes.len() - i,
        {
            if themes[i] == theme {
                assert(themes@[i as int] == theme);
                return true;
            }
            i = i + 1;
        }
        false
    }

    /// Parses a language from free text, failing with `InvalidLanguage` that holds the input.
    pub fn from_input(s: &str) -> (r: Result<Language, Error>)
        ensures
            match language_from_text(s@) {
                Some(l) => r == Ok::<Language, Error>(l),
                None => r matches Err(Error::InvalidLanguage(t)) && t@ == s@,
            },
    {
        match Language::from_code(s) {
            Some(l) => Ok(l),
            None => Err(Error::InvalidLanguage(s.to_owned())),
        }
    }
}

impl Default for Language {
    fn default() -> (r: Language)
        ensures
            r == Language::English,
    {
        Language::English
    }
}

impl core::str::FromStr for Language {
    type Err = Error;

    fn from_str(s: &str) -> (r: Result<Language, Error>)
        ensures
            match language_from_text(s@) {
                Some(l) => r == Ok::<Language, Error>(l),
                None => r matches Err(Error::InvalidLanguage(t)) && t@ == s@,
            },
    {
        Language::from_input(s)
    }
}

/// The gameplay category/theme in Akinator.
#[derive(Debug, Clone, Copy, PartialEq, Eq, Hash, Structural)]
pub enum Theme {
    Characters,
    Objects,
    Animals,
}

/// The numeric ID of a theme in the Akinator API.
pub open spec fn theme_id(t: Theme) -> nat {
    match t {
        Theme::Characters => 1,
        Theme::Objects => 2,
        Theme::Animals => 14,
    }
}

/// The theme with a numeric ID.
pub open spec fn theme_for_id(id: int) -> Option<Theme> {
    if id == 1 {
        Some(Theme::Characters)
    } else if id == 2 {
        Some(Theme::Objects)
    } else if id == 14 {
        Some(Theme::Animals)
    } else {
        None
    }
}

/// English name of a theme.
pub open spec fn theme_name(t: Theme) -> Seq<char> {
    match t {
        Theme::Characters => "Characters"@,
        Theme::Objects => "Objects"@,
        Theme::Animals => "Animals"@,
    }
}

/// The theme that a normalized word or number stands for.
pub open spec fn theme_for_key(k: Seq<char>) -> Option<Theme> {
    if k == "1"@ || k == "c"@ || k == "character"@ || k == "characters"@ || k == "person"@ || k == "شخصيات"@ || k == "شخصية"@ {
        Some(Theme::Characters)
    } else if k == "2"@ || k == "o"@ || k == "object"@ || k == "objects"@ || k == "item"@ || k == "كائنات"@ || k == "أشياء"@ {
        Some(Theme::Objects)
    } else if k == "14"@ || k == "a"@ || k == "animal"@ || k == "animals"@ || k == "حيوانات"@ || k == "حيوان"@ {
        Some(Theme::Animals)
    } else {
        None
    }
}

impl Theme {
    /// Returns the internal numerical ID expected by the Akinator API.
    pub fn id(&self) -> (r: usize)
        ensures
            r == theme_id(*self),
    {
        match self {
            Theme::Characters => 1,
            Theme::Objects => 2,
            Theme::Animals => 14,
        }
    }

    /// Parses a theme from its numeric ID.
    pub fn from_id(id: usize) -> (r: Option<Theme>)
        ensures
            r == theme_for_id(id as int),
    {
        match id {
            1 => Some(Theme::Characters),
            2 => Some(Theme::Objects),
            14 => Some(Theme::Animals),
            _ => None,
        }
    }

    /// English display name.
    pub fn name(&self) -> (r: &'static str)
        ensures
            r@ == theme_name(*self),
    {
        match self {
            Theme::Characters => "Characters",
            Theme::Objects => "Objects",
            Theme::Animals => "Animals",
        }
    }

    /// Parses a theme from its ID or a name, with white space around it and ASCII case
    /// ignored; fails with `InvalidTheme` holding the input.
    pub fn from_input(s: &str) -> (r: Result<Theme, Error>)
        ensures
            match theme_for_key(normalize_spec(s@)) {
                Some(t) => r == Ok::<Theme, Error>(t),
                None => r matches Err(Error::InvalidTheme(m)) && m@ == s@,
            },
    {
        let k = normalize(s);
        let k = k.as_slice();
        if chars_eq_str(k, "1") || chars_eq_str(k, "c") || chars_eq_str(k, "character") || chars_eq_str(k, "characters") || chars_eq_str(k, "person") || chars_eq_str(k, "شخصيات") || chars_eq_str(k, "شخصية") {
            Ok(Theme::Characters)
        } else if chars_eq_str(k, "2") || chars_eq_str(k, "o") || chars_eq_str(k, "object") || chars_eq_str(k, "objects") || chars_eq_str(k, "item") || chars_eq_str(k, "كائنات") || chars_eq_str(k, "أشياء") {
            Ok(Theme::Objects)
        } else if chars_eq_str(k, "14") || chars_eq_str(k, "a") || chars_eq_str(k, "animal") || chars_eq_str(k, "animals") || chars_eq_str(k, "حيوانات") || chars_eq_str(k, "حيوان") {
            Ok(Theme::Animals)
        } else {
            Err(Error::InvalidTheme(s.to_owned()))
        }
    }

    /// Converts a numeric ID to a theme, failing with `InvalidTheme` that holds the ID in decimal.
    pub fn try_from_id(value: usize) -> (r: Result<Theme, Error>)
        ensures
            match theme_for_id(value as int) {
                Some(t) => r == Ok::<Theme, Error>(t),
                None => r matches Err(Error::InvalidTheme(m)) && m@ == decimal_spec(value as nat),
            },
    {
        match Theme::from_id(value) {
            Some(t) => Ok(t),
            None => Err(Error::InvalidTheme(decimal_string(value))),
        }
    }
}

impl Default for Theme {
    fn default() -> (r: Theme)
        ensures
            r == Theme::Characters,
    {
        Theme::Characters
    }
}

impl core::str::FromStr for Theme {
    type Err = Error;

    fn from_str(s: &str) -> (r: Result<Theme, Error>)
        ensures
            match theme_for_key(normalize_spec(s@)) {
                Some(t) => r == Ok::<Theme, Error>(t),
                None => r matches Err(Error::InvalidTheme(m)) && m@ == s@,
            },
    {
        Theme::from_input(s)
    }
}

/// Answer choice provided in response to an Akinator question.
#[derive(Debug, Clone, Copy, PartialEq, Eq, Hash, Structural)]
pub enum Answer {
    Yes,
    No,
    DontKnow,
    Probably,
    ProbablyNot,
}

/// The numeric code of an answer.
pub open spec fn answer_id(a: Answer) -> nat {
    match a {
        Answer::Yes => 0,
        Answer::No => 1,
        Answer::DontKnow => 2,
        Answer::Probably => 3,
        Answer::ProbablyNot => 4,
    }
}

/// The answer with a numeric code.
pub open spec fn answer_for_id(id: int) -> Option<Answer> {
    if id == 0 {
        Some(Answer::Yes)
    } else if id == 1 {
        Some(Answer::No)
    } else if id == 2 {
        Some(Answer::DontKnow)
    } else if id == 3 {
        Some(Answer::Probably)
    } else if id == 4 {
        Some(Answer::ProbablyNot)
    } else {
        None
    }
}

/// The answer that a normalized word, phrase or code stands for.
pub open spec fn answer_for_key(k: Seq<char>) -> Option<Answer> {
    if k == "0"@ || k == "y"@ || k == "yes"@ || k == "yeah"@ || k == "true"@ || k == "نعم"@ || k == "اي"@ || k == "اى"@ || k == "صحيح"@ || k == "oui"@ || k == "ja"@ || k == "si"@ || k == "sì"@ || k == "sim"@ || k == "tak"@ || k == "да"@ || k == "evet"@ || k == "예"@ || k == "はい"@ || k == "是"@ {
        Some(Answer::Yes)
    } else if k == "1"@ || k == "n"@ || k == "no"@ || k == "nah"@ || k == "false"@ || k == "لا"@ || k == "كلا"@ || k == "non"@ || k == "nein"@ || k == "não"@ || k == "nie"@ || k == "нет"@ || k == "hayır"@ || k == "아니오"@ || k == "いいえ"@ || k == "不是"@ {
        Some(Answer::No)
    } else if k == "2"@ || k == "i"@ || k == "idk"@ || k == "dont know"@ || k == "don't know"@ || k == "unknown"@ || k == "لا اعلم"@ || k == "لا أعرف"@ || k == "لا ادري"@ || k == "لا أدري"@ || k == "je ne sais pas"@ || k == "weiß nicht"@ || k == "non so"@ || k == "não sei"@ || k == "nie wiem"@ || k == "не знаю"@ || k == "bilmiyorum"@ || k == "모르겠습니다"@ || k == "分からない"@ || k == "不知道"@ {
        Some(Answer::DontKnow)
    } else if k == "3"@ || k == "p"@ || k == "py"@ || k == "probably"@ || k == "probably yes"@ || k == "likely"@ || k == "ربما"@ || k == "غالبا"@ || k == "غالباً"@ || k == "غالبا نعم"@ || k == "غالباً نعم"@ || k == "ربما نعم"@ || k == "probablement oui"@ || k == "wahrscheinlich ja"@ || k == "probabilmente sì"@ || k == "provavelmente sim"@ || k == "chyba tak"@ || k == "возможно да"@ || k == "muhtemelen"@ || k == "그럴 겁니다"@ || k == "たぶんそう"@ || k == "可能是"@ {
        Some(Answer::Probably)
    } else if k == "4"@ || k == "pn"@ || k == "probably not"@ || k == "unlikely"@ || k == "ربما لا"@ || k == "غالبا لا"@ || k == "غالباً لا"@ || k == "probablement non"@ || k == "wahrscheinlich nein"@ || k == "probabilmente no"@ || k == "provavelmente não"@ || k == "chyba nie"@ || k == "возможно нет"@ || k == "muhtemelen değil"@ || k == "아닐 겁니다"@ || k == "たぶん違う"@ || k == "可能不是"@ {
        Some(Answer::ProbablyNot)
    } else {
        None
    }
}

impl Answer {
    /// Alias for `Answer::DontKnow` ("I don't know").
    pub const IDK: Answer = Answer::DontKnow;

    /// Returns the numerical answer code sent to Akinator servers.
    pub fn id(&self) -> (r: u8)
        ensures
            r == answer_id(*self),
    {
        match self {
            Answer::Yes => 0,
            Answer::No => 1,
            Answer::DontKnow => 2,
            Answer::Probably => 3,
            Answer::ProbablyNot => 4,
        }
    }

    /// Converts a numeric answer ID (0..=4) to an [`Answer`].
    pub fn from_id(id: u8) -> (r: Option<Answer>)
        ensures
            r == answer_for_id(id as int),
    {
        match id {
            0 => Some(Answer::Yes),
            1 => Some(Answer::No),
            2 => Some(Answer::DontKnow),
            3 => Some(Answer::Probably),
            4 => Some(Answer::ProbablyNot),
            _ => None,
        }
    }

    /// Localized string representation of this answer for a given language.
    pub fn label(&self, lang: Language) -> (r: &'static str)
        ensures
            r@ == language_answer_labels(lang)[answer_id(*self) as int],
    {
        let labels = lang.answer_labels();
        labels[self.id() as usize]
    }

    /// Parses an answer from its code or a word in one of the supported languages, with white
    /// space around it and ASCII case ignored; fails with `InvalidAnswer` holding the input.
    pub fn from_input(s: &str) -> (r: Result<Answer, Error>)
        ensures
            match answer_for_key(normalize_spec(s@)) {
                Some(a) => r == Ok::<Answer, Error>(a),
                None => r matches Err(Error::InvalidAnswer(m)) && m@ == s@,
            },
    {
        let k = normalize(s);
        let k = k.as_slice();
        if chars_eq_str(k, "0") || chars_eq_str(k, "y") || chars_eq_str(k, "yes") || chars_eq_str(k, "yeah") || chars_eq_str(k, "true") || chars_eq_str(k, "نعم") || chars_eq_str(k, "اي") || chars_eq_str(k, "اى") || chars_eq_str(k, "صحيح") || chars_eq_str(k, "oui") || chars_eq_str(k, "ja") || chars_eq_str(k, "si") || chars_eq_str(k, "sì") || chars_eq_str(k, "sim") || chars_eq_str(k, "tak") || chars_eq_str(k, "да") || chars_eq_str(k, "evet") || chars_eq_str(k, "예") || chars_eq_str(k, "はい") || chars_eq_str(k, "是") {
            Ok(Answer::Yes)
        } else if chars_eq_str(k, "1") || chars_eq_str(k, "n") || chars_eq_str(k, "no") || chars_eq_str(k, "nah") || chars_eq_str(k, "false") || chars_eq_str(k, "لا") || chars_eq_str(k, "كلا") || chars_eq_str(k, "non") || chars_eq_str(k, "nein") || chars_eq_str(k, "não") || chars_eq_str(k, "nie") || chars_eq_str(k, "нет") || chars_eq_str(k, "hayır") || chars_eq_str(k, "아니오") || chars_eq_str(k, "いいえ") || chars_eq_str(k, "不是") {
            Ok(Answer::No)
        } else if chars_eq_str(k, "2") || chars_eq_str(k, "i") || chars_eq_str(k, "idk") || chars_eq_str(k, "dont know") || chars_eq_str(k, "don't know") || chars_eq_str(k, "unknown") || chars_eq_str(k, "لا اعلم") || chars_eq_str(k, "لا أعرف") || chars_eq_str(k, "لا ادري") || chars_eq_str(k, "لا أدري") || chars_eq_str(k, "je ne sais pas") || chars_eq_str(k, "weiß nicht") || chars_eq_str(k, "non so") || chars_eq_str(k, "não sei") || chars_eq_str(k, "nie wiem") || chars_eq_str(k, "не знаю") || chars_eq_str(k, "bilmiyorum") || chars_eq_str(k, "모르겠습니다") || chars_eq_str(k, "分からない") || chars_eq_str(k, "不知道") {
            Ok(Answer::DontKnow)
        } else if chars_eq_str(k, "3") || chars_eq_str(k, "p") || chars_eq_str(k, "py") || chars_eq_str(k, "probably") || chars_eq_str(k, "probably yes") || chars_eq_str(k, "likely") || chars_eq_str(k, "ربما") || chars_eq_str(k, "غالبا") || chars_eq_str(k, "غالباً") || chars_eq_str(k, "غالبا نعم") || chars_eq_str(k, "غالباً نعم") || chars_eq_str(k, "ربما نعم") || chars_eq_str(k, "probablement oui") || chars_eq_str(k, "wahrscheinlich ja") || chars_eq_str(k, "probabilmente sì") || chars_eq_str(k, "provavelmente sim") || chars_eq_str(k, "chyba tak") || chars_eq_str(k, "возможно да") || chars_eq_str(k, "muhtemelen") || chars_eq_str(k, "그럴 겁니다") || chars_eq_str(k, "たぶんそう") || chars_eq_str(k, "可能是") {
            Ok(Answer::Probably)
        } else if chars_eq_str(k, "4") || chars_eq_str(k, "pn") || chars_eq_str(k, "probably not") || chars_eq_str(k, "unlikely") || chars_eq_str(k, "ربما لا") || chars_eq_str(k, "غالبا لا") || chars_eq_str(k, "غالباً لا") || chars_eq_str(k, "probablement non") || chars_eq_str(k, "wahrscheinlich nein") || chars_eq_str(k, "probabilmente no") || chars_eq_str(k, "provavelmente não") || chars_eq_str(k, "chyba nie") || chars_eq_str(k, "возможно нет") || chars_eq_str(k, "muhtemelen değil") || chars_eq_str(k, "아닐 겁니다") || chars_eq_str(k, "たぶん違う") || chars_eq_str(k, "可能不是") {
            Ok(Answer::ProbablyNot)
        } else {
            Err(Error::InvalidAnswer(s.to_owned()))
        }
    }

    /// Converts a numeric code to an answer, failing with `InvalidAnswer` that holds the code
    /// in decimal.
    pub fn try_from_id(value: u8) -> (r: Result<Answer, Error>)
        ensures
            match answer_for_id(value as int) {
                Some(a) => r == Ok::<Answer, Error>(a),
                None => r matches Err(Error::InvalidAnswer(m)) && m@ == decimal_spec(value as nat),
            },
    {
        match Answer::from_id(value) {
            Some(a) => Ok(a),
            None => Err(Error::InvalidAnswer(decimal_string(value as usize))),
        }
    }
}

impl Default for Answer {
    fn default() -> (r: Answer)
        ensures
            r == Answer::Yes,
    {
        Answer::Yes
    }
}

impl core::str::FromStr for Answer {
    type Err = Error;

    fn from_str(s: &str) -> (r: Result<Answer, Error>)
        ensures
            match answer_for_key(normalize_spec(s@)) {
                Some(a) => r == Ok::<Answer, Error>(a),
                None => r matches Err(Error::InvalidAnswer(m)) && m@ == s@,
            },
    {
        Answer::from_input(s)
    }
}




proof fn lemma_differ_at(a: Seq<char>, b: Seq<char>, i: int)
    requires
        0 <= i < a.len(),
        0 <= i < b.len(),
        a[i] != b[i],
    ensures
        a != b,
{
}

/// Trimming leaves text alone that neither starts nor ends with white space.
proof fn lemma_trim_plain(s: Seq<char>)
    requires
        s.len() > 0,
        !is_white(s[0]),
        !is_white(s.last()),
    ensures
        trim_spec(s) == s,
{
}

/// Every language's code names that language again: writing a language (its `Display`
/// and its serialized form) and reading it back gives the same language.
pub proof fn law_language_code_round_trip(l: Language)
    ensures
        language_from_text(language_code(l)) == Some(l),
{
    lemma_language_texts();
    let c = language_code(l);
    lemma_trim_plain(c);
    assert(lower_spec(c) =~= c);
    match l {
        Language::English => {
        },
        Language::Arabic => {
            lemma_differ_at("ar"@, "en"@, 0);
        },
        Language::French => {
            lemma_differ_at("fr"@, "en"@, 0);
            lemma_differ_at("fr"@, "ar"@, 0);
        },
        Language::Spanish => {
            lemma_differ_at("es"@, "en"@, 1);
            lemma_differ_at("es"@, "ar"@, 0);
            lemma_differ_at("es"@, "fr"@, 0);
        },
        Language::German => {
            lemma_differ_at("de"@, "en"@, 0);
            lemma_differ_at("de"@, "ar"@, 0);
            lemma_differ_at("de"@, "fr"@, 0);
            lemma_differ_at("de"@, "es"@, 0);
        },
        Language::Italian => {
            lemma_differ_at("it"@, "en"@, 0);
            lemma_differ_at("it"@, "ar"@, 0);
            lemma_differ_at("it"@, "fr"@, 0);
            lemma_differ_at("it"@, "es"@, 0);
            lemma_differ_at("it"@, "de"@, 0);
        },
        Language::Japanese => {
            lemma_differ_at("jp"@, "en"@, 0);
            lemma_differ_at("jp"@, "ar"@, 0);
            lemma_differ_at("jp"@, "fr"@, 0);
            lemma_differ_at("jp"@, "es"@, 0);
            lemma_differ_at("jp"@, "de"@, 0);
            lemma_differ_at("jp"@, "it"@, 0);
        },
        Language::Chinese => {
            lemma_differ_at("cn"@, "en"@, 0);
            lemma_differ_at("cn"@, "ar"@, 0);
            lemma_differ_at("cn"@, "fr"@, 0);
            lemma_differ_at("cn"@, "es"@, 0);
            lemma_differ_at("cn"@, "de"@, 0);
            lemma_differ_at("cn"@, "it"@, 0);
            lemma_differ_at("cn"@, "jp"@, 0);
            lemma_differ_at("cn"@, "ja"@, 0);
        },
        Language::Russian => {
            lemma_differ_at("ru"@, "en"@, 0);
            lemma_differ_at("ru"@, "ar"@, 0);
            lemma_differ_at("ru"@, "fr"@, 0);
            lemma_differ_at("ru"@, "es"@, 0);
            lemma_differ_at("ru"@, "de"@, 0);
            lemma_differ_at("ru"@, "it"@, 0);
            lemma_differ_at("ru"@, "jp"@, 0);
            lemma_differ_at("ru"@, "ja"@, 0);
            lemma_differ_at("ru"@, "cn"@, 0);
            lemma_differ_at("ru"@, "zh"@, 0);
            lemma_differ_at("ru"@, "中文"@, 0);
        },
        Language::Portuguese => {
            lemma_differ_at("pt"@, "en"@, 0);
            lemma_differ_at("pt"@, "ar"@, 0);
            lemma_differ_at("pt"@, "fr"@, 0);
            lemma_differ_at("pt"@, "es"@, 0);
            lemma_differ_at("pt"@, "de"@, 0);
            lemma_differ_at("pt"@, "it"@, 0);
            lemma_differ_at("pt"@, "jp"@, 0);
            lemma_differ_at("pt"@, "ja"@, 0);
            lemma_differ_at("pt"@, "cn"@, 0);
            lemma_differ_at("pt"@, "zh"@, 0);
            lemma_differ_at("pt"@, "中文"@, 0);
            lemma_differ_at("pt"@, "ru"@, 0);
        },
        Language::Turkish => {
            lemma_differ_at("tr"@, "en"@, 0);
            lemma_differ_at("tr"@, "ar"@, 0);
            lemma_differ_at("tr"@, "fr"@, 0);
            lemma_differ_at("tr"@, "es"@, 0);
            lemma_differ_at("tr"@, "de"@, 0);
            lemma_differ_at("tr"@, "it"@, 0);
            lemma_differ_at("tr"@, "jp"@, 0);
            lemma_differ_at("tr"@, "ja"@, 0);
            lemma_differ_at("tr"@, "cn"@, 0);
            lemma_differ_at("tr"@, "zh"@, 0);
            lemma_differ_at("tr"@, "中文"@, 0);
            lemma_differ_at("tr"@, "ru"@, 0);
            lemma_differ_at("tr"@, "pt"@, 0);
        },
        Language::Korean => {
            lemma_differ_at("kr"@, "en"@, 0);
            lemma_differ_at("kr"@, "ar"@, 0);
            lemma_differ_at("kr"@, "fr"@, 0);
            lemma_differ_at("kr"@, "es"@, 0);
            lemma_differ_at("kr"@, "de"@, 0);
            lemma_differ_at("kr"@, "it"@, 0);
            lemma_differ_at("kr"@, "jp"@, 0);
            lemma_differ_at("kr"@, "ja"@, 0);
            lemma_differ_at("kr"@, "cn"@, 0);
            lemma_differ_at("kr"@, "zh"@, 0);
            lemma_differ_at("kr"@, "中文"@, 0);
            lemma_differ_at("kr"@, "ru"@, 0);
            lemma_differ_at("kr"@, "pt"@, 0);
            lemma_differ_at("kr"@, "tr"@, 0);
        },
        Language::Dutch => {
            lemma_differ_at("nl"@, "en"@, 0);
            lemma_differ_at("nl"@, "ar"@, 0);
            lemma_differ_at("nl"@, "fr"@, 0);
            lemma_differ_at("nl"@, "es"@, 0);
            lemma_differ_at("nl"@, "de"@, 0);
            lemma_differ_at("nl"@, "it"@, 0);
            lemma_differ_at("nl"@, "jp"@, 0);
            lemma_differ_at("nl"@, "ja"@, 0);
            lemma_differ_at("nl"@, "cn"@, 0);
            lemma_differ_at("nl"@, "zh"@, 0);
            lemma_differ_at("nl"@, "中文"@, 0);
            lemma_differ_at("nl"@, "ru"@, 0);
            lemma_differ_at("nl"@, "pt"@, 0);
            lemma_differ_at("nl"@, "tr"@, 0);
            lemma_differ_at("nl"@, "kr"@, 0);
            lemma_differ_at("nl"@, "ko"@, 0);
        },
        Language::Polish => {
            lemma_differ_at("pl"@, "en"@, 0);
            lemma_differ_at("pl"@, "ar"@, 0);
            lemma_differ_at("pl"@, "fr"@, 0);
            lemma_differ_at("pl"@, "es"@, 0);
            lemma_differ_at("pl"@, "de"@, 0);
            lemma_differ_at("pl"@, "it"@, 0);
            lemma_differ_at("pl"@, "jp"@, 0);
            lemma_differ_at("pl"@, "ja"@, 0);
            lemma_differ_at("pl"@, "cn"@, 0);
            lemma_differ_at("pl"@, "zh"@, 0);
            lemma_differ_at("pl"@, "中文"@, 0);
            lemma_differ_at("pl"@, "ru"@, 0);
            lemma_differ_at("pl"@, "pt"@, 1);
            lemma_differ_at("pl"@, "tr"@, 0);
            lemma_differ_at("pl"@, "kr"@, 0);
            lemma_differ_at("pl"@, "ko"@, 0);
            lemma_differ_at("pl"@, "nl"@, 0);
        },
        Language::Indonesian => {
            lemma_differ_at("id"@, "en"@, 0);
            lemma_differ_at("id"@, "ar"@, 0);
            lemma_differ_at("id"@, "fr"@, 0);
            lemma_differ_at("id"@, "es"@, 0);
            lemma_differ_at("id"@, "de"@, 0);
            lemma_differ_at("id"@, "it"@, 1);
            lemma_differ_at("id"@, "jp"@, 0);
            lemma_differ_at("id"@, "ja"@, 0);
            lemma_differ_at("id"@, "cn"@, 0);
            lemma_differ_at("id"@, "zh"@, 0);
            lemma_differ_at("id"@, "中文"@, 0);
            lemma_differ_at("id"@, "ru"@, 0);
            lemma_differ_at("id"@, "pt"@, 0);
            lemma_differ_at("id"@, "tr"@, 0);
            lemma_differ_at("id"@, "kr"@, 0);
            lemma_differ_at("id"@, "ko"@, 0);
            lemma_differ_at("id"@, "nl"@, 0);
            lemma_differ_at("id"@, "pl"@, 0);
        },
        Language::Hebrew => {
            lemma_differ_at("il"@, "en"@, 0);
            lemma_differ_at("il"@, "ar"@, 0);
            lemma_differ_at("il"@, "fr"@, 0);
            lemma_differ_at("il"@, "es"@, 0);
            lemma_differ_at("il"@, "de"@, 0);
            lemma_differ_at("il"@, "it"@, 1);
            lemma_differ_at("il"@, "jp"@, 0);
            lemma_differ_at("il"@, "ja"@, 0);
            lemma_differ_at("il"@, "cn"@, 0);
            lemma_differ_at("il"@, "zh"@, 0);
            lemma_differ_at("il"@, "中文"@, 0);
            lemma_differ_at("il"@, "ru"@, 0);
            lemma_differ_at("il"@, "pt"@, 0);
            lemma_differ_at("il"@, "tr"@, 0);
            lemma_differ_at("il"@, "kr"@, 0);
            lemma_differ_at("il"@, "ko"@, 0);
            lemma_differ_at("il"@, "nl"@, 0);
            lemma_differ_at("il"@, "pl"@, 0);
            lemma_differ_at("il"@, "id"@, 1);
        },
    }
}

/// Every language's English name names that language again.
pub proof fn law_language_name_round_trip(l: Language)
    ensures
        language_from_text(language_name(l)) == Some(l),
{
    lemma_language_texts();
    let c = language_name(l);
    lemma_trim_plain(c);
    match l {
        Language::English => {
            assert(lower_spec(c) =~= "english"@);
        },
        Language::Arabic => {
            assert(lower_spec(c) =~= "arabic"@);
        },
        Language::French => {
            assert(lower_spec(c) =~= "french"@);
            lemma_differ_at("french"@, "arabic"@, 0);
        },
        Language::Spanish => {
            assert(lower_spec(c) =~= "spanish"@);
            lemma_differ_at("spanish"@, "english"@, 0);
            lemma_differ_at("spanish"@, "العربية"@, 0);
        },
        Language::German => {
            assert(lower_spec(c) =~= "german"@);
            lemma_differ_at("german"@, "arabic"@, 0);
            lemma_differ_at("german"@, "french"@, 0);
        },
        Language::Italian => {
            assert(lower_spec(c) =~= "italian"@);
            lemma_differ_at("italian"@, "english"@, 0);
            lemma_differ_at("italian"@, "العربية"@, 0);
            lemma_differ_at("italian"@, "spanish"@, 0);
            lemma_differ_at("italian"@, "español"@, 0);
            lemma_differ_at("italian"@, "deutsch"@, 0);
        },
        Language::Japanese => {
            assert(lower_spec(c) =~= "japanese"@);
            lemma_differ_at("japanese"@, "français"@, 0);
            lemma_differ_at("japanese"@, "italiano"@, 0);
        },
        Language::Chinese => {
            assert(lower_spec(c) =~= "chinese"@);
            lemma_differ_at("chinese"@, "english"@, 0);
            lemma_differ_at("chinese"@, "العربية"@, 0);
            lemma_differ_at("chinese"@, "spanish"@, 0);
            lemma_differ_at("chinese"@, "español"@, 0);
            lemma_differ_at("chinese"@, "deutsch"@, 0);
            lemma_differ_at("chinese"@, "italian"@, 0);
        },
        Language::Russian => {
            assert(lower_spec(c) =~= "russian"@);
            lemma_differ_at("russian"@, "english"@, 0);
            lemma_differ_at("russian"@, "العربية"@, 0);
            lemma_differ_at("russian"@, "spanish"@, 0);
            lemma_differ_at("russian"@, "español"@, 0);
            lemma_differ_at("russian"@, "deutsch"@, 0);
            lemma_differ_at("russian"@, "italian"@, 0);
            lemma_differ_at("russian"@, "chinese"@, 0);
        },
        Language::Portuguese => {
            assert(lower_spec(c) =~= "portuguese"@);
        },
        Language::Turkish => {
            assert(lower_spec(c) =~= "turkish"@);
            lemma_differ_at("turkish"@, "english"@, 0);
            lemma_differ_at("turkish"@, "العربية"@, 0);
            lemma_differ_at("turkish"@, "spanish"@, 0);
            lemma_differ_at("turkish"@, "español"@, 0);
            lemma_differ_at("turkish"@, "deutsch"@, 0);
            lemma_differ_at("turkish"@, "italian"@, 0);
            lemma_differ_at("turkish"@, "chinese"@, 0);
            lemma_differ_at("turkish"@, "russian"@, 0);
            lemma_differ_at("turkish"@, "русский"@, 0);
        },
        Language::Korean => {
            assert(lower_spec(c) =~= "korean"@);
            lemma_differ_at("korean"@, "arabic"@, 0);
            lemma_differ_at("korean"@, "french"@, 0);
            lemma_differ_at("korean"@, "german"@, 0);
            lemma_differ_at("korean"@, "türkçe"@, 0);
        },
        Language::Dutch => {
            assert(lower_spec(c) =~= "dutch"@);
        },
        Language::Polish => {
            assert(lower_spec(c) =~= "polish"@);
            lemma_differ_at("polish"@, "arabic"@, 0);
            lemma_differ_at("polish"@, "french"@, 0);
            lemma_differ_at("polish"@, "german"@, 0);
            lemma_differ_at("polish"@, "türkçe"@, 0);
            lemma_differ_at("polish"@, "korean"@, 0);
        },
        Language::Indonesian => {
            assert(lower_spec(c) =~= "indonesian"@);
            lemma_differ_at("indonesian"@, "portuguese"@, 0);
            lemma_differ_at("indonesian"@, "nederlands"@, 0);
        },
        Language::Hebrew => {
            assert(lower_spec(c) =~= "hebrew"@);
            lemma_differ_at("hebrew"@, "arabic"@, 0);
            lemma_differ_at("hebrew"@, "french"@, 0);
            lemma_differ_at("hebrew"@, "german"@, 0);
            lemma_differ_at("hebrew"@, "türkçe"@, 0);
            lemma_differ_at("hebrew"@, "korean"@, 0);
            lemma_differ_at("hebrew"@, "polish"@, 0);
            lemma_differ_at("hebrew"@, "polski"@, 0);
        },
    }
}

/// Every language's native name names that language again, but for Russian: its native
/// name is capitalized in Cyrillic, which ASCII case folding leaves alone.
pub proof fn law_language_native_name_round_trip(l: Language)
    requires
        l != Language::Russian,
    ensures
        language_from_text(language_native_name(l)) == Some(l),
{
    lemma_language_texts();
    let c = language_native_name(l);
    lemma_trim_plain(c);
    match l {
        Language::English => {
            assert(lower_spec(c) =~= "english"@);
        },
        Language::Arabic => {
            assert(lower_spec(c) =~= "العربية"@);
            lemma_differ_at("العربية"@, "english"@, 0);
        },
        Language::French => {
            assert(lower_spec(c) =~= "français"@);
        },
        Language::Spanish => {
            assert(lower_spec(c) =~= "español"@);
            lemma_differ_at("español"@, "english"@, 1);
            lemma_differ_at("español"@, "العربية"@, 0);
            lemma_differ_at("español"@, "spanish"@, 0);
        },
        Language::German => {
            assert(lower_spec(c) =~= "deutsch"@);
            lemma_differ_at("deutsch"@, "english"@, 0);
            lemma_differ_at("deutsch"@, "العربية"@, 0);
            lemma_differ_at("deutsch"@, "spanish"@, 0);
            lemma_differ_at("deutsch"@, "español"@, 0);
        },
        Language::Italian => {
            assert(lower_spec(c) =~= "italiano"@);
            lemma_differ_at("italiano"@, "français"@, 0);
        },
        Language::Japanese => {
            assert(lower_spec(c) =~= "日本語"@);
        },
        Language::Chinese => {
            assert(lower_spec(c) =~= "中文"@);
            lemma_differ_at("中文"@, "en"@, 0);
            lemma_differ_at("中文"@, "ar"@, 0);
            lemma_differ_at("中文"@, "fr"@, 0);
            lemma_differ_at("中文"@, "es"@, 0);
            lemma_differ_at("中文"@, "de"@, 0);
            lemma_differ_at("中文"@, "it"@, 0);
            lemma_differ_at("中文"@, "jp"@, 0);
            lemma_differ_at("中文"@, "ja"@, 0);
            lemma_differ_at("中文"@, "cn"@, 0);
            lemma_differ_at("中文"@, "zh"@, 0);
        },
        Language::Russian => {},
        Language::Portuguese => {
            assert(lower_spec(c) =~= "português"@);
        },
        Language::Turkish => {
            assert(lower_spec(c) =~= "türkçe"@);
            lemma_differ_at("türkçe"@, "arabic"@, 0);
            lemma_differ_at("türkçe"@, "french"@, 0);
            lemma_differ_at("türkçe"@, "german"@, 0);
        },
        Language::Korean => {
            assert(lower_spec(c) =~= "한국어"@);
            lemma_differ_at("한국어"@, "日本語"@, 0);
        },
        Language::Dutch => {
            assert(lower_spec(c) =~= "nederlands"@);
            lemma_differ_at("nederlands"@, "portuguese"@, 0);
        },
        Language::Polish => {
            assert(lower_spec(c) =~= "polski"@);
            lemma_differ_at("polski"@, "arabic"@, 0);
            lemma_differ_at("polski"@, "french"@, 0);
            lemma_differ_at("polski"@, "german"@, 0);
            lemma_differ_at("polski"@, "türkçe"@, 0);
            lemma_differ_at("polski"@, "korean"@, 0);
            lemma_differ_at("polski"@, "polish"@, 3);
        },
        Language::Indonesian => {
            assert(lower_spec(c) =~= "bahasa indonesia"@);
        },
        Language::Hebrew => {
            assert(lower_spec(c) =~= "עברית"@);
            lemma_differ_at("עברית"@, "dutch"@, 0);
            lemma_differ_at("עברית"@, "עבריت"@, 4);
        },
    }
}

/// The default theme is offered in every language.
pub proof fn law_characters_everywhere(l: Language)
    ensures
        language_themes(l).contains(Theme::Characters),
{
    assert(language_themes(l)[0] == Theme::Characters);
}

/// Every theme's ID gives that theme back: a serialized theme reads back as itself.
pub proof fn law_theme_id_round_trip(t: Theme)
    ensures
        theme_for_id(theme_id(t) as int) == Some(t),
{
}

/// Every theme's name parses back to that theme: its `Display` and `FromStr` agree.
pub proof fn law_theme_name_round_trip(t: Theme)
    ensures
        theme_for_key(normalize_spec(theme_name(t))) == Some(t),
{
    lemma_theme_texts();
    let c = theme_name(t);
    lemma_trim_plain(c);
    match t {
        Theme::Characters => {
            assert(lower_spec(c) =~= "characters"@);
        },
        Theme::Objects => {
            assert(lower_spec(c) =~= "objects"@);
        },
        Theme::Animals => {
            assert(lower_spec(c) =~= "animals"@);
            lemma_differ_at("animals"@, "objects"@, 0);
        },
    }
}

/// Every answer's English label, which is how an answer is displayed, parses back to that
/// answer.
pub proof fn law_answer_label_round_trip(a: Answer)
    ensures
        answer_for_key(normalize_spec(language_answer_labels(Language::English)[answer_id(a) as int]))
            == Some(a),
{
    lemma_answer_texts();
    let c = language_answer_labels(Language::English)[answer_id(a) as int];
    lemma_trim_plain(c);
    match a {
        Answer::Yes => {
            assert(lower_spec(c) =~= "yes"@);
        },
        Answer::No => {
            assert(lower_spec(c) =~= "no"@);
            lemma_differ_at("no"@, "اي"@, 0);
            lemma_differ_at("no"@, "اى"@, 0);
            lemma_differ_at("no"@, "ja"@, 0);
            lemma_differ_at("no"@, "si"@, 0);
            lemma_differ_at("no"@, "sì"@, 0);
            lemma_differ_at("no"@, "да"@, 0);
            lemma_differ_at("no"@, "はい"@, 0);
        },
        Answer::DontKnow => {
            assert(lower_spec(c) =~= "don't know"@);
        },
        Answer::Probably => {
            assert(lower_spec(c) =~= "probably"@);
            lemma_differ_at("probably"@, "nie wiem"@, 0);
        },
        Answer::ProbablyNot => {
            assert(lower_spec(c) =~= "probably not"@);
            lemma_differ_at("probably not"@, "probably yes"@, 9);
        },
    }
}

/// Every answer's code gives that answer back: a serialized answer reads back as itself.
pub proof fn law_answer_id_round_trip(a: Answer)
    ensures
        answer_for_id(answer_id(a) as int) == Some(a),
{
}

/// The characters of the language codes, names and keys.
proof fn lemma_language_texts()
    ensures
        "en"@ == seq!['e', 'n'],
        "english"@ == seq!['e', 'n', 'g', 'l', 'i', 's', 'h'],
        "ar"@ == seq!['a', 'r'],
        "arabic"@ == seq!['a', 'r', 'a', 'b', 'i', 'c'],
        "العربية"@ == seq!['ا', 'ل', 'ع', 'ر', 'ب', 'ي', 'ة'],
        "fr"@ == seq!['f', 'r'],
        "french"@ == seq!['f', 'r', 'e', 'n', 'c', 'h'],
        "français"@ == seq!['f', 'r', 'a', 'n', 'ç', 'a', 'i', 's'],
        "es"@ == seq!['e', 's'],
        "spanish"@ == seq!['s', 'p', 'a', 'n', 'i', 's', 'h'],
        "español"@ == seq!['e', 's', 'p', 'a', 'ñ', 'o', 'l'],
        "de"@ == seq!['d', 'e'],
        "german"@ == seq!['g', 'e', 'r', 'm', 'a', 'n'],
        "deutsch"@ == seq!['d', 'e', 'u', 't', 's', 'c', 'h'],
        "it"@ == seq!['i', 't'],
        "italian"@ == seq!['i', 't', 'a', 'l', 'i', 'a', 'n'],
        "italiano"@ == seq!['i', 't', 'a', 'l', 'i', 'a', 'n', 'o'],
        "jp"@ == seq!['j', 'p'],
        "ja"@ == seq!['j', 'a'],
        "japanese"@ == seq!['j', 'a', 'p', 'a', 'n', 'e', 's', 'e'],
        "日本語"@ == seq!['日', '本', '語'],
        "cn"@ == seq!['c', 'n'],
        "zh"@ == seq!['z', 'h'],
        "chinese"@ == seq!['c', 'h', 'i', 'n', 'e', 's', 'e'],
        "中文"@ == seq!['中', '文'],
        "ru"@ == seq!['r', 'u'],
        "russian"@ == seq!['r', 'u', 's', 's', 'i', 'a', 'n'],
        "русский"@ == seq!['р', 'у', 'с', 'с', 'к', 'и', 'й'],
        "pt"@ == seq!['p', 't'],
        "portuguese"@ == seq!['p', 'o', 'r', 't', 'u', 'g', 'u', 'e', 's', 'e'],
        "português"@ == seq!['p', 'o', 'r', 't', 'u', 'g', 'u', 'ê', 's'],
        "tr"@ == seq!['t', 'r'],
        "turkish"@ == seq!['t', 'u', 'r', 'k', 'i', 's', 'h'],
        "türkçe"@ == seq!['t', 'ü', 'r', 'k', 'ç', 'e'],
        "kr"@ == seq!['k', 'r'],
        "ko"@ == seq!['k', 'o'],
        "korean"@ == seq!['k', 'o', 'r', 'e', 'a', 'n'],
        "한국어"@ == seq!['한', '국', '어'],
        "nl"@ == seq!['n', 'l'],
        "dutch"@ == seq!['d', 'u', 't', 'c', 'h'],
        "nederlands"@ == seq!['n', 'e', 'd', 'e', 'r', 'l', 'a', 'n', 'd', 's'],
        "pl"@ == seq!['p', 'l'],
        "polish"@ == seq!['p', 'o', 'l', 'i', 's', 'h'],
        "polski"@ == seq!['p', 'o', 'l', 's', 'k', 'i'],
        "id"@ == seq!['i', 'd'],
        "indonesian"@ == seq!['i', 'n', 'd', 'o', 'n', 'e', 's', 'i', 'a', 'n'],
        "bahasa indonesia"@ == seq!['b', 'a', 'h', 'a', 's', 'a', ' ', 'i', 'n', 'd', 'o', 'n', 'e', 's', 'i', 'a'],
        "il"@ == seq!['i', 'l'],
        "he"@ == seq!['h', 'e'],
        "hebrew"@ == seq!['h', 'e', 'b', 'r', 'e', 'w'],
        "עבריت"@ == seq!['ע', 'ב', 'ר', 'י', 'ت'],
        "עברית"@ == seq!['ע', 'ב', 'ר', 'י', 'ת'],
        "English"@ == seq!['E', 'n', 'g', 'l', 'i', 's', 'h'],
        "Arabic"@ == seq!['A', 'r', 'a', 'b', 'i', 'c'],
        "French"@ == seq!['F', 'r', 'e', 'n', 'c', 'h'],
        "Spanish"@ == seq!['S', 'p', 'a', 'n', 'i', 's', 'h'],
        "German"@ == seq!['G', 'e', 'r', 'm', 'a', 'n'],
        "Italian"@ == seq!['I', 't', 'a', 'l', 'i', 'a', 'n'],
        "Japanese"@ == seq!['J', 'a', 'p', 'a', 'n', 'e', 's', 'e'],
        "Chinese"@ == seq!['C', 'h', 'i', 'n', 'e', 's', 'e'],
        "Russian"@ == seq!['R', 'u', 's', 's', 'i', 'a', 'n'],
        "Portuguese"@ == seq!['P', 'o', 'r', 't', 'u', 'g', 'u', 'e', 's', 'e'],
        "Turkish"@ == seq!['T', 'u', 'r', 'k', 'i', 's', 'h'],
        "Korean"@ == seq!['K', 'o', 'r', 'e', 'a', 'n'],
        "Dutch"@ == seq!['D', 'u', 't', 'c', 'h'],
        "Polish"@ == seq!['P', 'o', 'l', 'i', 's', 'h'],
        "Indonesian"@ == seq!['I', 'n', 'd', 'o', 'n', 'e', 's', 'i', 'a', 'n'],
        "Hebrew"@ == seq!['H', 'e', 'b', 'r', 'e', 'w'],
        "Français"@ == seq!['F', 'r', 'a', 'n', 'ç', 'a', 'i', 's'],
        "Español"@ == seq!['E', 's', 'p', 'a', 'ñ', 'o', 'l'],
        "Deutsch"@ == seq!['D', 'e', 'u', 't', 's', 'c', 'h'],
        "Italiano"@ == seq!['I', 't', 'a', 'l', 'i', 'a', 'n', 'o'],
        "Русский"@ == seq!['Р', 'у', 'с', 'с', 'к', 'и', 'й'],
        "Português"@ == seq!['P', 'o', 'r', 't', 'u', 'g', 'u', 'ê', 's'],
        "Türkçe"@ == seq!['T', 'ü', 'r', 'k', 'ç', 'e'],
        "Nederlands"@ == seq!['N', 'e', 'd', 'e', 'r', 'l', 'a', 'n', 'd', 's'],
        "Polski"@ == seq!['P', 'o', 'l', 's', 'k', 'i'],
        "Bahasa Indonesia"@ == seq!['B', 'a', 'h', 'a', 's', 'a', ' ', 'I', 'n', 'd', 'o', 'n', 'e', 's', 'i', 'a'],
{
    reveal_strlit("en");
    reveal_strlit("english");
    reveal_strlit("ar");
    reveal_strlit("arabic");
    reveal_strlit("العربية");
    reveal_strlit("fr");
    reveal_strlit("french");
    reveal_strlit("français");
    reveal_strlit("es");
    reveal_strlit("spanish");
    reveal_strlit("español");
    reveal_strlit("de");
    reveal_strlit("german");
    reveal_strlit("deutsch");
    reveal_strlit("it");
    reveal_strlit("italian");
    reveal_strlit("italiano");
    reveal_strlit("jp");
    reveal_strlit("ja");
    reveal_strlit("japanese");
    reveal_strlit("日本語");
    reveal_strlit("cn");
    reveal_strlit("zh");
    reveal_strlit("chinese");
    reveal_strlit("中文");
    reveal_strlit("ru");
    reveal_strlit("russian");
    reveal_strlit("русский");
    reveal_strlit("pt");
    reveal_strlit("portuguese");
    reveal_strlit("português");
    reveal_strlit("tr");
    reveal_strlit("turkish");
    reveal_strlit("türkçe");
    reveal_strlit("kr");
    reveal_strlit("ko");
    reveal_strlit("korean");
    reveal_strlit("한국어");
    reveal_strlit("nl");
    reveal_strlit("dutch");
    reveal_strlit("nederlands");
    reveal_strlit("pl");
    reveal_strlit("polish");
    reveal_strlit("polski");
    reveal_strlit("id");
    reveal_strlit("indonesian");
    reveal_strlit("bahasa indonesia");
    reveal_strlit("il");
    reveal_strlit("he");
    reveal_strlit("hebrew");
    reveal_strlit("עבריت");
    reveal_strlit("עברית");
    reveal_strlit("English");
    reveal_strlit("Arabic");
    reveal_strlit("French");
    reveal_strlit("Spanish");
    reveal_strlit("German");
    reveal_strlit("Italian");
    reveal_strlit("Japanese");
    reveal_strlit("Chinese");
    reveal_strlit("Russian");
    reveal_strlit("Portuguese");
    reveal_strlit("Turkish");
    reveal_strlit("Korean");
    reveal_strlit("Dutch");
    reveal_strlit("Polish");
    reveal_strlit("Indonesian");
    reveal_strlit("Hebrew");
    reveal_strlit("Français");
    reveal_strlit("Español");
    reveal_strlit("Deutsch");
    reveal_strlit("Italiano");
    reveal_strlit("Русский");
    reveal_strlit("Português");
    reveal_strlit("Türkçe");
    reveal_strlit("Nederlands");
    reveal_strlit("Polski");
    reveal_strlit("Bahasa Indonesia");
}

/// The characters of the theme names and keys.
proof fn lemma_theme_texts()
    ensures
        "1"@ == seq!['1'],
        "c"@ == seq!['c'],
        "character"@ == seq!['c', 'h', 'a', 'r', 'a', 'c', 't', 'e', 'r'],
        "characters"@ == seq!['c', 'h', 'a', 'r', 'a', 'c', 't', 'e', 'r', 's'],
        "person"@ == seq!['p', 'e', 'r', 's', 'o', 'n'],
        "شخصيات"@ == seq!['ش', 'خ', 'ص', 'ي', 'ا', 'ت'],
        "شخصية"@ == seq!['ش', 'خ', 'ص', 'ي', 'ة'],
        "2"@ == seq!['2'],
        "o"@ == seq!['o'],
        "object"@ == seq!['o', 'b', 'j', 'e', 'c', 't'],
        "objects"@ == seq!['o', 'b', 'j', 'e', 'c', 't', 's'],
        "item"@ == seq!['i', 't', 'e', 'm'],
        "كائنات"@ == seq!['ك', 'ا', 'ئ', 'ن', 'ا', 'ت'],
        "أشياء"@ == seq!['أ', 'ش', 'ي', 'ا', 'ء'],
        "14"@ == seq!['1', '4'],
        "a"@ == seq!['a'],
        "animal"@ == seq!['a', 'n', 'i', 'm', 'a', 'l'],
        "animals"@ == seq!['a', 'n', 'i', 'm', 'a', 'l', 's'],
        "حيوانات"@ == seq!['ح', 'ي', 'و', 'ا', 'ن', 'ا', 'ت'],
        "حيوان"@ == seq!['ح', 'ي', 'و', 'ا', 'ن'],
        "Characters"@ == seq!['C', 'h', 'a', 'r', 'a', 'c', 't', 'e', 'r', 's'],
        "Objects"@ == seq!['O', 'b', 'j', 'e', 'c', 't', 's'],
        "Animals"@ == seq!['A', 'n', 'i', 'm', 'a', 'l', 's'],
{
    reveal_strlit("1");
    reveal_strlit("c");
    reveal_strlit("character");
    reveal_strlit("characters");
    reveal_strlit("person");
    reveal_strlit("شخصيات");
    reveal_strlit("شخصية");
    reveal_strlit("2");
    reveal_strlit("o");
    reveal_strlit("object");
    reveal_strlit("objects");
    reveal_strlit("item");
    reveal_strlit("كائنات");
    reveal_strlit("أشياء");
    reveal_strlit("14");
    reveal_strlit("a");
    reveal_strlit("animal");
    reveal_strlit("animals");
    reveal_strlit("حيوانات");
    reveal_strlit("حيوان");
    reveal_strlit("Characters");
    reveal_strlit("Objects");
    reveal_strlit("Animals");
}

/// The characters of the answer keys and English labels.
proof fn lemma_answer_texts()
    ensures
        "0"@ == seq!['0'],
        "y"@ == seq!['y'],
        "yes"@ == seq!['y', 'e', 's'],
        "yeah"@ == seq!['y', 'e', 'a', 'h'],
        "true"@ == seq!['t', 'r', 'u', 'e'],
        "نعم"@ == seq!['ن', 'ع', 'م'],
        "اي"@ == seq!['ا', 'ي'],
        "اى"@ == seq!['ا', 'ى'],
        "صحيح"@ == seq!['ص', 'ح', 'ي', 'ح'],
        "oui"@ == seq!['o', 'u', 'i'],
        "ja"@ == seq!['j', 'a'],
        "si"@ == seq!['s', 'i'],
        "sì"@ == seq!['s', 'ì'],
        "sim"@ == seq!['s', 'i', 'm'],
        "tak"@ == seq!['t', 'a', 'k'],
        "да"@ == seq!['д', 'а'],
        "evet"@ == seq!['e', 'v', 'e', 't'],
        "예"@ == seq!['예'],
        "はい"@ == seq!['は', 'い'],
        "是"@ == seq!['是'],
        "1"@ == seq!['1'],
        "n"@ == seq!['n'],
        "no"@ == seq!['n', 'o'],
        "nah"@ == seq!['n', 'a', 'h'],
        "false"@ == seq!['f', 'a', 'l', 's', 'e'],
        "لا"@ == seq!['ل', 'ا'],
        "كلا"@ == seq!['ك', 'ل', 'ا'],
        "non"@ == seq!['n', 'o', 'n'],
        "nein"@ == seq!['n', 'e', 'i', 'n'],
        "não"@ == seq!['n', 'ã', 'o'],
        "nie"@ == seq!['n', 'i', 'e'],
        "нет"@ == seq!['н', 'е', 'т'],
        "hayır"@ == seq!['h', 'a', 'y', 'ı', 'r'],
        "아니오"@ == seq!['아', '니', '오'],
        "いいえ"@ == seq!['い', 'い', 'え'],
        "不是"@ == seq!['不', '是'],
        "2"@ == seq!['2'],
        "i"@ == seq!['i'],
        "idk"@ == seq!['i', 'd', 'k'],
        "dont know"@ == seq!['d', 'o', 'n', 't', ' ', 'k', 'n', 'o', 'w'],
        "don't know"@ == seq!['d', 'o', 'n', '\'', 't', ' ', 'k', 'n', 'o', 'w'],
        "unknown"@ == seq!['u', 'n', 'k', 'n', 'o', 'w', 'n'],
        "لا اعلم"@ == seq!['ل', 'ا', ' ', 'ا', 'ع', 'ل', 'م'],
        "لا أعرف"@ == seq!['ل', 'ا', ' ', 'أ', 'ع', 'ر', 'ف'],
        "لا ادري"@ == seq!['ل', 'ا', ' ', 'ا', 'د', 'ر', 'ي'],
        "لا أدري"@ == seq!['ل', 'ا', ' ', 'أ', 'د', 'ر', 'ي'],
        "je ne sais pas"@ == seq!['j', 'e', ' ', 'n', 'e', ' ', 's', 'a', 'i', 's', ' ', 'p', 'a', 's'],
        "weiß nicht"@ == seq!['w', 'e', 'i', 'ß', ' ', 'n', 'i', 'c', 'h', 't'],
        "non so"@ == seq!['n', 'o', 'n', ' ', 's', 'o'],
        "não sei"@ == seq!['n', 'ã', 'o', ' ', 's', 'e', 'i'],
        "nie wiem"@ == seq!['n', 'i', 'e', ' ', 'w', 'i', 'e', 'm'],
        "не знаю"@ == seq!['н', 'е', ' ', 'з', 'н', 'а', 'ю'],
        "bilmiyorum"@ == seq!['b', 'i', 'l', 'm', 'i', 'y', 'o', 'r', 'u', 'm'],
        "모르겠습니다"@ == seq!['모', '르', '겠', '습', '니', '다'],
        "分からない"@ == seq!['分', 'か', 'ら', 'な', 'い'],
        "不知道"@ == seq!['不', '知', '道'],
        "3"@ == seq!['3'],
        "p"@ == seq!['p'],
        "py"@ == seq!['p', 'y'],
        "probably"@ == seq!['p', 'r', 'o', 'b', 'a', 'b', 'l', 'y'],
        "probably yes"@ == seq!['p', 'r', 'o', 'b', 'a', 'b', 'l', 'y', ' ', 'y', 'e', 's'],
        "likely"@ == seq!['l', 'i', 'k', 'e', 'l', 'y'],
        "ربما"@ == seq!['ر', 'ب', 'م', 'ا'],
        "غالبا"@ == seq!['غ', 'ا', 'ل', 'ب', 'ا'],
        "غالباً"@ == seq!['غ', 'ا', 'ل', 'ب', 'ا', 'ً'],
        "غالبا نعم"@ == seq!['غ', 'ا', 'ل', 'ب', 'ا', ' ', 'ن', 'ع', 'م'],
        "غالباً نعم"@ == seq!['غ', 'ا', 'ل', 'ب', 'ا', 'ً', ' ', 'ن', 'ع', 'م'],
        "ربما نعم"@ == seq!['ر', 'ب', 'م', 'ا', ' ', 'ن', 'ع', 'م'],
        "probablement oui"@ == seq!['p', 'r', 'o', 'b', 'a', 'b', 'l', 'e', 'm', 'e', 'n', 't', ' ', 'o', 'u', 'i'],
        "wahrscheinlich ja"@ == seq!['w', 'a', 'h', 'r', 's', 'c', 'h', 'e', 'i', 'n', 'l', 'i', 'c', 'h', ' ', 'j', 'a'],
        "probabilmente sì"@ == seq!['p', 'r', 'o', 'b', 'a', 'b', 'i', 'l', 'm', 'e', 'n', 't', 'e', ' ', 's', 'ì'],
        "provavelmente sim"@ == seq!['p', 'r', 'o', 'v', 'a', 'v', 'e', 'l', 'm', 'e', 'n', 't', 'e', ' ', 's', 'i', 'm'],
        "chyba tak"@ == seq!['c', 'h', 'y', 'b', 'a', ' ', 't', 'a', 'k'],
        "возможно да"@ == seq!['в', 'о', 'з', 'м', 'о', 'ж', 'н', 'о', ' ', 'д', 'а'],
        "muhtemelen"@ == seq!['m', 'u', 'h', 't', 'e', 'm', 'e', 'l', 'e', 'n'],
        "그럴 겁니다"@ == seq!['그', '럴', ' ', '겁', '니', '다'],
        "たぶんそう"@ == seq!['た', 'ぶ', 'ん', 'そ', 'う'],
        "可能是"@ == seq!['可', '能', '是'],
        "4"@ == seq!['4'],
        "pn"@ == seq!['p', 'n'],
        "probably not"@ == seq!['p', 'r', 'o', 'b', 'a', 'b', 'l', 'y', ' ', 'n', 'o', 't'],
        "unlikely"@ == seq!['u', 'n', 'l', 'i', 'k', 'e', 'l', 'y'],
        "ربما لا"@ == seq!['ر', 'ب', 'م', 'ا', ' ', 'ل', 'ا'],
        "غالبا لا"@ == seq!['غ', 'ا', 'ل', 'ب', 'ا', ' ', 'ل', 'ا'],
        "غالباً لا"@ == seq!['غ', 'ا', 'ل', 'ب', 'ا', 'ً', ' ', 'ل', 'ا'],
        "probablement non"@ == seq!['p', 'r', 'o', 'b', 'a', 'b', 'l', 'e', 'm', 'e', 'n', 't', ' ', 'n', 'o', 'n'],
        "wahrscheinlich nein"@ == seq!['w', 'a', 'h', 'r', 's', 'c', 'h', 'e', 'i', 'n', 'l', 'i', 'c', 'h', ' ', 'n', 'e', 'i', 'n'],
        "probabilmente no"@ == seq!['p', 'r', 'o', 'b', 'a', 'b', 'i', 'l', 'm', 'e', 'n', 't', 'e', ' ', 'n', 'o'],
        "provavelmente não"@ == seq!['p', 'r', 'o', 'v', 'a', 'v', 'e', 'l', 'm', 'e', 'n', 't', 'e', ' ', 'n', 'ã', 'o'],
        "chyba nie"@ == seq!['c', 'h', 'y', 'b', 'a', ' ', 'n', 'i', 'e'],
        "возможно нет"@ == seq!['в', 'о', 'з', 'м', 'о', 'ж', 'н', 'о', ' ', 'н', 'е', 'т'],
        "muhtemelen değil"@ == seq!['m', 'u', 'h', 't', 'e', 'm', 'e', 'l', 'e', 'n', ' ', 'd', 'e', 'ğ', 'i', 'l'],
        "아닐 겁니다"@ == seq!['아', '닐', ' ', '겁', '니', '다'],
        "たぶん違う"@ == seq!['た', 'ぶ', 'ん', '違', 'う'],
        "可能不是"@ == seq!['可', '能', '不', '是'],
        "Yes"@ == seq!['Y', 'e', 's'],
        "No"@ == seq!['N', 'o'],
        "Don't know"@ == seq!['D', 'o', 'n', '\'', 't', ' ', 'k', 'n', 'o', 'w'],
        "Probably"@ == seq!['P', 'r', 'o', 'b', 'a', 'b', 'l', 'y'],
        "Probably not"@ == seq!['P', 'r', 'o', 'b', 'a', 'b', 'l', 'y', ' ', 'n', 'o', 't'],
{
    reveal_strlit("0");
    reveal_strlit("y");
    reveal_strlit("yes");
    reveal_strlit("yeah");
    reveal_strlit("true");
    reveal_strlit("نعم");
    reveal_strlit("اي");
    reveal_strlit("اى");
    reveal_strlit("صحيح");
    reveal_strlit("oui");
    reveal_strlit("ja");
    reveal_strlit("si");
    reveal_strlit("sì");
    reveal_strlit("sim");
    reveal_strlit("tak");
    reveal_strlit("да");
    reveal_strlit("evet");
    reveal_strlit("예");
    reveal_strlit("はい");
    reveal_strlit("是");
    reveal_strlit("1");
    reveal_strlit("n");
    reveal_strlit("no");
    reveal_strlit("nah");
    reveal_strlit("false");
    reveal_strlit("لا");
    reveal_strlit("كلا");
    reveal_strlit("non");
    reveal_strlit("nein");
    reveal_strlit("não");
    reveal_strlit("nie");
    reveal_strlit("нет");
    reveal_strlit("hayır");
    reveal_strlit("아니오");
    reveal_strlit("いいえ");
    reveal_strlit("不是");
    reveal_strlit("2");
    reveal_strlit("i");
    reveal_strlit("idk");
    reveal_strlit("dont know");
    reveal_strlit("don't know");
    reveal_strlit("unknown");
    reveal_strlit("لا اعلم");
    reveal_strlit("لا أعرف");
    reveal_strlit("لا ادري");
    reveal_strlit("لا أدري");
    reveal_strlit("je ne sais pas");
    reveal_strlit("weiß nicht");
    reveal_strlit("non so");
    reveal_strlit("não sei");
    reveal_strlit("nie wiem");
    reveal_strlit("не знаю");
    reveal_strlit("bilmiyorum");
    reveal_strlit("모르겠습니다");
    reveal_strlit("分からない");
    reveal_strlit("不知道");
    reveal_strlit("3");
    reveal_strlit("p");
    reveal_strlit("py");
    reveal_strlit("probably");
    reveal_strlit("probably yes");
    reveal_strlit("likely");
    reveal_strlit("ربما");
    reveal_strlit("غالبا");
    reveal_strlit("غالباً");
    reveal_strlit("غالبا نعم");
    reveal_strlit("غالباً نعم");
    reveal_strlit("ربما نعم");
    reveal_strlit("probablement oui");
    reveal_strlit("wahrscheinlich ja");
    reveal_strlit("probabilmente sì");
    reveal_strlit("provavelmente sim");
    reveal_strlit("chyba tak");
    reveal_strlit("возможно да");
    reveal_strlit("muhtemelen");
    reveal_strlit("그럴 겁니다");
    reveal_strlit("たぶんそう");
    reveal_strlit("可能是");
    reveal_strlit("4");
    reveal_strlit("pn");
    reveal_strlit("probably not");
    reveal_strlit("unlikely");
    reveal_strlit("ربما لا");
    reveal_strlit("غالبا لا");
    reveal_strlit("غالباً لا");
    reveal_strlit("probablement non");
    reveal_strlit("wahrscheinlich nein");
    reveal_strlit("probabilmente no");
    reveal_strlit("provavelmente não");
    reveal_strlit("chyba nie");
    reveal_strlit("возможно нет");
    reveal_strlit("muhtemelen değil");
    reveal_strlit("아닐 겁니다");
    reveal_strlit("たぶん違う");
    reveal_strlit("可能不是");
    reveal_strlit("Yes");
    reveal_strlit("No");
    reveal_strlit("Don't know");
    reveal_strlit("Probably");
    reveal_strlit("Probably not");
}

/// Looking a language up ignores white space around the text and ASCII case: the text
/// trimmed and lowercased, or padded and uppercased, names the same language.
pub proof fn law_language_lookup_normalizes(s: Seq<char>)
    ensures
        language_from_text(lower_spec(trim_spec(s))) == language_from_text(s),
        language_from_text(padded(upper_spec(s))) == language_from_text(s),
{
    lemma_normalize_stable(s);
}

/// Looking a theme up ignores white space around the text and ASCII case.
pub proof fn law_theme_lookup_normalizes(s: Seq<char>)
    ensures
        theme_for_key(normalize_spec(lower_spec(trim_spec(s)))) == theme_for_key(normalize_spec(s)),
        theme_for_key(normalize_spec(padded(upper_spec(s)))) == theme_for_key(normalize_spec(s)),
{
    lemma_normalize_stable(s);
}

/// Looking an answer up ignores white space around the text and ASCII case.
pub proof fn law_answer_lookup_normalizes(s: Seq<char>)
    ensures
        answer_for_key(normalize_spec(lower_spec(trim_spec(s)))) == answer_for_key(normalize_spec(s)),
        answer_for_key(normalize_spec(padded(upper_spec(s)))) == answer_for_key(normalize_spec(s)),
{
    lemma_normalize_stable(s);
}

/// The native name of a language in Unicode small letters (what `str::to_lowercase` makes
/// of it).
pub open spec fn language_native_name_lowercase(l: Language) -> Seq<char> {
    match l {
        Language::English => "english"@,
        Language::Arabic => "العربية"@,
        Language::French => "français"@,
        Language::Spanish => "español"@,
        Language::German => "deutsch"@,
        Language::Italian => "italiano"@,
        Language::Japanese => "日本語"@,
        Language::Chinese => "中文"@,
        Language::Russian => "русский"@,
        Language::Portuguese => "português"@,
        Language::Turkish => "türkçe"@,
        Language::Korean => "한국어"@,
        Language::Dutch => "nederlands"@,
        Language::Polish => "polski"@,
        Language::Indonesian => "bahasa indonesia"@,
        Language::Hebrew => "עברית"@,
    }
}

/// Every language's native name in small letters names that language again, Russian
/// included.
pub proof fn law_language_native_lowercase_round_trip(l: Language)
    ensures
        language_from_text(language_native_name_lowercase(l)) == Some(l),
{
    lemma_language_texts();
    let c = language_native_name_lowercase(l);
    lemma_trim_plain(c);
    match l {
        Language::English => {
            assert(lower_spec(c) =~= "english"@);
        },
        Language::Arabic => {
            assert(lower_spec(c) =~= "العربية"@);
            lemma_differ_at("العربية"@, "english"@, 0);
        },
        Language::French => {
            assert(lower_spec(c) =~= "français"@);
        },
        Language::Spanish => {
            assert(lower_spec(c) =~= "español"@);
            lemma_differ_at("español"@, "english"@, 1);
            lemma_differ_at("español"@, "العربية"@, 0);
            lemma_differ_at("español"@, "spanish"@, 0);
        },
        Language::German => {
            assert(lower_spec(c) =~= "deutsch"@);
            lemma_differ_at("deutsch"@, "english"@, 0);
            lemma_differ_at("deutsch"@, "العربية"@, 0);
            lemma_differ_at("deutsch"@, "spanish"@, 0);
            lemma_differ_at("deutsch"@, "español"@, 0);
        },
        Language::Italian => {
            assert(lower_spec(c) =~= "italiano"@);
            lemma_differ_at("italiano"@, "français"@, 0);
        },
        Language::Japanese => {
            assert(lower_spec(c) =~= "日本語"@);
        },
        Language::Chinese => {
            assert(lower_spec(c) =~= "中文"@);
            lemma_differ_at("中文"@, "en"@, 0);
            lemma_differ_at("中文"@, "ar"@, 0);
            lemma_differ_at("中文"@, "fr"@, 0);
            lemma_differ_at("中文"@, "es"@, 0);
            lemma_differ_at("中文"@, "de"@, 0);
            lemma_differ_at("中文"@, "it"@, 0);
            lemma_differ_at("中文"@, "jp"@, 0);
            lemma_differ_at("中文"@, "ja"@, 0);
            lemma_differ_at("中文"@, "cn"@, 0);
            lemma_differ_at("中文"@, "zh"@, 0);
        },
        Language::Russian => {
            assert(lower_spec(c) =~= "русский"@);
            lemma_differ_at("русский"@, "english"@, 0);
            lemma_differ_at("русский"@, "العربية"@, 0);
            lemma_differ_at("русский"@, "spanish"@, 0);
            lemma_differ_at("русский"@, "español"@, 0);
            lemma_differ_at("русский"@, "deutsch"@, 0);
            lemma_differ_at("русский"@, "italian"@, 0);
            lemma_differ_at("русский"@, "chinese"@, 0);
            lemma_differ_at("русский"@, "russian"@, 0);
        },
        Language::Portuguese => {
            assert(lower_spec(c) =~= "português"@);
        },
        Language::Turkish => {
            assert(lower_spec(c) =~= "türkçe"@);
            lemma_differ_at("türkçe"@, "arabic"@, 0);
            lemma_differ_at("türkçe"@, "french"@, 0);
            lemma_differ_at("türkçe"@, "german"@, 0);
        },
        Language::Korean => {
            assert(lower_spec(c) =~= "한국어"@);
            lemma_differ_at("한국어"@, "日本語"@, 0);
        },
        Language::Dutch => {
            assert(lower_spec(c) =~= "nederlands"@);
            lemma_differ_at("nederlands"@, "portuguese"@, 0);
        },
        Language::Polish => {
            assert(lower_spec(c) =~= "polski"@);
            lemma_differ_at("polski"@, "arabic"@, 0);
            lemma_differ_at("polski"@, "french"@, 0);
            lemma_differ_at("polski"@, "german"@, 0);
            lemma_differ_at("polski"@, "türkçe"@, 0);
            lemma_differ_at("polski"@, "korean"@, 0);
            lemma_differ_at("polski"@, "polish"@, 3);
        },
        Language::Indonesian => {
            assert(lower_spec(c) =~= "bahasa indonesia"@);
        },
        Language::Hebrew => {
            assert(lower_spec(c) =~= "עברית"@);
            lemma_differ_at("עברית"@, "dutch"@, 0);
            lemma_differ_at("עברית"@, "עבריت"@, 4);
        },
    }
}

/// Every theme's ID, written in decimal, parses back to that theme; so does its name padded
/// with spaces and in capitals.
pub proof fn law_theme_text_round_trips(t: Theme)
    ensures
        theme_for_key(normalize_spec(decimal_spec(theme_id(t)))) == Some(t),
        theme_for_key(normalize_spec(padded(upper_spec(theme_name(t))))) == Some(t),
{
    lemma_theme_texts();
    law_theme_name_round_trip(t);
    lemma_normalize_stable(theme_name(t));
    let c = decimal_spec(theme_id(t));
    match t {
        Theme::Characters => {
            assert(c =~= "1"@);
            lemma_trim_plain(c);
            assert(lower_spec(c) =~= c);
        },
        Theme::Objects => {
            assert(c =~= "2"@);
            lemma_trim_plain(c);
            assert(lower_spec(c) =~= c);
            lemma_differ_at("2"@, "1"@, 0);
            lemma_differ_at("2"@, "c"@, 0);
        },
        Theme::Animals => {
            assert(decimal_spec(1) =~= seq!['1']);
            assert(c =~= "14"@);
            lemma_trim_plain(c);
            assert(lower_spec(c) =~= c);
        },
    }
}

/// Every answer's code, written in decimal, parses back to that answer.
pub proof fn law_answer_code_round_trip(a: Answer)
    ensures
        answer_for_key(normalize_spec(decimal_spec(answer_id(a)))) == Some(a),
{
    lemma_answer_texts();
    let c = decimal_spec(answer_id(a));
    match a {
        Answer::Yes => {
            assert(c =~= "0"@);
            lemma_trim_plain(c);
            assert(lower_spec(c) =~= c);
        },
        Answer::No => {
            assert(c =~= "1"@);
            lemma_trim_plain(c);
            assert(lower_spec(c) =~= c);
            lemma_differ_at("1"@, "0"@, 0);
            lemma_differ_at("1"@, "y"@, 0);
            lemma_differ_at("1"@, "예"@, 0);
            lemma_differ_at("1"@, "是"@, 0);
        },
        Answer::DontKnow => {
            assert(c =~= "2"@);
            lemma_trim_plain(c);
            assert(lower_spec(c) =~= c);
            lemma_differ_at("2"@, "0"@, 0);
            lemma_differ_at("2"@, "y"@, 0);
            lemma_differ_at("2"@, "예"@, 0);
            lemma_differ_at("2"@, "是"@, 0);
            lemma_differ_at("2"@, "1"@, 0);
            lemma_differ_at("2"@, "n"@, 0);
        },
        Answer::Probably => {
            assert(c =~= "3"@);
            lemma_trim_plain(c);
            assert(lower_spec(c) =~= c);
            lemma_differ_at("3"@, "0"@, 0);
            lemma_differ_at("3"@, "y"@, 0);
            lemma_differ_at("3"@, "예"@, 0);
            lemma_differ_at("3"@, "是"@, 0);
            lemma_differ_at("3"@, "1"@, 0);
            lemma_differ_at("3"@, "n"@, 0);
            lemma_differ_at("3"@, "2"@, 0);
            lemma_differ_at("3"@, "i"@, 0);
        },
        Answer::ProbablyNot => {
            assert(c =~= "4"@);
            lemma_trim_plain(c);
            assert(lower_spec(c) =~= c);
            lemma_differ_at("4"@, "0"@, 0);
            lemma_differ_at("4"@, "y"@, 0);
            lemma_differ_at("4"@, "예"@, 0);
            lemma_differ_at("4"@, "是"@, 0);
            lemma_differ_at("4"@, "1"@, 0);
            lemma_differ_at("4"@, "n"@, 0);
            lemma_differ_at("4"@, "2"@, 0);
            lemma_differ_at("4"@, "i"@, 0);
            lemma_differ_at("4"@, "3"@, 0);
            lemma_differ_at("4"@, "p"@, 0);
        },
    }
}

/// English, French, Spanish, German, Italian and Japanese offer characters, objects and
/// animals; every other language offers characters only.
pub proof fn law_themes_by_language(l: Language)
    ensures
        (l == Language::English || l == Language::French || l == Language::Spanish || l == Language::German || l == Language::Italian || l == Language::Japanese) ==> language_themes(l).contains(Theme::Characters)
            && language_themes(l).contains(Theme::Objects) && language_themes(l).contains(Theme::Animals),
        !(l == Language::English || l == Language::French || l == Language::Spanish || l == Language::German || l == Language::Italian || l == Language::Japanese) ==> (language_themes(l).contains(Theme::Characters)
            && !language_themes(l).contains(Theme::Objects) && !language_themes(l).contains(Theme::Animals)),
{
    assert(language_themes(l)[0] == Theme::Characters);
    match l {
        Language::English => {
            assert(language_themes(l)[1] == Theme::Objects);
            assert(language_themes(l)[2] == Theme::Animals);
        },
        Language::French => {
            assert(language_themes(l)[1] == Theme::Objects);
            assert(language_themes(l)[2] == Theme::Animals);
        },
        Language::Spanish => {
            assert(language_themes(l)[1] == Theme::Objects);
            assert(language_themes(l)[2] == Theme::Animals);
        },
        Language::German => {
            assert(language_themes(l)[1] == Theme::Objects);
            assert(language_themes(l)[2] == Theme::Animals);
        },
        Language::Italian => {
            assert(language_themes(l)[1] == Theme::Objects);
            assert(language_themes(l)[2] == Theme::Animals);
        },
        Language::Japanese => {
            assert(language_themes(l)[1] == Theme::Objects);
            assert(language_themes(l)[2] == Theme::Animals);
        },
        _ => {
            assert(language_themes(l) =~= seq![Theme::Characters]);
        },
    }
}

/// The English words and short forms of the answers name them: `y`/`yes`, `n`/`no`,
/// `i`/`idk`/`dont know`/`don't know`, `p`/`probably`, `pn`/`probably not`; any text that
/// normalizes to one of them parses to that answer.
pub proof fn law_answer_english_words(s: Seq<char>)
    ensures
        normalize_spec(s) == "y"@ ==> answer_for_key(normalize_spec(s)) == Some(Answer::Yes),
        normalize_spec(s) == "yes"@ ==> answer_for_key(normalize_spec(s)) == Some(Answer::Yes),
        normalize_spec(s) == "n"@ ==> answer_for_key(normalize_spec(s)) == Some(Answer::No),
        normalize_spec(s) == "no"@ ==> answer_for_key(normalize_spec(s)) == Some(Answer::No),
        normalize_spec(s) == "i"@ ==> answer_for_key(normalize_spec(s)) == Some(Answer::DontKnow),
        normalize_spec(s) == "idk"@ ==> answer_for_key(normalize_spec(s)) == Some(Answer::DontKnow),
        normalize_spec(s) == "dont know"@ ==> answer_for_key(normalize_spec(s)) == Some(Answer::DontKnow),
        normalize_spec(s) == "don't know"@ ==> answer_for_key(normalize_spec(s)) == Some(Answer::DontKnow),
        normalize_spec(s) == "p"@ ==> answer_for_key(normalize_spec(s)) == Some(Answer::Probably),
        normalize_spec(s) == "probably"@ ==> answer_for_key(normalize_spec(s)) == Some(Answer::Probably),
        normalize_spec(s) == "pn"@ ==> answer_for_key(normalize_spec(s)) == Some(Answer::ProbablyNot),
        normalize_spec(s) == "probably not"@ ==> answer_for_key(normalize_spec(s)) == Some(Answer::ProbablyNot),
{
    lemma_answer_texts();
    if normalize_spec(s) == "y"@ {
        lemma_differ_at("y"@, "0"@, 0);
    }
    if normalize_spec(s) == "yes"@ {
    }
    if normalize_spec(s) == "n"@ {
        lemma_differ_at("n"@, "0"@, 0);
        lemma_differ_at("n"@, "y"@, 0);
        lemma_differ_at("n"@, "예"@, 0);
        lemma_differ_at("n"@, "是"@, 0);
        lemma_differ_at("n"@, "1"@, 0);
    }
    if normalize_spec(s) == "no"@ {
        lemma_differ_at("no"@, "اي"@, 0);
        lemma_differ_at("no"@, "اى"@, 0);
        lemma_differ_at("no"@, "ja"@, 0);
        lemma_differ_at("no"@, "si"@, 0);
        lemma_differ_at("no"@, "sì"@, 0);
        lemma_differ_at("no"@, "да"@, 0);
        lemma_differ_at("no"@, "はい"@, 0);
    }
    if normalize_spec(s) == "i"@ {
        lemma_differ_at("i"@, "0"@, 0);
        lemma_differ_at("i"@, "y"@, 0);
        lemma_differ_at("i"@, "예"@, 0);
        lemma_differ_at("i"@, "是"@, 0);
        lemma_differ_at("i"@, "1"@, 0);
        lemma_differ_at("i"@, "n"@, 0);
        lemma_differ_at("i"@, "2"@, 0);
    }
    if normalize_spec(s) == "idk"@ {
        lemma_differ_at("idk"@, "yes"@, 0);
        lemma_differ_at("idk"@, "نعم"@, 0);
        lemma_differ_at("idk"@, "oui"@, 0);
        lemma_differ_at("idk"@, "sim"@, 0);
        lemma_differ_at("idk"@, "tak"@, 0);
        lemma_differ_at("idk"@, "nah"@, 0);
        lemma_differ_at("idk"@, "كلا"@, 0);
        lemma_differ_at("idk"@, "non"@, 0);
        lemma_differ_at("idk"@, "não"@, 0);
        lemma_differ_at("idk"@, "nie"@, 0);
        lemma_differ_at("idk"@, "нет"@, 0);
        lemma_differ_at("idk"@, "아니오"@, 0);
        lemma_differ_at("idk"@, "いいえ"@, 0);
    }
    if normalize_spec(s) == "dont know"@ {
    }
    if normalize_spec(s) == "don't know"@ {
    }
    if normalize_spec(s) == "p"@ {
        lemma_differ_at("p"@, "0"@, 0);
        lemma_differ_at("p"@, "y"@, 0);
        lemma_differ_at("p"@, "예"@, 0);
        lemma_differ_at("p"@, "是"@, 0);
        lemma_differ_at("p"@, "1"@, 0);
        lemma_differ_at("p"@, "n"@, 0);
        lemma_differ_at("p"@, "2"@, 0);
        lemma_differ_at("p"@, "i"@, 0);
        lemma_differ_at("p"@, "3"@, 0);
    }
    if normalize_spec(s) == "probably"@ {
        lemma_differ_at("probably"@, "nie wiem"@, 0);
    }
    if normalize_spec(s) == "pn"@ {
        lemma_differ_at("pn"@, "اي"@, 0);
        lemma_differ_at("pn"@, "اى"@, 0);
        lemma_differ_at("pn"@, "ja"@, 0);
        lemma_differ_at("pn"@, "si"@, 0);
        lemma_differ_at("pn"@, "sì"@, 0);
        lemma_differ_at("pn"@, "да"@, 0);
        lemma_differ_at("pn"@, "はい"@, 0);
        lemma_differ_at("pn"@, "no"@, 0);
        lemma_differ_at("pn"@, "لا"@, 0);
        lemma_differ_at("pn"@, "不是"@, 0);
        lemma_differ_at("pn"@, "py"@, 1);
    }
    if normalize_spec(s) == "probably not"@ {
        lemma_differ_at("probably not"@, "probably yes"@, 9);
    }
}

/// The initial, the singular and the plural English name of each theme name it; any text
/// that normalizes to one of them parses to that theme.
pub proof fn law_theme_english_words(s: Seq<char>)
    ensures
        normalize_spec(s) == "c"@ ==> theme_for_key(normalize_spec(s)) == Some(Theme::Characters),
        normalize_spec(s) == "character"@ ==> theme_for_key(normalize_spec(s)) == Some(Theme::Characters),
        normalize_spec(s) == "characters"@ ==> theme_for_key(normalize_spec(s)) == Some(Theme::Characters),
        normalize_spec(s) == "o"@ ==> theme_for_key(normalize_spec(s)) == Some(Theme::Objects),
        normalize_spec(s) == "object"@ ==> theme_for_key(normalize_spec(s)) == Some(Theme::Objects),
        normalize_spec(s) == "objects"@ ==> theme_for_key(normalize_spec(s)) == Some(Theme::Objects),
        normalize_spec(s) == "a"@ ==> theme_for_key(normalize_spec(s)) == Some(Theme::Animals),
        normalize_spec(s) == "animal"@ ==> theme_for_key(normalize_spec(s)) == Some(Theme::Animals),
        normalize_spec(s) == "animals"@ ==> theme_for_key(normalize_spec(s)) == Some(Theme::Animals),
{
    lemma_theme_texts();
    if normalize_spec(s) == "c"@ {
        lemma_differ_at("c"@, "1"@, 0);
    }
    if normalize_spec(s) == "character"@ {
    }
    if normalize_spec(s) == "characters"@ {
    }
    if normalize_spec(s) == "o"@ {
        lemma_differ_at("o"@, "1"@, 0);
        lemma_differ_at("o"@, "c"@, 0);
        lemma_differ_at("o"@, "2"@, 0);
    }
    if normalize_spec(s) == "object"@ {
        lemma_differ_at("object"@, "person"@, 0);
        lemma_differ_at("object"@, "شخصيات"@, 0);
    }
    if normalize_spec(s) == "objects"@ {
    }
    if normalize_spec(s) == "a"@ {
        lemma_differ_at("a"@, "1"@, 0);
        lemma_differ_at("a"@, "c"@, 0);
        lemma_differ_at("a"@, "2"@, 0);
        lemma_differ_at("a"@, "o"@, 0);
    }
    if normalize_spec(s) == "animal"@ {
        lemma_differ_at("animal"@, "person"@, 0);
        lemma_differ_at("animal"@, "شخصيات"@, 0);
        lemma_differ_at("animal"@, "object"@, 0);
        lemma_differ_at("animal"@, "كائنات"@, 0);
    }
    if normalize_spec(s) == "animals"@ {
        lemma_differ_at("animals"@, "objects"@, 0);
    }
}


} // verus!
