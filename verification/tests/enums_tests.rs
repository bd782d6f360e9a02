use akinator::enums::{Answer, Language, Theme};
use akinator::error::Error;

const ALL_LANGUAGES: [Language; 16] = [
    Language::English,
    Language::Arabic,
    Language::French,
    Language::Spanish,
    Language::German,
    Language::Italian,
    Language::Japanese,
    Language::Chinese,
    Language::Russian,
    Language::Portuguese,
    Language::Turkish,
    Language::Korean,
    Language::Dutch,
    Language::Polish,
    Language::Indonesian,
    Language::Hebrew,
];

#[test]
fn language_codes() {
    assert_eq!(Language::English.code(), "en");
    assert_eq!(Language::Japanese.code(), "jp");
    assert_eq!(Language::Chinese.code(), "cn");
    assert_eq!(Language::Korean.code(), "kr");
    assert_eq!(Language::Hebrew.code(), "il");
}

#[test]
fn language_from_code_accepts_codes_and_names() {
    assert_eq!(Language::from_code("en"), Some(Language::English));
    assert_eq!(Language::from_code("  EN \n"), Some(Language::English));
    assert_eq!(Language::from_code("ja"), Some(Language::Japanese));
    assert_eq!(Language::from_code("zh"), Some(Language::Chinese));
    assert_eq!(Language::from_code("ko"), Some(Language::Korean));
    assert_eq!(Language::from_code("he"), Some(Language::Hebrew));
    assert_eq!(Language::from_code("Français"), Some(Language::French));
    assert_eq!(Language::from_code("日本語"), Some(Language::Japanese));
    assert_eq!(Language::from_code("Bahasa Indonesia"), Some(Language::Indonesian));
    assert_eq!(Language::from_code("\u{3000}deutsch\u{a0}"), Some(Language::German));
    assert_eq!(Language::from_code("xx"), None);
    assert_eq!(Language::from_code(""), None);
    assert_eq!(Language::from_code("e n"), None);
}

#[test]
fn language_from_code_folds_ascii_case_only() {
    assert_eq!(Language::from_code("русский"), Some(Language::Russian));
    assert_eq!(Language::from_code("Русский"), None);
}

#[test]
fn language_round_trips() {
    for l in ALL_LANGUAGES {
        assert_eq!(Language::from_code(l.code()), Some(l));
        assert_eq!(Language::from_code(l.name()), Some(l));
        if l != Language::Russian {
            assert_eq!(Language::from_code(l.native_name()), Some(l));
        }
        assert_eq!(l.code().parse::<Language>().ok(), Some(l));
    }
}

#[test]
fn language_names() {
    assert_eq!(Language::German.name(), "German");
    assert_eq!(Language::German.native_name(), "Deutsch");
    assert_eq!(Language::Arabic.native_name(), "العربية");
    assert_eq!(Language::Indonesian.native_name(), "Bahasa Indonesia");
}

#[test]
fn language_answer_labels() {
    assert_eq!(
        Language::English.answer_labels(),
        ["Yes", "No", "Don't know", "Probably", "Probably not"]
    );
    assert_eq!(Language::Polish.answer_labels()[4], "Chyba nie");
}

#[test]
fn language_themes() {
    assert_eq!(
        Language::Spanish.available_themes(),
        &[Theme::Characters, Theme::Objects, Theme::Animals]
    );
    assert_eq!(Language::Arabic.available_themes(), &[Theme::Characters]);
    assert!(Language::Italian.is_theme_supported(Theme::Animals));
    assert!(!Language::Korean.is_theme_supported(Theme::Objects));
    for l in ALL_LANGUAGES {
        assert!(l.is_theme_supported(Theme::Characters));
    }
}

#[test]
fn language_from_input_reports_input() {
    match Language::from_input(" klingon ") {
        Err(Error::InvalidLanguage(s)) => assert_eq!(s, " klingon "),
        other => panic!("unexpected {:?}", other),
    }
    assert!(matches!("FR".parse::<Language>(), Ok(Language::French)));
}

#[test]
fn language_default_is_english() {
    assert_eq!(Language::default(), Language::English);
}

#[test]
fn theme_ids() {
    assert_eq!(Theme::Characters.id(), 1);
    assert_eq!(Theme::Objects.id(), 2);
    assert_eq!(Theme::Animals.id(), 14);
    assert_eq!(Theme::from_id(14), Some(Theme::Animals));
    assert_eq!(Theme::from_id(3), None);
    for t in [Theme::Characters, Theme::Objects, Theme::Animals] {
        assert_eq!(Theme::from_id(t.id()), Some(t));
        assert_eq!(t.name().parse::<Theme>().ok(), Some(t));
    }
}

#[test]
fn theme_parsing() {
    assert!(matches!(Theme::from_input("a"), Ok(Theme::Animals)));
    assert!(matches!(Theme::from_input(" OBJECTS "), Ok(Theme::Objects)));
    assert!(matches!(Theme::from_input("14"), Ok(Theme::Animals)));
    assert!(matches!(Theme::from_input("person"), Ok(Theme::Characters)));
    assert!(matches!(Theme::from_input("حيوان"), Ok(Theme::Animals)));
    match Theme::from_input("plants") {
        Err(Error::InvalidTheme(s)) => assert_eq!(s, "plants"),
        other => panic!("unexpected {:?}", other),
    }
    match Theme::try_from_id(7) {
        Err(Error::InvalidTheme(s)) => assert_eq!(s, "7"),
        other => panic!("unexpected {:?}", other),
    }
    assert!(matches!(Theme::try_from_id(2), Ok(Theme::Objects)));
    assert_eq!(Theme::Animals.name(), "Animals");
    assert_eq!(Theme::default(), Theme::Characters);
}

#[test]
fn answer_ids_and_labels() {
    assert_eq!(Answer::Yes.id(), 0);
    assert_eq!(Answer::ProbablyNot.id(), 4);
    assert_eq!(Answer::from_id(2), Some(Answer::DontKnow));
    assert_eq!(Answer::from_id(5), None);
    assert_eq!(Answer::IDK, Answer::DontKnow);
    assert_eq!(Answer::Probably.label(Language::French), "Probablement oui");
    assert_eq!(Answer::No.label(Language::Japanese), "いいえ");
    assert_eq!(Answer::default(), Answer::Yes);
    for a in [Answer::Yes, Answer::No, Answer::DontKnow, Answer::Probably, Answer::ProbablyNot] {
        assert_eq!(Answer::from_id(a.id()), Some(a));
        assert_eq!(a.label(Language::English).parse::<Answer>().ok(), Some(a));
    }
}

#[test]
fn answer_parsing() {
    assert!(matches!(Answer::from_input("Y"), Ok(Answer::Yes)));
    assert!(matches!(Answer::from_input(" idk "), Ok(Answer::DontKnow)));
    assert!(matches!(Answer::from_input("PN"), Ok(Answer::ProbablyNot)));
    assert!(matches!(Answer::from_input("Wahrscheinlich Ja"), Ok(Answer::Probably)));
    assert!(matches!(Answer::from_input("不是"), Ok(Answer::No)));
    assert!(matches!(Answer::from_input("3"), Ok(Answer::Probably)));
    match Answer::from_input("maybe") {
        Err(Error::InvalidAnswer(s)) => assert_eq!(s, "maybe"),
        other => panic!("unexpected {:?}", other),
    }
    match Answer::try_from_id(9) {
        Err(Error::InvalidAnswer(s)) => assert_eq!(s, "9"),
        other => panic!("unexpected {:?}", other),
    }
    assert!(matches!(Answer::try_from_id(1), Ok(Answer::No)));
}

#[test]
fn lookups_ignore_padding_and_ascii_case() {
    for s in ["en", "Deutsch", "  fr ", "x", "日本語", "bahasa indonesia", "RU"] {
        let expected = Language::from_code(s);
        assert_eq!(Language::from_code(&s.trim().to_ascii_lowercase()), expected);
        assert_eq!(Language::from_code(&format!("  {}  ", s.to_ascii_uppercase())), expected);
    }
    for l in ALL_LANGUAGES {
        assert_eq!(Language::from_code(&l.native_name().to_lowercase()), Some(l));
    }
}

#[test]
fn themes_and_answers_from_codes() {
    for t in [Theme::Characters, Theme::Objects, Theme::Animals] {
        assert_eq!(t.id().to_string().parse::<Theme>().ok(), Some(t));
        assert_eq!(format!(" {} ", t.name().to_ascii_uppercase()).parse::<Theme>().ok(), Some(t));
    }
    for a in [Answer::Yes, Answer::No, Answer::DontKnow, Answer::Probably, Answer::ProbablyNot] {
        assert_eq!(a.id().to_string().parse::<Answer>().ok(), Some(a));
    }
    match " nope ".parse::<Theme>() {
        Err(Error::InvalidTheme(s)) => assert_eq!(s, " nope "),
        other => panic!("unexpected {:?}", other),
    }
}
