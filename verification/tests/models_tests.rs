use akinator::models::{json_value_to_string, Guess, JsonValue, Progression, RawStepResponse};

fn guess_with_photo(photo: Option<&str>) -> Guess {
    Guess {
        id: "42".to_string(),
        name: "Ada".to_string(),
        description: "Mathematician".to_string(),
        photo: photo.map(|p| p.to_string()),
        pseudo: None,
        flag_photo: 0,
        base_proposition_id: None,
    }
}

#[test]
fn photo_url_forms() {
    assert_eq!(guess_with_photo(None).photo_url(), None);
    assert_eq!(
        guess_with_photo(Some("https://img.example/a.jpg")).photo_url().as_deref(),
        Some("https://img.example/a.jpg")
    );
    assert_eq!(
        guess_with_photo(Some("http://img.example/a.jpg")).photo_url().as_deref(),
        Some("http://img.example/a.jpg")
    );
    assert_eq!(
        guess_with_photo(Some("/photos/a.jpg")).photo_url().as_deref(),
        Some("https://en.akinator.com/photos/a.jpg")
    );
    assert_eq!(
        guess_with_photo(Some("a.jpg")).photo_url().as_deref(),
        Some("https://picture.akinator.com/photos/a.jpg")
    );
    assert_eq!(
        guess_with_photo(Some("httpx.jpg")).photo_url().as_deref(),
        Some("https://picture.akinator.com/photos/httpx.jpg")
    );
}

#[test]
fn guess_clone_is_equal() {
    let g = guess_with_photo(Some("a.jpg"));
    assert_eq!(g.clone(), g);
}

#[test]
fn json_scalar_text() {
    assert_eq!(json_value_to_string(&JsonValue::Text("abc".to_string())), "abc");
    assert_eq!(
        json_value_to_string(&JsonValue::Number { text: "12.5".to_string(), unsigned: None }),
        "12.5"
    );
    assert_eq!(json_value_to_string(&JsonValue::Other), "");
}

#[test]
fn progression_zero_text() {
    let p = Progression::zero();
    assert_eq!(p.bits, 0.0f32.to_bits());
    assert_eq!(p.text, 0.0f32.to_string());
}

#[test]
fn progression_field_text() {
    let mut r = RawStepResponse {
        completion: None,
        step: None,
        progression: Some(JsonValue::Text("45.5".to_string())),
        question: None,
        akitude: None,
        step_last_proposition: None,
        id_proposition: None,
        id_base_proposition: None,
        name_proposition: None,
        description_proposition: None,
        photo: None,
        pseudo: None,
        flag_photo: None,
    };
    assert_eq!(r.progression_text().as_deref(), Some("45.5"));
    r.progression = None;
    assert_eq!(r.progression_text(), None);
}

#[test]
fn step_result_clone_is_equal() {
    let r = akinator::models::StepResult::Question {
        question: "Q".to_string(),
        step: 3,
        progression: Progression::zero(),
        akitude: "a.png".to_string(),
    };
    assert_eq!(r.clone(), r);
}
