use tinify::{
    classify_input, shrink_response, source_request_body, ApiError, Data, DecodeError,
    ImageAttributes, Json, ShrinkOutcome, ShrinkSource, TinifyError, Url,
};

fn entry(key: &str, value: Json) -> (String, Json) {
    (key.to_string(), value)
}

fn input_body() -> Json {
    Json::Object(vec![entry(
        "input",
        Json::Object(vec![
            entry("size", Json::Number(258)),
            entry("type", Json::Str("image/png".into())),
        ]),
    )])
}

fn error_body(code: &str, message: &str) -> Json {
    Json::Object(vec![
        entry("error", Json::Str(code.into())),
        entry("message", Json::Str(message.into())),
    ])
}

#[test]
fn ok_status_is_accepted_without_reading_the_body() {
    let r = shrink_response(200, &Err("not json".into()));
    assert!(matches!(r, Ok(ShrinkOutcome::Done)));
}

#[test]
fn created_status_carries_the_payload() {
    match shrink_response(201, &Ok(input_body())) {
        Ok(ShrinkOutcome::Created(d)) => assert_eq!(
            d,
            Data::Input(ImageAttributes { size: 258, type_: "image/png".into() })
        ),
        other => panic!("unexpected {:?}", other),
    }
}

#[test]
fn created_status_with_bad_body_is_a_serde_error() {
    let r = shrink_response(201, &Ok(Json::Array(vec![])));
    assert!(matches!(r, Err(TinifyError::Serde(DecodeError::Shape))));
    let r = shrink_response(201, &Err("EOF".into()));
    match r {
        Err(TinifyError::Serde(DecodeError::Syntax(m))) => assert_eq!(m, "EOF"),
        other => panic!("unexpected {:?}", other),
    }
}

#[test]
fn unauthorized_status_is_an_api_error() {
    match shrink_response(401, &Ok(error_body("Unauthorized", "Credentials are invalid"))) {
        Err(TinifyError::Api(e)) => {
            assert_eq!(e, ApiError { error: "Unauthorized".into(), message: "Credentials are invalid".into() });
            assert_eq!(e.display(), "Unauthorized: Credentials are invalid");
        }
        other => panic!("unexpected {:?}", other),
    }
}

#[test]
fn failure_statuses_are_api_errors() {
    for status in [400u16, 415, 429, 500, 503, 599] {
        match shrink_response(status, &Ok(error_body("A", "B"))) {
            Err(e @ TinifyError::Api(_)) => assert_eq!(e.api_display(), Some("A: B".to_string())),
            other => panic!("unexpected {:?} for {}", other, status),
        }
    }
}

#[test]
fn failure_status_with_bad_body_is_a_serde_error() {
    let r = shrink_response(500, &Ok(Json::Str("oops".into())));
    assert!(matches!(r, Err(TinifyError::Serde(DecodeError::Shape))));
    let r = shrink_response(401, &Err("expected value".into()));
    assert!(matches!(r, Err(TinifyError::Serde(DecodeError::Syntax(_)))));
}

#[test]
fn other_statuses_are_refused() {
    for status in [100u16, 204, 301, 304, 399] {
        let r = shrink_response(status, &Ok(input_body()));
        assert!(matches!(r, Err(TinifyError::UnexpectedStatus(s)) if s == status));
    }
}

#[test]
fn non_api_errors_have_no_service_words() {
    assert_eq!(TinifyError::File("missing".into()).api_display(), None);
    assert_eq!(TinifyError::UnexpectedStatus(302).api_display(), None);
}

#[test]
fn input_is_classified_as_url_or_path() {
    match classify_input("https://tinypng.com/images/panda.png") {
        ShrinkSource::Remote(u) => assert_eq!(u.as_str(), "https://tinypng.com/images/panda.png"),
        other => panic!("unexpected {:?}", other),
    }
    match classify_input("images/panda.png") {
        ShrinkSource::Local(p) => assert_eq!(p, "images/panda.png"),
        other => panic!("unexpected {:?}", other),
    }
}

#[test]
fn remote_source_body_names_the_url() {
    let url = Url::parse("https://test.com/image.png").unwrap();
    assert_eq!(source_request_body(&url), r#"{"source":{"url":"https://test.com/image.png"}}"#);
}
