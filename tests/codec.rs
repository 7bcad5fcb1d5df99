use tinify::{ApiError, Data, DecodeError, ImageAttributes, Json, Url};

fn to_model(v: &serde_json::Value) -> Json {
    match v {
        serde_json::Value::Null => Json::Null,
        serde_json::Value::Bool(b) => Json::Bool(*b),
        serde_json::Value::Number(n) => match n.as_u64() {
            Some(u) => Json::Number(u),
            None => Json::OtherNumber(n.to_string()),
        },
        serde_json::Value::String(s) => Json::Str(s.clone()),
        serde_json::Value::Array(items) => Json::Array(items.iter().map(to_model).collect()),
        serde_json::Value::Object(fields) => {
            Json::Object(fields.iter().map(|(k, v)| (k.clone(), to_model(v))).collect())
        }
    }
}

fn parse(text: &str) -> Json {
    to_model(&serde_json::from_str::<serde_json::Value>(text).unwrap())
}

#[test]
fn test_data_serde_input() {
    let data = Data::Input(ImageAttributes {
        size: 258,
        type_: "image/png".into(),
    });
    let json = data.to_text();
    assert_eq!(json, r#"{"input":{"size":258,"type":"image/png"}}"#);
    let new_data = Data::from_json(&parse(&json)).unwrap();
    println!("data: {:?}", new_data);
    assert_eq!(data, new_data);
}

#[test]
fn test_data_serde_output() {
    let data = Data::Output(ImageAttributes {
        size: 258,
        type_: "image/png".into(),
    });
    let json = data.to_text();
    assert_eq!(json, r#"{"output":{"size":258,"type":"image/png"}}"#);
    let new_data = Data::from_json(&parse(&json)).unwrap();
    println!("data: {:?}", new_data);
    assert_eq!(data, new_data);
}

#[test]
fn test_data_serde_source() {
    let data = Data::Source {
        url: Url::parse("https://test.com/image.png").unwrap(),
    };
    let json = data.to_text();
    assert_eq!(json, r#"{"source":{"url":"https://test.com/image.png"}}"#);
    let new_data = Data::from_json(&parse(&json)).unwrap();
    println!("data: {:?}", new_data);
    assert_eq!(data, new_data);
}

#[test]
fn test_data_serde_resize() {
    let data = Data::Resize {
        method: "fit".into(),
        width: Some(150),
        height: Some(100),
    };
    let json = data.to_text();
    assert_eq!(
        json,
        r#"{"resize":{"method":"fit","width":150,"height":100}}"#
    );
    let new_data = Data::from_json(&parse(&json)).unwrap();
    println!("data: {:?}", new_data);
    assert_eq!(data, new_data);
}

#[test]
fn test_api_error_serde() {
    let err = ApiError {
        error: "A".into(),
        message: "B".into(),
    };
    let json = err.to_text();
    assert_eq!(json, r#"{"error":"A","message":"B"}"#.to_string());
    let new_err = ApiError::from_json(&parse(&json)).unwrap();
    assert_eq!(err, new_err);
}

#[test]
fn ser_de() {
    let url = Url::parse("http://linhehuo.com/image.png").unwrap();
    let json = url.to_text();
    println!("{}", json);
    assert_eq!(json, r#""http://linhehuo.com/image.png""#);
    let new = Url::from_json(&parse(&json)).unwrap();
    assert_eq!(url, new);
}

#[test]
fn api_error_display_joins_code_and_message() {
    let err = ApiError {
        error: "A".into(),
        message: "B".into(),
    };
    assert_eq!(err.display(), "A: B");
}

#[test]
fn resize_without_sizes_writes_null_and_reads_back() {
    let data = Data::Resize {
        method: "scale".into(),
        width: None,
        height: Some(7),
    };
    let json = data.to_text();
    assert_eq!(json, r#"{"resize":{"method":"scale","width":null,"height":7}}"#);
    assert_eq!(Data::from_json(&parse(&json)).unwrap(), data);
    let missing = parse(r#"{"resize":{"method":"scale","height":7}}"#);
    assert_eq!(Data::from_json(&missing).unwrap(), data);
}

#[test]
fn every_variant_round_trips_through_the_document() {
    let all = vec![
        Data::Source { url: Url::parse("https://example.org/a.jpg").unwrap() },
        Data::Input(ImageAttributes { size: 0, type_: "image/jpeg".into() }),
        Data::Output(ImageAttributes { size: usize::MAX, type_: "".into() }),
        Data::Resize { method: "cover".into(), width: Some(1), height: None },
    ];
    for d in all {
        assert_eq!(Data::from_json(&d.to_json()).unwrap(), d);
        assert_eq!(Data::from_json(&parse(&d.to_text())).unwrap(), d);
    }
}

#[test]
fn no_tag_is_refused() {
    assert_eq!(Data::from_json(&parse("{}")).unwrap_err(), DecodeError::Shape);
    let other = parse(r#"{"thumbnail":{"size":1,"type":"image/png"}}"#);
    assert_eq!(Data::from_json(&other).unwrap_err(), DecodeError::Shape);
}

#[test]
fn two_tags_are_refused() {
    let two = parse(
        r#"{"input":{"size":1,"type":"image/png"},"output":{"size":2,"type":"image/png"}}"#,
    );
    assert_eq!(Data::from_json(&two).unwrap_err(), DecodeError::Shape);
}

#[test]
fn wrong_field_types_are_refused() {
    for text in [
        r#"{"input":{"size":"1","type":"image/png"}}"#,
        r#"{"input":{"size":-1,"type":"image/png"}}"#,
        r#"{"input":{"type":"image/png"}}"#,
        r#"{"source":{"url":"not a url"}}"#,
        r#"{"resize":{"method":"fit","width":"wide"}}"#,
        r#"["input"]"#,
    ] {
        assert_eq!(Data::from_json(&parse(text)).unwrap_err(), DecodeError::Shape, "{}", text);
    }
}

#[test]
fn strings_are_escaped() {
    let data = Data::Input(ImageAttributes { size: 3, type_: "a\"b\\c\nd\u{1}é".into() });
    let json = data.to_text();
    assert_eq!(json, "{\"input\":{\"size\":3,\"type\":\"a\\\"b\\\\c\\nd\\u0001é\"}}");
    assert_eq!(Data::from_json(&parse(&json)).unwrap(), data);
}

#[test]
fn url_parse_keeps_canonical_text() {
    let s = "https://example.com/path?q=1#frag";
    assert_eq!(Url::parse(s).unwrap().as_str(), s);
    let u = Url::parse("HTTPS://Example.COM").unwrap();
    assert_eq!(u.as_str(), "https://example.com/");
    let again = Url::from_json(&u.to_json()).unwrap();
    assert_eq!(again, u);
    assert!(Url::parse("relative/path.png").is_err());
}

#[test]
fn url_from_json_refuses_non_strings() {
    assert_eq!(Url::from_json(&Json::Number(3)).unwrap_err(), DecodeError::Shape);
    assert_eq!(Url::from_json(&Json::Str("::".into())).unwrap_err(), DecodeError::Shape);
}
