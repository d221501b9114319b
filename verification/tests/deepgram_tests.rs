use whisp_rs::api::deepgram::{
    check_status, is_success_status, status_text, transcript_from_json, transcript_from_response,
    DeepgramClient, DeepgramError, Json, DEEPGRAM_API_URL,
};

fn client(language: &str) -> DeepgramClient {
    DeepgramClient::new("secret".to_string(), "nova-2-general".to_string(), language.to_string())
}

fn obj(members: Vec<(&str, Json)>) -> Json {
    Json::Object(members.into_iter().map(|(k, v)| (k.to_string(), v)).collect())
}

fn response(transcript: Json) -> Json {
    obj(vec![(
        "results",
        obj(vec![(
            "channels",
            Json::Array(vec![obj(vec![(
                "alternatives",
                Json::Array(vec![obj(vec![
                    ("confidence", Json::Number),
                    ("transcript", transcript),
                ])]),
            )])]),
        )]),
    )])
}

#[test]
fn request_url_with_language() {
    assert_eq!(
        client("en").request_url(),
        "https://api.deepgram.com/v1/listen?model=nova-2-general&encoding=linear16&sample_rate=16000&punctuate=false&language=en"
    );
}

#[test]
fn request_url_auto_language() {
    assert_eq!(
        client("auto").request_url(),
        format!(
            "{}?model=nova-2-general&encoding=linear16&sample_rate=16000&punctuate=false",
            DEEPGRAM_API_URL
        )
    );
}

#[test]
fn headers() {
    let c = client("fr");
    assert_eq!(c.authorization(), "Token secret");
    assert_eq!(c.content_type(), "application/octet-stream");
}

#[test]
fn success_statuses() {
    assert!(is_success_status(200));
    assert!(is_success_status(204));
    assert!(is_success_status(299));
    assert!(!is_success_status(199));
    assert!(!is_success_status(300));
    assert!(!is_success_status(401));
    assert_eq!(check_status(200), Ok(()));
    assert_eq!(check_status(401), Err(DeepgramError::Status(401)));
}

#[test]
fn transcript_found() {
    let j = response(Json::Str("hello world".to_string()));
    assert_eq!(transcript_from_json(&j), "hello world");
    assert_eq!(transcript_from_response(200, &j), Ok("hello world".to_string()));
}

#[test]
fn transcript_missing_or_not_a_string() {
    assert_eq!(transcript_from_json(&response(Json::Null)), "");
    assert_eq!(transcript_from_json(&response(Json::Number)), "");
    assert_eq!(transcript_from_json(&obj(vec![])), "");
    assert_eq!(transcript_from_json(&Json::Array(vec![])), "");
    assert_eq!(
        transcript_from_json(&obj(vec![("results", obj(vec![("channels", Json::Array(vec![]))]))])),
        ""
    );
}

#[test]
fn transcript_uses_first_channel_and_first_key() {
    let j = obj(vec![
        (
            "results",
            obj(vec![(
                "channels",
                Json::Array(vec![
                    obj(vec![(
                        "alternatives",
                        Json::Array(vec![obj(vec![("transcript", Json::Str("first".to_string()))])]),
                    )]),
                    obj(vec![(
                        "alternatives",
                        Json::Array(vec![obj(vec![("transcript", Json::Str("second".to_string()))])]),
                    )]),
                ]),
            )]),
        ),
        ("results", Json::Null),
    ]);
    assert_eq!(transcript_from_json(&j), "first");
}

#[test]
fn error_status() {
    let j = response(Json::Str("ignored".to_string()));
    assert_eq!(transcript_from_response(500, &j), Err(DeepgramError::Status(500)));
}

#[test]
fn error_messages() {
    assert_eq!(
        DeepgramError::Status(401).message("{\"err_code\":\"INVALID_AUTH\"}"),
        "Deepgram API error 401 Unauthorized: {\"err_code\":\"INVALID_AUTH\"}"
    );
    assert_eq!(DeepgramError::Status(500).message(""), "Deepgram API error 500 Internal Server Error: ");
    assert_eq!(status_text(299), "299 <unknown status code>");
    assert_eq!(status_text(42), "42 <unknown status code>");
    for code in [200u16, 301, 404, 429, 503, 599] {
        let expected = reqwest::StatusCode::from_u16(code).unwrap().to_string();
        assert_eq!(status_text(code), expected);
    }
}
