use bananaslice::{
    ApiError, Candidate, CandidateContent, GeminiError, GeminiResponse, ResponseInlineData,
    ResponsePart, extract_image, extract_from_body,
};

fn image_part(mime: &str, data: &str) -> ResponsePart {
    ResponsePart {
        inline_data: Some(ResponseInlineData {
            mime_type: String::from(mime),
            data: String::from(data),
        }),
        text: None,
    }
}

fn text_part(text: &str) -> ResponsePart {
    ResponsePart { inline_data: None, text: Some(String::from(text)) }
}

fn candidate(parts: Vec<ResponsePart>) -> Candidate {
    Candidate { content: CandidateContent { parts } }
}

#[test]
fn explicit_error_takes_precedence_over_candidates() {
    let resp = GeminiResponse {
        candidates: Some(vec![candidate(vec![image_part("image/png", "IMGDATA")])]),
        error: Some(GeminiError { message: String::from("quota exceeded") }),
    };
    let r = extract_image(&resp);
    match r {
        Err(ApiError::ApiError(m)) => assert_eq!(m, "quota exceeded"),
        other => panic!("expected ApiError, got {:?}", other),
    }
}

#[test]
fn missing_candidates_yield_no_image_generated() {
    let resp = GeminiResponse { candidates: None, error: None };
    assert!(matches!(extract_image(&resp), Err(ApiError::NoImageGenerated)));
}

#[test]
fn zero_candidates_yield_no_image_generated() {
    let resp = GeminiResponse { candidates: Some(vec![]), error: None };
    assert!(matches!(extract_image(&resp), Err(ApiError::NoImageGenerated)));
}

#[test]
fn text_only_segment_yields_no_image_generated() {
    let resp = GeminiResponse {
        candidates: Some(vec![candidate(vec![text_part("sorry")])]),
        error: None,
    };
    assert!(matches!(extract_image(&resp), Err(ApiError::NoImageGenerated)));
}

#[test]
fn first_image_bearing_segment_wins() {
    let resp = GeminiResponse {
        candidates: Some(vec![
            candidate(vec![text_part("here you go"), image_part("image/png", "FIRST")]),
            candidate(vec![image_part("image/jpeg", "SECOND")]),
        ]),
        error: None,
    };
    assert_eq!(extract_image(&resp).unwrap(), "FIRST");
}

#[test]
fn later_candidate_supplies_the_image_when_earlier_has_none() {
    let resp = GeminiResponse {
        candidates: Some(vec![
            candidate(vec![text_part("thinking")]),
            candidate(vec![image_part("image/webp", "LATER")]),
        ]),
        error: None,
    };
    assert_eq!(extract_image(&resp).unwrap(), "LATER");
}

#[test]
fn non_image_mime_is_not_mistaken_for_an_image() {
    let resp = GeminiResponse {
        candidates: Some(vec![candidate(vec![image_part("text/plain", "NOPE")])]),
        error: None,
    };
    assert!(matches!(extract_image(&resp), Err(ApiError::NoImageGenerated)));
}

#[test]
fn extract_from_body_finds_the_image() {
    let body = r#"{
        "candidates": [
            {"content": {"parts": [
                {"text": "sure"},
                {"inlineData": {"mimeType": "image/png", "data": "BASE64DATA"}}
            ]}}
        ]
    }"#;
    assert_eq!(extract_from_body(body).unwrap(), "BASE64DATA");
}

#[test]
fn extract_from_body_surfaces_the_backend_error() {
    let body = r#"{"error": {"message": "quota exceeded"},
        "candidates": [{"content": {"parts": [
            {"inlineData": {"mimeType": "image/png", "data": "IMG"}}]}}]}"#;
    match extract_from_body(body) {
        Err(ApiError::ApiError(m)) => assert_eq!(m, "quota exceeded"),
        other => panic!("expected ApiError, got {:?}", other),
    }
}

#[test]
fn extract_from_body_reports_empty_response() {
    assert!(matches!(extract_from_body("{}"), Err(ApiError::NoImageGenerated)));
}

#[test]
fn malformed_body_yields_parse_error_with_cause_and_excerpt() {
    // A body that is not JSON at all: the parser's cause, then the excerpt.
    match extract_from_body("not json at all") {
        Err(ApiError::ParseError(m)) => {
            assert!(m.ends_with(": not json at all"), "{m}");
            assert!(m.len() > ": not json at all".len(), "{m}");
        },
        other => panic!("expected ParseError, got {:?}", other),
    }
}

#[test]
fn shape_mismatch_yields_parse_error_with_the_excerpt() {
    // Valid JSON of the wrong shape: the excerpt alone.
    let body = r#"{"candidates": 7}"#;
    match extract_from_body(body) {
        Err(ApiError::ParseError(m)) => assert_eq!(m, body),
        other => panic!("expected ParseError, got {:?}", other),
    }
}

#[test]
fn parse_error_excerpt_is_capped_at_200_characters() {
    let body = "x".repeat(500);
    match extract_from_body(&body) {
        Err(ApiError::ParseError(m)) => {
            assert!(m.ends_with(&"x".repeat(200)), "{m}");
            assert!(!m.contains(&"x".repeat(201)), "{m}");
        },
        other => panic!("expected ParseError, got {:?}", other),
    }
}

#[test]
fn non_object_body_yields_parse_error() {
    assert!(matches!(extract_from_body("[1, 2, 3]"), Err(ApiError::ParseError(_))));
    assert!(matches!(extract_from_body("42"), Err(ApiError::ParseError(_))));
}

#[test]
fn candidate_without_content_yields_parse_error() {
    let body = r#"{"candidates": [{"note": "no content here"}]}"#;
    assert!(matches!(extract_from_body(body), Err(ApiError::ParseError(_))));
}

#[test]
fn inline_data_missing_fields_yields_parse_error() {
    let body = r#"{"candidates": [{"content": {"parts": [
        {"inlineData": {"mimeType": "image/png"}}]}}]}"#;
    assert!(matches!(extract_from_body(body), Err(ApiError::ParseError(_))));
}

#[test]
fn error_message_renders_verbatim() {
    let e = ApiError::ApiError(String::from("quota exceeded"));
    assert_eq!(e.message(), "API returned error: quota exceeded");
    assert_eq!(ApiError::NoImageGenerated.message(), "No image generated");
    assert_eq!(
        ApiError::ParseError(String::from("oops")).message(),
        "Failed to parse response: oops"
    );
    assert_eq!(
        ApiError::RequestFailed(String::from("timed out")).message(),
        "HTTP request failed: timed out"
    );
    assert_eq!(ApiError::ApiKeyMissing.message(), "API key not configured");
    assert_eq!(ApiError::InvalidImageData.message(), "Invalid image data");
}

#[test]
fn null_candidates_in_body_yield_no_image_generated() {
    assert!(matches!(
        extract_from_body(r#"{"candidates": null}"#),
        Err(ApiError::NoImageGenerated)
    ));
}

#[test]
fn empty_candidates_in_body_yield_no_image_generated() {
    assert!(matches!(
        extract_from_body(r#"{"candidates": []}"#),
        Err(ApiError::NoImageGenerated)
    ));
}

#[test]
fn non_string_text_in_a_part_yields_parse_error() {
    let body = r#"{"candidates": [{"content": {"parts": [{"text": 5}]}}]}"#;
    assert!(matches!(extract_from_body(body), Err(ApiError::ParseError(_))));
}
