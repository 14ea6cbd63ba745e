use fieri::client::{Body, Client, FormPart, Method, MultipartForm};
use fieri::config::derived_headers;
use fieri::envelope::decode;
use fieri::error::Error;
use fieri::types::{
    ChatMessageBuilder, ChatParamBuilder, ChatRole, Completion, Model,
};

#[test]
fn headers_derivation_is_idempotent() {
    let first = derived_headers("key-123", "org-9");
    let second = derived_headers("key-123", "org-9");
    assert_eq!(first.len(), second.len());
    for (a, b) in first.iter().zip(second.iter()) {
        assert_eq!(a.name, b.name);
        assert_eq!(a.value, b.value);
    }
    assert_eq!(first.len(), 2);
    assert_eq!(first[0].name, "Authorization");
    assert_eq!(first[0].value, "Bearer key-123");
    assert_eq!(first[1].name, "OpenAI-Organization");
    assert_eq!(first[1].value, "org-9");
}

#[test]
fn empty_credentials_derive_no_headers() {
    let hs = derived_headers("", "");
    assert!(hs.is_empty());
}

#[test]
fn client_transforms_rebuild_headers() {
    let client = Client::new().api_key("k1".to_string()).organization("o1".to_string());
    let plan = client.get("models").unwrap();
    assert_eq!(plan.headers.len(), 2);
    assert_eq!(plan.headers[0].value, "Bearer k1");
    assert_eq!(plan.headers[1].value, "o1");

    // Replacing the key yields a new client whose headers match it.
    let client = client.api_key("k2".to_string());
    let plan = client.get("models").unwrap();
    assert_eq!(plan.headers[0].value, "Bearer k2");
    assert_eq!(plan.headers[1].value, "o1");
}

#[test]
fn get_plan_joins_the_base_url() {
    let client = Client::with_base_url("http://localhost:7777/v1/".to_string());
    let plan = client.get("models/text-babbage-001").unwrap();
    assert_eq!(plan.method, Method::Get);
    assert_eq!(plan.url, "http://localhost:7777/v1/models/text-babbage-001");
    assert!(matches!(plan.body, Body::Empty));
    assert!(!plan.streaming);
}

#[test]
fn bad_base_url_is_a_loud_error() {
    let client = Client::with_base_url("no scheme at all".to_string());
    match client.get("models") {
        Err(Error::UrlError(path)) => assert_eq!(path, "models"),
        _ => panic!("joining against an unparsable base must fail"),
    }
}

#[test]
fn json_get_scenario_decodes_the_model() {
    // Dispatch a GET; the transport is played by this test and answers
    // with a model body.
    let client = Client::with_base_url("http://localhost:7777/v1/".to_string());
    let plan = client.get("models/text-babbage-001").unwrap();
    assert_eq!(plan.url, "http://localhost:7777/v1/models/text-babbage-001");

    let body = br#"{"id":"text-babbage-001","object":"model","created":1623155849,"owned_by":"openai","permission":[],"root":"text-babbage-001"}"#;
    let model: Model = decode(body).unwrap();
    assert_eq!(model.id, "text-babbage-001");
    assert_eq!(model.object, "model");
}

#[test]
fn json_post_scenario_surfaces_the_api_error() {
    let client = Client::with_base_url("http://localhost:7777/v1/".to_string());
    let message = ChatMessageBuilder::new(
        ChatRole::User,
        "When is humanity going to reach Kardashev Type I?",
    )
    .build()
    .unwrap();
    let param = ChatParamBuilder::new("gpt-4", vec![message]).build().unwrap();
    let plan = client.post("chat/completions", Some(&param)).unwrap();
    assert_eq!(plan.method, Method::Post);
    match &plan.body {
        Body::Json(bytes) => {
            let sent = String::from_utf8(bytes.clone()).unwrap();
            assert_eq!(
                sent,
                r#"{"messages":[{"role":"user","content":"When is humanity going to reach Kardashev Type I?"}],"model":"gpt-4"}"#
            );
        }
        _ => panic!("a JSON POST carries a JSON body"),
    }

    // The transport answers 400 with a structured error body.
    let body = br#"{"error":{"message":"'woops' is not one of ['system', 'assistant', 'user', 'function'] - 'messages.0.role'","type":"invalid_request_error","param":null,"code":null}}"#;
    match decode::<fieri::types::Chat>(body) {
        Err(Error::APIError(e)) => {
            assert_eq!(
                e.error.message,
                "'woops' is not one of ['system', 'assistant', 'user', 'function'] - 'messages.0.role'"
            );
            assert_eq!(e.error.error_type, "invalid_request_error");
            assert_eq!(e.error.param, None);
            assert_eq!(e.error.code, None);
        }
        _ => panic!("an error body must decode to the API error"),
    }
}

#[test]
fn unrecognized_body_is_a_decode_error() {
    // Neither the payload shape nor the error shape: never a default value.
    let body = br#"{"web":"spider"}"#;
    match decode::<Model>(body) {
        Err(Error::DecodeError(kept)) => assert_eq!(kept, body),
        _ => panic!("an unrecognized body must be a decode failure"),
    }
    // Not JSON at all.
    match decode::<Model>(b"][") {
        Err(Error::DecodeError(kept)) => assert_eq!(kept, b"]["),
        _ => panic!("malformed bytes must be a decode failure"),
    }
}

#[test]
fn error_shape_wins_over_the_payload_shape() {
    // This body would also decode as a (defaulted) completion; the error
    // shape must win regardless.
    let body = br#"{"error":{"message":"quota exhausted","type":"rate_limit"},"id":"x"}"#;
    match decode::<Completion>(body) {
        Err(Error::APIError(e)) => {
            assert_eq!(e.error.message, "quota exhausted");
            assert_eq!(e.error.error_type, "rate_limit");
        }
        _ => panic!("the error shape must be tried first"),
    }
}

#[test]
fn top_level_error_shape_is_accepted_too() {
    let body = br#"{"message":"bad key","type":"auth_error","param":"key","code":401}"#;
    match decode::<Completion>(body) {
        Err(Error::APIError(e)) => {
            assert_eq!(e.error.message, "bad key");
            assert_eq!(e.error.error_type, "auth_error");
            assert_eq!(e.error.param, Some("key".to_string()));
            assert_eq!(e.error.code, Some(401));
        }
        _ => panic!("the top-level error shape must be accepted"),
    }
}

#[test]
fn multipart_plan_keeps_the_form() {
    let client = Client::with_base_url("http://localhost:7777/v1/".to_string());
    let form = MultipartForm {
        parts: vec![
            FormPart::File {
                name: "file".to_string(),
                filename: "train.jsonl".to_string(),
                content: b"{}".to_vec(),
            },
            FormPart::Text { name: "purpose".to_string(), value: "fine-tune".to_string() },
        ],
    };
    let plan = client.post_data("files", form).unwrap();
    assert_eq!(plan.method, Method::Post);
    match &plan.body {
        Body::Multipart(f) => assert_eq!(f.parts.len(), 2),
        _ => panic!("an upload carries a multipart body"),
    }
}

#[test]
fn stream_plans_are_marked_streaming() {
    let client = Client::with_base_url("http://localhost:7777/v1/".to_string());
    let plan = client.get_stream("fine-tunes/ft-1/events").unwrap();
    assert!(plan.streaming);
    let plan = client
        .post_stream::<fieri::types::ChatParam>("chat/completions", None)
        .unwrap();
    assert!(plan.streaming);
    assert!(matches!(plan.body, Body::Empty));
}

#[test]
fn stream_query_plan_keeps_the_pairs() {
    let client = Client::with_base_url("http://localhost:7777/v1/".to_string());
    let plan = client
        .get_stream_query(
            "fine-tunes/ft-1/events",
            vec![("stream".to_string(), "true".to_string())],
        )
        .unwrap();
    assert!(plan.streaming);
    assert_eq!(plan.query, vec![("stream".to_string(), "true".to_string())]);
}

#[test]
fn resource_paths_are_assembled_from_their_ids() {
    assert_eq!(fieri::client::model_path("text-babbage-001"), "models/text-babbage-001");
    assert_eq!(fieri::client::file_path("file-1"), "files/file-1");
    assert_eq!(fieri::client::fine_tune_path("ft-123"), "fine-tunes/ft-123");
    assert_eq!(fieri::client::fine_tune_cancel_path("ft-123"), "fine-tunes/ft-123/cancel");
    assert_eq!(fieri::client::fine_tune_events_path("ft-123"), "fine-tunes/ft-123/events");
}

#[test]
fn upload_form_carries_file_and_purpose() {
    let form = fieri::types::upload_form("train.jsonl", b"{\"p\":1}".to_vec(), fieri::types::Purpose::FineTune);
    assert_eq!(form.parts.len(), 2);
    match &form.parts[0] {
        FormPart::File { name, filename, content } => {
            assert_eq!(name, "file");
            assert_eq!(filename, "train.jsonl");
            assert_eq!(content, b"{\"p\":1}");
        }
        _ => panic!("the first part is the file"),
    }
    match &form.parts[1] {
        FormPart::Text { name, value } => {
            assert_eq!(name, "purpose");
            assert_eq!(value, "fine-tune");
        }
        _ => panic!("the second part is the purpose"),
    }
}

#[test]
fn image_forms_write_the_settings_as_text() {
    let param = fieri::types::EditImageParamBuilder::new("a calm sea").build().unwrap();
    let form = fieri::types::edit_image_form("sea.png", vec![1, 2, 3], &param);
    assert_eq!(form.parts.len(), 5);
    match &form.parts[2] {
        FormPart::Text { name, value } => {
            assert_eq!(name, "n");
            assert_eq!(value, "1");
        }
        _ => panic!("the third part is the count"),
    }
    match &form.parts[3] {
        FormPart::Text { name, value } => {
            assert_eq!(name, "size");
            assert_eq!(value, "1024x1024");
        }
        _ => panic!("the fourth part is the size"),
    }

    let vparam = fieri::types::VariateImageParamBuilder::new().build().unwrap();
    let vform = fieri::types::variate_image_form("sea.png", vec![9], &vparam);
    assert_eq!(vform.parts.len(), 4);
}

#[test]
fn transport_and_field_errors_carry_their_reports() {
    let e = Error::Transport("connection refused".to_string());
    assert!(matches!(e, Error::Transport(msg) if msg == "connection refused"));
    let e = Error::FieldError("training_file".to_string());
    assert!(matches!(e, Error::FieldError(f) if f == "training_file"));
}
