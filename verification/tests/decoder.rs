use duck_duck_go_ai::decode::collect_into_chat_message;
use duck_duck_go_ai::decode::decode_all;
use duck_duck_go_ai::decode::parse_response_message;
use duck_duck_go_ai::decode::DecodeStep;
use duck_duck_go_ai::decode::FrameInput;
use duck_duck_go_ai::decode::ResponseDecoder;
use duck_duck_go_ai::decode::SseFrame;
use duck_duck_go_ai::errors::Error;
use duck_duck_go_ai::model::ChatResponseMessage;

fn data_frame(data: &str) -> FrameInput {
    FrameInput::Frame(SseFrame { event: Some(String::from("message")), data: Some(String::from(data)) })
}

fn delta_json(role: Option<&str>, message: &str) -> String {
    match role {
        Some(role) => format!(
            "{{\"role\":\"{}\",\"message\":\"{}\",\"created\":1,\"id\":\"i\",\"action\":\"a\",\"model\":\"m\"}}",
            role, message
        ),
        None => format!(
            "{{\"message\":\"{}\",\"created\":1,\"id\":\"i\",\"action\":\"a\",\"model\":\"m\"}}",
            message
        ),
    }
}

#[test]
fn parse_full_delta() {
    let m = parse_response_message(
        "{\"role\":\"assistant\",\"message\":\"Hi\",\"created\":77,\"id\":\"abc\",\"action\":\"success\",\"model\":\"gpt-4o-mini\"}",
    )
    .expect("a well-shaped payload must parse");
    assert_eq!(m.role.as_deref(), Some("assistant"));
    assert_eq!(m.message.as_deref(), Some("Hi"));
    assert_eq!(m.created, 77);
    assert_eq!(m.id, "abc");
    assert_eq!(m.action, "success");
    assert_eq!(m.model, "gpt-4o-mini");
}

#[test]
fn parse_absent_and_null_optionals() {
    let m = parse_response_message(
        "{\"created\":0,\"id\":\"\",\"action\":\"a\",\"model\":\"m\"}",
    )
    .expect("optional fields may be absent");
    assert!(m.role.is_none());
    assert!(m.message.is_none());

    let m = parse_response_message(
        "{\"role\":null,\"message\":null,\"created\":0,\"id\":\"\",\"action\":\"a\",\"model\":\"m\"}",
    )
    .expect("null optional fields count as absent");
    assert!(m.role.is_none());
    assert!(m.message.is_none());
}

#[test]
fn parse_rejects_bad_payloads() {
    assert_eq!(parse_response_message("not json").unwrap_err(), Error::InvalidPayload);
    assert_eq!(parse_response_message("[1,2]").unwrap_err(), Error::InvalidPayload);
    // a required field missing
    assert_eq!(
        parse_response_message("{\"id\":\"i\",\"action\":\"a\",\"model\":\"m\"}").unwrap_err(),
        Error::InvalidPayload
    );
    // a required field of the wrong kind
    assert_eq!(
        parse_response_message("{\"created\":-1,\"id\":\"i\",\"action\":\"a\",\"model\":\"m\"}")
            .unwrap_err(),
        Error::InvalidPayload
    );
    // an optional field of the wrong kind
    assert_eq!(
        parse_response_message("{\"role\":3,\"created\":1,\"id\":\"i\",\"action\":\"a\",\"model\":\"m\"}")
            .unwrap_err(),
        Error::InvalidPayload
    );
}

#[test]
fn decoder_stops_at_sentinel_and_ignores_the_rest() {
    let frames = vec![
        data_frame(&delta_json(Some("assistant"), "He")),
        data_frame(&delta_json(None, "llo")),
        data_frame("[DONE]"),
        data_frame(&delta_json(None, "ignored")),
        FrameInput::BadFraming,
    ];
    let out = decode_all(&frames);
    assert_eq!(out.len(), 5);
    assert!(matches!(&out[0], DecodeStep::Delta(m) if m.message.as_deref() == Some("He")));
    assert!(matches!(&out[1], DecodeStep::Delta(m) if m.message.as_deref() == Some("llo")));
    assert!(matches!(out[2], DecodeStep::End));
    assert!(matches!(out[3], DecodeStep::End));
    assert!(matches!(out[4], DecodeStep::End));
}

#[test]
fn decoder_fails_on_missing_data_then_ends() {
    let frames = vec![
        FrameInput::Frame(SseFrame { event: None, data: None }),
        data_frame(&delta_json(Some("assistant"), "x")),
    ];
    let out = decode_all(&frames);
    assert!(matches!(out[0], DecodeStep::Fail(Error::MissingData)));
    assert!(matches!(out[1], DecodeStep::End));
}

#[test]
fn decoder_fails_on_bad_framing() {
    let mut decoder = ResponseDecoder::new();
    let step = decoder.poll_frame(FrameInput::BadFraming);
    assert!(matches!(step, DecodeStep::Fail(Error::InvalidFraming)));
    let step = decoder.poll_frame(data_frame("[DONE]"));
    assert!(matches!(step, DecodeStep::End));
}

#[test]
fn decoder_fails_on_malformed_payload() {
    let mut decoder = ResponseDecoder::new();
    let step = decoder.poll_frame(data_frame("{\"unterminated\""));
    assert!(matches!(step, DecodeStep::Fail(Error::InvalidPayload)));
}

fn delta(role: Option<&str>, message: Option<&str>) -> ChatResponseMessage {
    ChatResponseMessage {
        role: role.map(String::from),
        message: message.map(String::from),
        created: 0,
        id: String::new(),
        action: String::new(),
        model: String::new(),
    }
}

#[test]
fn collect_assembles_role_and_content() {
    let deltas = vec![
        delta(Some("assistant"), Some("Hel")),
        delta(None, Some("lo")),
        delta(None, None),
    ];
    let m = collect_into_chat_message(&deltas).expect("a role was named");
    assert_eq!(m.role, "assistant");
    assert_eq!(m.content, "Hello");
}

#[test]
fn collect_latest_role_wins() {
    let deltas = vec![delta(Some("x"), None), delta(Some("assistant"), Some("ok"))];
    let m = collect_into_chat_message(&deltas).expect("a role was named");
    assert_eq!(m.role, "assistant");
    assert_eq!(m.content, "ok");
}

#[test]
fn collect_without_role_is_an_error() {
    let deltas = vec![delta(None, Some("text"))];
    assert_eq!(collect_into_chat_message(&deltas).unwrap_err(), Error::MissingRole);
    assert_eq!(collect_into_chat_message(&Vec::new()).unwrap_err(), Error::MissingRole);
}

#[test]
fn parse_handles_escapes() {
    let m = parse_response_message(
        "{\"role\":\"assistant\",\"message\":\"a\\n\\\"b\\\\c\\t\",\"created\":1,\"id\":\"i\",\"action\":\"a\",\"model\":\"m\"}",
    )
    .expect("escaped characters are part of the format");
    assert_eq!(m.message.as_deref(), Some("a\n\"b\\c\t"));
}

#[test]
fn parse_handles_unicode_escapes() {
    let m = parse_response_message(
        "{\"message\":\"\\u0048\\u00e9\",\"created\":1,\"id\":\"i\",\"action\":\"a\",\"model\":\"m\"}",
    )
    .expect("unicode escapes are part of the format");
    assert_eq!(m.message.as_deref(), Some("H\u{e9}"));
    // a lone surrogate escape is outside the format
    assert_eq!(
        parse_response_message(
            "{\"message\":\"\\ud800\",\"created\":1,\"id\":\"i\",\"action\":\"a\",\"model\":\"m\"}"
        )
        .unwrap_err(),
        Error::InvalidPayload
    );
}

#[test]
fn parse_ignores_unknown_flat_members() {
    let m = parse_response_message(
        "{\"extra\":true,\"other\":null,\"n\":7,\"s\":\"x\",\"created\":2,\"id\":\"i\",\"action\":\"a\",\"model\":\"m\"}",
    )
    .expect("unknown flat members are ignored");
    assert_eq!(m.created, 2);
    assert!(m.role.is_none());
}

#[test]
fn parse_keeps_last_repeated_member() {
    let m = parse_response_message(
        "{\"message\":\"old\",\"message\":\"new\",\"created\":1,\"id\":\"i\",\"action\":\"a\",\"model\":\"m\"}",
    )
    .expect("a repeated member keeps its last value");
    assert_eq!(m.message.as_deref(), Some("new"));
}

#[test]
fn parse_rejects_nested_values() {
    assert_eq!(
        parse_response_message(
            "{\"extra\":{\"nested\":1},\"created\":1,\"id\":\"i\",\"action\":\"a\",\"model\":\"m\"}"
        )
        .unwrap_err(),
        Error::InvalidPayload
    );
    assert_eq!(
        parse_response_message(
            "{\"extra\":[1],\"created\":1,\"id\":\"i\",\"action\":\"a\",\"model\":\"m\"}"
        )
        .unwrap_err(),
        Error::InvalidPayload
    );
}

#[test]
fn parse_accepts_whitespace_between_tokens() {
    let m = parse_response_message(
        " { \"role\" : \"assistant\" ,\n\t\"created\" : 3 , \"id\" : \"i\" , \"action\" : \"a\" , \"model\" : \"m\" } ",
    )
    .expect("blank space between tokens is part of the format");
    assert_eq!(m.role.as_deref(), Some("assistant"));
    assert_eq!(m.created, 3);
}
