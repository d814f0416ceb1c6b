use elnet::escape::{escape_byte_into, escape_into};
use elnet::gateway::{
    conclude, interpret, is_success, reply_from, reply_from_read, request_body, Exchange,
    GatewayConfig, LlmFailure,
};
use elnet::response::{
    field, find_in_candidate, find_in_candidates, find_in_content, find_in_part, find_in_parts,
    find_in_response, Found,
};
use serde_json::Value;

fn json(text: &str) -> Value {
    serde_json::from_str::<Value>(text).unwrap()
}

fn prompt_in(body: &[u8]) -> String {
    let doc = serde_json::from_slice::<Value>(body).unwrap();
    let contents = doc.get("contents").unwrap().as_array().unwrap();
    assert_eq!(contents.len(), 1);
    let parts = contents[0].get("parts").unwrap().as_array().unwrap();
    assert_eq!(parts.len(), 1);
    parts[0].get("text").unwrap().as_str().unwrap().to_string()
}

#[test]
fn request_body_is_the_documented_envelope() {
    assert_eq!(
        request_body("hello"),
        b"{\"contents\":[{\"parts\":[{\"text\":\"hello\"}]}]}".to_vec()
    );
    assert_eq!(request_body(""), b"{\"contents\":[{\"parts\":[{\"text\":\"\"}]}]}".to_vec());
}

#[test]
fn quote_and_newline_survive_the_request_body() {
    let prompt = "she said \"hi\"\nand left";
    let body = request_body(prompt);
    assert_eq!(
        body,
        b"{\"contents\":[{\"parts\":[{\"text\":\"she said \\\"hi\\\"\\nand left\"}]}]}".to_vec()
    );
    assert_eq!(prompt_in(&body), prompt);
}

#[test]
fn every_kind_of_character_survives_the_request_body() {
    let mut prompt = String::new();
    for code in 0u32..0x100 {
        prompt.push(char::from_u32(code).unwrap());
    }
    prompt.push_str("\\\"}]}]} \u{20ac} \u{1f600} \\u0041 \\n");
    assert_eq!(prompt_in(&request_body(&prompt)), prompt);
}

#[test]
fn injection_through_the_prompt_does_not_change_the_envelope() {
    let prompt = "\"}]}],\"admin\":true,\"x\":[{\"y\":[{\"z\":\"";
    let body = request_body(prompt);
    let doc = serde_json::from_slice::<Value>(&body).unwrap();
    assert!(doc.get("admin").is_none());
    assert_eq!(doc.as_object().unwrap().len(), 1);
    assert_eq!(prompt_in(&body), prompt);
}

#[test]
fn escapes_are_written_as_json_writes_them() {
    let mut out = b"x".to_vec();
    escape_into(&mut out, &[0x22, 0x5c, 0x08, 0x0c, 0x0a, 0x0d, 0x09, 0x00, 0x1f, 0x20, 0x7f, 0xc3, 0xa9]);
    let mut expected = b"x\\\"\\\\\\b\\f\\n\\r\\t\\u0000\\u001f \x7f".to_vec();
    expected.extend_from_slice(&[0xc3, 0xa9]);
    assert_eq!(out, expected);
}

#[test]
fn one_byte_is_escaped_in_place() {
    let mut out = Vec::new();
    escape_byte_into(&mut out, 0x1b);
    assert_eq!(out, b"\\u001b".to_vec());
    escape_byte_into(&mut out, b'a');
    assert_eq!(out, b"\\u001ba".to_vec());
    escape_byte_into(&mut out, b'/');
    assert_eq!(out, b"\\u001ba/".to_vec());
}

#[test]
fn hex_digits_are_lower_case() {
    let mut out = Vec::new();
    escape_into(&mut out, &[0x0b, 0x0e, 0x1a, 0x1c, 0x1d, 0x1f, 0x10, 0x19]);
    assert_eq!(out, b"\\u000b\\u000e\\u001a\\u001c\\u001d\\u001f\\u0010\\u0019".to_vec());
}

#[test]
fn request_url_joins_endpoint_and_credential() {
    let config = GatewayConfig::new(
        "https://example.test/v1/generate".to_string(),
        "SECRET-REDACTED".to_string(),
        "some-model".to_string(),
    )
    .unwrap();
    assert_eq!(config.request_url(), "https://example.test/v1/generate?key=SECRET-REDACTED");
    assert_eq!(config.endpoint(), "https://example.test/v1/generate");
    assert_eq!(config.api_key(), "SECRET-REDACTED");
    assert_eq!(config.model(), "some-model");
}

#[test]
fn provider_endpoint_is_built_from_the_model() {
    let config = GatewayConfig::for_model("k".to_string(), "gemini-2.0-flash".to_string()).unwrap();
    assert_eq!(
        config.request_url(),
        "https://generativelanguage.googleapis.com/v1beta/models/gemini-2.0-flash:generateContent?key=k"
    );
    assert_eq!(config.model(), elnet::gateway::DEFAULT_MODEL);
}

#[test]
fn missing_credential_is_refused() {
    let made = GatewayConfig::new("e".to_string(), String::new(), "m".to_string());
    assert_eq!(made.err(), Some(LlmFailure::Unauthenticated));
    let made = GatewayConfig::for_model(String::new(), "m".to_string());
    assert_eq!(made.err(), Some(LlmFailure::Unauthenticated));
}

#[test]
fn success_is_the_two_hundreds() {
    assert!(!is_success(199));
    assert!(is_success(200));
    assert!(is_success(204));
    assert!(is_success(299));
    assert!(!is_success(300));
    assert!(!is_success(404));
    assert!(!is_success(0));
    assert!(!is_success(u16::MAX));
}

#[test]
fn upstream_status_carries_the_code() {
    assert_eq!(interpret(500, "{}"), Err(LlmFailure::UpstreamStatus(500)));
    assert_eq!(interpret(401, "{not json"), Err(LlmFailure::UpstreamStatus(401)));
    assert_eq!(
        interpret(302, "{\"candidates\":[{\"content\":{\"parts\":[{\"text\":\"x\"}]}}]}"),
        Err(LlmFailure::UpstreamStatus(302))
    );
}

#[test]
fn malformed_body_is_classified_not_propagated() {
    assert_eq!(interpret(200, "{not json"), Err(LlmFailure::MalformedResponse));
    assert_eq!(interpret(200, ""), Err(LlmFailure::MalformedResponse));
    assert_eq!(interpret(200, "{\"candidates\":[}"), Err(LlmFailure::MalformedResponse));
    assert_eq!(interpret(200, "{} trailing"), Err(LlmFailure::MalformedResponse));
}

#[test]
fn body_that_is_no_response_at_all_is_malformed() {
    assert_eq!(interpret(200, "42"), Err(LlmFailure::MalformedResponse));
    assert_eq!(interpret(200, "\"text\""), Err(LlmFailure::MalformedResponse));
    assert_eq!(interpret(200, "null"), Err(LlmFailure::MalformedResponse));
    assert_eq!(interpret(200, "[]"), Err(LlmFailure::MalformedResponse));
    assert_eq!(interpret(200, "{\"candidates\":5}"), Err(LlmFailure::MalformedResponse));
    assert_eq!(interpret(200, "{\"candidates\":[7]}"), Err(LlmFailure::MalformedResponse));
    assert_eq!(
        interpret(200, "{\"candidates\":[{\"content\":\"x\"}]}"),
        Err(LlmFailure::MalformedResponse)
    );
    assert_eq!(
        interpret(200, "{\"candidates\":[{\"content\":{\"parts\":{}}}]}"),
        Err(LlmFailure::MalformedResponse)
    );
    assert_eq!(
        interpret(200, "{\"candidates\":[{\"content\":{\"parts\":[{\"text\":5}]}}]}"),
        Err(LlmFailure::MalformedResponse)
    );
    assert_eq!(
        interpret(200, "{\"candidates\":[{\"content\":{\"parts\":[{\"text\":\"a\"}]}},3]}"),
        Err(LlmFailure::MalformedResponse)
    );
    assert_eq!(
        interpret(200, "{\"candidates\":[{\"content\":{\"parts\":[{\"text\":\"a\"},[]]}}]}"),
        Err(LlmFailure::MalformedResponse)
    );
}

#[test]
fn first_candidates_first_part_is_the_reply() {
    let body = "{\"candidates\":[{\"content\":{\"parts\":[{\"text\":\"Paris.\"},{\"text\":\"no\"}],\"role\":\"model\"},\"finishReason\":\"STOP\"},{\"content\":{\"parts\":[{\"text\":\"other\"}]}}],\"usageMetadata\":{\"totalTokenCount\":7}}";
    assert_eq!(interpret(200, body), Ok("Paris.".to_string()));
    assert_eq!(interpret(201, body), Ok("Paris.".to_string()));
}

#[test]
fn reply_text_is_unescaped_by_the_reader() {
    let body = "{\"candidates\":[{\"content\":{\"parts\":[{\"text\":\"a\\n\\\"b\\\" \\u00e9\"}]}}]}";
    assert_eq!(interpret(200, body), Ok("a\n\"b\" \u{e9}".to_string()));
}

#[test]
fn missing_fields_give_the_placeholder() {
    for body in [
        "{}",
        "{\"other\":1}",
        "{\"candidates\":null}",
        "{\"candidates\":[]}",
        "{\"candidates\":[{}]}",
        "{\"candidates\":[{\"content\":null}]}",
        "{\"candidates\":[{\"content\":{}}]}",
        "{\"candidates\":[{\"content\":{\"parts\":null}}]}",
        "{\"candidates\":[{\"content\":{\"parts\":[]}}]}",
        "{\"candidates\":[{\"content\":{\"parts\":[{}]}}]}",
        "{\"candidates\":[{\"content\":{\"parts\":[{\"text\":null}]}}]}",
        "{\"candidates\":[{\"content\":{\"parts\":[{},{\"text\":\"second\"}]}}]}",
        "{\"candidates\":[{},{\"content\":{\"parts\":[{\"text\":\"second\"}]}}]}",
    ] {
        assert_eq!(interpret(200, body), Ok("no response produced".to_string()), "{}", body);
    }
}

#[test]
fn unreachable_endpoint_is_a_transport_failure() {
    assert_eq!(conclude(&Exchange::Unreachable), Err(LlmFailure::Transport));
}

#[test]
fn answered_exchange_is_interpreted() {
    let good = Exchange::Answered {
        status: 200,
        body: "{\"candidates\":[{\"content\":{\"parts\":[{\"text\":\"ok\"}]}}]}".to_string(),
    };
    assert_eq!(conclude(&good), Ok("ok".to_string()));
    let bad = Exchange::Answered { status: 429, body: "slow down".to_string() };
    assert_eq!(conclude(&bad), Err(LlmFailure::UpstreamStatus(429)));
    let garbled = Exchange::Answered { status: 200, body: "{not json".to_string() };
    assert_eq!(conclude(&garbled), Err(LlmFailure::MalformedResponse));
}

#[test]
fn reply_is_read_from_a_document() {
    assert_eq!(
        reply_from(&json("{\"candidates\":[{\"content\":{\"parts\":[{\"text\":\"t\"}]}}]}")),
        Ok("t".to_string())
    );
    assert_eq!(reply_from(&json("{}")), Ok("no response produced".to_string()));
    assert_eq!(reply_from(&json("[1]")), Err(LlmFailure::MalformedResponse));
    assert_eq!(reply_from(&Value::Null), Err(LlmFailure::MalformedResponse));
    assert_eq!(
        reply_from_read(serde_json::from_str::<Value>("{\"candidates\":[]}")),
        Ok("no response produced".to_string())
    );
    assert_eq!(
        reply_from_read(serde_json::from_str::<Value>("nope")),
        Err(LlmFailure::MalformedResponse)
    );
}

#[test]
fn field_skips_absent_and_null_members() {
    let doc = json("{\"a\":1,\"b\":null,\"c\":\"x\"}");
    assert_eq!(field(&doc, "a"), Some(&json("1")));
    assert_eq!(field(&doc, "b"), None);
    assert_eq!(field(&doc, "c"), Some(&Value::String("x".to_string())));
    assert_eq!(field(&doc, "d"), None);
    assert_eq!(field(&json("[1,2]"), "a"), None);
    assert_eq!(field(&json("\"a\""), "a"), None);
}

#[test]
fn each_piece_of_a_response_is_searched() {
    assert_eq!(find_in_part(&json("{\"text\":\"t\"}")), Found::Text("t".to_string()));
    assert_eq!(find_in_part(&json("{}")), Found::Nothing);
    assert_eq!(find_in_part(&json("{\"text\":true}")), Found::Misfit);
    assert_eq!(find_in_part(&json("\"t\"")), Found::Misfit);

    assert_eq!(find_in_parts(&Vec::new()), Found::Nothing);
    assert_eq!(
        find_in_parts(&vec![json("{\"text\":\"a\"}"), json("{\"text\":\"b\"}")]),
        Found::Text("a".to_string())
    );
    assert_eq!(find_in_parts(&vec![json("{}"), json("{\"text\":\"b\"}")]), Found::Nothing);
    assert_eq!(find_in_parts(&vec![json("{\"text\":\"a\"}"), json("1")]), Found::Misfit);

    assert_eq!(
        find_in_content(&json("{\"parts\":[{\"text\":\"c\"}],\"role\":\"model\"}")),
        Found::Text("c".to_string())
    );
    assert_eq!(find_in_content(&json("{\"role\":\"model\"}")), Found::Nothing);
    assert_eq!(find_in_content(&json("{\"parts\":\"x\"}")), Found::Misfit);
    assert_eq!(find_in_content(&json("[]")), Found::Misfit);

    assert_eq!(
        find_in_candidate(&json("{\"content\":{\"parts\":[{\"text\":\"d\"}]}}")),
        Found::Text("d".to_string())
    );
    assert_eq!(find_in_candidate(&json("{}")), Found::Nothing);
    assert_eq!(find_in_candidate(&json("{\"content\":[]}")), Found::Misfit);
    assert_eq!(find_in_candidate(&json("0")), Found::Misfit);

    assert_eq!(find_in_candidates(&Vec::new()), Found::Nothing);
    assert_eq!(
        find_in_candidates(&vec![json("{\"content\":{\"parts\":[{\"text\":\"e\"}]}}"), json("{}")]),
        Found::Text("e".to_string())
    );
    assert_eq!(find_in_candidates(&vec![json("{}"), json("false")]), Found::Misfit);

    assert_eq!(
        find_in_response(&json("{\"candidates\":[{\"content\":{\"parts\":[{\"text\":\"f\"}]}}]}")),
        Found::Text("f".to_string())
    );
    assert_eq!(find_in_response(&json("{}")), Found::Nothing);
    assert_eq!(find_in_response(&json("{\"candidates\":{}}")), Found::Misfit);
    assert_eq!(find_in_response(&json("[]")), Found::Misfit);
}
