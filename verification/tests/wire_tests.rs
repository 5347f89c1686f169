use agent_bridge::errors::BridgeError;
use agent_bridge::wire::encode_request;
use agent_bridge::wire::parse_wire_response;
use agent_bridge::wire::ClaudeAgentRequest;
use agent_bridge::wire::Message;

fn msg(role: &str, content: &str) -> Message {
    Message { role: String::from(role), content: String::from(content) }
}

#[test]
fn encode_request_full_frame() {
    let req = ClaudeAgentRequest {
        messages: vec![msg("user", "hi")],
        custom_key: None,
        cwd: Some(String::from("/w")),
        model: Some(String::from("m1")),
    };
    assert_eq!(
        encode_request(&req),
        "{\"messages\":[{\"role\":\"user\",\"content\":\"hi\"}],\"custom_key\":null,\"cwd\":\"/w\",\"model\":\"m1\"}"
    );
}

#[test]
fn encode_request_several_messages_and_key() {
    let req = ClaudeAgentRequest {
        messages: vec![msg("system", "s"), msg("user", "u")],
        custom_key: Some(String::from("sk")),
        cwd: None,
        model: None,
    };
    assert_eq!(
        encode_request(&req),
        "{\"messages\":[{\"role\":\"system\",\"content\":\"s\"},{\"role\":\"user\",\"content\":\"u\"}],\"custom_key\":\"sk\",\"cwd\":null,\"model\":null}"
    );
}

#[test]
fn encode_request_escapes_content() {
    let req = ClaudeAgentRequest {
        messages: vec![msg("user", "a\"b\\c\nd\te\u{1}")],
        custom_key: None,
        cwd: None,
        model: None,
    };
    assert_eq!(
        encode_request(&req),
        "{\"messages\":[{\"role\":\"user\",\"content\":\"a\\\"b\\\\c\\nd\\te\\u0001\"}],\"custom_key\":null,\"cwd\":null,\"model\":null}"
    );
}

#[test]
fn parse_plain_response() {
    let resp = parse_wire_response("{\"output\":\"ok\"}").unwrap();
    assert_eq!(resp.output, "ok");
    assert_eq!(resp.error, None);
}

#[test]
fn parse_response_with_whitespace_and_reordered_members() {
    let resp = parse_wire_response(" { \"error\" : null , \"output\" : \"x\" } ").unwrap();
    assert_eq!(resp.output, "x");
    assert_eq!(resp.error, None);
}

#[test]
fn parse_response_with_error_member() {
    let resp = parse_wire_response("{\"output\":\"\",\"error\":\"boom\"}").unwrap();
    assert_eq!(resp.output, "");
    assert_eq!(resp.error, Some(String::from("boom")));
}

#[test]
fn parse_decodes_escapes_and_surrogate_pairs() {
    let resp = parse_wire_response("{\"output\":\"a\\u0041\\uD83D\\uDE00\\n\\\"\"}").unwrap();
    assert_eq!(resp.output, "aA😀\n\"");
}

#[test]
fn parse_rejects_invalid_wire_format() {
    let bad = [
        "",
        "{}",
        "[1]",
        "{\"output\":5}",
        "{\"output\":null}",
        "{\"output\":\"a\"",
        "{\"output\":\"a\",\"extra\":\"b\"}",
        "{\"error\":\"only\"}",
        "{\"output\":\"a\"} x",
        "{\"output\":\"a\",\"output\":\"b\"}",
        "{\"error\":null,\"error\":null}",
        "{\"output\":\"bad\\q\"}",
        "{\"output\":\"lone\\uD800pair\"}",
    ];
    for s in bad {
        assert_eq!(parse_wire_response(s), Err(BridgeError::ParseError), "input: {}", s);
    }
}

#[test]
fn into_result_error_field_takes_precedence() {
    let resp = parse_wire_response("{\"output\":\"text\",\"error\":\"boom\"}").unwrap();
    assert_eq!(resp.into_result(), Err(BridgeError::RemoteError(String::from("boom"))));
    let ok = parse_wire_response("{\"output\":\"text\"}").unwrap();
    assert_eq!(ok.into_result(), Ok(String::from("text")));
}

#[test]
fn error_messages_name_the_failure() {
    assert_eq!(BridgeError::NotRegistered.message(), "bridge is not registered");
    assert_eq!(
        BridgeError::BridgeRejected(String::from("why")).message(),
        "bridge promise rejected: why"
    );
    assert_eq!(BridgeError::RemoteError(String::from("oops")).message(), "oops");
    assert_eq!(BridgeError::ChannelClosed.message(), "bridge channel closed");
}
