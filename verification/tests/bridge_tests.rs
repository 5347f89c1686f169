use agent_bridge::bridge::ClaudeAgentRuntime;
use agent_bridge::bridge::HostExchange;
use agent_bridge::bridge::RegistrySight;
use agent_bridge::bridge::Resolution;
use agent_bridge::bridge::Settlement;
use agent_bridge::errors::BridgeError;
use agent_bridge::wire::ClaudeAgentRequest;
use agent_bridge::wire::Message;

fn request(content: &str) -> ClaudeAgentRequest {
    ClaudeAgentRequest {
        messages: vec![Message {
            role: String::from("user"),
            content: String::from(content),
        }],
        custom_key: None,
        cwd: Some(String::from("/w")),
        model: None,
    }
}

fn exchange(resolution: Resolution, settlement: Option<Settlement>) -> Option<HostExchange> {
    Some(HostExchange { sight: RegistrySight::Present, resolution, settlement })
}

#[test]
fn call_without_runner_fails_without_scheduling() {
    let rt = ClaudeAgentRuntime::new(false, String::from("/w"));
    assert!(!rt.has_runner());
    // Whatever the host side would have answered, it is never consulted.
    let r = rt.run_completion(
        &request("hi"),
        exchange(Resolution::Immediate(String::from("{\"output\":\"ok\"}")), None),
    );
    assert_eq!(r, Err(BridgeError::NotRegistered));
    assert_eq!(rt.plan_call(&request("hi")), Err(BridgeError::NotRegistered));
}

#[test]
fn call_with_immediate_string_response() {
    let rt = ClaudeAgentRuntime::new(true, String::from("/w"));
    let r = rt.run_completion(
        &request("hi"),
        exchange(Resolution::Immediate(String::from("{\"output\":\"ok\"}")), None),
    );
    assert_eq!(r, Ok(String::from("ok")));
}

#[test]
fn call_with_deferred_error_response() {
    let rt = ClaudeAgentRuntime::new(true, String::from("/w"));
    let r = rt.run_completion(
        &request("hi"),
        exchange(
            Resolution::Deferred,
            Some(Settlement::Value(String::from("{\"output\":\"\",\"error\":\"boom\"}"))),
        ),
    );
    assert_eq!(r, Err(BridgeError::RemoteError(String::from("boom"))));
}

#[test]
fn call_with_other_shape_return() {
    let rt = ClaudeAgentRuntime::new(true, String::from("/w"));
    let r = rt.run_completion(&request("hi"), exchange(Resolution::OtherShape, None));
    assert_eq!(r, Err(BridgeError::InvalidResponseShape));
}

#[test]
fn call_with_deferred_non_string_settlement() {
    let rt = ClaudeAgentRuntime::new(true, String::from("/w"));
    let r = rt.run_completion(
        &request("hi"),
        exchange(Resolution::Deferred, Some(Settlement::NonString)),
    );
    assert_eq!(r, Err(BridgeError::InvalidResponseShape));
}

#[test]
fn call_with_rejected_deferred() {
    let rt = ClaudeAgentRuntime::new(true, String::from("/w"));
    let r = rt.run_completion(
        &request("hi"),
        exchange(Resolution::Deferred, Some(Settlement::Rejected(String::from("refused")))),
    );
    assert_eq!(r, Err(BridgeError::BridgeRejected(String::from("refused"))));
}

#[test]
fn call_with_raised_invocation() {
    let rt = ClaudeAgentRuntime::new(true, String::from("/w"));
    let r = rt.run_completion(
        &request("hi"),
        exchange(Resolution::Raised(String::from("threw")), None),
    );
    assert_eq!(r, Err(BridgeError::CallFailed(String::from("threw"))));
}

#[test]
fn call_with_malformed_response_text() {
    let rt = ClaudeAgentRuntime::new(true, String::from("/w"));
    let r = rt.run_completion(
        &request("hi"),
        exchange(Resolution::Immediate(String::from("not json")), None),
    );
    assert_eq!(r, Err(BridgeError::ParseError));
}

#[test]
fn call_with_abandoned_rendezvous() {
    let rt = ClaudeAgentRuntime::new(true, String::from("/w"));
    assert_eq!(rt.run_completion(&request("hi"), None), Err(BridgeError::ChannelClosed));
    let r = rt.run_completion(&request("hi"), exchange(Resolution::Deferred, None));
    assert_eq!(r, Err(BridgeError::ChannelClosed));
}

#[test]
fn call_with_registry_emptied_before_invocation() {
    let rt = ClaudeAgentRuntime::new(true, String::from("/w"));
    for sight in [RegistrySight::Empty, RegistrySight::Poisoned] {
        let r = rt.run_completion(
            &request("hi"),
            Some(HostExchange {
                sight,
                resolution: Resolution::OtherShape,
                settlement: None,
            }),
        );
        assert_eq!(r, Err(BridgeError::NotRegistered));
    }
}

#[test]
fn concurrent_calls_each_get_their_own_result() {
    let rt = ClaudeAgentRuntime::new(true, String::from("/w"));
    let ra = rt.run_completion(
        &request("first question"),
        exchange(Resolution::Immediate(String::from("{\"output\":\"answer A\"}")), None),
    );
    let rb = rt.run_completion(
        &request("second question"),
        exchange(
            Resolution::Deferred,
            Some(Settlement::Value(String::from("{\"output\":\"answer B\"}"))),
        ),
    );
    assert_eq!(ra, Ok(String::from("answer A")));
    assert_eq!(rb, Ok(String::from("answer B")));
}

#[test]
fn plan_call_frames_the_request() {
    let rt = ClaudeAgentRuntime::new(true, String::from("/w"));
    assert_eq!(
        rt.plan_call(&request("hi")).unwrap(),
        "{\"messages\":[{\"role\":\"user\",\"content\":\"hi\"}],\"custom_key\":null,\"cwd\":\"/w\",\"model\":null}"
    );
}

#[test]
fn build_request_trims_and_drops_empty_credential() {
    let rt = ClaudeAgentRuntime::new(true, String::from("/base"));
    let r = rt.build_request(vec![], Some(String::from("  \t\n ")), None);
    assert_eq!(r.custom_key, None);
    assert_eq!(r.cwd, Some(String::from("/base")));
    let r2 = rt.build_request(vec![], Some(String::from("  sk-key  ")), Some(String::from("m")));
    assert_eq!(r2.custom_key, Some(String::from("sk-key")));
    assert_eq!(r2.model, Some(String::from("m")));
    let r3 = rt.build_request(vec![], None, None);
    assert_eq!(r3.custom_key, None);
}

#[test]
fn update_default_cwd_changes_later_requests() {
    let mut rt = ClaudeAgentRuntime::new(true, String::from("/old"));
    rt.update_default_cwd(String::from("/new"));
    let r = rt.build_request(vec![], None, None);
    assert_eq!(r.cwd, Some(String::from("/new")));
}

#[test]
fn build_request_trims_unicode_whitespace() {
    let rt = ClaudeAgentRuntime::new(true, String::from("/w"));
    let r = rt.build_request(vec![], Some(String::from("\u{3000}\u{a0}key\u{2028} ")), None);
    assert_eq!(r.custom_key, Some(String::from("key")));
}
