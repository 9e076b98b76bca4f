use agent_pipeline::agent::{BasicAgent, Message};
use agent_pipeline::protocol::{
    build_conversation, build_task_prompt, decode_site_urls, next_request_step, ReplyOutcome,
    RequestStep, TaskError, MAX_DECODE_ATTEMPTS,
};

/// Runs the protocol over scripted replies, as a driver would.
fn settle(replies: Vec<ReplyOutcome<u32>>) -> Option<Result<u32, TaskError>> {
    let mut attempt: u32 = 0;
    for reply in replies {
        match next_request_step(attempt, reply) {
            RequestStep::Retry => attempt += 1,
            RequestStep::Done(v) => return Some(Ok(v)),
            RequestStep::Failed(e) => return Some(Err(e)),
        }
    }
    None
}

#[test]
fn malformed_then_good_reply_decodes() {
    let r = settle(vec![ReplyOutcome::Malformed, ReplyOutcome::Decoded(7)]);
    assert_eq!(r, Some(Ok(7)));
}

#[test]
fn exhausted_decoding_is_not_a_transport_error() {
    let replies = (0..MAX_DECODE_ATTEMPTS).map(|_| ReplyOutcome::Malformed).collect();
    assert_eq!(settle(replies), Some(Err(TaskError::DecodeExhausted)));
    assert_eq!(settle(vec![ReplyOutcome::TransportFailed]), Some(Err(TaskError::Transport)));
    assert_ne!(TaskError::DecodeExhausted, TaskError::Transport);
}

#[test]
fn last_attempt_fails_on_malformed_reply() {
    assert!(matches!(
        next_request_step::<u32>(MAX_DECODE_ATTEMPTS - 1, ReplyOutcome::Malformed),
        RequestStep::Failed(TaskError::DecodeExhausted)
    ));
    assert!(matches!(next_request_step::<u32>(0, ReplyOutcome::Malformed), RequestStep::Retry));
}

#[test]
fn prompt_holds_role_signature_and_input() {
    let p = build_task_prompt("a shop", "Solution Architect", "fn scope(d: &str) -> Scope");
    assert_eq!(
        p,
        "ROLE: Solution Architect\nFUNCTION: fn scope(d: &str) -> Scope\nINPUT: a shop\n\
         Print only what the function returns for this input, with no commentary."
    );
}

#[test]
fn conversation_appends_prompt_to_memory() {
    let mut agent = BasicAgent::new("goal".to_string(), "Tester".to_string());
    agent.remember(Message::new("assistant", "earlier".to_string()));
    let c = build_conversation(agent.get_memory(), "now".to_string());
    assert_eq!(c.len(), 2);
    assert_eq!(c[0].role, "assistant");
    assert_eq!(c[0].content, "earlier");
    assert_eq!(c[1].role, "user");
    assert_eq!(c[1].content, "now");
}

#[test]
fn decodes_json_url_list() {
    match decode_site_urls("[\"https://a.test\", \"https://b.test\"]") {
        ReplyOutcome::Decoded(v) => assert_eq!(v, vec!["https://a.test", "https://b.test"]),
        _ => panic!("expected a decoded list"),
    }
}

#[test]
fn rejects_non_list_reply() {
    assert!(matches!(decode_site_urls("Here are some urls: a.test"), ReplyOutcome::Malformed));
    assert!(matches!(decode_site_urls("[1, 2]"), ReplyOutcome::Malformed));
}
