use jupyter_client::client::error::JupyterApiError;
use jupyter_client::client::kernel::compose;
use jupyter_client::client::kernel::types::Header;
use jupyter_client::client::kernel::types::KernelResponse;
use jupyter_client::client::kernel::types::MessageType;
use jupyter_client::client::kernel::types::Metadata;
use jupyter_client::client::kernel::types::ParentHeader;
use jupyter_client::client::kernel::CompositeKernelResponses;
use jupyter_client::client::kernel::WaitResult;
use jupyter_client::client::kernel::WaitResultAndDisplayData;
use jupyter_client::client::kernel::WaitResultResponse;
use jupyter_client::client::kernel::DEFAULT_WAIT_SUCCESSION_RESULT_MILLI_SEC;

fn message(kind: MessageType, id: &str) -> KernelResponse {
    KernelResponse {
        header: Header {
            username: "kernel".to_string(),
            session: "s".to_string(),
            msg_type: kind,
            version: "5.3".to_string(),
            msg_id: id.to_string(),
            date: "2024-01-01T00:00:00Z".to_string(),
        },
        msg_id: id.to_string(),
        msg_type: kind,
        parent_header: ParentHeader {
            username: "jupyter-api-client-rs".to_string(),
            session: "s".to_string(),
            msg_type: MessageType::ExecuteRequest,
            version: "5.0".to_string(),
            msg_id: "request".to_string(),
        },
        metadata: Metadata {},
        content: None,
        buffers: vec![],
        channel: "iopub".to_string(),
    }
}

fn settle(policy: WaitResultAndDisplayData) -> Result<CompositeKernelResponses, JupyterApiError> {
    compose(policy.latest_result())
}

fn ids(answer: &CompositeKernelResponses) -> Vec<String> {
    match answer {
        CompositeKernelResponses::SingleResponse(m) => vec![m.msg_id.clone()],
        CompositeKernelResponses::MultipleResponse(ms) => {
            ms.iter().map(|m| m.msg_id.clone()).collect()
        }
    }
}

fn asks_to_wait(answer: Option<WaitResultResponse>) -> bool {
    matches!(
        answer,
        Some(WaitResultResponse::WaitSuccession(DEFAULT_WAIT_SUCCESSION_RESULT_MILLI_SEC))
    )
}

#[test]
fn default_window_is_a_tenth_of_a_second() {
    assert_eq!(DEFAULT_WAIT_SUCCESSION_RESULT_MILLI_SEC, 100);
    let mut policy = WaitResultAndDisplayData::with_window(250);
    let answer = policy.check(message(MessageType::Stream, "a"));
    assert!(matches!(answer, Some(WaitResultResponse::WaitSuccession(250))));
}

#[test]
fn nothing_remembered_is_no_response() {
    let policy = WaitResultAndDisplayData::default();
    assert!(matches!(settle(policy), Err(JupyterApiError::KernelResponseTimeout)));
}

#[test]
fn irrelevant_kinds_are_ignored() {
    let mut policy = WaitResultAndDisplayData::default();
    for kind in [
        MessageType::Status,
        MessageType::ExecuteInput,
        MessageType::KernelInfoRequest,
        MessageType::KernelInfoReply,
        MessageType::ExecuteRequest,
    ] {
        assert!(policy.check(message(kind, "x")).is_none());
    }
    assert!(matches!(settle(policy), Err(JupyterApiError::KernelResponseTimeout)));
}

#[test]
fn single_execute_result_is_single_response() {
    let mut policy = WaitResultAndDisplayData::default();
    assert!(policy.check(message(MessageType::Status, "busy")).is_none());
    assert!(policy.check(message(MessageType::ExecuteInput, "echo")).is_none());
    assert!(asks_to_wait(policy.check(message(MessageType::ExecuteResult, "value"))));
    assert!(asks_to_wait(policy.check(message(MessageType::ExecuteReply, "done"))));
    assert!(policy.check(message(MessageType::Status, "idle")).is_none());
    let answer = settle(policy).unwrap();
    assert!(matches!(answer, CompositeKernelResponses::SingleResponse(_)));
    assert_eq!(ids(&answer), vec!["value".to_string()]);
}

#[test]
fn execute_result_overwrites_a_reply() {
    let mut policy = WaitResultAndDisplayData::default();
    assert!(asks_to_wait(policy.check(message(MessageType::ExecuteReply, "done"))));
    assert!(asks_to_wait(policy.check(message(MessageType::ExecuteResult, "value"))));
    let answer = settle(policy).unwrap();
    assert_eq!(ids(&answer), vec!["value".to_string()]);
}

#[test]
fn later_execute_result_overwrites_an_earlier_one() {
    let mut policy = WaitResultAndDisplayData::default();
    policy.check(message(MessageType::ExecuteResult, "first"));
    policy.check(message(MessageType::ExecuteResult, "second"));
    let answer = settle(policy).unwrap();
    assert!(matches!(answer, CompositeKernelResponses::SingleResponse(_)));
    assert_eq!(ids(&answer), vec!["second".to_string()]);
}

#[test]
fn first_reply_is_kept() {
    let mut policy = WaitResultAndDisplayData::default();
    policy.check(message(MessageType::ExecuteReply, "first"));
    policy.check(message(MessageType::ExecuteReply, "second"));
    let answer = settle(policy).unwrap();
    assert_eq!(ids(&answer), vec!["first".to_string()]);
}

#[test]
fn lone_fragment_is_promoted() {
    let mut policy = WaitResultAndDisplayData::default();
    assert!(asks_to_wait(policy.check(message(MessageType::Stream, "a"))));
    let answer = settle(policy).unwrap();
    assert!(matches!(answer, CompositeKernelResponses::SingleResponse(_)));
    assert_eq!(ids(&answer), vec!["a".to_string()]);
}

#[test]
fn reply_then_one_fragment_is_the_fragment() {
    let mut policy = WaitResultAndDisplayData::default();
    policy.check(message(MessageType::ExecuteReply, "done"));
    policy.check(message(MessageType::Stream, "a"));
    let answer = settle(policy).unwrap();
    assert!(matches!(answer, CompositeKernelResponses::SingleResponse(_)));
    assert_eq!(ids(&answer), vec!["a".to_string()]);
}

#[test]
fn result_and_one_fragment_are_both_kept() {
    let mut policy = WaitResultAndDisplayData::default();
    policy.check(message(MessageType::ExecuteResult, "value"));
    policy.check(message(MessageType::Stream, "a"));
    let answer = settle(policy).unwrap();
    assert!(matches!(answer, CompositeKernelResponses::MultipleResponse(_)));
    assert_eq!(ids(&answer), vec!["a".to_string(), "value".to_string()]);
}

#[test]
fn two_fragments_then_reply_are_multiple_responses() {
    let mut policy = WaitResultAndDisplayData::default();
    assert!(asks_to_wait(policy.check(message(MessageType::Stream, "a"))));
    assert!(asks_to_wait(policy.check(message(MessageType::Stream, "b"))));
    assert!(asks_to_wait(policy.check(message(MessageType::ExecuteReply, "reply"))));
    let answer = settle(policy).unwrap();
    assert!(matches!(answer, CompositeKernelResponses::MultipleResponse(_)));
    assert_eq!(ids(&answer), vec!["a".to_string(), "b".to_string(), "reply".to_string()]);
}

#[test]
fn fragments_without_result_are_multiple_responses() {
    let mut policy = WaitResultAndDisplayData::default();
    policy.check(message(MessageType::Stream, "a"));
    policy.check(message(MessageType::Stream, "b"));
    policy.check(message(MessageType::Stream, "c"));
    let answer = settle(policy).unwrap();
    assert_eq!(ids(&answer), vec!["a".to_string(), "b".to_string(), "c".to_string()]);
}

#[test]
fn error_is_the_answer_at_once() {
    let mut policy = WaitResultAndDisplayData::default();
    policy.check(message(MessageType::Stream, "a"));
    policy.check(message(MessageType::ExecuteResult, "value"));
    let answer = policy.check(message(MessageType::Error, "boom"));
    match answer {
        Some(WaitResultResponse::KernelResponse(m)) => {
            assert_eq!(m.msg_id, "boom");
            assert_eq!(m.msg_type, MessageType::Error);
        }
        _ => panic!("an error must be the answer"),
    }
}

#[test]
fn display_data_is_the_answer_at_once() {
    let mut policy = WaitResultAndDisplayData::default();
    let answer = policy.check(message(MessageType::DisplayData, "plot"));
    match answer {
        Some(WaitResultResponse::KernelResponse(m)) => assert_eq!(m.msg_id, "plot"),
        _ => panic!("display data must be the answer"),
    }
}

#[test]
fn compose_puts_the_single_result_last() {
    let answer = compose((
        Some(message(MessageType::ExecuteResult, "value")),
        Some(vec![message(MessageType::Stream, "a"), message(MessageType::Stream, "b")]),
    ))
    .unwrap();
    assert_eq!(ids(&answer), vec!["a".to_string(), "b".to_string(), "value".to_string()]);
    let answer = compose((None, Some(vec![message(MessageType::Stream, "a")]))).unwrap();
    assert!(matches!(answer, CompositeKernelResponses::MultipleResponse(_)));
    let answer = compose((Some(message(MessageType::ExecuteReply, "r")), None)).unwrap();
    assert!(matches!(answer, CompositeKernelResponses::SingleResponse(_)));
    assert!(matches!(compose((None, None)), Err(JupyterApiError::KernelResponseTimeout)));
}
