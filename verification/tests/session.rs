use jupyter_client::client::error::JupyterApiError;
use jupyter_client::client::kernel::session::opening_frames;
use jupyter_client::client::kernel::session::Execution;
use jupyter_client::client::kernel::session::Frame;
use jupyter_client::client::kernel::session::Progress;
use jupyter_client::client::kernel::session::DEFAULT_TIMEOUT_SEC;
use jupyter_client::client::kernel::types::Content;
use jupyter_client::client::kernel::types::KernelCodeRequest;
use jupyter_client::client::kernel::types::KernelRequestHeader;
use jupyter_client::client::kernel::types::KernelResponse;
use jupyter_client::client::kernel::types::MessageType;
use jupyter_client::client::kernel::CompositeKernelResponses;
use jupyter_client::client::kernel::KernelApiClient;
use jupyter_client::client::kernel::WaitResultAndDisplayData;
use jupyter_client::client::types::Data;
use jupyter_client::client::types::Kernel;

type Running = Execution<WaitResultAndDisplayData>;

fn frame_of(kind: &str, id: &str, parent: &str, content: &str) -> Frame {
    Frame::Text(format!(
        "{{\"header\":{{\"username\":\"kernel\",\"session\":\"s1\",\"msg_type\":\"{kind}\",\
         \"version\":\"5.3\",\"msg_id\":\"{id}\",\"date\":\"2024-01-01T00:00:00Z\"}},\
         \"msg_id\":\"{id}\",\"msg_type\":\"{kind}\",\
         \"parent_header\":{{\"username\":\"u\",\"session\":\"s0\",\
         \"msg_type\":\"execute_request\",\"version\":\"5.0\",\"msg_id\":\"{parent}\"}},\
         \"metadata\":{{}},\"content\":{content},\"buffers\":[],\"channel\":\"iopub\"}}"
    ))
}

fn start(now: u64, timeout: Option<u64>) -> Running {
    Execution::start(WaitResultAndDisplayData::default(), "r1".to_string(), now, timeout)
}

fn pending(progress: Progress<WaitResultAndDisplayData>) -> (Running, Option<Frame>) {
    match progress {
        Progress::Pending { execution, reply } => (execution, reply),
        Progress::Finished(r) => panic!("finished too early: {r:?}"),
    }
}

fn finished(
    progress: Progress<WaitResultAndDisplayData>,
) -> Result<CompositeKernelResponses, JupyterApiError> {
    match progress {
        Progress::Finished(r) => r,
        Progress::Pending { .. } => panic!("still pending"),
    }
}

fn go_on(execution: Running, now: u64, frame: Frame) -> Running {
    let (execution, reply) = pending(execution.on_frame(now, frame));
    assert!(reply.is_none());
    execution
}

fn message_ids(answer: &CompositeKernelResponses) -> Vec<String> {
    match answer {
        CompositeKernelResponses::SingleResponse(m) => vec![m.msg_id.clone()],
        CompositeKernelResponses::MultipleResponse(ms) => {
            ms.iter().map(|m| m.msg_id.clone()).collect()
        }
    }
}

#[test]
fn run_cmd() {
    let kernel = Kernel { id: "k1".to_string(), name: "rust".to_string(), ..Kernel::default() };
    let client = kernel.kernel_client("localhost:9990", false);
    let request = KernelCodeRequest::from("12 * 32");
    let (execution, frames) = client.run_code(&request, 1_000, None).unwrap();
    assert_eq!(frames.len(), 2);
    assert_eq!(frames[0], Frame::Ping(b"ping".to_vec()));
    assert_eq!(frames[1], Frame::Text(request.to_json().unwrap()));
    let id = request.header().message_id().clone();
    let execution = go_on(execution, 1_010, frame_of("status", "m0", &id, "{\"execution_state\":\"busy\"}"));
    let execution = go_on(
        execution,
        1_020,
        frame_of(
            "execute_result",
            "m1",
            &id,
            "{\"execution_count\":1,\"data\":{\"text/plain\":\"384\"},\"metadata\":{}}",
        ),
    );
    assert_eq!(execution.settle_at(), Some(1_120));
    let (execution, _) = pending(execution.on_tick(1_119));
    let resp = finished(execution.on_tick(1_120)).unwrap();
    let message = match resp {
        CompositeKernelResponses::SingleResponse(m) => m,
        other => panic!("{other:?}"),
    };
    let contents = message.as_content().unwrap();
    if let Some(Content::ExecuteResultContent(content)) = contents {
        let expected = Data { text_plain: Some("384".to_string()), image_png: None };
        assert_eq!(content.data, expected);
    } else {
        assert!(false);
    }
}

#[test]
fn two_fragments_and_a_reply_are_answered_in_order() {
    let execution = start(0, None);
    let execution = go_on(execution, 10, frame_of("stream", "a", "r1", "{\"name\":\"stdout\",\"text\":\"a\"}"));
    let execution = go_on(execution, 20, frame_of("stream", "b", "r1", "{\"name\":\"stdout\",\"text\":\"b\"}"));
    let execution = go_on(
        execution,
        30,
        frame_of("execute_reply", "reply", "r1", "{\"status\":\"ok\",\"execution_count\":1}"),
    );
    assert_eq!(execution.settle_at(), Some(130));
    let answer = finished(execution.on_tick(130)).unwrap();
    assert!(matches!(answer, CompositeKernelResponses::MultipleResponse(_)));
    assert_eq!(message_ids(&answer), vec!["a".to_string(), "b".to_string(), "reply".to_string()]);
    if let CompositeKernelResponses::MultipleResponse(ms) = answer {
        assert_eq!(ms[0].msg_type, MessageType::Stream);
        assert_eq!(ms[2].msg_type, MessageType::ExecuteReply);
        match ms[1].as_content().unwrap() {
            Some(Content::StreamContent(c)) => assert_eq!(c.text, "b"),
            other => panic!("{other:?}"),
        }
    }
}

#[test]
fn syntax_error_is_answered_without_waiting() {
    let execution = start(0, None);
    let execution = go_on(execution, 5, frame_of("stream", "a", "r1", "{\"name\":\"stderr\",\"text\":\"x\"}"));
    let progress = execution.on_frame(
        6,
        frame_of(
            "error",
            "e",
            "r1",
            "{\"ename\":\"SyntaxError\",\"evalue\":\"bad\",\"traceback\":[]}",
        ),
    );
    let answer = finished(progress).unwrap();
    match answer {
        CompositeKernelResponses::SingleResponse(m) => {
            assert_eq!(m.msg_id, "e");
            assert_eq!(m.msg_type, MessageType::Error);
        }
        other => panic!("{other:?}"),
    }
}

#[test]
fn display_data_is_answered_without_waiting() {
    let execution = start(0, None);
    let progress = execution.on_frame(
        6,
        frame_of("display_data", "d", "r1", "{\"data\":{\"image/png\":\"AAAA\"}}"),
    );
    assert_eq!(message_ids(&finished(progress).unwrap()), vec!["d".to_string()]);
}

#[test]
fn reply_then_fragment_is_the_fragment() {
    let execution = start(0, None);
    let execution = go_on(
        execution,
        10,
        frame_of("execute_reply", "reply", "r1", "{\"status\":\"ok\",\"execution_count\":1}"),
    );
    let execution = go_on(execution, 20, frame_of("stream", "a", "r1", "{\"name\":\"stdout\",\"text\":\"a\"}"));
    let answer = finished(execution.on_tick(120)).unwrap();
    assert!(matches!(answer, CompositeKernelResponses::SingleResponse(_)));
    assert_eq!(message_ids(&answer), vec!["a".to_string()]);
}

#[test]
fn deadline_without_relevant_message_is_a_timeout() {
    let execution = start(1_000, Some(500));
    assert_eq!(execution.deadline_at(), 1_500);
    assert_eq!(execution.settle_at(), None);
    assert_eq!(execution.wait_millis(1_000), 500);
    let execution = go_on(execution, 1_100, frame_of("status", "m", "r1", "{\"execution_state\":\"busy\"}"));
    let execution = go_on(execution, 1_200, frame_of("execute_input", "m", "r1", "{}"));
    assert_eq!(execution.settle_at(), None);
    let (execution, reply) = pending(execution.on_tick(1_499));
    assert!(reply.is_none());
    assert_eq!(execution.wait_millis(1_499), 1);
    assert_eq!(execution.wait_millis(1_500), 0);
    assert!(matches!(
        finished(execution.on_tick(1_500)),
        Err(JupyterApiError::KernelMessageTimeout)
    ));
}

#[test]
fn default_deadline_is_two_minutes() {
    assert_eq!(DEFAULT_TIMEOUT_SEC, 120);
    let execution = start(7, None);
    assert_eq!(execution.deadline_at(), 120_007);
    assert_eq!(execution.request_id(), "r1");
    let execution = Execution::start(
        WaitResultAndDisplayData::default(),
        "r".to_string(),
        u64::MAX - 5,
        Some(10),
    );
    assert_eq!(execution.deadline_at(), u64::MAX);
}

#[test]
fn deadline_ends_an_accumulating_execution() {
    let execution = start(0, Some(50));
    let execution = go_on(execution, 10, frame_of("stream", "a", "r1", "{}"));
    assert_eq!(execution.settle_at(), Some(110));
    assert_eq!(execution.wait_millis(10), 40);
    assert!(matches!(
        finished(execution.on_tick(60)),
        Err(JupyterApiError::KernelMessageTimeout)
    ));
}

#[test]
fn idle_window_that_passed_first_is_served_first() {
    let execution = start(0, Some(1_000));
    let execution = go_on(execution, 850, frame_of("stream", "a", "r1", "{}"));
    assert_eq!(execution.settle_at(), Some(950));
    assert_eq!(execution.wait_millis(900), 50);
    let answer = finished(execution.on_tick(2_000)).unwrap();
    assert_eq!(message_ids(&answer), vec!["a".to_string()]);
    let execution = start(0, Some(1_000));
    let execution = go_on(execution, 900, frame_of("stream", "a", "r1", "{}"));
    assert_eq!(execution.settle_at(), Some(1_000));
    assert!(matches!(
        finished(execution.on_tick(1_000)),
        Err(JupyterApiError::KernelMessageTimeout)
    ));
}

#[test]
fn every_relevant_message_rearms_the_idle_window() {
    let execution = start(0, None);
    let execution = go_on(execution, 10, frame_of("stream", "a", "r1", "{}"));
    assert_eq!(execution.settle_at(), Some(110));
    let execution = go_on(execution, 100, frame_of("stream", "b", "r1", "{}"));
    assert_eq!(execution.settle_at(), Some(200));
    let execution = go_on(execution, 150, frame_of("status", "s", "r1", "{}"));
    assert_eq!(execution.settle_at(), Some(200));
    let (execution, _) = pending(execution.on_tick(199));
    let answer = finished(execution.on_tick(200)).unwrap();
    assert_eq!(message_ids(&answer), vec!["a".to_string(), "b".to_string()]);
}

#[test]
fn probe_is_answered_and_changes_nothing() {
    let execution = start(0, Some(1_000));
    let execution = go_on(execution, 10, frame_of("stream", "a", "r1", "{}"));
    let (execution, reply) = pending(execution.on_frame(50, Frame::Ping(vec![1, 2, 3])));
    assert_eq!(reply, Some(Frame::Pong(vec![1, 2, 3])));
    assert_eq!(execution.settle_at(), Some(110));
    assert_eq!(execution.deadline_at(), 1_000);
    let answer = finished(execution.on_tick(110)).unwrap();
    assert_eq!(message_ids(&answer), vec!["a".to_string()]);
    let (execution, reply) = pending(start(0, None).on_frame(5, Frame::Ping(vec![])));
    assert_eq!(reply, Some(Frame::Pong(vec![])));
    assert_eq!(execution.settle_at(), None);
}

#[test]
fn other_frames_are_discarded() {
    let execution = start(0, None);
    let execution = go_on(execution, 1, Frame::Pong(vec![9]));
    let execution = go_on(execution, 2, Frame::Binary(vec![1, 2]));
    let execution = go_on(execution, 3, Frame::Other);
    assert_eq!(execution.settle_at(), None);
    assert_eq!(execution.deadline_at(), 120_000);
}

#[test]
fn close_frame_ends_the_execution() {
    let execution = go_on(start(0, None), 1, frame_of("stream", "a", "r1", "{}"));
    assert!(matches!(
        finished(execution.on_frame(2, Frame::Close)),
        Err(JupyterApiError::KernelConnectionClosed)
    ));
}

#[test]
fn malformed_frame_ends_the_execution() {
    let execution = go_on(start(0, None), 1, frame_of("stream", "a", "r1", "{}"));
    assert!(matches!(
        finished(execution.on_frame(2, Frame::Text("{\"header\":".to_string()))),
        Err(JupyterApiError::JsonError(_))
    ));
    assert!(matches!(
        finished(start(0, None).on_frame(2, frame_of("comm_msg", "a", "r1", "{}"))),
        Err(JupyterApiError::JsonError(_))
    ));
}

#[test]
fn receive_failure_ends_the_execution() {
    match finished(start(0, None).on_receive_error("reset by peer".to_string())) {
        Err(JupyterApiError::KernelMessageError(detail)) => assert_eq!(detail, "reset by peer"),
        other => panic!("{other:?}"),
    }
}

#[test]
fn answers_to_other_requests_are_not_taken_in() {
    let execution = start(0, None);
    let execution = go_on(execution, 1, frame_of("execute_result", "x", "other", "{}"));
    assert_eq!(execution.settle_at(), None);
    let execution = go_on(execution, 2, frame_of("error", "y", "other", "{}"));
    let execution = go_on(execution, 3, frame_of("execute_result", "mine", "r1", "{}"));
    let answer = finished(execution.on_tick(103)).unwrap();
    assert_eq!(message_ids(&answer), vec!["mine".to_string()]);
}

#[test]
fn decoded_message_can_be_handed_in() {
    let text = match frame_of("execute_result", "v", "r1", "{}") {
        Frame::Text(text) => text,
        _ => unreachable!(),
    };
    let message = KernelResponse::decode(&text).unwrap();
    let (execution, reply) = pending(start(0, None).on_message(40, message));
    assert!(reply.is_none());
    assert_eq!(execution.settle_at(), Some(140));
}

#[test]
fn idle_window_saturates_at_the_end_of_time() {
    let execution = Execution::start(
        WaitResultAndDisplayData::with_window(u64::MAX),
        "r1".to_string(),
        0,
        Some(u64::MAX),
    );
    let execution = go_on(execution, 10, frame_of("stream", "a", "r1", "{}"));
    assert_eq!(execution.settle_at(), Some(u64::MAX));
    assert_eq!(execution.deadline_at(), u64::MAX);
    assert_eq!(execution.wait_millis(10), u64::MAX - 10);
}

#[test]
fn opening_frames_are_probe_then_request() {
    let frames = opening_frames("{}".to_string());
    assert_eq!(frames, vec![Frame::Ping(vec![b'p', b'i', b'n', b'g']), Frame::Text("{}".to_string())]);
}

#[test]
fn begin_refuses_an_address_that_is_no_url() {
    let client = KernelApiClient::new("host with space", "k", false);
    let request = KernelCodeRequest::with_header(
        KernelRequestHeader::with_ids("s".to_string(), "m".to_string()),
        "1".to_string(),
    );
    assert!(matches!(
        client.run_code(&request, 0, None),
        Err(JupyterApiError::UrlParseError(_))
    ));
    let client = KernelApiClient::new("localhost:8888", "k", true);
    let (execution, frames) =
        client.begin(&request, WaitResultAndDisplayData::with_window(5), 3, Some(9)).unwrap();
    assert_eq!(execution.request_id(), "m");
    assert_eq!(execution.deadline_at(), 12);
    assert_eq!(frames.len(), 2);
}

#[test]
fn channel_address_follows_the_pattern() {
    assert_eq!(
        KernelApiClient::new("localhost:8888", "abc-1", false).url(),
        "ws://localhost:8888/api/kernels/abc-1/channels"
    );
    assert_eq!(
        KernelApiClient::new("example.org/jupyter", "k", true).url(),
        "wss://example.org/jupyter/api/kernels/k/channels"
    );
    let kernel = Kernel { id: "k9".to_string(), ..Kernel::default() };
    assert_eq!(kernel.kernel_client("h", true).url(), "wss://h/api/kernels/k9/channels");
}
