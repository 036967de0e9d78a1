use jupyter_client::client::error::JupyterApiError;
use jupyter_client::client::json::find_member;
use jupyter_client::client::json::read_integer;
use jupyter_client::client::json::read_items;
use jupyter_client::client::json::read_members;
use jupyter_client::client::json::read_null;
use jupyter_client::client::json::read_text;
use jupyter_client::client::json::read_texts;
use jupyter_client::client::text::same_text;
use jupyter_client::client::kernel::types::frame_header;
use jupyter_client::client::kernel::types::frame_request;
use jupyter_client::client::kernel::types::Content;
use jupyter_client::client::kernel::types::ErrorContent;
use jupyter_client::client::kernel::types::ExecuteReplyContent;
use jupyter_client::client::kernel::types::ExecuteResultContent;
use jupyter_client::client::kernel::types::HeaderLiterals;
use jupyter_client::client::kernel::types::KernelCodeContent;
use jupyter_client::client::kernel::types::KernelCodeRequest;
use jupyter_client::client::kernel::types::KernelRequestHeader;
use jupyter_client::client::kernel::types::KernelResponse;
use jupyter_client::client::kernel::types::MessageType;
use jupyter_client::client::kernel::types::StatusContent;
use jupyter_client::client::kernel::types::StreamContent;
use jupyter_client::client::types::Data;

const ALL_KINDS: [MessageType; 10] = [
    MessageType::KernelInfoRequest,
    MessageType::KernelInfoReply,
    MessageType::ExecuteRequest,
    MessageType::ExecuteInput,
    MessageType::ExecuteReply,
    MessageType::ExecuteResult,
    MessageType::Stream,
    MessageType::DisplayData,
    MessageType::Error,
    MessageType::Status,
];

fn envelope(kind: &str, content: &str) -> String {
    format!(
        "{{\"header\":{{\"username\":\"kernel\",\"session\":\"s1\",\"msg_type\":\"{kind}\",\
         \"version\":\"5.3\",\"msg_id\":\"m1\",\"date\":\"2024-01-01T00:00:00Z\"}},\
         \"msg_id\":\"m1\",\"msg_type\":\"{kind}\",\
         \"parent_header\":{{\"username\":\"jupyter-api-client-rs\",\"session\":\"s0\",\
         \"msg_type\":\"execute_request\",\"version\":\"5.0\",\"msg_id\":\"r1\",\"date\":null}},\
         \"metadata\":{{}},\"content\":{content},\"buffers\":[],\"channel\":\"iopub\"}}"
    )
}

fn decoded(kind: &str, content: &str) -> KernelResponse {
    KernelResponse::decode(&envelope(kind, content)).unwrap()
}

#[test]
fn same_text_compares_characters() {
    assert!(same_text("status", "status"));
    assert!(!same_text("status", "stream"));
    assert!(!same_text("a", "ab"));
    assert!(same_text("", ""));
}

#[test]
fn scalars_are_read_from_their_text() {
    assert_eq!(read_text("\"a\\nb\\u0041\""), Some("a\nbA".to_string()));
    assert_eq!(read_text("12"), None);
    assert_eq!(read_text("\"unterminated"), None);
    assert_eq!(read_integer("-7"), Some(-7));
    assert_eq!(read_integer("9223372036854775807"), Some(i64::MAX));
    assert_eq!(read_integer("9223372036854775808"), None);
    assert_eq!(read_integer("1.5"), None);
    assert_eq!(read_integer("1e2"), None);
    assert_eq!(read_integer("-9223372036854775808"), Some(i64::MIN));
    assert_eq!(read_integer(" 42 "), Some(42));
    assert_eq!(read_integer("042"), None);
    assert_eq!(read_integer("\"1\""), None);
    assert!(read_null(" null "));
    assert!(!read_null("0"));
    assert!(!read_null("nul"));
}

#[test]
fn containers_hand_out_the_text_of_their_parts() {
    let items = read_items("[1, \"two\", [3], {\"k\": null}]").unwrap();
    assert_eq!(items, vec!["1", "\"two\"", "[3]", "{\"k\":null}"]);
    assert_eq!(read_items("{}"), None);
    let members = read_members("{\"b\": [1, 2], \"a\": \"x\"}").unwrap();
    assert_eq!(find_member(&members, "a"), Some("\"x\""));
    assert_eq!(find_member(&members, "b"), Some("[1,2]"));
    assert_eq!(find_member(&members, "c"), None);
    assert_eq!(read_members("[]"), None);
    assert_eq!(read_members("{\"a\": }"), None);
}

#[test]
fn find_member_takes_the_first_of_equal_keys() {
    let members = vec![
        ("k".to_string(), "1".to_string()),
        ("k".to_string(), "2".to_string()),
    ];
    assert_eq!(find_member(&members, "k"), Some("1"));
}

#[test]
fn texts_are_read_all_or_not_at_all() {
    let items = vec!["\"a\"".to_string(), "\"b\"".to_string()];
    assert_eq!(read_texts(&items), Some(vec!["a".to_string(), "b".to_string()]));
    let items = vec!["\"a\"".to_string(), "1".to_string()];
    assert_eq!(read_texts(&items), None);
    assert_eq!(read_texts(&vec![]), Some(vec![]));
}

#[test]
fn wire_names_round_trip() {
    for kind in ALL_KINDS {
        assert_eq!(MessageType::from_wire_name(kind.wire_name()), Some(kind));
    }
    assert_eq!(MessageType::ExecuteResult.wire_name(), "execute_result");
    assert_eq!(MessageType::DisplayData.wire_name(), "display_data");
    assert_eq!(MessageType::KernelInfoRequest.wire_name(), "kernel_info_request");
    assert_eq!(MessageType::from_wire_name("comm_open"), None);
    assert_eq!(MessageType::from_wire_name("Status"), None);
    assert_eq!(MessageType::Status.name(), "Status");
    assert_eq!(MessageType::ExecuteInput.name(), "ExecuteInput");
}

#[test]
fn envelope_is_decoded() {
    let m = decoded("execute_result", "{\"execution_count\":1,\"data\":{\"text/plain\":\"384\"}}");
    assert_eq!(m.header.username, "kernel");
    assert_eq!(m.header.session, "s1");
    assert_eq!(m.header.msg_type, MessageType::ExecuteResult);
    assert_eq!(m.header.version, "5.3");
    assert_eq!(m.header.msg_id, "m1");
    assert_eq!(m.header.date, "2024-01-01T00:00:00Z");
    assert_eq!(m.msg_id, "m1");
    assert_eq!(m.msg_type, MessageType::ExecuteResult);
    assert_eq!(m.parent_header.username, "jupyter-api-client-rs");
    assert_eq!(m.parent_header.session, "s0");
    assert_eq!(m.parent_header.msg_type, MessageType::ExecuteRequest);
    assert_eq!(m.parent_header.version, "5.0");
    assert_eq!(m.parent_header.msg_id, "r1");
    assert_eq!(
        m.content,
        Some("{\"data\":{\"text/plain\":\"384\"},\"execution_count\":1}".to_string())
    );
    assert!(m.buffers.is_empty());
    assert_eq!(m.channel, "iopub");
}

#[test]
fn missing_or_null_content_is_none() {
    assert_eq!(decoded("status", "null").content, None);
    let text = envelope("status", "1").replace("\"content\":1,", "");
    assert_eq!(KernelResponse::decode(&text).unwrap().content, None);
}

#[test]
fn buffers_keep_their_text() {
    let text = envelope("status", "null").replace("\"buffers\":[]", "\"buffers\":[\"AAEC\",[1]]");
    let m = KernelResponse::decode(&text).unwrap();
    assert_eq!(m.buffers, vec!["\"AAEC\"".to_string(), "[1]".to_string()]);
}

#[test]
fn malformed_frames_are_json_errors() {
    let good = envelope("status", "null");
    assert!(KernelResponse::decode(&good).is_ok());
    let cases = vec![
        "".to_string(),
        "not json".to_string(),
        "[]".to_string(),
        "\"text\"".to_string(),
        "{}".to_string(),
        good[..good.len() - 1].to_string(),
        good.replace("\"msg_id\":\"m1\",\"msg_type\"", "\"msg_type\""),
        good.replace("\"channel\":\"iopub\"", "\"channel\":7"),
        good.replace("\"buffers\":[]", "\"buffers\":{}"),
        good.replace("\"metadata\":{}", "\"metadata\":[]"),
        good.replace("\"version\":\"5.3\",", ""),
        good.replace("\"msg_id\":\"r1\",", ""),
        good.replace("\"parent_header\":{", "\"parent\":{"),
    ];
    for text in cases {
        assert!(
            matches!(KernelResponse::decode(&text), Err(JupyterApiError::JsonError(_))),
            "{text}"
        );
    }
}

#[test]
fn unknown_kind_is_a_json_error() {
    let text = envelope("comm_open", "null");
    assert!(matches!(KernelResponse::decode(&text), Err(JupyterApiError::JsonError(_))));
    let text = envelope("status", "null")
        .replace("\"msg_type\":\"execute_request\"", "\"msg_type\":\"nonsense\"");
    assert!(matches!(KernelResponse::decode(&text), Err(JupyterApiError::JsonError(_))));
}

#[test]
fn unknown_members_are_ignored() {
    let text = envelope("status", "null").replace("\"channel\"", "\"extra\":[1,2],\"channel\"");
    assert!(KernelResponse::decode(&text).is_ok());
}

#[test]
fn execute_result_content_is_decoded() {
    let m = decoded(
        "execute_result",
        "{\"execution_count\":3,\"data\":{\"text/plain\":\"384\",\"text/html\":\"<b>384</b>\"},\
         \"metadata\":{}}",
    );
    let expected = ExecuteResultContent {
        execution_count: 3,
        data: Data { text_plain: Some("384".to_string()), image_png: None },
    };
    assert_eq!(m.as_execute_result_content().unwrap(), Some(expected.clone()));
    assert_eq!(m.as_content().unwrap(), Some(Content::ExecuteResultContent(expected)));
}

#[test]
fn display_data_content_is_decoded() {
    let m = decoded("display_data", "{\"data\":{\"image/png\":\"iVBOR\",\"text/plain\":null}}");
    match m.as_content().unwrap() {
        Some(Content::DisplayDataContent(c)) => {
            assert_eq!(c.data, Data { text_plain: None, image_png: Some("iVBOR".to_string()) });
        }
        other => panic!("{other:?}"),
    }
}

#[test]
fn error_content_is_decoded() {
    let m = decoded(
        "error",
        "{\"ename\":\"SyntaxError\",\"evalue\":\"invalid syntax\",\"traceback\":[\"line 1\",\"^\"]}",
    );
    let expected = ErrorContent {
        ename: "SyntaxError".to_string(),
        evalue: "invalid syntax".to_string(),
        traceback: vec!["line 1".to_string(), "^".to_string()],
    };
    assert_eq!(m.as_error_content().unwrap(), Some(expected.clone()));
    assert_eq!(m.as_content().unwrap(), Some(Content::ErrorContent(expected)));
}

#[test]
fn reply_status_stream_and_input_contents_are_decoded() {
    let m = decoded("execute_reply", "{\"status\":\"ok\",\"execution_count\":2}");
    assert_eq!(
        m.as_content().unwrap(),
        Some(Content::ExecuteReplyContent(ExecuteReplyContent {
            status: "ok".to_string(),
            execution_count: 2,
        }))
    );
    let m = decoded("status", "{\"execution_state\":\"idle\"}");
    assert_eq!(
        m.as_content().unwrap(),
        Some(Content::StatusContent(StatusContent { execution_state: "idle".to_string() }))
    );
    let m = decoded("stream", "{\"name\":\"stdout\",\"text\":\"a\"}");
    assert_eq!(
        m.as_content().unwrap(),
        Some(Content::StreamContent(StreamContent {
            name: "stdout".to_string(),
            text: "a".to_string(),
        }))
    );
    let m = decoded("execute_input", "{\"status\":\"ok\",\"execution_count\":5}");
    match m.as_content().unwrap() {
        Some(Content::ExecuteInputContent(c)) => {
            assert_eq!(c.status, "ok");
            assert_eq!(c.execution_count, 5);
        }
        other => panic!("{other:?}"),
    }
}

#[test]
fn content_without_text_is_none() {
    let m = decoded("status", "null");
    assert_eq!(m.as_status_content().unwrap(), None);
    assert_eq!(m.as_content().unwrap(), None);
    let mut m = decoded("status", "null");
    m.content = Some("null".to_string());
    assert_eq!(m.as_content().unwrap(), None);
}

#[test]
fn content_under_another_kind_is_an_invalid_message_type() {
    let m = decoded("status", "{\"execution_state\":\"idle\"}");
    match m.as_execute_result_content() {
        Err(JupyterApiError::InvalidMessageType(name)) => assert_eq!(name, "Status"),
        other => panic!("{other:?}"),
    }
    assert!(matches!(m.as_error_content(), Err(JupyterApiError::InvalidMessageType(_))));
    assert!(matches!(m.as_execute_reply_content(), Err(JupyterApiError::InvalidMessageType(_))));
    assert!(matches!(m.as_execute_input_content(), Err(JupyterApiError::InvalidMessageType(_))));
    assert!(matches!(m.as_stream_content(), Err(JupyterApiError::InvalidMessageType(_))));
    assert!(matches!(m.as_display_data_content(), Err(JupyterApiError::InvalidMessageType(_))));
    let m = decoded("execute_reply", "{\"status\":\"ok\",\"execution_count\":2}");
    assert!(matches!(m.as_status_content(), Err(JupyterApiError::InvalidMessageType(_))));
}

#[test]
fn kinds_without_content_are_invalid_message_types() {
    for (kind, name) in [
        ("kernel_info_request", "KernelInfoRequest"),
        ("kernel_info_reply", "KernelInfoReply"),
        ("execute_request", "ExecuteRequest"),
    ] {
        let m = decoded(kind, "{}");
        match m.as_content() {
            Err(JupyterApiError::InvalidMessageType(n)) => assert_eq!(n, name),
            other => panic!("{other:?}"),
        }
    }
}

#[test]
fn content_of_the_wrong_shape_is_a_json_error() {
    let m = decoded("execute_result", "{\"execution_count\":\"3\",\"data\":{}}");
    assert!(matches!(m.as_content(), Err(JupyterApiError::JsonError(_))));
    let m = decoded("execute_result", "{\"execution_count\":3}");
    assert!(matches!(m.as_content(), Err(JupyterApiError::JsonError(_))));
    let m = decoded("execute_result", "{\"execution_count\":3,\"data\":{\"text/plain\":1}}");
    assert!(matches!(m.as_content(), Err(JupyterApiError::JsonError(_))));
    let m = decoded("error", "{\"ename\":\"E\",\"evalue\":\"v\",\"traceback\":[1]}");
    assert!(matches!(m.as_content(), Err(JupyterApiError::JsonError(_))));
    let m = decoded("status", "[]");
    assert!(matches!(m.as_content(), Err(JupyterApiError::JsonError(_))));
    let mut m = decoded("status", "null");
    m.content = Some("{".to_string());
    assert!(matches!(m.as_content(), Err(JupyterApiError::JsonError(_))));
}

#[test]
fn request_header_has_fixed_fields_and_new_ids() {
    let header = KernelRequestHeader::default();
    assert_eq!(header.message_id().len(), 36);
    assert_eq!(header.session_id().len(), 36);
    assert_ne!(header.message_id(), header.session_id());
    let literals = header.literals().unwrap();
    assert_eq!(literals.username, "\"jupyter-api-client-rs\"");
    assert_eq!(literals.msg_type, "\"execute_request\"");
    assert_eq!(literals.date, "null");
    assert_eq!(literals.version, "\"5.0\"");
    assert_eq!(literals.msg_id, format!("\"{}\"", header.message_id()));
    assert_eq!(literals.session, format!("\"{}\"", header.session_id()));
}

#[test]
fn message_ids_are_fresh() {
    let a = KernelCodeRequest::from("1");
    let b = KernelCodeRequest::from("1");
    assert_ne!(a.header().message_id(), b.header().message_id());
    assert_ne!(a.header().session_id(), b.header().session_id());
    let mut seen = std::collections::HashSet::new();
    for _ in 0..200 {
        assert!(seen.insert(KernelCodeRequest::new("x".to_string()).header().message_id().clone()));
    }
}

#[test]
fn request_is_its_own_parent() {
    let request = KernelCodeRequest::from("12 * 32".to_string());
    assert!(request.header() == request.parent_header());
    assert!(*request.content() == KernelCodeContent::from("12 * 32".to_string()));
    let cloned = request.header().clone();
    assert!(cloned == *request.header());
}

#[test]
fn request_is_written_as_json() {
    let header = KernelRequestHeader::with_ids("s-1".to_string(), "m-1".to_string());
    let request = KernelCodeRequest::with_header(header, "12 * 32".to_string());
    let expected = "{\"header\":{\"username\":\"jupyter-api-client-rs\",\"session\":\"s-1\",\
                    \"msg_id\":\"m-1\",\"msg_type\":\"execute_request\",\"date\":null,\
                    \"version\":\"5.0\"},\"parent_header\":{\"username\":\"jupyter-api-client-rs\",\
                    \"session\":\"s-1\",\"msg_id\":\"m-1\",\"msg_type\":\"execute_request\",\
                    \"date\":null,\"version\":\"5.0\"},\"metadata\":{},\
                    \"content\":{\"code\":\"12 * 32\",\"silent\":false}}";
    assert_eq!(request.to_json().unwrap(), expected);
}

#[test]
fn code_is_escaped_in_the_request() {
    let code = "print(\"a\\b\")\n\t\u{1}é";
    let header = KernelRequestHeader::with_ids("s".to_string(), "m".to_string());
    let text = KernelCodeRequest::with_header(header, code.to_string()).to_json().unwrap();
    assert!(text.contains("\"code\":\"print(\\\"a\\\\b\\\")\\n\\t\\u0001é\""));
    let value: serde_json::Value = serde_json::from_str(&text).unwrap();
    assert_eq!(value["content"]["code"].as_str(), Some(code));
    assert_eq!(value["content"]["silent"].as_bool(), Some(false));
    assert_eq!(value["header"], value["parent_header"]);
    assert!(value["metadata"].as_object().unwrap().is_empty());
    assert!(value["header"]["date"].is_null());
}

#[test]
fn frames_are_plain_concatenation() {
    let literals = HeaderLiterals {
        username: "U".to_string(),
        session: "S".to_string(),
        msg_id: "I".to_string(),
        msg_type: "T".to_string(),
        date: "D".to_string(),
        version: "V".to_string(),
    };
    let header = "{\"username\":U,\"session\":S,\"msg_id\":I,\"msg_type\":T,\"date\":D,\"version\":V}";
    assert_eq!(frame_header(&literals), header);
    assert_eq!(
        frame_request(&literals, &literals, "C", true),
        format!(
            "{{\"header\":{header},\"parent_header\":{header},\"metadata\":{{}},\
             \"content\":{{\"code\":C,\"silent\":true}}}}"
        )
    );
}
