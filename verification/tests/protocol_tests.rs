use udrb::protocol::{
    build_frame, capture_artifact, device_metrics_params, evaluate_params, layout_dims,
    match_frame, navigate_params, null_params, pdf_params, quote_json_string, read_title,
    screenshot_params, select_target, FrameOutcome, Session, TargetError,
};
use udrb::strutil::{i64_to_string, u64_to_string};

#[test]
fn u64_rendering_is_exact() {
    assert_eq!(u64_to_string(0), "0");
    assert_eq!(u64_to_string(7), "7");
    assert_eq!(u64_to_string(1234567890), "1234567890");
    assert_eq!(u64_to_string(u64::MAX), "18446744073709551615");
}

#[test]
fn i64_rendering_is_exact() {
    assert_eq!(i64_to_string(0), "0");
    assert_eq!(i64_to_string(-1), "-1");
    assert_eq!(i64_to_string(i64::MIN), "-9223372036854775808");
    assert_eq!(i64_to_string(i64::MAX), "9223372036854775807");
}

#[test]
fn json_quoting_escapes() {
    assert_eq!(quote_json_string("plain"), "\"plain\"");
    assert_eq!(quote_json_string("a\"b"), "\"a\\\"b\"");
    assert_eq!(quote_json_string("a\\b"), "\"a\\\\b\"");
    assert_eq!(quote_json_string("a\nb"), "\"a\\u000ab\"");
}

#[test]
fn frame_text_is_exact() {
    let f = build_frame(12, "Page.navigate", "{\"url\":\"http://x\"}");
    assert_eq!(f, "{\"id\":12,\"method\":\"Page.navigate\",\"params\":{\"url\":\"http://x\"}}");
}

#[test]
fn session_ids_strictly_increase() {
    let mut s = Session::new();
    let (id0, f0) = s.next_command("Browser.getVersion", "null");
    let (id1, _f1) = s.next_command("Page.captureSnapshot", "null");
    assert_eq!(id0, 0);
    assert_eq!(id1, 1);
    assert_eq!(f0, "{\"id\":0,\"method\":\"Browser.getVersion\",\"params\":null}");
}

#[test]
fn matching_frame_yields_result() {
    let out = match_frame("{\"id\":7,\"result\":{\"data\":\"aGVsbG8=\"}}", 7);
    match out {
        FrameOutcome::Reply(result) => {
            let a = capture_artifact(&result, ".pdf").expect("valid data field");
            assert_eq!(a.bytes, b"hello");
        },
        _ => panic!("a frame with the awaited id and a result is a reply"),
    }
}

#[test]
fn foreign_id_is_discarded() {
    let out = match_frame("{\"id\":8,\"result\":{}}", 7);
    assert!(matches!(out, FrameOutcome::Mismatch));
}

#[test]
fn unparsable_frame_is_malformed() {
    let out = match_frame("not json", 7);
    assert!(matches!(out, FrameOutcome::Malformed));
}

#[test]
fn frame_without_result_is_malformed() {
    let out = match_frame("{\"id\":7}", 7);
    assert!(matches!(out, FrameOutcome::Malformed));
}

#[test]
fn capture_without_data_fails() {
    match match_frame("{\"id\":1,\"result\":{}}", 1) {
        FrameOutcome::Reply(result) => assert!(capture_artifact(&result, ".png").is_none()),
        _ => panic!("reply expected"),
    }
}

#[test]
fn layout_dims_read_integers() {
    match match_frame("{\"id\":1,\"result\":{\"contentSize\":{\"width\":800,\"height\":600}}}", 1) {
        FrameOutcome::Reply(result) => assert_eq!(layout_dims(&result), Some((800, 600))),
        _ => panic!("reply expected"),
    }
}

#[test]
fn layout_dims_reject_fractions() {
    match match_frame("{\"id\":1,\"result\":{\"contentSize\":{\"width\":800.5,\"height\":600}}}", 1)
    {
        FrameOutcome::Reply(result) => assert_eq!(layout_dims(&result), None),
        _ => panic!("reply expected"),
    }
}

#[test]
fn title_must_be_a_string() {
    match match_frame("{\"id\":1,\"result\":{\"result\":{\"value\":\"Hi\"}}}", 1) {
        FrameOutcome::Reply(result) => assert_eq!(read_title(&result).as_deref(), Some("Hi")),
        _ => panic!("reply expected"),
    }
    match match_frame("{\"id\":1,\"result\":{\"result\":{\"value\":3}}}", 1) {
        FrameOutcome::Reply(result) => assert_eq!(read_title(&result), None),
        _ => panic!("reply expected"),
    }
}

#[test]
fn target_selection_takes_first_debugger_url() {
    let body = "[{\"webSocketDebuggerUrl\":\"ws://host/devtools/1\"},{\"webSocketDebuggerUrl\":\"ws://host/devtools/2\"}]";
    assert_eq!(select_target(body), Ok("ws://host/devtools/1".to_string()));
}

#[test]
fn target_selection_errors_are_classified() {
    assert_eq!(select_target("zzz"), Err(TargetError::Unparsable));
    assert_eq!(select_target("{}"), Err(TargetError::NotArray));
    assert_eq!(select_target("[]"), Err(TargetError::NoTargets));
    assert_eq!(select_target("[{}]"), Err(TargetError::MissingUrl));
}

#[test]
fn op_params_are_exact() {
    assert_eq!(navigate_params("http://x/\"q\""), "{\"url\":\"http://x/\\\"q\\\"\"}");
    assert_eq!(
        evaluate_params("document.title", true),
        "{\"expression\":\"document.title\",\"returnByValue\":true}"
    );
    assert_eq!(
        evaluate_params("login()", false),
        "{\"expression\":\"login()\",\"returnByValue\":false}"
    );
    assert_eq!(
        device_metrics_params(800, 600),
        "{\"width\":800,\"screenWidth\":800,\"height\":600,\"screenHeight\":600,\"scale\":1,\"deviceScaleFactor\":1,\"mobile\":false}"
    );
    assert_eq!(
        screenshot_params(800, 600),
        "{\"clip\":{\"x\":0,\"y\":0,\"width\":800,\"height\":600,\"scale\":1}}"
    );
    assert_eq!(
        pdf_params(),
        "{\"landscape\":false,\"scale\":1,\"paperWidth\":8.27,\"paperHeight\":11.69}"
    );
    assert_eq!(null_params(), "null");
}

#[test]
fn frames_parse_back_as_sent() {
    // The verified builder and the real JSON parser agree on the frame text.
    let f = build_frame(3, "Runtime.evaluate", &evaluate_params("1+\n1", false));
    let v: serde_json::Value = serde_json::from_str(&f).expect("frames are valid JSON");
    assert_eq!(v["id"], 3);
    assert_eq!(v["method"], "Runtime.evaluate");
    assert_eq!(v["params"]["expression"], "1+\n1");
}
