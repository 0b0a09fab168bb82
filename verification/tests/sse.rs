use pada::agent::sse::{
    classify_stream_line, format_http_status_error, parse_response, parse_stream_response,
    parse_stream_response_with_callback, StreamLine, StreamParser,
};
use pada::error::PadaError;

fn lines(v: &[&str]) -> Vec<String> {
    v.iter().map(|s| s.to_string()).collect()
}

#[test]
fn http_status_error_includes_json_message() {
    let message = format_http_status_error(
        "http://localhost:11434/v1/chat/completions",
        400,
        "Bad Request",
        r#"{"error":{"message":"invalid reasoning value"}}"#,
    );
    assert!(message.contains("400 Bad Request"));
    assert!(message.contains("invalid reasoning value"));
}

#[test]
fn http_status_error_falls_back_to_body_then_status() {
    assert_eq!(
        format_http_status_error("http://x", 500, "Internal Server Error", "  oops  "),
        "HTTP 请求失败（http://x）: 500 Internal Server Error；服务端信息: oops"
    );
    assert_eq!(
        format_http_status_error("http://x", 404, "Not Found", ""),
        "HTTP 请求失败（http://x）: 404 Not Found"
    );
    assert_eq!(
        format_http_status_error("http://x", 401, "Unauthorized", r#"{"error":"bad key"}"#),
        "HTTP 请求失败（http://x）: 401 Unauthorized；服务端信息: bad key"
    );
}

#[test]
fn stream_lines_are_classified() {
    assert!(matches!(classify_stream_line(""), StreamLine::Skip));
    assert!(matches!(classify_stream_line(": keep-alive"), StreamLine::Skip));
    assert!(matches!(classify_stream_line("event: message"), StreamLine::Skip));
    assert!(matches!(classify_stream_line("data: [DONE]"), StreamLine::Done));
    match classify_stream_line("data:  {\"a\":1} ") {
        StreamLine::Data(d) => assert_eq!(d, "{\"a\":1}"),
        _ => panic!("expected data"),
    }
}

#[test]
fn a_stream_is_assembled() {
    let body = lines(&[
        "data: {\"model\":\"m1\",\"choices\":[{\"delta\":{\"content\":\"Hel\"}}]}",
        "",
        "data: {\"choices\":[{\"delta\":{\"content\":\"lo\"},\"finish_reason\":\"stop\"}]}",
        "data: {\"usage\":{\"prompt_tokens\":7,\"completion_tokens\":2,\"completion_tokens_details\":{\"reasoning_tokens\":1}}}",
        "data: [DONE]",
    ]);
    let r = parse_stream_response(&body, false).unwrap();
    assert_eq!(r.content, "Hello");
    assert_eq!(r.model, "m1");
    assert_eq!(r.input_tokens, 7);
    assert_eq!(r.output_tokens, 2);
    assert_eq!(r.details.reasoning_tokens, Some(1));
    assert_eq!(r.details.finish_reason.as_deref(), Some("stop"));
}

#[test]
fn stream_errors_are_reported() {
    let cancelled = parse_stream_response(&lines(&["data: [DONE]"]), true).unwrap_err();
    assert_eq!(cancelled, PadaError::Llm("模型生成已取消".into()));
    let empty = parse_stream_response(&lines(&["data: [DONE]"]), false).unwrap_err();
    assert_eq!(empty, PadaError::Llm("模型流式响应没有返回文本内容".into()));
    let unfinished = parse_stream_response(
        &lines(&["data: {\"choices\":[{\"delta\":{\"content\":\"x\"}}]}"]),
        false,
    )
    .unwrap_err();
    assert_eq!(unfinished, PadaError::Llm("模型流式响应提前结束，未收到完成标记；请重试".into()));
    let service = parse_stream_response(&lines(&["data: {\"error\":{\"message\":\"busy\"}}"]), false).unwrap_err();
    assert_eq!(service, PadaError::Llm("模型流式响应错误: busy".into()));
    match parse_stream_response(&lines(&["data: not json"]), false).unwrap_err() {
        PadaError::Llm(m) => assert!(m.starts_with("解析模型流式响应失败: ") && m.ends_with("；数据: not json")),
        other => panic!("unexpected {other:?}"),
    }
}

#[test]
fn the_parser_reports_visible_chunks() {
    let mut p = StreamParser::new();
    let (done, chunk) = p.feed_line("data: {\"choices\":[{\"delta\":{\"content\":\"Hi\"}}]}").unwrap();
    assert!(!done);
    assert_eq!(chunk.as_deref(), Some("Hi"));
    let (done, chunk) = p.feed_line("data: [DONE]").unwrap();
    assert!(done);
    assert!(chunk.is_none());
    assert_eq!(p.finish(false).unwrap().content, "Hi");
}

#[test]
fn whole_responses_are_parsed() {
    let r = parse_response(r#"{"model":"deepseek-chat","choices":[{"message":{"content":"ok"},"finish_reason":"stop"}],"usage":{"prompt_tokens":3,"completion_tokens":4}}"#).unwrap();
    assert_eq!(r.content, "ok");
    assert_eq!(r.model, "deepseek-chat");
    assert_eq!((r.input_tokens, r.output_tokens), (3, 4));
    let cut = parse_response(r#"{"choices":[{"finish_reason":"length"}]}"#).unwrap();
    assert_eq!(cut.content, "");
    assert_eq!(
        parse_response(r#"{"choices":[]}"#).unwrap_err(),
        PadaError::Llm("响应缺少 choices[0].message.content".into())
    );
}

#[test]
fn choices_must_be_an_array_in_a_whole_response() {
    assert_eq!(
        parse_response(r#"{"choices":{"0":{"message":{"content":"hi"}}}}"#).unwrap_err(),
        PadaError::Llm("响应缺少 choices[0].message.content".into())
    );
    assert_eq!(parse_response(r#"{"choices":[{"message":{"content":"hi"}}]}"#).unwrap().content, "hi");
}

#[test]
fn chunks_reach_the_callback_in_order() {
    let body = lines(&[
        "data: {\"choices\":[{\"delta\":{\"content\":\"Hel\"}}]}",
        "data: {\"choices\":[{\"delta\":{\"content\":\"\"}}]}",
        ": keep-alive",
        "data: {\"choices\":[{\"delta\":{\"content\":\"lo\"},\"finish_reason\":\"stop\"}]}",
        "data: [DONE]",
        "data: {\"choices\":[{\"delta\":{\"content\":\"late\"}}]}",
    ]);
    let (r, chunks) = parse_stream_response_with_callback(&body, false);
    assert_eq!(r.unwrap().content, "Hello");
    assert_eq!(chunks, vec!["Hel".to_string(), "lo".to_string()]);
}

#[test]
fn chunks_stop_at_an_error_or_cancellation() {
    let body = lines(&[
        "data: {\"choices\":[{\"delta\":{\"content\":\"a\"}}]}",
        "data: {\"error\":\"down\"}",
        "data: {\"choices\":[{\"delta\":{\"content\":\"b\"}}]}",
    ]);
    let (r, chunks) = parse_stream_response_with_callback(&body, false);
    assert_eq!(r.unwrap_err(), PadaError::Llm("模型流式响应错误: down".into()));
    assert_eq!(chunks, vec!["a".to_string()]);
    let (r, chunks) = parse_stream_response_with_callback(&body, true);
    assert_eq!(r.unwrap_err(), PadaError::Llm("模型生成已取消".into()));
    assert!(chunks.is_empty());
}
