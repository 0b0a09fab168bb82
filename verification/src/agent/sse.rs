//! Reading an OpenAI-compatible server-sent event stream into a response.
//!
//! Each `data:` line carries one JSON event; the JSON itself is read by
//! `serde_json`, and what each field means for the response is decided here.
use crate::agent::llm::{CallTimings, LlmResponse, ResponseDetails};
use crate::analysis::error_parser::opt_str;
use crate::error::PadaError;
use crate::text::{
    chars_of, decimal, eq_str, has_prefix, push_chars, push_decimal, push_str, slice_chars,
    starts_with_str, strip_prefix_spec, strip_prefix_str, string_from, string_of, trim, trim_spec,
};
use vstd::prelude::*;

verus! {

// ------------------------------------------------------------------
// What `serde_json` reads from one event
// ------------------------------------------------------------------

/// The message of the error `serde_json` reports for `data`, if it is not JSON.
pub uninterp spec fn json_parse_error(data: Seq<char>) -> Option<Seq<char>>;

/// The string at a JSON pointer in `data`, if `data` is JSON and one is there.
pub uninterp spec fn json_str(data: Seq<char>, pointer: Seq<char>) -> Option<Seq<char>>;

/// The unsigned integer at a JSON pointer in `data`, if there is one.
pub uninterp spec fn json_u64(data: Seq<char>, pointer: Seq<char>) -> Option<u64>;

/// Whether any value is at a JSON pointer in `data`.
pub uninterp spec fn json_has(data: Seq<char>, pointer: Seq<char>) -> bool;

/// Whether a value other than `null` is at a JSON pointer in `data`.
pub uninterp spec fn json_set(data: Seq<char>, pointer: Seq<char>) -> bool;

/// Whether an array is at a JSON pointer in `data`.
pub uninterp spec fn json_is_array(data: Seq<char>, pointer: Seq<char>) -> bool;

/// Parses `data` with `serde_json::from_str` into a `serde_json::Value` and
/// returns the error's message when that fails; the message is named, not stated.
#[verifier::external_body]
fn json_error_of(data: &str) -> (r: Option<String>)
    ensures
        opt_str(r) == json_parse_error(data@),
{
    serde_json::from_str::<serde_json::Value>(data).err().map(|e| e.to_string())
}

/// `serde_json::from_str` then `Value::pointer` and `Value::as_str`: the string at
/// `pointer`, or `None` when `data` is not JSON or holds no string there.
#[verifier::external_body]
fn json_str_at(data: &str, pointer: &str) -> (r: Option<String>)
    ensures
        opt_str(r) == json_str(data@, pointer@),
{
    serde_json::from_str::<serde_json::Value>(data)
        .ok()
        .and_then(|v| v.pointer(pointer).and_then(serde_json::Value::as_str).map(str::to_owned))
}

/// `serde_json::from_str` then `Value::pointer` and `Value::as_u64`.
#[verifier::external_body]
fn json_u64_at(data: &str, pointer: &str) -> (r: Option<u64>)
    ensures
        r == json_u64(data@, pointer@),
{
    serde_json::from_str::<serde_json::Value>(data)
        .ok()
        .and_then(|v| v.pointer(pointer).and_then(serde_json::Value::as_u64))
}

/// `serde_json::from_str` then `Value::pointer(..).is_some()`.
#[verifier::external_body]
fn json_has_at(data: &str, pointer: &str) -> (r: bool)
    ensures
        r == json_has(data@, pointer@),
{
    serde_json::from_str::<serde_json::Value>(data).ok().is_some_and(|v| v.pointer(pointer).is_some())
}

/// `serde_json::from_str` then `Value::pointer` and `!Value::is_null`.
#[verifier::external_body]
fn json_set_at(data: &str, pointer: &str) -> (r: bool)
    ensures
        r == json_set(data@, pointer@),
{
    serde_json::from_str::<serde_json::Value>(data).ok().is_some_and(
        |v| v.pointer(pointer).is_some_and(|x| !x.is_null()),
    )
}

/// `serde_json::from_str` then `Value::pointer` and `Value::is_array`.
#[verifier::external_body]
fn json_array_at(data: &str, pointer: &str) -> (r: bool)
    ensures
        r == json_is_array(data@, pointer@),
{
    serde_json::from_str::<serde_json::Value>(data).ok().is_some_and(
        |v| v.pointer(pointer).is_some_and(serde_json::Value::is_array),
    )
}

// ------------------------------------------------------------------
// Lines of the stream
// ------------------------------------------------------------------

/// What one line of the stream is.
pub enum StreamLine {
    /// A blank line, a comment, or an `event:`, `id:` or `retry:` field.
    Skip,
    /// The `[DONE]` marker.
    Done,
    /// A JSON event.
    Data(String),
}

pub enum LineKind {
    Skip,
    Done,
    Data(Seq<char>),
}

pub open spec fn line_kind(line: Seq<char>) -> LineKind {
    let t = trim_spec(line);
    if t.len() == 0 || has_prefix(t, ":"@) || has_prefix(t, "event:"@) || has_prefix(t, "id:"@)
        || has_prefix(t, "retry:"@) {
        LineKind::Skip
    } else {
        let data = match strip_prefix_spec(t, "data:"@) {
            Some(d) => trim_spec(d),
            None => t,
        };
        if data == "[DONE]"@ {
            LineKind::Done
        } else {
            LineKind::Data(data)
        }
    }
}

pub open spec fn stream_line_kind(l: StreamLine) -> LineKind {
    match l {
        StreamLine::Skip => LineKind::Skip,
        StreamLine::Done => LineKind::Done,
        StreamLine::Data(d) => LineKind::Data(d@),
    }
}

/// Classifies one line of the stream.
pub fn classify_stream_line(line: &str) -> (r: StreamLine)
    ensures
        stream_line_kind(r) == line_kind(line@),
{
    let t = trim(&chars_of(line));
    if t.len() == 0 || starts_with_str(&t, ":") || starts_with_str(&t, "event:") || starts_with_str(
        &t,
        "id:",
    ) || starts_with_str(&t, "retry:") {
        return StreamLine::Skip;
    }
    let data = match strip_prefix_str(&t, "data:") {
        Some(d) => trim(&d),
        None => t,
    };
    if eq_str(&data, "[DONE]") {
        StreamLine::Done
    } else {
        StreamLine::Data(string_of(&data))
    }
}

// ------------------------------------------------------------------
// Accumulating events
// ------------------------------------------------------------------

/// What has been read so far.
pub struct StreamState {
    pub finish_reason: Option<Seq<char>>,
    pub reasoning_tokens: Option<usize>,
    pub content: Seq<char>,
    pub model: Seq<char>,
    pub input_tokens: usize,
    pub output_tokens: usize,
    pub completed: bool,
}

pub open spec fn initial_state() -> StreamState {
    StreamState {
        finish_reason: None,
        reasoning_tokens: None,
        content: Seq::empty(),
        model: Seq::empty(),
        input_tokens: 0,
        output_tokens: 0,
        completed: false,
    }
}

pub open spec fn finish_pointer() -> Seq<char> {
    "/choices/0/finish_reason"@
}

pub open spec fn message_pointer() -> Seq<char> {
    "/choices/0/message/content"@
}

/// The error an event reports, if any.
pub open spec fn event_error(data: Seq<char>) -> Option<Seq<char>> {
    match json_str(data, "/error/message"@) {
        Some(m) => Some(m),
        None => json_str(data, "/error"@),
    }
}

/// The text an event adds to the reply, if any.
pub open spec fn event_delta(data: Seq<char>) -> Option<Seq<char>> {
    match json_str(data, "/choices/0/delta/content"@) {
        Some(v) => Some(v),
        None => json_str(data, message_pointer()),
    }
}

pub open spec fn keep_u64(v: Option<u64>, old: usize) -> usize {
    match v {
        Some(t) => t as usize,
        None => old,
    }
}

/// One JSON event applied to the state; an event that reports an error stops the stream.
pub open spec fn apply_event(st: StreamState, data: Seq<char>) -> Result<StreamState, Seq<char>> {
    match event_error(data) {
        Some(m) => Err("模型流式响应错误: "@ + m),
        None => {
            let usage = json_has(data, "/usage"@);
            Ok(
                StreamState {
                    finish_reason: match json_str(data, finish_pointer()) {
                        Some(r) => Some(r),
                        None => st.finish_reason,
                    },
                    reasoning_tokens: if usage {
                        match json_u64(data, "/usage/completion_tokens_details/reasoning_tokens"@) {
                            Some(t) => Some(t as usize),
                            None => st.reasoning_tokens,
                        }
                    } else {
                        st.reasoning_tokens
                    },
                    content: match event_delta(data) {
                        Some(v) => st.content + v,
                        None => st.content,
                    },
                    model: match json_str(data, "/model"@) {
                        Some(v) => v,
                        None => st.model,
                    },
                    input_tokens: if usage {
                        keep_u64(json_u64(data, "/usage/prompt_tokens"@), st.input_tokens)
                    } else {
                        st.input_tokens
                    },
                    output_tokens: if usage {
                        keep_u64(json_u64(data, "/usage/completion_tokens"@), st.output_tokens)
                    } else {
                        st.output_tokens
                    },
                    completed: st.completed || json_set(data, finish_pointer()) || json_has(
                        data,
                        message_pointer(),
                    ),
                },
            )
        },
    }
}

/// One line applied to the state: `(state, finished)` or the error message.
pub open spec fn apply_line(st: StreamState, line: Seq<char>) -> Result<(StreamState, bool), Seq<char>> {
    match line_kind(line) {
        LineKind::Skip => Ok((st, false)),
        LineKind::Done => Ok((StreamState { completed: true, ..st }, true)),
        LineKind::Data(d) => match json_parse_error(d) {
            Some(e) => Err("解析模型流式响应失败: "@ + e + "；数据: "@ + d),
            None => match apply_event(st, d) {
                Ok(s2) => Ok((s2, false)),
                Err(m) => Err(m),
            },
        },
    }
}

/// The lines applied in order, up to `[DONE]` or the end.
pub open spec fn apply_lines(st: StreamState, lines: Seq<Seq<char>>) -> Result<StreamState, Seq<char>>
    decreases lines.len(),
{
    if lines.len() == 0 {
        Ok(st)
    } else {
        match apply_line(st, lines[0]) {
            Err(m) => Err(m),
            Ok((s2, true)) => Ok(s2),
            Ok((s2, false)) => apply_lines(s2, lines.skip(1)),
        }
    }
}

/// The text a line hands to the chunk callback: the delta of its event, when
/// that is not empty.
pub open spec fn line_chunk(line: Seq<char>) -> Option<Seq<char>> {
    match line_kind(line) {
        LineKind::Data(d) => match event_delta(d) {
            Some(c) => if c.len() > 0 {
                Some(c)
            } else {
                None
            },
            None => None,
        },
        _ => None,
    }
}

/// The texts the chunk callback receives, in order, while the lines are read
/// up to `[DONE]`, the first error or the end.
pub open spec fn stream_chunks(st: StreamState, lines: Seq<Seq<char>>) -> Seq<Seq<char>>
    decreases lines.len(),
{
    if lines.len() == 0 {
        Seq::empty()
    } else {
        match apply_line(st, lines[0]) {
            Err(_) => Seq::empty(),
            Ok((_, true)) => Seq::empty(),
            Ok((s2, false)) => match line_chunk(lines[0]) {
                Some(c) => seq![c] + stream_chunks(s2, lines.skip(1)),
                None => stream_chunks(s2, lines.skip(1)),
            },
        }
    }
}

pub open spec fn cancelled_text() -> Seq<char> {
    "模型生成已取消"@
}

/// The checks made when the stream ends.
pub open spec fn finish_check(st: StreamState, cancelled: bool) -> Result<StreamState, Seq<char>> {
    if cancelled {
        Err(cancelled_text())
    } else if st.content.len() == 0 && st.finish_reason != Some("length"@) {
        Err("模型流式响应没有返回文本内容"@)
    } else if !st.completed {
        Err("模型流式响应提前结束，未收到完成标记；请重试"@)
    } else {
        Ok(st)
    }
}

/// The outcome of reading a whole stream.
pub open spec fn stream_outcome(lines: Seq<Seq<char>>, cancelled: bool) -> Result<StreamState, Seq<char>> {
    if cancelled {
        Err(cancelled_text())
    } else {
        match apply_lines(initial_state(), lines) {
            Err(m) => Err(m),
            Ok(st) => finish_check(st, false),
        }
    }
}

/// A response made from a final state.
pub open spec fn response_matches(r: LlmResponse, st: StreamState) -> bool {
    &&& opt_str(r.details.finish_reason) == st.finish_reason
    &&& r.details.reasoning_tokens == st.reasoning_tokens
    &&& r.content@ == st.content
    &&& r.model@ == st.model
    &&& r.input_tokens == st.input_tokens
    &&& r.output_tokens == st.output_tokens
    &&& r.timings == (CallTimings {
        prompt_build_ms: 0,
        api_ttft_ms: None,
        total_ms: 0,
        api_first_event_ms: None,
        api_first_reasoning_ms: None,
        json_fallback: false,
    })
}

/// Reads the events of a stream one line at a time.
pub struct StreamParser {
    finish_reason: Option<String>,
    reasoning_tokens: Option<usize>,
    content: String,
    model: String,
    input_tokens: usize,
    output_tokens: usize,
    completed: bool,
}

impl View for StreamParser {
    type V = StreamState;

    closed spec fn view(&self) -> StreamState {
        StreamState {
            finish_reason: opt_str(self.finish_reason),
            reasoning_tokens: self.reasoning_tokens,
            content: self.content@,
            model: self.model@,
            input_tokens: self.input_tokens,
            output_tokens: self.output_tokens,
            completed: self.completed,
        }
    }
}

fn usage_value(v: Option<u64>, old: usize) -> (r: usize)
    ensures
        r == keep_u64(v, old),
{
    match v {
        Some(t) => t as usize,
        None => old,
    }
}

impl StreamParser {
    pub fn new() -> (r: Self)
        ensures
            r@ == initial_state(),
    {
        StreamParser {
            finish_reason: None,
            reasoning_tokens: None,
            content: String::new(),
            model: String::new(),
            input_tokens: 0,
            output_tokens: 0,
            completed: false,
        }
    }

    fn apply_data(&mut self, data: &str) -> (r: Result<Option<String>, PadaError>)
        ensures
            match apply_event(old(self)@, data@) {
                Ok(s2) => r is Ok && final(self)@ == s2,
                Err(m) => r matches Err(PadaError::Llm(e)) && e@ == m,
            },
            r matches Ok(Some(c)) ==> event_delta(data@) == Some(c@) && c@.len() > 0,
            r matches Ok(None) ==> !(event_delta(data@) matches Some(c) && c.len() > 0),
    {
        let finish = json_str_at(data, "/choices/0/finish_reason");
        let error = match json_str_at(data, "/error/message") {
            Some(m) => Some(m),
            None => json_str_at(data, "/error"),
        };
        if let Some(m) = error {
            let mut msg = string_from("模型流式响应错误: ");
            push_str(&mut msg, m.as_str());
            return Err(PadaError::Llm(msg));
        }
        if let Some(r) = finish {
            self.finish_reason = Some(r);
        }
        if let Some(v) = json_str_at(data, "/model") {
            self.model = v;
        }
        let set = json_set_at(data, "/choices/0/finish_reason");
        let has_message = json_has_at(data, "/choices/0/message/content");
        self.completed = self.completed || set || has_message;
        let delta = match json_str_at(data, "/choices/0/delta/content") {
            Some(v) => Some(v),
            None => json_str_at(data, "/choices/0/message/content"),
        };
        let mut chunk: Option<String> = None;
        if let Some(v) = delta {
            push_str(&mut self.content, v.as_str());
            if !v.as_str().is_empty() {
                chunk = Some(v);
            }
        }
        if json_has_at(data, "/usage") {
            if let Some(t) = json_u64_at(data, "/usage/completion_tokens_details/reasoning_tokens") {
                self.reasoning_tokens = Some(t as usize);
            }
            self.input_tokens = usage_value(json_u64_at(data, "/usage/prompt_tokens"), self.input_tokens);
            self.output_tokens = usage_value(json_u64_at(data, "/usage/completion_tokens"), self.output_tokens);
        }
        Ok(chunk)
    }

    /// Reads one line: `Ok((true, _))` at `[DONE]`, and the text the line adds
    /// to the reply, if it adds any.
    pub fn feed_line(&mut self, line: &str) -> (r: Result<(bool, Option<String>), PadaError>)
        ensures
            match apply_line(old(self)@, line@) {
                Ok((s2, done)) => r matches Ok((d, _)) && d == done && final(self)@ == s2,
                Err(m) => r matches Err(PadaError::Llm(e)) && e@ == m,
            },
            r matches Ok((_, c)) ==> opt_str(c) == line_chunk(line@),
    {
        match classify_stream_line(line) {
            StreamLine::Skip => Ok((false, None)),
            StreamLine::Done => {
                self.completed = true;
                Ok((true, None))
            },
            StreamLine::Data(d) => {
                if let Some(e) = json_error_of(d.as_str()) {
                    let mut msg = string_from("解析模型流式响应失败: ");
                    push_str(&mut msg, e.as_str());
                    push_str(&mut msg, "；数据: ");
                    push_str(&mut msg, d.as_str());
                    return Err(PadaError::Llm(msg));
                }
                match self.apply_data(d.as_str()) {
                    Ok(c) => Ok((false, c)),
                    Err(e) => Err(e),
                }
            },
        }
    }

    /// Ends the stream: the response, or why there is none.
    pub fn finish(&self, cancelled: bool) -> (r: Result<LlmResponse, PadaError>)
        ensures
            match finish_check(self@, cancelled) {
                Ok(st) => r matches Ok(resp) && response_matches(resp, st),
                Err(m) => r matches Err(PadaError::Llm(e)) && e@ == m,
            },
    {
        if cancelled {
            return Err(PadaError::Llm(string_from("模型生成已取消")));
        }
        let is_length = match &self.finish_reason {
            Some(f) => eq_str(&chars_of(f.as_str()), "length"),
            None => false,
        };
        if self.content.as_str().is_empty() && !is_length {
            return Err(PadaError::Llm(string_from("模型流式响应没有返回文本内容")));
        }
        if !self.completed {
            return Err(PadaError::Llm(string_from("模型流式响应提前结束，未收到完成标记；请重试")));
        }
        Ok(LlmResponse {
            details: ResponseDetails {
                reasoning_tokens: self.reasoning_tokens,
                finish_reason: match &self.finish_reason {
                    Some(f) => Some(string_from(f.as_str())),
                    None => None,
                },
            },
            timings: CallTimings::default(),
            content: string_from(self.content.as_str()),
            input_tokens: self.input_tokens,
            output_tokens: self.output_tokens,
            model: string_from(self.model.as_str()),
        })
    }
}

/// Parses the lines of an OpenAI-compatible SSE response; `cancelled` is the
/// cancellation flag, which stops the reading before any line.
pub fn parse_stream_response(lines: &Vec<String>, cancelled: bool) -> (r: Result<LlmResponse, PadaError>)
    ensures
        match stream_outcome(lines@.map_values(|l: String| l@), cancelled) {
            Ok(st) => r matches Ok(resp) && response_matches(resp, st),
            Err(m) => r matches Err(PadaError::Llm(e)) && e@ == m,
        },
{
    let ghost ls = lines@.map_values(|l: String| l@);
    if cancelled {
        return Err(PadaError::Llm(string_from("模型生成已取消")));
    }
    let mut parser = StreamParser::new();
    let mut i: usize = 0;
    assert(ls.skip(0) =~= ls);
    while i < lines.len()
        invariant
            !cancelled,
            i <= lines@.len(),
            ls == lines@.map_values(|l: String| l@),
            apply_lines(initial_state(), ls) == apply_lines(parser@, ls.skip(i as int)),
        decreases lines.len() - i,
    {
        assert(ls.skip(i as int)[0] == lines@[i as int]@);
        assert(ls.skip(i as int).skip(1) =~= ls.skip(i + 1));
        match parser.feed_line(lines[i].as_str()) {
            Err(e) => {
                return Err(e);
            },
            Ok((true, _)) => {
                return parser.finish(false);
            },
            Ok((false, _)) => {},
        }
        i = i + 1;
    }
    assert(ls.skip(i as int) =~= Seq::<Seq<char>>::empty());
    parser.finish(false)
}

/// Parses the lines of a stream like `parse_stream_response`, and also gives
/// the texts handed to the chunk callback as they arrive, in order.
pub fn parse_stream_response_with_callback(lines: &Vec<String>, cancelled: bool) -> (r: (
    Result<LlmResponse, PadaError>,
    Vec<String>,
))
    ensures
        match stream_outcome(lines@.map_values(|l: String| l@), cancelled) {
            Ok(st) => r.0 matches Ok(resp) && response_matches(resp, st),
            Err(m) => r.0 matches Err(PadaError::Llm(e)) && e@ == m,
        },
        r.1@.map_values(|c: String| c@) == (if cancelled {
            Seq::empty()
        } else {
            stream_chunks(initial_state(), lines@.map_values(|l: String| l@))
        }),
{
    let ghost ls = lines@.map_values(|l: String| l@);
    let mut chunks: Vec<String> = Vec::new();
    if cancelled {
        assert(chunks@.map_values(|c: String| c@) =~= Seq::<Seq<char>>::empty());
        return (Err(PadaError::Llm(string_from("模型生成已取消"))), chunks);
    }
    let mut parser = StreamParser::new();
    let mut i: usize = 0;
    assert(ls.skip(0) =~= ls);
    assert(chunks@.map_values(|c: String| c@) =~= Seq::<Seq<char>>::empty());
    while i < lines.len()
        invariant
            !cancelled,
            i <= lines@.len(),
            ls == lines@.map_values(|l: String| l@),
            apply_lines(initial_state(), ls) == apply_lines(parser@, ls.skip(i as int)),
            stream_chunks(initial_state(), ls) == chunks@.map_values(|c: String| c@) + stream_chunks(
                parser@,
                ls.skip(i as int),
            ),
        decreases lines.len() - i,
    {
        assert(ls.skip(i as int)[0] == lines@[i as int]@);
        assert(ls.skip(i as int).skip(1) =~= ls.skip(i + 1));
        let ghost before = chunks@.map_values(|c: String| c@);
        match parser.feed_line(lines[i].as_str()) {
            Err(e) => {
                assert(before + Seq::<Seq<char>>::empty() =~= before);
                return (Err(e), chunks);
            },
            Ok((true, _)) => {
                assert(before + Seq::<Seq<char>>::empty() =~= before);
                return (parser.finish(false), chunks);
            },
            Ok((false, c)) => {
                match c {
                    Some(t) => {
                        chunks.push(t);
                        assert(chunks@.map_values(|c: String| c@) =~= before.push(t@));
                        assert(before + (seq![t@] + stream_chunks(parser@, ls.skip(i + 1))) =~= before.push(
                            t@,
                        ) + stream_chunks(parser@, ls.skip(i + 1)));
                    },
                    None => {},
                }
            },
        }
        i = i + 1;
    }
    assert(ls.skip(i as int) =~= Seq::<Seq<char>>::empty());
    assert(chunks@.map_values(|c: String| c@) + Seq::<Seq<char>>::empty() =~= chunks@.map_values(
        |c: String| c@,
    ));
    (parser.finish(false), chunks)
}

// ------------------------------------------------------------------
// HTTP errors
// ------------------------------------------------------------------

/// The detail a failed HTTP response carries: the JSON error message when the
/// body has one, else the trimmed body; at most 800 characters.
pub open spec fn http_error_detail(body: Seq<char>) -> Seq<char> {
    let d = match json_str(body, "/error/message"@) {
        Some(m) => m,
        None => match json_str(body, "/error"@) {
            Some(m) => m,
            None => trim_spec(body),
        },
    };
    if d.len() > 800 {
        d.take(800)
    } else {
        d
    }
}

pub open spec fn http_error_text(endpoint: Seq<char>, status: u16, status_text: Seq<char>, body: Seq<char>) -> Seq<char> {
    let head = "HTTP 请求失败（"@ + endpoint + "）: "@ + decimal(status as nat) + " "@ + status_text;
    let detail = http_error_detail(body);
    if detail.len() == 0 {
        head
    } else {
        head + "；服务端信息: "@ + detail
    }
}

/// The message for an HTTP status error, with the service's own message when it sends one.
pub fn format_http_status_error(endpoint: &str, status: u16, status_text: &str, body: &str) -> (r: String)
    ensures
        r@ == http_error_text(endpoint@, status, status_text@, body@),
{
    let found = match json_str_at(body, "/error/message") {
        Some(m) => Some(m),
        None => json_str_at(body, "/error"),
    };
    let detail: Vec<char> = match found {
        Some(m) => chars_of(m.as_str()),
        None => trim(&chars_of(body)),
    };
    let detail = if detail.len() > 800 {
        slice_chars(&detail, 0, 800)
    } else {
        detail
    };
    let mut out = string_from("HTTP 请求失败（");
    push_str(&mut out, endpoint);
    push_str(&mut out, "）: ");
    push_decimal(&mut out, status as u64);
    push_str(&mut out, " ");
    push_str(&mut out, status_text);
    if detail.len() > 0 {
        push_str(&mut out, "；服务端信息: ");
        push_chars(&mut out, &detail);
    }
    out
}

// ------------------------------------------------------------------
// Whole (non-streamed) responses
// ------------------------------------------------------------------

/// What a whole response body gives: the reply is read from the first element
/// of `choices` only where `choices` is an array; a cut-off reply (finish reason
/// `length`) with no content is empty; usage counts that are missing are zero.
pub open spec fn whole_response_outcome(body: Seq<char>) -> Result<StreamState, Seq<char>> {
    match json_parse_error(body) {
        Some(e) => Err("解析响应 JSON 失败: "@ + e),
        None => {
            let reply = if json_is_array(body, "/choices"@) {
                json_str(body, message_pointer())
            } else {
                None
            };
            let content = match reply {
                Some(c) => Some(c),
                None => if json_str(body, finish_pointer()) == Some("length"@) {
                    Some(Seq::<char>::empty())
                } else {
                    None
                },
            };
            match content {
                None => Err("响应缺少 choices[0].message.content"@),
                Some(c) => Ok(
                    StreamState {
                        finish_reason: json_str(body, finish_pointer()),
                        reasoning_tokens: match json_u64(
                            body,
                            "/usage/completion_tokens_details/reasoning_tokens"@,
                        ) {
                            Some(t) => Some(t as usize),
                            None => None,
                        },
                        content: c,
                        model: match json_str(body, "/model"@) {
                            Some(m) => m,
                            None => Seq::empty(),
                        },
                        input_tokens: keep_u64(json_u64(body, "/usage/prompt_tokens"@), 0),
                        output_tokens: keep_u64(json_u64(body, "/usage/completion_tokens"@), 0),
                        completed: true,
                    },
                ),
            }
        },
    }
}

/// Parses a whole chat completion response body: the reply, token usage and model.
pub fn parse_response(body: &str) -> (r: Result<LlmResponse, PadaError>)
    ensures
        match whole_response_outcome(body@) {
            Ok(st) => r matches Ok(resp) && response_matches(resp, st),
            Err(m) => r matches Err(PadaError::Llm(e)) && e@ == m,
        },
{
    if let Some(e) = json_error_of(body) {
        let mut msg = string_from("解析响应 JSON 失败: ");
        push_str(&mut msg, e.as_str());
        return Err(PadaError::Llm(msg));
    }
    let finish = json_str_at(body, "/choices/0/finish_reason");
    let reply = if json_array_at(body, "/choices") {
        json_str_at(body, "/choices/0/message/content")
    } else {
        None
    };
    let content = match reply {
        Some(c) => c,
        None => {
            let is_length = match &finish {
                Some(f) => eq_str(&chars_of(f.as_str()), "length"),
                None => false,
            };
            if is_length {
                String::new()
            } else {
                return Err(PadaError::Llm(string_from("响应缺少 choices[0].message.content")));
            }
        },
    };
    let reasoning_tokens = match json_u64_at(body, "/usage/completion_tokens_details/reasoning_tokens") {
        Some(t) => Some(t as usize),
        None => None,
    };
    let model = match json_str_at(body, "/model") {
        Some(m) => m,
        None => String::new(),
    };
    Ok(LlmResponse {
        details: ResponseDetails { reasoning_tokens, finish_reason: finish },
        timings: CallTimings::default(),
        content,
        input_tokens: usage_value(json_u64_at(body, "/usage/prompt_tokens"), 0),
        output_tokens: usage_value(json_u64_at(body, "/usage/completion_tokens"), 0),
        model,
    })
}

} // verus!
