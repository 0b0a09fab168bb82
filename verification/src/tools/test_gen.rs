//! Generating boundary test cases with a model: the prompt, and finding the
//! JSON array of cases in the model's reply.
use crate::agent::llm::{message_views, ChatMessage, MessageView};
use crate::error::PadaError;
use crate::models::Assignment;
use crate::text::{
    chars_of, find_char, find_spec, find_str, has_prefix, join_spec, push_str, rfind_char,
    rfind_spec, slice_chars, starts_with_str, string_from, string_of, trim, trim_spec,
};
use vstd::prelude::*;

verus! {

/// The kinds of boundary case every generated suite should cover.
pub open spec fn boundary_types() -> Seq<Seq<char>> {
    seq!["空输入"@, "单元素"@, "重复元素"@, "负数"@, "边界值（如 0、最大值、最小值）"@, "大规模输入"@]
}

pub fn boundary_case_types() -> (r: Vec<&'static str>)
    ensures
        r@.map_values(|t: &'static str| t@) == boundary_types(),
{
    let mut v: Vec<&'static str> = Vec::new();
    v.push("空输入");
    v.push("单元素");
    v.push("重复元素");
    v.push("负数");
    v.push("边界值（如 0、最大值、最小值）");
    v.push("大规模输入");
    assert(v@.map_values(|t: &'static str| t@) =~= boundary_types());
    v
}

pub open spec fn generator_system_text() -> Seq<char> {
    "你是一位 Rust 编程作业的测试用例生成助手。你的任务是根据题目描述，生成一组边界测试用例，覆盖常见边界情况（空输入、单元素、重复、负数、边界值、大规模输入等）。\n\n输出要求：\n1. 只输出一个 JSON 数组，不要有任何多余解释文字\n2. 数组中每个元素包含三个字段：\n- \"name\": 用例名称（英文 snake_case）\n- \"input\": 标准输入内容（字符串，多行用 \\n 分隔）\n- \"expected_output\": 期望的标准输出（字符串）\n3. 用 JSON 代码块包裹，格式如下：\n```json\n[\n  {\"name\": \"example\", \"input\": \"...\", \"expected_output\": \"...\"}\n]\n```\n4. 生成 5 到 8 个用例，覆盖尽可能多的边界类型\n5. 期望输出必须是程序在正确实现下应产生的输出"@
}

pub open spec fn bullet_lines(types: Seq<Seq<char>>) -> Seq<Seq<char>> {
    Seq::new(types.len(), |i: int| "- "@ + types[i])
}

pub open spec fn generator_user_text(a: Assignment) -> Seq<char> {
    "题目："@ + a.title@ + "\n\n描述：\n"@ + a.description@ + "\n\n请生成覆盖以下边界类型的测试用例：\n"@
        + join_spec(bullet_lines(boundary_types()), "\n"@)
}

pub open spec fn prompt_spec(a: Assignment) -> Seq<MessageView> {
    seq![
        MessageView { role: "system"@, content: generator_system_text() },
        MessageView { role: "user"@, content: generator_user_text(a) },
    ]
}

/// The `[system, user]` messages that ask a model for boundary test cases.
pub fn build_prompt(assignment: &Assignment) -> (r: Vec<ChatMessage>)
    ensures
        message_views(r@) == prompt_spec(*assignment),
{
    let types = boundary_case_types();
    let ghost tv = types@.map_values(|t: &'static str| t@);
    let ghost bl = bullet_lines(tv);
    let mut list = String::new();
    let mut i: usize = 0;
    assert(bl.take(0) =~= Seq::<Seq<char>>::empty());
    while i < types.len()
        invariant
            i <= types@.len(),
            tv == types@.map_values(|t: &'static str| t@),
            bl == bullet_lines(tv),
            list@ == join_spec(bl.take(i as int), "\n"@),
        decreases types.len() - i,
    {
        proof {
            crate::text::lemma_join_take(bl, "\n"@, i as int);
        }
        if i > 0 {
            push_str(&mut list, "\n");
        }
        push_str(&mut list, "- ");
        push_str(&mut list, types[i]);
        i = i + 1;
    }
    assert(bl.take(types@.len() as int) =~= bl);
    let system = ChatMessage::system(string_from(
        "你是一位 Rust 编程作业的测试用例生成助手。你的任务是根据题目描述，生成一组边界测试用例，覆盖常见边界情况（空输入、单元素、重复、负数、边界值、大规模输入等）。\n\n输出要求：\n1. 只输出一个 JSON 数组，不要有任何多余解释文字\n2. 数组中每个元素包含三个字段：\n- \"name\": 用例名称（英文 snake_case）\n- \"input\": 标准输入内容（字符串，多行用 \\n 分隔）\n- \"expected_output\": 期望的标准输出（字符串）\n3. 用 JSON 代码块包裹，格式如下：\n```json\n[\n  {\"name\": \"example\", \"input\": \"...\", \"expected_output\": \"...\"}\n]\n```\n4. 生成 5 到 8 个用例，覆盖尽可能多的边界类型\n5. 期望输出必须是程序在正确实现下应产生的输出",
    ));
    let mut user = string_from("题目：");
    push_str(&mut user, assignment.title.as_str());
    push_str(&mut user, "\n\n描述：\n");
    push_str(&mut user, assignment.description.as_str());
    push_str(&mut user, "\n\n请生成覆盖以下边界类型的测试用例：\n");
    push_str(&mut user, list.as_str());
    let mut out: Vec<ChatMessage> = Vec::new();
    out.push(system);
    out.push(ChatMessage::user(user));
    assert(message_views(out@) =~= prompt_spec(*assignment));
    out
}

/// The same prompt with the learning profile as a second system message.
pub fn build_prompt_with_profile(assignment: &Assignment, profile_summary: &str) -> (r: Vec<ChatMessage>)
    ensures
        message_views(r@) == prompt_spec(*assignment).insert(
            1,
            MessageView { role: "system"@, content: profile_summary@ },
        ),
{
    let mut messages = build_prompt(assignment);
    let ghost before = messages@;
    messages.insert(1, ChatMessage::system(string_from(profile_summary)));
    assert(message_views(messages@) =~= message_views(before).insert(
        1,
        MessageView { role: "system"@, content: profile_summary@ },
    ));
    messages
}

// ------------------------------------------------------------------
// Finding the JSON array in a reply
// ------------------------------------------------------------------

/// The text of a ```` ```json ```` block, trimmed.
pub open spec fn json_block(c: Seq<char>) -> Option<Seq<char>> {
    match find_spec(c, "```json"@) {
        Some(s) => {
            let after = c.skip(s + 7);
            match find_spec(after, "```"@) {
                Some(e) => Some(trim_spec(after.take(e))),
                None => None,
            }
        },
        None => None,
    }
}

/// The text of the first ```` ``` ```` block, trimmed; a language line is skipped.
pub open spec fn plain_block(c: Seq<char>) -> Option<Seq<char>> {
    match find_spec(c, "```"@) {
        Some(s) => {
            let a0 = c.skip(s + 3);
            let after = if has_prefix(a0, "json"@) || has_prefix(a0, "\n"@) {
                a0.skip(
                    match find_spec(a0, seq!['\n']) {
                        Some(k) => k,
                        None => 0,
                    },
                )
            } else {
                a0
            };
            match find_spec(after, "```"@) {
                Some(e) => Some(trim_spec(after.take(e))),
                None => None,
            }
        },
        None => None,
    }
}

/// From the first `[` to the last `]`, when the first comes before the last.
pub open spec fn bracketed(c: Seq<char>) -> Option<Seq<char>> {
    match (find_spec(c, seq!['[']), rfind_spec(c, seq![']'])) {
        (Some(s), Some(e)) => if s < e {
            Some(c.subrange(s, e + 1))
        } else {
            None
        },
        _ => None,
    }
}

pub open spec fn extract_spec(c: Seq<char>) -> Option<Seq<char>> {
    match json_block(c) {
        Some(b) => Some(b),
        None => match plain_block(c) {
            Some(b) => Some(b),
            None => bracketed(c),
        },
    }
}

fn json_block_exec(c: &Vec<char>) -> (r: Option<Vec<char>>)
    ensures
        match r {
            Some(v) => json_block(c@) == Some(v@),
            None => json_block(c@) is None,
        },
{
    match find_str(c, "```json") {
        Some(s) => {
            proof {
                crate::text::lemma_find(c@, "```json"@);
                reveal_strlit("```json");
            }
            let n = c.len();
            let after = slice_chars(c, s + 7, n);
            assert(after@ =~= c@.skip(s + 7));
            match find_str(&after, "```") {
                Some(e) => {
                    proof {
                        crate::text::lemma_find(after@, "```"@);
                    }
                    let inner = slice_chars(&after, 0, e);
                    assert(inner@ =~= after@.take(e as int));
                    Some(trim(&inner))
                },
                None => None,
            }
        },
        None => None,
    }
}

fn plain_block_exec(c: &Vec<char>) -> (r: Option<Vec<char>>)
    ensures
        match r {
            Some(v) => plain_block(c@) == Some(v@),
            None => plain_block(c@) is None,
        },
{
    match find_str(c, "```") {
        Some(s) => {
            proof {
                crate::text::lemma_find(c@, "```"@);
                reveal_strlit("```");
            }
            let n = c.len();
            let a0 = slice_chars(c, s + 3, n);
            assert(a0@ =~= c@.skip(s + 3));
            let after = if starts_with_str(&a0, "json") || starts_with_str(&a0, "\n") {
                let k = match find_char(&a0, '\n') {
                    Some(k) => {
                        proof {
                            crate::text::lemma_find(a0@, seq!['\n']);
                        }
                        k
                    },
                    None => 0,
                };
                let m = a0.len();
                let t = slice_chars(&a0, k, m);
                assert(t@ =~= a0@.skip(k as int));
                t
            } else {
                a0
            };
            match find_str(&after, "```") {
                Some(e) => {
                    proof {
                        crate::text::lemma_find(after@, "```"@);
                    }
                    let inner = slice_chars(&after, 0, e);
                    assert(inner@ =~= after@.take(e as int));
                    Some(trim(&inner))
                },
                None => None,
            }
        },
        None => None,
    }
}

/// Finds the JSON array of test cases in a reply: a ```` ```json ```` block, else
/// any fenced block, else the text from the first `[` to the last `]`.
pub fn extract_json_array(content: &str) -> (r: Result<String, PadaError>)
    ensures
        match extract_spec(content@) {
            Some(t) => r matches Ok(s) && s@ == t,
            None => r matches Err(PadaError::Parse(m)) && m@ == "响应中未找到 JSON 数组"@,
        },
{
    let c = chars_of(content);
    if let Some(b) = json_block_exec(&c) {
        return Ok(string_of(&b));
    }
    if let Some(b) = plain_block_exec(&c) {
        return Ok(string_of(&b));
    }
    match (find_char(&c, '['), rfind_char(&c, ']')) {
        (Some(s), Some(e)) => {
            if s < e {
                proof {
                    crate::text::lemma_rfind_from_bounds(c@, seq![']'], c@.len() - 1);
                }
                let n = c.len();
                assert(e < n);
                let t = slice_chars(&c, s, e + 1);
                return Ok(string_of(&t));
            }
        },
        _ => {},
    }
    Err(PadaError::Parse(string_from("响应中未找到 JSON 数组")))
}

pub open spec fn generated_name_spec(index: nat) -> Seq<char> {
    if index == 1 {
        "generated_tests.json"@
    } else {
        "generated_tests_"@ + crate::text::decimal(index) + ".json"@
    }
}

/// The file name tried for the `index`-th attempt at saving generated tests;
/// existing files are never overwritten, so later attempts get numbers.
pub fn generated_test_file_name(index: usize) -> (r: String)
    ensures
        r@ == generated_name_spec(index as nat),
{
    if index == 1 {
        string_from("generated_tests.json")
    } else {
        let mut s = string_from("generated_tests_");
        crate::text::push_decimal(&mut s, index as u64);
        push_str(&mut s, ".json");
        s
    }
}

} // verus!
