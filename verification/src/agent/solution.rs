//! Model-enriched hints for levels 3 to 5: when a model is asked, what replaces
//! a hint when it is not, and how a model's reply is cleaned for the terminal.
use crate::agent::llm::LlmResponse;
use crate::agent::model_task::ModelTaskOutcome;
use crate::agent::stream::{close_tag, open_tag};
use crate::analysis::hint::{level_number, Hint};
use crate::config::effort::ModelCallBudget;
use crate::error::{error_message, PadaError};
use crate::models::HintLevel;
use crate::text::{
    chars_of, find, find_spec, has_prefix, has_suffix, join_chars, join_spec, lemma_find, lines, lines_acc,
    lines_spec, match_at, strip_cr,
    push_chars, push_decimal, push_str, slice_chars, starts_with_str, strip_prefix_spec,
    strip_suffix_spec, string_from, string_of, trim, trim_end, trim_end_spec, trim_spec, trim_start,
    trim_start_spec, views, decimal,
};
use vstd::prelude::*;
use vstd::string::StringSliceAdditionalSpecFns;

verus! {

/// The indices of the report entries whose hints were streamed to the terminal.
#[derive(Debug, Default)]
pub struct StreamedReportEntries {
    pub compile: Vec<usize>,
    pub tests: Vec<usize>,
}

/// Levels 3 to 5 are the ones a model enriches.
pub open spec fn enriches(level: HintLevel) -> bool {
    level == HintLevel::Concept || level == HintLevel::Direction || level == HintLevel::Solution
}

pub fn model_enriches(level: HintLevel) -> (r: bool)
    ensures
        r == enriches(level),
{
    match level {
        HintLevel::Concept | HintLevel::Direction | HintLevel::Solution => true,
        _ => false,
    }
}

pub fn hint_level_number(level: HintLevel) -> (r: u8)
    ensures
        r == level_number(level),
{
    match level {
        HintLevel::Category => 1,
        HintLevel::Location => 2,
        HintLevel::Concept => 3,
        HintLevel::Direction => 4,
        HintLevel::Solution => 5,
    }
}

pub open spec fn call_limit_text(limit: nat) -> Seq<char> {
    "当前思考模式最多允许 "@ + decimal(limit) + " 次模型调用；本轮其余问题保留 Rust 基础诊断。"@
}

/// The hint kept when the policy's model-call limit is reached.
pub fn call_limit_hint(level: HintLevel, limit: usize) -> (r: Hint)
    ensures
        r.level == level,
        r.content@ == call_limit_text(limit as nat),
{
    let mut s = string_from("当前思考模式最多允许 ");
    push_decimal(&mut s, limit as u64);
    push_str(&mut s, " 次模型调用；本轮其余问题保留 Rust 基础诊断。");
    Hint::new(level, s)
}

pub open spec fn budget_text() -> Seq<char> {
    "Token 预算已用尽，未调用 LLM。请提高 --budget 后重试。"@
}

/// The solution hint when the token budget is spent.
pub fn budget_hint() -> (r: Hint)
    ensures
        r.level == HintLevel::Solution,
        r.content@ == budget_text(),
{
    Hint::new(HintLevel::Solution, string_from("Token 预算已用尽，未调用 LLM。请提高 --budget 后重试。"))
}

pub open spec fn cancelled_text() -> Seq<char> {
    "模型提示生成已取消。可以再次使用 show 或 hint 5 重试。"@
}

/// The solution hint when the user stopped the model.
pub fn cancelled_hint() -> (r: Hint)
    ensures
        r.level == HintLevel::Solution,
        r.content@ == cancelled_text(),
{
    Hint::new(HintLevel::Solution, string_from("模型提示生成已取消。可以再次使用 show 或 hint 5 重试。"))
}

pub open spec fn failed_text(error: PadaError) -> Seq<char> {
    "LLM 参考方案生成失败："@ + error_message(error) + "。请检查 endpoint、API key 和网络。"@
}

/// The solution hint when the model call failed.
pub fn failed_hint(error: PadaError) -> (r: Hint)
    ensures
        r.level == HintLevel::Solution,
        r.content@ == failed_text(error),
{
    let mut s = string_from("LLM 参考方案生成失败：");
    let m = error.message();
    push_str(&mut s, m.as_str());
    push_str(&mut s, "。请检查 endpoint、API key 和网络。");
    Hint::new(HintLevel::Solution, s)
}

// ------------------------------------------------------------------
// A stable key for the source text (64-bit FNV-1a over its UTF-8 bytes)
// ------------------------------------------------------------------

pub open spec fn fnv_step(hash: u64, byte: u8) -> u64 {
    (((hash ^ (byte as u64)) as nat * 0x100000001b3nat) % 0x1_0000_0000_0000_0000nat) as u64
}

pub open spec fn fnv1a(bytes: Seq<u8>) -> u64
    decreases bytes.len(),
{
    if bytes.len() == 0 {
        0xcbf29ce484222325u64
    } else {
        fnv_step(fnv1a(bytes.drop_last()), bytes.last())
    }
}

pub fn stable_context_key(value: &str) -> (r: u64)
    ensures
        r == fnv1a(value.spec_bytes()),
{
    let bytes = value.as_bytes();
    let mut hash: u64 = 0xcbf29ce484222325u64;
    let mut i: usize = 0;
    while i < bytes.len()
        invariant
            i <= bytes@.len(),
            bytes@ == value.spec_bytes(),
            hash == fnv1a(bytes@.take(i as int)),
        decreases bytes.len() - i,
    {
        assert(bytes@.take(i + 1).drop_last() =~= bytes@.take(i as int));
        hash = hash ^ (bytes[i] as u64);
        hash = hash.wrapping_mul(0x100000001b3u64);
        i = i + 1;
    }
    assert(bytes@.take(bytes@.len() as int) =~= bytes@);
    hash
}

// ------------------------------------------------------------------
// Cleaning a model's reply
// ------------------------------------------------------------------

/// `\r\n` and lone `\r` become `\n`.
pub open spec fn unify_newlines(s: Seq<char>) -> Seq<char>
    decreases s.len(),
{
    if s.len() == 0 {
        s
    } else if s[0] == '\r' && s.len() >= 2 && s[1] == '\n' {
        seq!['\n'] + unify_newlines(s.skip(2))
    } else if s[0] == '\r' {
        seq!['\n'] + unify_newlines(s.skip(1))
    } else {
        seq![s[0]] + unify_newlines(s.skip(1))
    }
}

/// Removes every `<think>` … `</think>` block, searching again from the start
/// after each removal; an unclosed `<think>` cuts the text.
pub open spec fn strip_think(s: Seq<char>) -> Seq<char>
    decreases s.len(),
{
    match find_spec(s, open_tag()) {
        None => s,
        Some(i) => {
            if 0 <= i && i + 7 <= s.len() {
                match find_spec(s.skip(i + 7), close_tag()) {
                    Some(j) => {
                        if 0 <= j && i + 15 + j <= s.len() {
                            strip_think(s.take(i) + s.skip(i + 15 + j))
                        } else {
                            s
                        }
                    },
                    None => s.take(i),
                }
            } else {
                s
            }
        },
    }
}

/// Removes an outer ```` ```markdown ```` or ```` ```md ```` fence.
pub open spec fn unfence(t: Seq<char>) -> Seq<char> {
    let md = match strip_prefix_spec(t, "```md\n"@) {
        Some(a) => match strip_suffix_spec(a, "```"@) {
            Some(m) => m,
            None => t,
        },
        None => t,
    };
    match strip_prefix_spec(t, "```markdown\n"@) {
        Some(a) => match strip_suffix_spec(a, "```"@) {
            Some(m) => m,
            None => md,
        },
        None => md,
    }
}

/// One line of rendering: state is (lines so far, previous line blank, inside a code block).
pub open spec fn render_step(st: (Seq<Seq<char>>, bool, bool), raw: Seq<char>) -> (
    Seq<Seq<char>>,
    bool,
    bool,
) {
    let line = trim_end_spec(raw);
    let in_code = if has_prefix(trim_start_spec(line), "```"@) {
        !st.2
    } else {
        st.2
    };
    let r = if !in_code && line.len() > 0 && line[0] == '#' && st.0.len() > 0 && st.0.last().len()
        > 0 {
        st.0.push(Seq::empty())
    } else {
        st.0
    };
    if line.len() == 0 {
        (
            if st.1 {
                r
            } else {
                r.push(Seq::empty())
            },
            true,
            in_code,
        )
    } else {
        (r.push(line), false, in_code)
    }
}

/// Rendering lines: ends trimmed, runs of blank lines collapsed to one, and a
/// blank line before a heading outside code blocks.
pub open spec fn render_lines(ls: Seq<Seq<char>>) -> (Seq<Seq<char>>, bool, bool)
    decreases ls.len(),
{
    if ls.len() == 0 {
        (Seq::empty(), false, false)
    } else {
        render_step(render_lines(ls.drop_last()), ls.last())
    }
}

/// Drops trailing blank lines.
pub open spec fn drop_blank_tail(r: Seq<Seq<char>>) -> Seq<Seq<char>>
    decreases r.len(),
{
    if r.len() > 0 && r.last().len() == 0 {
        drop_blank_tail(r.drop_last())
    } else {
        r
    }
}

pub open spec fn empty_output_text() -> Seq<char> {
    "模型未返回可展示内容。"@
}

/// What `format_model_output` returns.
pub open spec fn format_output_spec(content: Seq<char>) -> Seq<char> {
    let body = unfence(trim_spec(strip_think(unify_newlines(content))));
    let joined = join_spec(drop_blank_tail(render_lines(lines_spec(body)).0), "\n"@);
    if trim_spec(joined).len() == 0 {
        empty_output_text()
    } else {
        joined
    }
}

fn unify_newlines_exec(s: &Vec<char>) -> (r: Vec<char>)
    ensures
        r@ == unify_newlines(s@),
{
    let mut out: Vec<char> = Vec::new();
    let mut i: usize = 0;
    assert(s@.skip(0) =~= s@);
    assert(out@ + unify_newlines(s@) =~= unify_newlines(s@));
    while i < s.len()
        invariant
            i <= s@.len(),
            out@ + unify_newlines(s@.skip(i as int)) == unify_newlines(s@),
        decreases s.len() - i,
    {
        let ghost rest = s@.skip(i as int);
        let ghost o = out@;
        if s[i] == '\r' {
            out.push('\n');
            if i + 1 < s.len() && s[i + 1] == '\n' {
                assert(rest.skip(2) =~= s@.skip(i + 2));
                i = i + 2;
            } else {
                assert(rest.skip(1) =~= s@.skip(i + 1));
                i = i + 1;
            }
        } else {
            out.push(s[i]);
            assert(rest.skip(1) =~= s@.skip(i + 1));
            i = i + 1;
        }
        assert(out@ + unify_newlines(s@.skip(i as int)) =~= o + unify_newlines(rest));
    }
    assert(s@.skip(s@.len() as int) =~= Seq::<char>::empty());
    assert(out@ + Seq::<char>::empty() =~= out@);
    out
}

fn concat_chars(a: &Vec<char>, b: &Vec<char>) -> (r: Vec<char>)
    ensures
        r@ == a@ + b@,
{
    let mut out = slice_chars(a, 0, a.len());
    let mut i: usize = 0;
    while i < b.len()
        invariant
            i <= b@.len(),
            out@ == a@.take(a@.len() as int) + b@.take(i as int),
        decreases b.len() - i,
    {
        out.push(b[i]);
        i = i + 1;
        assert(out@ =~= a@.take(a@.len() as int) + b@.take(i as int));
    }
    assert(a@.take(a@.len() as int) =~= a@);
    assert(b@.take(b@.len() as int) =~= b@);
    out
}

fn strip_think_exec(s: Vec<char>) -> (r: Vec<char>)
    ensures
        r@ == strip_think(s@),
{
    let open = chars_of("<think>");
    let close = chars_of("</think>");
    proof {
        reveal_strlit("<think>");
        reveal_strlit("</think>");
    }
    assert(open@ =~= open_tag());
    assert(close@ =~= close_tag());
    let mut content = s;
    loop
        invariant
            open@ == open_tag(),
            close@ == close_tag(),
            strip_think(content@) == strip_think(s@),
        decreases content@.len(),
    {
        match find(&content, &open) {
            None => {
                return content;
            },
            Some(start) => {
                proof {
                    crate::text::lemma_find(content@, open@);
                }
                let n = content.len();
                let after = slice_chars(&content, start + 7, n);
                assert(after@ =~= content@.skip(start + 7));
                match find(&after, &close) {
                    Some(rel) => {
                        proof {
                            crate::text::lemma_find(after@, close@);
                        }
                        let head = slice_chars(&content, 0, start);
                        let tail = slice_chars(&content, start + 15 + rel, n);
                        assert(head@ =~= content@.take(start as int));
                        assert(tail@ =~= content@.skip(start + 15 + rel));
                        content = concat_chars(&head, &tail);
                    },
                    None => {
                        let head = slice_chars(&content, 0, start);
                        assert(head@ =~= content@.take(start as int));
                        return head;
                    },
                }
            },
        }
    }
}

fn unfence_exec(t: &Vec<char>) -> (r: Vec<char>)
    ensures
        r@ == unfence(t@),
{
    if let Some(a) = crate::text::strip_prefix_str(t, "```markdown\n") {
        if let Some(m) = crate::text::strip_suffix_str(&a, "```") {
            return m;
        }
    }
    if let Some(a) = crate::text::strip_prefix_str(t, "```md\n") {
        if let Some(m) = crate::text::strip_suffix_str(&a, "```") {
            return m;
        }
    }
    slice_chars(t, 0, t.len())
}

fn render_exec(ls: &Vec<Vec<char>>) -> (r: Vec<Vec<char>>)
    ensures
        views(r@) == render_lines(views(ls@)).0,
{
    let ghost lv = views(ls@);
    let mut rendered: Vec<Vec<char>> = Vec::new();
    let mut previous_blank = false;
    let mut in_code = false;
    let mut i: usize = 0;
    assert(lv.take(0) =~= Seq::<Seq<char>>::empty());
    assert(views(rendered@) =~= Seq::<Seq<char>>::empty());
    while i < ls.len()
        invariant
            i <= ls@.len(),
            lv == views(ls@),
            render_lines(lv.take(i as int)) == (views(rendered@), previous_blank, in_code),
        decreases ls.len() - i,
    {
        assert(lv.take(i + 1).drop_last() =~= lv.take(i as int));
        assert(lv.take(i + 1).last() == ls@[i as int]@);
        let line = trim_end(&ls[i]);
        let lead = trim_start(&line);
        if starts_with_str(&lead, "```") {
            in_code = !in_code;
        }
        let heading = line.len() > 0 && line[0] == '#';
        let last_nonempty = rendered.len() > 0 && rendered[rendered.len() - 1].len() > 0;
        if !in_code && heading && last_nonempty {
            let ghost before = rendered@;
            rendered.push(Vec::new());
            assert(views(rendered@) =~= views(before).push(Seq::empty()));
        }
        if line.len() == 0 {
            if !previous_blank {
                let ghost before = rendered@;
                rendered.push(Vec::new());
                assert(views(rendered@) =~= views(before).push(Seq::empty()));
            }
            previous_blank = true;
        } else {
            let ghost before = rendered@;
            let ghost lv2 = line@;
            rendered.push(line);
            assert(views(rendered@) =~= views(before).push(lv2));
            previous_blank = false;
        }
        i = i + 1;
    }
    assert(lv.take(ls@.len() as int) =~= lv);
    rendered
}

/// Cleans a model reply for the terminal: unifies line endings, removes
/// reasoning blocks and an outer Markdown fence, trims line ends, collapses
/// blank lines, separates headings, and falls back to a fixed notice when
/// nothing is left.
pub fn format_model_output(content: &str) -> (r: String)
    ensures
        r@ == format_output_spec(content@),
{
    let raw = chars_of(content);
    let unified = unify_newlines_exec(&raw);
    let cleaned = strip_think_exec(unified);
    let trimmed = trim(&cleaned);
    let body = unfence_exec(&trimmed);
    let ls = lines(&body);
    let mut rendered = render_exec(&ls);
    let ghost full = views(rendered@);
    while rendered.len() > 0 && rendered[rendered.len() - 1].len() == 0
        invariant
            drop_blank_tail(views(rendered@)) == drop_blank_tail(full),
        decreases rendered@.len(),
    {
        let ghost before = rendered@;
        rendered.pop();
        assert(views(rendered@) =~= views(before).drop_last());
    }
    assert(drop_blank_tail(views(rendered@)) == views(rendered@));
    let joined = join_chars(&rendered, "\n");
    let jv = chars_of(joined.as_str());
    let jt = trim(&jv);
    if jt.len() == 0 {
        string_from("模型未返回可展示内容。")
    } else {
        joined
    }
}

// ------------------------------------------------------------------
// When a model is asked
// ------------------------------------------------------------------

/// What to do for one report entry before any model call.
pub enum ModelHintPlan {
    /// The level is not one a model enriches.
    NotEnriched,
    /// A cached model hint exists for the same context.
    Cached,
    /// Replace the hint without calling the model.
    Replace(Hint),
    /// Keep the rule-based hint.
    Keep,
    /// Call the model (one call was taken from the budget).
    CallModel,
}

pub open spec fn hint_is(h: Hint, level: HintLevel, content: Seq<char>) -> bool {
    h.level == level && h.content@ == content
}

pub open spec fn plan_replaces(r: ModelHintPlan, level: HintLevel, content: Seq<char>) -> bool {
    match r {
        ModelHintPlan::Replace(h) => hint_is(h, level, content),
        _ => false,
    }
}

pub open spec fn gives_hint(o: Option<Hint>, level: HintLevel, content: Seq<char>) -> bool {
    match o {
        Some(h) => hint_is(h, level, content),
        None => false,
    }
}

/// Decides, for one entry at `level`, whether a model is called: not for
/// levels below 3, not when a cached hint exists, not when the token budget is
/// spent (the solution level then says so), and not when the policy's call
/// limit is reached (the entry then says so).
pub fn plan_model_hint(
    level: HintLevel,
    cached: bool,
    within_token_budget: bool,
    budget: &mut ModelCallBudget,
    max_calls: usize,
) -> (r: ModelHintPlan)
    ensures
        final(budget).limit_spec() == old(budget).limit_spec(),
        old(budget).wf() ==> final(budget).wf(),
        !enriches(level) ==> r is NotEnriched,
        enriches(level) && cached ==> r is Cached,
        enriches(level) && !cached && !within_token_budget ==> if level == HintLevel::Solution {
            plan_replaces(r, HintLevel::Solution, budget_text())
        } else {
            r is Keep
        },
        enriches(level) && !cached && within_token_budget && old(budget).used_spec() >= old(
            budget,
        ).limit_spec() ==> plan_replaces(r, level, call_limit_text(max_calls as nat)),
        enriches(level) && !cached && within_token_budget && old(budget).used_spec() < old(
            budget,
        ).limit_spec() ==> r is CallModel,
        r is CallModel ==> final(budget).used_spec() == old(budget).used_spec() + 1,
        !(r is CallModel) ==> final(budget).used_spec() == old(budget).used_spec(),
{
    if !model_enriches(level) {
        return ModelHintPlan::NotEnriched;
    }
    if cached {
        return ModelHintPlan::Cached;
    }
    if !within_token_budget {
        if level == HintLevel::Solution {
            return ModelHintPlan::Replace(budget_hint());
        }
        return ModelHintPlan::Keep;
    }
    if !budget.try_take() {
        return ModelHintPlan::Replace(call_limit_hint(level, max_calls));
    }
    ModelHintPlan::CallModel
}

/// The hint after a model call at `level`, and whether enrichment stops: a
/// reply replaces the hint with its cleaned text; a failure or a cancellation
/// replaces only a solution hint; a cancellation stops the round.
pub fn hint_after_model(level: HintLevel, outcome: ModelTaskOutcome) -> (r: (Option<Hint>, bool))
    ensures
        match outcome {
            ModelTaskOutcome::Completed(Ok(resp)) => !r.1 && gives_hint(
                r.0,
                level,
                format_output_spec(resp.content@),
            ),
            ModelTaskOutcome::Completed(Err(e)) => !r.1 && if level == HintLevel::Solution {
                gives_hint(r.0, HintLevel::Solution, failed_text(e))
            } else {
                r.0 is None
            },
            ModelTaskOutcome::Cancelled => r.1 && if level == HintLevel::Solution {
                gives_hint(r.0, HintLevel::Solution, cancelled_text())
            } else {
                r.0 is None
            },
        },
{
    match outcome {
        ModelTaskOutcome::Completed(Ok(resp)) => {
            let content = format_model_output(resp.content.as_str());
            (Some(Hint::new(level, content)), false)
        },
        ModelTaskOutcome::Completed(Err(e)) => {
            if level == HintLevel::Solution {
                (Some(failed_hint(e)), false)
            } else {
                (None, false)
            }
        },
        ModelTaskOutcome::Cancelled => {
            if level == HintLevel::Solution {
                (Some(cancelled_hint()), true)
            } else {
                (None, true)
            }
        },
    }
}

/// A lowercase hexadecimal digit.
pub open spec fn hex_digit(d: u64) -> char {
    if d < 10 {
        (('0' as u64) + d) as char
    } else {
        (('a' as u64) + d - 10) as char
    }
}

/// `{:016x}`: the 16 hexadecimal digits of `n`, most significant first.
pub open spec fn hex16(n: u64) -> Seq<char> {
    Seq::new(16, |i: int| hex_digit((n >> ((60 - 4 * i) as u64)) & 0xf))
}

fn hex_digit_exec(d: u64) -> (r: char)
    requires
        d < 16,
    ensures
        r == hex_digit(d),
{
    if d < 10 {
        char_of_ascii(48 + d)
    } else {
        char_of_ascii(97 + d - 10)
    }
}

fn char_of_ascii(v: u64) -> (r: char)
    requires
        v < 128,
    ensures
        r == v as char,
{
    let b = v as u8;
    b as char
}

/// A stable key for evidence text: its FNV-1a hash as 16 hexadecimal digits.
pub fn stable_evidence_key(value: &str) -> (r: String)
    ensures
        r@ == hex16(fnv1a(value.spec_bytes())),
{
    let h = stable_context_key(value);
    let mut out = String::new();
    let mut i: u64 = 0;
    while i < 16
        invariant
            i <= 16,
            out@ == hex16(h).take(i as int),
        decreases 16 - i,
    {
        let shift: u64 = 60 - 4 * i;
        let d = (h >> shift) & 0xf;
        assert(d < 16) by (bit_vector)
            requires
                d == (h >> shift) & 0xf,
        ;
        let c = hex_digit_exec(d);
        crate::text::push_char(&mut out, c);
        i = i + 1;
        assert(out@ =~= hex16(h).take(i as int));
    }
    assert(hex16(h).take(16) =~= hex16(h));
    out
}

// ------------------------------------------------------------------
// No reasoning tag survives formatting
// ------------------------------------------------------------------

/// `s` holds no `<think>` tag.
pub open spec fn free_of_think(s: Seq<char>) -> bool {
    forall|i: int| !#[trigger] match_at(s, open_tag(), i)
}

proof fn lemma_free_subrange(s: Seq<char>, a: int, b: int)
    requires
        free_of_think(s),
        0 <= a <= b <= s.len(),
    ensures
        free_of_think(s.subrange(a, b)),
{
    let t = s.subrange(a, b);
    assert forall|i: int| !#[trigger] match_at(t, open_tag(), i) by {
        if match_at(t, open_tag(), i) {
            assert(s.subrange(a + i, a + i + 7) =~= t.subrange(i, i + 7));
            assert(match_at(s, open_tag(), a + i));
        }
    }
}

/// Two pieces without the tag, joined by a newline, have no tag: the tag
/// holds no newline.
proof fn lemma_free_join_two(a: Seq<char>, b: Seq<char>)
    requires
        free_of_think(a),
        free_of_think(b),
    ensures
        free_of_think(a + seq!['\n'] + b),
{
    let s = a + seq!['\n'] + b;
    let t = open_tag();
    assert forall|i: int| !#[trigger] match_at(s, t, i) by {
        if match_at(s, t, i) {
            if i + 7 <= a.len() {
                assert(a.subrange(i, i + 7) =~= s.subrange(i, i + 7));
                assert(match_at(a, t, i));
            } else if i >= a.len() + 1 {
                let k = i - a.len() - 1;
                assert(b.subrange(k, k + 7) =~= s.subrange(i, i + 7));
                assert(match_at(b, t, k));
            } else {
                let d = a.len() - i;
                assert(s.subrange(i, i + 7)[d] == s[a.len() as int]);
                assert(t[d] != '\n');
            }
        }
    }
}

proof fn lemma_strip_think_free(s: Seq<char>)
    ensures
        free_of_think(strip_think(s)),
    decreases s.len(),
{
    lemma_find(s, open_tag());
    match find_spec(s, open_tag()) {
        None => {},
        Some(i) => {
            lemma_find(s.skip(i + 7), close_tag());
            match find_spec(s.skip(i + 7), close_tag()) {
                Some(j) => {
                    lemma_strip_think_free(s.take(i) + s.skip(i + 15 + j));
                },
                None => {
                    let p = s.take(i);
                    assert forall|k: int| !#[trigger] match_at(p, open_tag(), k) by {
                        if match_at(p, open_tag(), k) {
                            assert(s.subrange(k, k + 7) =~= p.subrange(k, k + 7));
                            assert(match_at(s, open_tag(), k));
                        }
                    }
                },
            }
        },
    }
}

proof fn lemma_trim_end_prefix(x: Seq<char>)
    ensures
        trim_end_spec(x).len() <= x.len(),
        trim_end_spec(x) == x.subrange(0, trim_end_spec(x).len() as int),
    decreases x.len(),
{
    if x.len() > 0 && crate::text::is_ws(x.last()) {
        lemma_trim_end_prefix(x.drop_last());
        assert(x.drop_last().subrange(0, trim_end_spec(x).len() as int) =~= x.subrange(
            0,
            trim_end_spec(x).len() as int,
        ));
    } else {
        assert(x.subrange(0, x.len() as int) =~= x);
    }
}

proof fn lemma_trim_start_suffix(x: Seq<char>)
    ensures
        trim_start_spec(x).len() <= x.len(),
        trim_start_spec(x) == x.subrange(x.len() - trim_start_spec(x).len(), x.len() as int),
    decreases x.len(),
{
    if x.len() > 0 && crate::text::is_ws(x[0]) {
        lemma_trim_start_suffix(x.drop_first());
        let n = trim_start_spec(x).len();
        assert(x.drop_first().subrange(x.len() - 1 - n, x.len() - 1) =~= x.subrange(x.len() - n, x.len() as int));
    } else {
        assert(x.subrange(0, x.len() as int) =~= x);
    }
}

proof fn lemma_trim_free(x: Seq<char>)
    requires
        free_of_think(x),
    ensures
        free_of_think(trim_spec(x)),
        free_of_think(trim_end_spec(x)),
{
    lemma_trim_start_suffix(x);
    let st = trim_start_spec(x);
    lemma_free_subrange(x, x.len() - st.len(), x.len() as int);
    lemma_trim_end_prefix(st);
    lemma_free_subrange(st, 0, trim_end_spec(st).len() as int);
    lemma_trim_end_prefix(x);
    lemma_free_subrange(x, 0, trim_end_spec(x).len() as int);
}

proof fn lemma_unfence_free(t: Seq<char>)
    requires
        free_of_think(t),
    ensures
        free_of_think(unfence(t)),
{
    reveal_strlit("```md\n");
    reveal_strlit("```markdown\n");
    reveal_strlit("```");
    match strip_prefix_spec(t, "```md\n"@) {
        Some(a) => {
            lemma_free_subrange(t, 6, t.len() as int);
            match strip_suffix_spec(a, "```"@) {
                Some(_) => lemma_free_subrange(a, 0, a.len() - 3),
                None => {},
            }
        },
        None => {},
    }
    match strip_prefix_spec(t, "```markdown\n"@) {
        Some(a) => {
            lemma_free_subrange(t, 12, t.len() as int);
            match strip_suffix_spec(a, "```"@) {
                Some(_) => lemma_free_subrange(a, 0, a.len() - 3),
                None => {},
            }
        },
        None => {},
    }
}

proof fn lemma_lines_acc_free(s: Seq<char>)
    requires
        free_of_think(s),
    ensures
        forall|j: int| 0 <= j < lines_acc(s).0.len() ==> free_of_think(#[trigger] lines_acc(s).0[j]),
        lines_acc(s).1.len() <= s.len(),
        lines_acc(s).1 == s.subrange(s.len() - lines_acc(s).1.len(), s.len() as int),
    decreases s.len(),
{
    if s.len() > 0 {
        let t = s.drop_last();
        lemma_free_subrange(s, 0, s.len() - 1);
        assert(t =~= s.subrange(0, s.len() - 1));
        lemma_lines_acc_free(t);
        let (done, cur) = lines_acc(t);
        if s.last() == '\n' {
            lemma_free_subrange(t, t.len() - cur.len(), t.len() as int);
            if cur.len() > 0 && cur.last() == '\r' {
                lemma_free_subrange(cur, 0, cur.len() - 1);
                assert(cur.drop_last() =~= cur.subrange(0, cur.len() - 1));
            }
            assert(s.subrange(s.len() as int, s.len() as int) =~= Seq::<char>::empty());
            let nd = done.push(strip_cr(cur));
            assert forall|j: int| 0 <= j < nd.len() implies free_of_think(#[trigger] nd[j]) by {
                if j < done.len() {
                    assert(nd[j] == done[j]);
                }
            }
        } else {
            assert(cur.push(s.last()) =~= s.subrange(s.len() - cur.len() - 1, s.len() as int));
        }
    } else {
        assert(s.subrange(0, 0) =~= Seq::<char>::empty());
    }
}

proof fn lemma_lines_free(s: Seq<char>)
    requires
        free_of_think(s),
    ensures
        forall|j: int| 0 <= j < lines_spec(s).len() ==> free_of_think(#[trigger] lines_spec(s)[j]),
{
    lemma_lines_acc_free(s);
    let (done, cur) = lines_acc(s);
    lemma_free_subrange(s, s.len() - cur.len(), s.len() as int);
    if cur.len() > 0 {
        let l = done.push(cur);
        assert forall|j: int| 0 <= j < l.len() implies free_of_think(#[trigger] l[j]) by {
            if j < done.len() {
                assert(l[j] == done[j]);
            }
        }
    }
}

proof fn lemma_empty_free()
    ensures
        free_of_think(Seq::<char>::empty()),
{
}

proof fn lemma_render_free(ls: Seq<Seq<char>>)
    requires
        forall|j: int| 0 <= j < ls.len() ==> free_of_think(#[trigger] ls[j]),
    ensures
        forall|k: int|
            0 <= k < render_lines(ls).0.len() ==> free_of_think(#[trigger] render_lines(ls).0[k]),
    decreases ls.len(),
{
    if ls.len() > 0 {
        let init = ls.drop_last();
        assert forall|j: int| 0 <= j < init.len() implies free_of_think(#[trigger] init[j]) by {
            assert(init[j] == ls[j]);
        }
        lemma_render_free(init);
        let st = render_lines(init);
        let raw = ls.last();
        assert(free_of_think(ls[ls.len() - 1]));
        lemma_trim_free(raw);
        lemma_empty_free();
        let line = trim_end_spec(raw);
        let r = if !(if has_prefix(trim_start_spec(line), "```"@) {
            !st.2
        } else {
            st.2
        }) && line.len() > 0 && line[0] == '#' && st.0.len() > 0 && st.0.last().len() > 0 {
            st.0.push(Seq::empty())
        } else {
            st.0
        };
        assert forall|k: int| 0 <= k < r.len() implies free_of_think(#[trigger] r[k]) by {
            if k < st.0.len() {
                assert(r[k] == st.0[k]);
            }
        }
        let out = render_lines(ls).0;
        assert forall|k: int| 0 <= k < out.len() implies free_of_think(#[trigger] out[k]) by {
            if k < r.len() {
                assert(out[k] == r[k]);
            }
        }
    }
}

proof fn lemma_drop_blank_tail_free(r: Seq<Seq<char>>)
    requires
        forall|j: int| 0 <= j < r.len() ==> free_of_think(#[trigger] r[j]),
    ensures
        forall|k: int| 0 <= k < drop_blank_tail(r).len() ==> free_of_think(#[trigger] drop_blank_tail(r)[k]),
    decreases r.len(),
{
    if r.len() > 0 && r.last().len() == 0 {
        let init = r.drop_last();
        assert forall|j: int| 0 <= j < init.len() implies free_of_think(#[trigger] init[j]) by {
            assert(init[j] == r[j]);
        }
        lemma_drop_blank_tail_free(init);
        assert(drop_blank_tail(r) == drop_blank_tail(init));
    }
}

proof fn lemma_join_free(parts: Seq<Seq<char>>)
    requires
        forall|j: int| 0 <= j < parts.len() ==> free_of_think(#[trigger] parts[j]),
    ensures
        free_of_think(join_spec(parts, "\n"@)),
    decreases parts.len(),
{
    reveal_strlit("\n");
    if parts.len() == 1 {
        assert(free_of_think(parts[0]));
    } else if parts.len() > 1 {
        let init = parts.drop_last();
        assert forall|j: int| 0 <= j < init.len() implies free_of_think(#[trigger] init[j]) by {
            assert(init[j] == parts[j]);
        }
        lemma_join_free(init);
        assert(free_of_think(parts[parts.len() - 1]));
        assert("\n"@ =~= seq!['\n']);
        lemma_free_join_two(join_spec(init, "\n"@), parts.last());
    }
}

/// Formatting a model's reply removes its reasoning: whatever the model
/// wrote, the formatted output holds no `<think>` tag.
pub proof fn law_formatted_output_has_no_think_tag(content: Seq<char>)
    ensures
        free_of_think(format_output_spec(content)),
{
    let stripped = strip_think(unify_newlines(content));
    lemma_strip_think_free(unify_newlines(content));
    lemma_trim_free(stripped);
    let body = unfence(trim_spec(stripped));
    lemma_unfence_free(trim_spec(stripped));
    lemma_lines_free(body);
    lemma_render_free(lines_spec(body));
    lemma_drop_blank_tail_free(render_lines(lines_spec(body)).0);
    lemma_join_free(drop_blank_tail(render_lines(lines_spec(body)).0));
    let joined = join_spec(drop_blank_tail(render_lines(lines_spec(body)).0), "\n"@);
    if trim_spec(joined).len() == 0 {
        reveal_strlit("模型未返回可展示内容。");
        let e = empty_output_text();
        assert forall|i: int| !#[trigger] match_at(e, open_tag(), i) by {
            if match_at(e, open_tag(), i) {
                assert(e.subrange(i, i + 7)[0] == e[i]);
            }
        }
    }
}

} // verus!
