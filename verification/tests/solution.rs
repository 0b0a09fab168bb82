use pada::agent::llm::{CallTimings, LlmResponse, ResponseDetails};
use pada::agent::model_task::ModelTaskOutcome;
use pada::agent::solution::{
    budget_hint, call_limit_hint, cancelled_hint, failed_hint, format_model_output,
    hint_after_model, hint_level_number, model_enriches, plan_model_hint, stable_context_key,
    stable_evidence_key, ModelHintPlan,
};
use pada::config::effort::{EffortMode, EffortPolicy, ModelCallBudget};
use pada::error::PadaError;
use pada::models::HintLevel;

fn response(content: &str) -> LlmResponse {
    LlmResponse {
        details: ResponseDetails::default(),
        timings: CallTimings::default(),
        content: content.to_string(),
        input_tokens: 0,
        output_tokens: 0,
        model: String::new(),
    }
}

#[test]
fn only_levels_three_to_five_are_enriched() {
    assert!(!model_enriches(HintLevel::Category));
    assert!(!model_enriches(HintLevel::Location));
    assert!(model_enriches(HintLevel::Concept));
    assert!(model_enriches(HintLevel::Direction));
    assert!(model_enriches(HintLevel::Solution));
    assert_eq!(hint_level_number(HintLevel::Direction), 4);
}

#[test]
fn fixed_hints_have_their_texts() {
    let h = call_limit_hint(HintLevel::Concept, 3);
    assert_eq!(h.level, HintLevel::Concept);
    assert_eq!(h.content, "当前思考模式最多允许 3 次模型调用；本轮其余问题保留 Rust 基础诊断。");
    assert_eq!(budget_hint().content, "Token 预算已用尽，未调用 LLM。请提高 --budget 后重试。");
    assert_eq!(budget_hint().level, HintLevel::Solution);
    assert_eq!(cancelled_hint().content, "模型提示生成已取消。可以再次使用 show 或 hint 5 重试。");
    let f = failed_hint(PadaError::Llm("timeout".into()));
    assert_eq!(f.content, "LLM 参考方案生成失败：模型调用失败: timeout。请检查 endpoint、API key 和网络。");
}

#[test]
fn fnv_keys_are_the_known_values() {
    assert_eq!(stable_context_key(""), 0xcbf29ce484222325);
    assert_eq!(stable_context_key("a"), 0xaf63dc4c8601ec8c);
    assert_eq!(stable_evidence_key(""), "cbf29ce484222325");
    assert_eq!(stable_evidence_key("a"), "af63dc4c8601ec8c");
}

#[test]
fn model_output_is_cleaned() {
    assert_eq!(format_model_output("<think>plan</think>\r\n答案"), "答案");
    assert_eq!(format_model_output("```markdown\n# 标题\n内容\n```"), "# 标题\n内容");
    assert_eq!(format_model_output("a  \n\n\n\nb\n\n"), "a\n\nb");
    assert_eq!(format_model_output("段落\n## 小节"), "段落\n\n## 小节");
    assert_eq!(format_model_output("text<think>never closed"), "text");
    assert_eq!(format_model_output("   "), "模型未返回可展示内容。");
    assert_eq!(format_model_output("```rust\n# not heading\n```"), "```rust\n# not heading\n```");
}

#[test]
fn the_plan_follows_cache_budget_and_limit() {
    let policy = EffortPolicy::for_mode(EffortMode::Low);
    let mut budget = ModelCallBudget::new(policy);
    assert!(matches!(plan_model_hint(HintLevel::Location, false, true, &mut budget, 1), ModelHintPlan::NotEnriched));
    assert!(matches!(plan_model_hint(HintLevel::Concept, true, true, &mut budget, 1), ModelHintPlan::Cached));
    assert!(matches!(plan_model_hint(HintLevel::Concept, false, false, &mut budget, 1), ModelHintPlan::Keep));
    match plan_model_hint(HintLevel::Solution, false, false, &mut budget, 1) {
        ModelHintPlan::Replace(h) => assert_eq!(h, budget_hint()),
        _ => panic!("expected the budget hint"),
    }
    assert_eq!(budget.used(), 0);
    let limit = policy.max_model_calls;
    for _ in 0..limit {
        assert!(matches!(plan_model_hint(HintLevel::Direction, false, true, &mut budget, limit), ModelHintPlan::CallModel));
    }
    match plan_model_hint(HintLevel::Direction, false, true, &mut budget, limit) {
        ModelHintPlan::Replace(h) => assert_eq!(h, call_limit_hint(HintLevel::Direction, limit)),
        _ => panic!("expected the call limit hint"),
    }
    assert_eq!(budget.used(), limit);
}

#[test]
fn outcomes_give_hints() {
    let (h, stop) = hint_after_model(HintLevel::Concept, ModelTaskOutcome::Completed(Ok(response("<think>x</think>好"))));
    assert_eq!(h.unwrap().content, "好");
    assert!(!stop);
    let (h, stop) = hint_after_model(HintLevel::Concept, ModelTaskOutcome::Completed(Err(PadaError::Llm("x".into()))));
    assert!(h.is_none());
    assert!(!stop);
    let (h, stop) = hint_after_model(HintLevel::Solution, ModelTaskOutcome::Cancelled);
    assert_eq!(h.unwrap(), cancelled_hint());
    assert!(stop);
}

#[test]
fn no_reasoning_tag_survives_formatting() {
    assert_eq!(format_model_output("<thi<think>x</think>nk>答案"), "模型未返回可展示内容。");
    assert_eq!(format_model_output("a<think>1</think>b<think>2</think>c"), "abc");
    assert!(!format_model_output("```md\n<think>r</think>## 标题\n```").contains("<think>"));
}
