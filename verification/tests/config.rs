use pada::error::PadaError;
use pada::config::effort::{EffortMode, EffortPolicy, EffortSignals, ModelCallBudget, ModelTaskKind};
use pada::config::model::{normalize_chat_endpoint, Config, ModelConfig, OutputLimits, ReasoningProtocol};
use pada::config::wizard::{api_key_accepted, endpoint_is_http, mask_key, menu_choice, preset_choice, prompt_answer, prompt_bool, prompt_parse, MenuChoice};

#[test]
fn effort_modes_parse_and_name() {
    assert_eq!(EffortMode::parse(" HIGH "), Ok(EffortMode::High));
    assert_eq!(EffortMode::parse("turbo"), Err("无效思考模式「turbo」；可选 auto/low/medium/high/xhigh/max".to_string()));
    assert_eq!(EffortMode::Xhigh.as_str(), "xhigh");
    assert_eq!("max".parse::<EffortMode>(), Ok(EffortMode::Max));
}

#[test]
fn concrete_modes_ignore_signals_and_auto_scores_them() {
    let quiet = EffortSignals::default();
    assert_eq!(EffortMode::Low.resolve(quiet).mode, EffortMode::Low);
    assert_eq!(EffortMode::Auto.resolve(quiet).mode, EffortMode::Low);
    assert_eq!(EffortMode::Auto.initial_policy().mode, EffortMode::Medium);
}

#[test]
fn the_policy_summary_reads_well() {
    assert_eq!(
        EffortPolicy::for_mode(EffortMode::Low).summary(),
        "low：推理基准=low（按接口/任务适配），模型调用≤1，源码≤2 文件/21 行窗口，测试=关闭，二次验证=0 次"
    );
}

#[test]
fn the_call_budget_counts_down() {
    let mut b = ModelCallBudget::new(EffortPolicy::for_mode(EffortMode::Low));
    assert_eq!(b.remaining(), 1);
    assert!(b.try_take());
    assert!(!b.try_take());
    assert_eq!(b.used(), 1);
    assert_eq!(b.remaining(), 0);
}

#[test]
fn endpoints_are_normalized() {
    assert_eq!(normalize_chat_endpoint("http://localhost:11434"), "http://localhost:11434/v1/chat/completions");
    assert_eq!(normalize_chat_endpoint("https://api.deepseek.com/v1/chat/completions"), "https://api.deepseek.com/v1/chat/completions");
}

#[test]
fn providers_are_recognized() {
    let local = ModelConfig::local("gpt-oss:20b".into(), 8192);
    assert!(local.is_ollama());
    assert!(!local.is_deepseek());
    assert_eq!(local.resolved_reasoning_protocol(), ReasoningProtocol::Ollama);
    assert!(local.is_ollama_gpt_oss());
    let limits = OutputLimits::default();
    assert!(limits.for_task(ModelTaskKind::General) > 0);
}

#[test]
fn wizard_answers() {
    assert_eq!(prompt_answer("  \n", "1"), "1");
    assert_eq!(prompt_answer(" 2 \n", "1"), "2");
    assert_eq!(prompt_bool("y/N", false), Some(false));
    assert_eq!(prompt_bool("YES", false), Some(true));
    assert_eq!(prompt_bool("0", true), Some(false));
    assert_eq!(prompt_bool("maybe", true), None);
    assert_eq!(prompt_parse("+42"), Some(42));
    assert_eq!(prompt_parse("4x"), None);
    assert_eq!(menu_choice("0", 2), MenuChoice::Cancel);
    assert_eq!(menu_choice("1", 2), MenuChoice::Configure);
    assert_eq!(menu_choice("3", 2), MenuChoice::Switch(1));
    assert_eq!(menu_choice("4", 2), MenuChoice::Invalid);
    assert_eq!(preset_choice("3"), Some(3));
    assert_eq!(preset_choice("4"), None);
    assert!(endpoint_is_http("https://x"));
    assert!(!endpoint_is_http("ftp://x"));
    assert!(!api_key_accepted(1, ""));
    assert!(api_key_accepted(2, ""));
}

#[test]
fn keys_are_masked() {
    assert_eq!(mask_key(""), "（未设置）");
    assert_eq!(mask_key("12345678"), "********");
    assert_eq!(mask_key("sk-abcdefgh1234"), "sk-a…1234");
}

#[test]
fn profiles_are_kept_by_name_in_order() {
    let mut c: Config<u32> = Config::new();
    assert_eq!(c.active_profile(), "");
    assert!(c.profile_names().is_empty());
    c.set_profile("local".into(), 1);
    c.set_profile("deepseek".into(), 2);
    c.set_profile("custom".into(), 3);
    c.set_profile("local".into(), 4);
    assert_eq!(c.profile_names(), vec!["custom".to_string(), "deepseek".into(), "local".into()]);
    assert_eq!(c.get("local"), Some(&4));
    assert_eq!(c.get("remote"), None);
}

#[test]
fn the_active_profile_is_switched_only_to_a_known_name() {
    let mut c: Config<u32> = Config::new();
    c.set_profile("b".into(), 2);
    c.set_profile("a".into(), 1);
    assert_eq!(c.active(), Err(PadaError::Config("profile '' 不存在".into())));
    assert_eq!(c.switch("b"), Ok(()));
    assert_eq!(c.active(), Ok(&2));
    assert_eq!(c.switch("x"), Err(PadaError::Config("profile 'x' 不存在，可用: a, b".into())));
    assert_eq!(c.active_profile(), "b");
    c.set_active_profile("gone".into());
    assert_eq!(c.active(), Err(PadaError::Config("profile 'gone' 不存在".into())));
}

#[test]
fn effort_modes_parse_through_from_str() {
    assert_eq!(" XHigh ".parse::<EffortMode>(), Ok(EffortMode::Xhigh));
    assert_eq!("auto".parse::<EffortMode>(), EffortMode::parse("auto"));
    assert_eq!("fast".parse::<EffortMode>(), EffortMode::parse("fast"));
    assert!("fast".parse::<EffortMode>().is_err());
}
