//! Model configuration: protocols, output limits, endpoints.
use crate::config::effort::ModelTaskKind;
use crate::error::PadaError;
use crate::models::HintLevel;
use crate::text::{
    after_last, after_last_exec, before_first, before_first_exec, chars_of, contains_spec,
    contains_str, eq_str, find_spec, has_prefix, has_suffix, lower_seq, push_chars, push_str,
    split_once_spec, split_once_str, starts_with_str, ends_with_str, string_of, to_ascii_lower,
    trim, trim_end_char, trim_end_char_spec, trim_end_spec, trim_spec, trim_start_spec, find_char,
    lemma_find, slice_chars, join_chars, join_spec, lemma_lex_total, lemma_lex_transitive, lex_less, lex_lt,
    push_clone, string_from, views, chars_eq,
};
use vstd::prelude::*;

verus! {

/// How a Chat Completions service is asked to think.
#[derive(Debug, Clone, Copy, PartialEq, Eq, Structural)]
pub enum ReasoningProtocol {
    Auto,
    Deepseek,
    Ollama,
    EnableThinking,
    Compatible,
}

impl Default for ReasoningProtocol {
    fn default() -> (r: Self)
        ensures
            r == ReasoningProtocol::Auto,
    {
        ReasoningProtocol::Auto
    }
}

/// Upper bounds on the tokens a service may produce for each kind of task.
#[derive(Debug, Clone, Copy, PartialEq, Eq, Structural)]
pub struct OutputLimits {
    pub mapping: usize,
    pub concept: usize,
    pub direction: usize,
    pub solution: usize,
    pub test_generation: usize,
}

impl Default for OutputLimits {
    fn default() -> (r: Self)
        ensures
            r == (OutputLimits {
                mapping: 2048,
                concept: 2048,
                direction: 3072,
                solution: 4096,
                test_generation: 8192,
            }),
    {
        OutputLimits {
            mapping: 2048,
            concept: 2048,
            direction: 3072,
            solution: 4096,
            test_generation: 8192,
        }
    }
}

pub open spec fn at_least_one(n: usize) -> usize {
    if n == 0 {
        1
    } else {
        n
    }
}

pub open spec fn saturating_mul(a: usize, b: usize) -> usize {
    if a * b > usize::MAX {
        usize::MAX
    } else {
        (a * b) as usize
    }
}

pub open spec fn clamp_count(count: usize) -> usize {
    if count < 1 {
        1
    } else if count > 8 {
        8
    } else {
        count
    }
}

/// The limit for a single-hint task of the given level.
pub open spec fn hint_limit(l: OutputLimits, level: HintLevel) -> usize {
    at_least_one(
        match level {
            HintLevel::Concept => l.concept,
            HintLevel::Direction => l.direction,
            _ => l.solution,
        },
    )
}

/// The output limit of a task: its own field, at least 1; a batch of hints gets
/// the single-hint limit times the batch size (counted as 1 to 8), saturating.
pub open spec fn task_limit(l: OutputLimits, task: ModelTaskKind) -> usize {
    at_least_one(
        match task {
            ModelTaskKind::KnowledgeMapping => l.mapping,
            ModelTaskKind::Hint(level) => hint_limit(l, level),
            ModelTaskKind::HintBatch { level, count } => saturating_mul(
                hint_limit(l, level),
                clamp_count(count),
            ),
            ModelTaskKind::TestGeneration => l.test_generation,
            ModelTaskKind::General => l.solution,
        },
    )
}

/// The exact product of a count and a factor of at most 8.
fn mul_small(a: usize, b: usize) -> (r: u128)
    requires
        b <= 8,
    ensures
        r == a * b,
{
    assert((a as u128) * (b as u128) <= (usize::MAX as u128) * 8) by (nonlinear_arith)
        requires
            b <= 8,
            a <= usize::MAX,
    ;
    (a as u128) * (b as u128)
}

impl OutputLimits {
    pub fn for_task(&self, task: ModelTaskKind) -> (r: usize)
        ensures
            r == task_limit(*self, task),
            r >= 1,
    {
        let v = match task {
            ModelTaskKind::KnowledgeMapping => self.mapping,
            ModelTaskKind::Hint(HintLevel::Concept) => self.concept,
            ModelTaskKind::Hint(HintLevel::Direction) => self.direction,
            ModelTaskKind::HintBatch { level, count } => {
                let raw = match level {
                    HintLevel::Concept => self.concept,
                    HintLevel::Direction => self.direction,
                    _ => self.solution,
                };
                let base = if raw < 1 {
                    1
                } else {
                    raw
                };
                let c = if count < 1 {
                    1
                } else if count > 8 {
                    8
                } else {
                    count
                };
                let prod: u128 = mul_small(base, c);
                if prod > usize::MAX as u128 {
                    usize::MAX
                } else {
                    prod as usize
                }
            },
            ModelTaskKind::TestGeneration => self.test_generation,
            _ => self.solution,
        };
        if v < 1 {
            1
        } else {
            v
        }
    }
}

/// The model settings that the library's logic reads. Prices are kept by the
/// application alongside these settings.
#[derive(Debug, Clone, PartialEq, Eq)]
pub struct ModelConfig {
    /// Endpoint URL (an OpenAI-compatible chat completions service).
    pub endpoint: String,
    /// API key (may be empty for local models).
    pub api_key: String,
    /// Model name.
    pub model_name: String,
    /// Context length in tokens.
    pub context_length: usize,
    /// Whether reasoning is requested.
    pub reasoning: bool,
    pub reasoning_protocol: ReasoningProtocol,
    pub output_limits: OutputLimits,
}

// ------------------------------------------------------------------
// Endpoints
// ------------------------------------------------------------------

/// Completes a service root (`http://localhost:11434`) or an API root (`.../v1`)
/// to a Chat Completions endpoint; a full path is kept.
pub open spec fn normalize_spec(endpoint: Seq<char>) -> Seq<char> {
    let e = trim_end_char_spec(trim_spec(endpoint), '/');
    if has_suffix(e, "/chat/completions"@) {
        e
    } else if has_suffix(e, "/v1"@) {
        e + "/chat/completions"@
    } else {
        let has_path = match split_once_spec(e, "://"@) {
            Some((_, rest)) => contains_spec(rest, "/"@),
            None => contains_spec(e, "/"@),
        };
        if !has_path {
            e + "/v1/chat/completions"@
        } else {
            e
        }
    }
}

/// An endpoint that already is a full Chat Completions URL (with nothing
/// around it) is used as it is.
pub proof fn law_full_endpoint_is_kept(endpoint: Seq<char>)
    requires
        has_suffix(endpoint, "/chat/completions"@),
        !crate::text::is_ws(endpoint[0]),
    ensures
        normalize_spec(endpoint) == endpoint,
{
    reveal_strlit("/chat/completions");
    let n = "/chat/completions"@.len();
    assert(endpoint.last() == endpoint.subrange(endpoint.len() - n, endpoint.len() as int)[n - 1]);
    assert(endpoint.last() == 's');
    assert(trim_start_spec(endpoint) == endpoint);
    assert(trim_end_spec(endpoint) == endpoint);
    assert(trim_end_char_spec(endpoint, '/') == endpoint);
}

/// Completes an endpoint to a Chat Completions URL.
pub fn normalize_chat_endpoint(endpoint: &str) -> (r: String)
    ensures
        r@ == normalize_spec(endpoint@),
{
    let raw = chars_of(endpoint);
    let t = trim(&raw);
    let e = trim_end_char(&t, '/');
    if ends_with_str(&e, "/chat/completions") {
        return string_of(&e);
    }
    if ends_with_str(&e, "/v1") {
        let mut out = string_of(&e);
        push_str(&mut out, "/chat/completions");
        return out;
    }
    let has_path = match split_once_str(&e, "://") {
        Some((_, rest)) => contains_str(&rest, "/"),
        None => contains_str(&e, "/"),
    };
    if !has_path {
        let mut out = string_of(&e);
        push_str(&mut out, "/v1/chat/completions");
        out
    } else {
        string_of(&e)
    }
}

/// The authority part of an URL: after `://`, up to the first `/`, `?` or `#`.
pub open spec fn authority_spec(rest: Seq<char>) -> Seq<char> {
    before_first(before_first(before_first(rest, '/'), '?'), '#')
}

/// The endpoint's host is `api.deepseek.com`, ignoring ASCII case: the
/// authority after `://`, without user info (up to the last `@`) and port.
pub open spec fn is_deepseek_spec(endpoint: Seq<char>) -> bool {
    match split_once_spec(trim_spec(endpoint), "://"@) {
        None => false,
        Some((_, rest)) => {
            let host = before_first(after_last(authority_spec(rest), '@'), ':');
            lower_seq(host) == lower_seq("api.deepseek.com"@)
        },
    }
}

/// The endpoint's authority (lower-cased, after `://` when present, up to the
/// first `/`) ends in port `11434`, Ollama's default.
pub open spec fn is_ollama_spec(endpoint: Seq<char>) -> bool {
    let e = lower_seq(trim_spec(endpoint));
    let rest = match split_once_spec(e, "://"@) {
        Some((_, r)) => r,
        None => e,
    };
    let authority = before_first(rest, '/');
    contains_spec(authority, ":"@) && after_last(authority, ':') == "11434"@
}

pub open spec fn resolved_protocol_spec(p: ReasoningProtocol, endpoint: Seq<char>) -> ReasoningProtocol {
    match p {
        ReasoningProtocol::Auto => if is_deepseek_spec(endpoint) {
            ReasoningProtocol::Deepseek
        } else if is_ollama_spec(endpoint) {
            ReasoningProtocol::Ollama
        } else {
            ReasoningProtocol::Compatible
        },
        other => other,
    }
}

/// The model name (lower-cased, after its last `/`) is `gpt-oss` or a tagged
/// or suffixed `gpt-oss`, served through the Ollama protocol.
pub open spec fn is_gpt_oss_spec(c: ModelConfig) -> bool {
    let name = after_last(lower_seq(c.model_name@), '/');
    resolved_protocol_spec(c.reasoning_protocol, c.endpoint@) == ReasoningProtocol::Ollama && (
    name == "gpt-oss"@ || has_prefix(name, "gpt-oss:"@) || has_prefix(name, "gpt-oss-"@))
}

pub open spec fn notice_spec(c: ModelConfig) -> Seq<char> {
    if is_gpt_oss_spec(c) && !c.reasoning {
        "GPT-OSS 无法完全关闭思考，将使用 low 降低推理强度。"@
    } else {
        let p = resolved_protocol_spec(c.reasoning_protocol, c.endpoint@);
        if (p == ReasoningProtocol::Compatible || p == ReasoningProtocol::Auto) && !c.reasoning {
            "当前兼容协议仅省略推理参数，无法保证服务端关闭思考；如需控制，请选择服务支持的思考协议。"@
        } else if p == ReasoningProtocol::Compatible || p == ReasoningProtocol::Auto {
            "将请求兼容推理参数；请确认服务支持，开启后可能增加等待时间和 Token 费用。"@
        } else if c.reasoning {
            "将请求开启思考，可能增加等待时间和 Token 费用；复杂分析时再开启。"@
        } else {
            "将显式请求关闭思考；是否生效取决于服务版本和模型是否支持切换。"@
        }
    }
}

fn before_first_of_three(s: &Vec<char>) -> (r: Vec<char>)
    ensures
        r@ == authority_spec(s@),
{
    let a = before_first_exec(s, '/');
    let b = before_first_exec(&a, '?');
    before_first_exec(&b, '#')
}

impl ModelConfig {
    /// Settings of a local Ollama model.
    pub fn local(model_name: String, context_length: usize) -> (r: Self)
        ensures
            r.endpoint@ == "http://localhost:11434/v1/chat/completions"@,
            r.api_key@ == Seq::<char>::empty(),
            r.model_name@ == model_name@,
            r.context_length == context_length,
            !r.reasoning,
            r.reasoning_protocol == ReasoningProtocol::Auto,
            r.output_limits == (OutputLimits {
                mapping: 2048,
                concept: 2048,
                direction: 3072,
                solution: 4096,
                test_generation: 8192,
            }),
    {
        ModelConfig {
            endpoint: crate::text::string_from("http://localhost:11434/v1/chat/completions"),
            api_key: String::new(),
            model_name,
            context_length,
            reasoning: false,
            reasoning_protocol: ReasoningProtocol::Auto,
            output_limits: OutputLimits::default(),
        }
    }

    /// The Chat Completions URL to call.
    pub fn chat_endpoint(&self) -> (r: String)
        ensures
            r@ == normalize_spec(self.endpoint@),
    {
        normalize_chat_endpoint(self.endpoint.as_str())
    }

    /// Only the official DeepSeek host gets DeepSeek's own parameters.
    pub fn is_deepseek(&self) -> (r: bool)
        ensures
            r == is_deepseek_spec(self.endpoint@),
    {
        let raw = chars_of(self.endpoint.as_str());
        let e = trim(&raw);
        match split_once_str(&e, "://") {
            None => false,
            Some((_, rest)) => {
                let authority = before_first_of_three(&rest);
                let no_user = after_last_exec(&authority, '@');
                let host = before_first_exec(&no_user, ':');
                let lh = to_ascii_lower(&host);
                let target = chars_of("api.deepseek.com");
                let lt = to_ascii_lower(&target);
                crate::text::chars_eq(&lh, &lt)
            },
        }
    }

    /// Whether the endpoint uses Ollama's default port.
    pub fn is_ollama(&self) -> (r: bool)
        ensures
            r == is_ollama_spec(self.endpoint@),
    {
        let raw = chars_of(self.endpoint.as_str());
        let t = trim(&raw);
        let e = to_ascii_lower(&t);
        let rest = match split_once_str(&e, "://") {
            Some((_, r)) => r,
            None => e,
        };
        let authority = before_first_exec(&rest, '/');
        if !contains_str(&authority, ":") {
            return false;
        }
        let port = after_last_exec(&authority, ':');
        eq_str(&port, "11434")
    }

    /// The protocol in use: `Auto` becomes DeepSeek's, Ollama's or the compatible one.
    pub fn resolved_reasoning_protocol(&self) -> (r: ReasoningProtocol)
        ensures
            r == resolved_protocol_spec(self.reasoning_protocol, self.endpoint@),
    {
        match self.reasoning_protocol {
            ReasoningProtocol::Auto => if self.is_deepseek() {
                ReasoningProtocol::Deepseek
            } else if self.is_ollama() {
                ReasoningProtocol::Ollama
            } else {
                ReasoningProtocol::Compatible
            },
            protocol => protocol,
        }
    }

    pub fn is_ollama_gpt_oss(&self) -> (r: bool)
        ensures
            r == is_gpt_oss_spec(*self),
    {
        let raw = chars_of(self.model_name.as_str());
        let model = to_ascii_lower(&raw);
        let name = after_last_exec(&model, '/');
        self.resolved_reasoning_protocol() == ReasoningProtocol::Ollama && (eq_str(&name, "gpt-oss")
            || starts_with_str(&name, "gpt-oss:") || starts_with_str(&name, "gpt-oss-"))
    }

    /// What the reasoning setting will do with this service.
    pub fn reasoning_notice(&self) -> (r: &'static str)
        ensures
            r@ == notice_spec(*self),
    {
        if self.is_ollama_gpt_oss() && !self.reasoning {
            return "GPT-OSS 无法完全关闭思考，将使用 low 降低推理强度。";
        }
        let p = self.resolved_reasoning_protocol();
        if (p == ReasoningProtocol::Compatible || p == ReasoningProtocol::Auto) && !self.reasoning {
            "当前兼容协议仅省略推理参数，无法保证服务端关闭思考；如需控制，请选择服务支持的思考协议。"
        } else if p == ReasoningProtocol::Compatible || p == ReasoningProtocol::Auto {
            "将请求兼容推理参数；请确认服务支持，开启后可能增加等待时间和 Token 费用。"
        } else if self.reasoning {
            "将请求开启思考，可能增加等待时间和 Token 费用；复杂分析时再开启。"
        } else {
            "将显式请求关闭思考；是否生效取决于服务版本和模型是否支持切换。"
        }
    }
}

// ------------------------------------------------------------------
// Named profiles
// ------------------------------------------------------------------

/// Each name comes before the next one: names in order, each at most once.
pub open spec fn strictly_sorted(s: Seq<Seq<char>>) -> bool {
    forall|i: int, j: int| 0 <= i < j < s.len() ==> lex_lt(#[trigger] s[i], #[trigger] s[j])
}

/// The names of the entries, in order.
pub open spec fn entry_names<P>(e: Seq<(String, P)>) -> Seq<Seq<char>> {
    e.map_values(|x: (String, P)| x.0@)
}

/// In a sorted list a name is found at one position only.
proof fn lemma_sorted_index(s: Seq<Seq<char>>, j: int)
    requires
        strictly_sorted(s),
        0 <= j < s.len(),
    ensures
        s.contains(s[j]),
        s.index_of(s[j]) == j,
{
    assert(s[j] == s[j]);
    let i = s.index_of(s[j]);
    lemma_lex_total(s[j], s[j]);
    if i != j {
        if i < j {
            assert(lex_lt(s[i], s[j]));
        } else {
            assert(lex_lt(s[j], s[i]));
        }
    }
}

/// The model profiles by name, and the name of the one in use.
#[derive(Debug)]
pub struct Config<P> {
    active_profile: String,
    entries: Vec<(String, P)>,
}

impl<P> Config<P> {
    #[verifier::type_invariant]
    spec fn names_in_order(self) -> bool {
        strictly_sorted(entry_names(self.entries@))
    }

    /// The profile names, in order.
    pub closed spec fn names(self) -> Seq<Seq<char>> {
        entry_names(self.entries@)
    }

    /// The name of the active profile.
    pub closed spec fn active_name(self) -> Seq<char> {
        self.active_profile@
    }

    /// The profiles by name.
    pub closed spec fn profiles(self) -> Map<Seq<char>, P> {
        Map::new(
            |k: Seq<char>| entry_names(self.entries@).contains(k),
            |k: Seq<char>| self.entries@[entry_names(self.entries@).index_of(k)].1,
        )
    }

    /// An empty configuration: no profile, and no active name.
    pub fn new() -> (r: Self)
        ensures
            r.profiles() == Map::<Seq<char>, P>::empty(),
            r.names() == Seq::<Seq<char>>::empty(),
            r.active_name() == Seq::<char>::empty(),
    {
        let r = Config { active_profile: String::new(), entries: Vec::new() };
        assert(r.profiles() =~= Map::<Seq<char>, P>::empty());
        assert(r.names() =~= Seq::<Seq<char>>::empty());
        r
    }

    /// The name of the active profile, which need not be one of the profiles.
    pub fn active_profile(&self) -> (r: &str)
        ensures
            r@ == self.active_name(),
    {
        self.active_profile.as_str()
    }

    /// Names the active profile, as a configuration file does.
    pub fn set_active_profile(&mut self, name: String)
        ensures
            final(self).active_name() == name@,
            final(self).profiles() == old(self).profiles(),
            final(self).names() == old(self).names(),
    {
        proof {
            use_type_invariant(&*self);
        }
        self.active_profile = name;
    }

    /// The profile with this name, if there is one.
    pub fn get(&self, name: &str) -> (r: Option<&P>)
        ensures
            r is Some <==> self.profiles().dom().contains(name@),
            r matches Some(p) ==> *p == self.profiles()[name@],
    {
        proof {
            use_type_invariant(self);
        }
        let key = chars_of(name);
        let mut i: usize = 0;
        while i < self.entries.len()
            invariant
                i <= self.entries@.len(),
                key@ == name@,
                strictly_sorted(entry_names(self.entries@)),
                forall|j: int| 0 <= j < i ==> entry_names(self.entries@)[j] != name@,
            decreases self.entries.len() - i,
        {
            let n = chars_of(self.entries[i].0.as_str());
            if chars_eq(&n, &key) {
                proof {
                    lemma_sorted_index(entry_names(self.entries@), i as int);
                }
                return Some(&self.entries[i].1);
            }
            i = i + 1;
        }
        None
    }

    /// The active profile, or an error when no profile has its name.
    pub fn active(&self) -> (r: Result<&P, PadaError>)
        ensures
            self.profiles().dom().contains(self.active_name()) ==> (r matches Ok(p) && *p
                == self.profiles()[self.active_name()]),
            !self.profiles().dom().contains(self.active_name()) ==> (r matches Err(PadaError::Config(m))
                && m@ == "profile '"@ + self.active_name() + "' 不存在"@),
    {
        match self.get(self.active_profile.as_str()) {
            Some(p) => Ok(p),
            None => {
                let mut m = string_from("profile '");
                push_str(&mut m, self.active_profile.as_str());
                push_str(&mut m, "' 不存在");
                Err(PadaError::Config(m))
            },
        }
    }

    /// The names as character vectors, in order.
    fn name_chars(&self) -> (r: Vec<Vec<char>>)
        ensures
            views(r@) == self.names(),
    {
        let mut out: Vec<Vec<char>> = Vec::new();
        let mut i: usize = 0;
        while i < self.entries.len()
            invariant
                i <= self.entries@.len(),
                views(out@) == entry_names(self.entries@).take(i as int),
            decreases self.entries.len() - i,
        {
            let ghost before = views(out@);
            out.push(chars_of(self.entries[i].0.as_str()));
            assert(entry_names(self.entries@)[i as int] == self.entries@[i as int].0@);
            assert(views(out@) =~= before.push(self.entries@[i as int].0@));
            assert(entry_names(self.entries@).take(i + 1) =~= entry_names(self.entries@).take(i as int).push(
                self.entries@[i as int].0@,
            ));
            i = i + 1;
        }
        assert(entry_names(self.entries@).take(i as int) =~= entry_names(self.entries@));
        out
    }

    /// Makes the named profile the active one. An unknown name is refused
    /// with the list of the names there are, and nothing changes.
    pub fn switch(&mut self, name: &str) -> (r: Result<(), PadaError>)
        ensures
            old(self).profiles().dom().contains(name@) ==> r is Ok && final(self).active_name() == name@,
            !old(self).profiles().dom().contains(name@) ==> (r matches Err(PadaError::Config(m)) && m@
                == "profile '"@ + name@ + "' 不存在，可用: "@ + join_spec(old(self).names(), ", "@))
                && final(self).active_name() == old(self).active_name(),
            final(self).profiles() == old(self).profiles(),
            final(self).names() == old(self).names(),
    {
        let found = self.get(name).is_some();
        if found {
            self.set_active_profile(string_from(name));
            Ok(())
        } else {
            let names = self.name_chars();
            let mut m = string_from("profile '");
            push_str(&mut m, name);
            push_str(&mut m, "' 不存在，可用: ");
            let list = join_chars(&names, ", ");
            push_str(&mut m, list.as_str());
            Err(PadaError::Config(m))
        }
    }

    /// Adds a profile under `name`, or replaces the one of that name.
    pub fn set_profile(&mut self, name: String, config: P)
        ensures
            final(self).profiles() == old(self).profiles().insert(name@, config),
            final(self).active_name() == old(self).active_name(),
    {
        proof {
            use_type_invariant(&*self);
        }
        let ghost old_names = entry_names(self.entries@);
        let ghost old_profiles = self.profiles();
        let ghost old_entries = self.entries@;
        let key = chars_of(name.as_str());
        let mut i: usize = 0;
        loop
            invariant
                i <= self.entries@.len(),
                key@ == name@,
                entry_names(self.entries@) == old_names,
                strictly_sorted(old_names),
                forall|j: int| 0 <= j < i ==> lex_lt(#[trigger] old_names[j], key@),
            ensures
                i <= self.entries@.len(),
                entry_names(self.entries@) == old_names,
                forall|j: int| 0 <= j < i ==> lex_lt(#[trigger] old_names[j], key@),
                i < self.entries@.len() ==> !lex_lt(old_names[i as int], key@),
            decreases self.entries.len() - i,
        {
            if i == self.entries.len() {
                break;
            }
            let n = chars_of(self.entries[i].0.as_str());
            assert(old_names[i as int] == self.entries@[i as int].0@);
            if !lex_less(&n, &key) {
                break;
            }
            i = i + 1;
        }
        let same = if i < self.entries.len() {
            let n = chars_of(self.entries[i].0.as_str());
            assert(old_names[i as int] == self.entries@[i as int].0@);
            chars_eq(&n, &key)
        } else {
            false
        };
        let mut entries: Vec<(String, P)> = Vec::new();
        std::mem::swap(&mut entries, &mut self.entries);
        if same {
            entries.set(i, (name, config));
            assert(entry_names(entries@) =~= old_names);
            self.entries = entries;
            proof {
                let nn = entry_names(self.entries@);
                assert forall|k: Seq<char>| #[trigger] self.profiles().dom().contains(k) == old_profiles.insert(
                    key@,
                    config,
                ).dom().contains(k) by {}
                assert forall|k: Seq<char>| #[trigger] self.profiles().dom().contains(k) implies self.profiles()[k]
                    == old_profiles.insert(key@, config)[k] by {
                    let j = nn.index_of(k);
                    lemma_sorted_index(nn, j);
                    lemma_sorted_index(old_names, j);
                }
                assert(self.profiles() =~= old_profiles.insert(key@, config));
            }
        } else {
            entries.insert(i, (name, config));
            let ghost nn = entry_names(entries@);
            proof {
                assert(nn =~= old_names.insert(i as int, key@));
                if i < old_names.len() {
                    lemma_lex_total(old_names[i as int], key@);
                    assert(lex_lt(key@, old_names[i as int]));
                    assert forall|j: int| i < j < old_names.len() implies lex_lt(key@, #[trigger] old_names[j]) by {
                        lemma_lex_transitive(key@, old_names[i as int], old_names[j]);
                    }
                }
                assert forall|a: int, b: int| 0 <= a < b < nn.len() implies lex_lt(#[trigger] nn[a], #[trigger] nn[b]) by {
                    if a < i && b < i {
                        assert(nn[a] == old_names[a] && nn[b] == old_names[b]);
                    } else if a < i && b == i {
                    } else if a < i {
                        assert(nn[b] == old_names[b - 1]);
                        lemma_lex_transitive(old_names[a], key@, old_names[b - 1]);
                    } else if a == i {
                        assert(nn[b] == old_names[b - 1]);
                    } else {
                        assert(nn[a] == old_names[a - 1] && nn[b] == old_names[b - 1]);
                    }
                }
                assert(strictly_sorted(nn));
            }
            self.entries = entries;
            proof {
                assert forall|k: Seq<char>| #[trigger] self.profiles().dom().contains(k) == old_profiles.insert(
                    key@,
                    config,
                ).dom().contains(k) by {
                    if old_names.contains(k) {
                        let j = old_names.index_of(k);
                        if j < i {
                            assert(nn[j] == k);
                        } else {
                            assert(nn[j + 1] == k);
                        }
                    }
                    if nn.contains(k) && k != key@ {
                        let j = nn.index_of(k);
                        if j < i {
                            assert(old_names[j] == k);
                        } else {
                            assert(old_names[j - 1] == k);
                        }
                    }
                    assert(nn[i as int] == key@);
                }
                assert forall|k: Seq<char>| #[trigger] self.profiles().dom().contains(k) implies self.profiles()[k]
                    == old_profiles.insert(key@, config)[k] by {
                    let j = nn.index_of(k);
                    lemma_sorted_index(nn, j);
                    lemma_sorted_index(nn, i as int);
                    assert(self.entries@ == old_entries.insert(i as int, (name, config)));
                    if j < i {
                        lemma_sorted_index(old_names, j);
                        assert(self.entries@[j] == old_entries[j]);
                    } else if j > i {
                        lemma_sorted_index(old_names, j - 1);
                        assert(self.entries@[j] == old_entries[j - 1]);
                    }
                }
                assert(self.profiles() =~= old_profiles.insert(key@, config));
            }
        }
    }

    /// The profile names in order (each once).
    pub fn profile_names(&self) -> (r: Vec<String>)
        ensures
            r@.map_values(|s: String| s@) == self.names(),
            strictly_sorted(self.names()),
            forall|k: Seq<char>| self.names().contains(k) <==> self.profiles().dom().contains(k),
    {
        proof {
            use_type_invariant(self);
        }
        let mut out: Vec<String> = Vec::new();
        let mut i: usize = 0;
        while i < self.entries.len()
            invariant
                i <= self.entries@.len(),
                out@.map_values(|s: String| s@) == entry_names(self.entries@).take(i as int),
            decreases self.entries.len() - i,
        {
            let ghost before = out@.map_values(|s: String| s@);
            out.push(string_from(self.entries[i].0.as_str()));
            assert(entry_names(self.entries@)[i as int] == self.entries@[i as int].0@);
            assert(out@.map_values(|s: String| s@) =~= before.push(self.entries@[i as int].0@));
            assert(entry_names(self.entries@).take(i + 1) =~= entry_names(self.entries@).take(i as int).push(
                self.entries@[i as int].0@,
            ));
            i = i + 1;
            assert(out@.map_values(|s: String| s@) =~= entry_names(self.entries@).take(i as int));
        }
        assert(entry_names(self.entries@).take(i as int) =~= entry_names(self.entries@));
        out
    }
}

} // verus!
