//! Mapping black-box test failures to Rust knowledge points with a model:
//! the prompt, the labels a model may answer with, and how its mapping is
//! merged into the rule-based diagnostics.
use crate::agent::llm::{message_views, ChatMessage, MessageView};
use crate::analysis::classifier::{classified_views, classify_test_result, classify_test_spec, ClassifiedView};
use crate::analysis::error_parser::opt_str;
use crate::error::PadaError;
use crate::models::{point_name_spec, Assignment, Diagnostic, KnowledgePoint, TestResult};
use crate::text::{
    chars_of, debug_quoted, is_ws, debug_str, decimal, eq_str, join_spec, lower_seq, push_chars,
    push_decimal, push_str, slice_chars, string_from, string_of, to_ascii_lower, trim_spec,
    trimmed, views,
};
use vstd::prelude::*;

verus! {

// ------------------------------------------------------------------
// Labels a model may use
// ------------------------------------------------------------------

/// Chinese names of the knowledge points.
pub open spec fn chinese_point(t: Seq<char>) -> Option<KnowledgePoint> {
    if t == "类型系统"@ {
        Some(KnowledgePoint::TypeSystem)
    } else if t == "语法"@ {
        Some(KnowledgePoint::Syntax)
    } else if t == "名称解析"@ || t == "模块"@ {
        Some(KnowledgePoint::NameResolution)
    } else if t == "所有权"@ {
        Some(KnowledgePoint::Ownership)
    } else if t == "借用"@ || t == "可变借用"@ {
        Some(KnowledgePoint::Borrowing)
    } else if t == "生命周期"@ {
        Some(KnowledgePoint::Lifetime)
    } else if t == "泛型"@ {
        Some(KnowledgePoint::Generic)
    } else if t == "特征"@ {
        Some(KnowledgePoint::Trait)
    } else if t == "迭代器"@ {
        Some(KnowledgePoint::Iterator)
    } else if t == "可选值"@ {
        Some(KnowledgePoint::Option)
    } else if t == "结果"@ {
        Some(KnowledgePoint::Result)
    } else if t == "模式匹配"@ {
        Some(KnowledgePoint::PatternMatching)
    } else if t == "集合"@ {
        Some(KnowledgePoint::Collection)
    } else if t == "错误处理"@ {
        Some(KnowledgePoint::ErrorHandling)
    } else if t == "算法逻辑"@ {
        Some(KnowledgePoint::AlgorithmLogic)
    } else {
        None
    }
}

/// English names of the knowledge points, in lower case.
pub open spec fn english_point(l: Seq<char>) -> Option<KnowledgePoint> {
    if l == "typesystem"@ || l == "type_system"@ || l == "type system"@ {
        Some(KnowledgePoint::TypeSystem)
    } else if l == "syntax"@ {
        Some(KnowledgePoint::Syntax)
    } else if l == "nameresolution"@ || l == "name_resolution"@ || l == "name resolution"@ || l
        == "module"@ || l == "modules"@ {
        Some(KnowledgePoint::NameResolution)
    } else if l == "ownership"@ {
        Some(KnowledgePoint::Ownership)
    } else if l == "borrowing"@ || l == "borrow"@ {
        Some(KnowledgePoint::Borrowing)
    } else if l == "lifetime"@ {
        Some(KnowledgePoint::Lifetime)
    } else if l == "trait"@ {
        Some(KnowledgePoint::Trait)
    } else if l == "generic"@ || l == "generics"@ {
        Some(KnowledgePoint::Generic)
    } else if l == "iterator"@ || l == "iterators"@ {
        Some(KnowledgePoint::Iterator)
    } else if l == "option"@ {
        Some(KnowledgePoint::Option)
    } else if l == "result"@ {
        Some(KnowledgePoint::Result)
    } else if l == "patternmatching"@ || l == "pattern_matching"@ || l == "pattern matching"@ {
        Some(KnowledgePoint::PatternMatching)
    } else if l == "collection"@ || l == "collections"@ {
        Some(KnowledgePoint::Collection)
    } else if l == "errorhandling"@ || l == "error_handling"@ || l == "error handling"@ {
        Some(KnowledgePoint::ErrorHandling)
    } else if l == "algorithmlogic"@ || l == "algorithm_logic"@ || l == "algorithm logic"@ {
        Some(KnowledgePoint::AlgorithmLogic)
    } else {
        None
    }
}

/// The knowledge point a label names: its Chinese name, or its English name in any case.
pub open spec fn point_label_spec(label: Seq<char>) -> Option<KnowledgePoint> {
    let t = trim_spec(label);
    match chinese_point(t) {
        Some(p) => Some(p),
        None => english_point(lower_seq(t)),
    }
}

/// The Chinese name a model writes for each knowledge point.
pub open spec fn chinese_label(p: KnowledgePoint) -> Seq<char> {
    match p {
        KnowledgePoint::TypeSystem => "类型系统"@,
        KnowledgePoint::Syntax => "语法"@,
        KnowledgePoint::NameResolution => "名称解析"@,
        KnowledgePoint::Ownership => "所有权"@,
        KnowledgePoint::Borrowing => "借用"@,
        KnowledgePoint::Lifetime => "生命周期"@,
        KnowledgePoint::Trait => "特征"@,
        KnowledgePoint::Generic => "泛型"@,
        KnowledgePoint::Iterator => "迭代器"@,
        KnowledgePoint::Option => "可选值"@,
        KnowledgePoint::Result => "结果"@,
        KnowledgePoint::PatternMatching => "模式匹配"@,
        KnowledgePoint::Collection => "集合"@,
        KnowledgePoint::ErrorHandling => "错误处理"@,
        KnowledgePoint::AlgorithmLogic => "算法逻辑"@,
    }
}

proof fn lemma_trim_unpadded(s: Seq<char>)
    requires
        s.len() > 0,
        !is_ws(s[0]),
        !is_ws(s.last()),
    ensures
        trim_spec(s) == s,
{
}

/// Every knowledge point is read back from its Chinese name, from its stored
/// name, and from its stored name in lower case; so the Chinese and the
/// English name of a point always name the same point.
pub proof fn law_labels_name_their_points(p: KnowledgePoint)
    ensures
        point_label_spec(chinese_label(p)) == Some(p),
        point_label_spec(point_name_spec(p)) == Some(p),
        point_label_spec(lower_seq(point_name_spec(p))) == Some(p),
        point_label_spec(chinese_label(p)) == point_label_spec(point_name_spec(p)),
{
    reveal_strlit("AlgorithmLogic");
    reveal_strlit("Borrowing");
    reveal_strlit("Collection");
    reveal_strlit("ErrorHandling");
    reveal_strlit("Generic");
    reveal_strlit("Iterator");
    reveal_strlit("Lifetime");
    reveal_strlit("NameResolution");
    reveal_strlit("Option");
    reveal_strlit("Ownership");
    reveal_strlit("PatternMatching");
    reveal_strlit("Result");
    reveal_strlit("Syntax");
    reveal_strlit("Trait");
    reveal_strlit("TypeSystem");
    reveal_strlit("algorithm logic");
    reveal_strlit("algorithm_logic");
    reveal_strlit("algorithmlogic");
    reveal_strlit("borrow");
    reveal_strlit("borrowing");
    reveal_strlit("collection");
    reveal_strlit("collections");
    reveal_strlit("error handling");
    reveal_strlit("error_handling");
    reveal_strlit("errorhandling");
    reveal_strlit("generic");
    reveal_strlit("generics");
    reveal_strlit("iterator");
    reveal_strlit("iterators");
    reveal_strlit("lifetime");
    reveal_strlit("module");
    reveal_strlit("modules");
    reveal_strlit("name resolution");
    reveal_strlit("name_resolution");
    reveal_strlit("nameresolution");
    reveal_strlit("option");
    reveal_strlit("ownership");
    reveal_strlit("pattern matching");
    reveal_strlit("pattern_matching");
    reveal_strlit("patternmatching");
    reveal_strlit("result");
    reveal_strlit("syntax");
    reveal_strlit("trait");
    reveal_strlit("type system");
    reveal_strlit("type_system");
    reveal_strlit("typesystem");
    reveal_strlit("借用");
    reveal_strlit("可变借用");
    reveal_strlit("可选值");
    reveal_strlit("名称解析");
    reveal_strlit("所有权");
    reveal_strlit("模块");
    reveal_strlit("模式匹配");
    reveal_strlit("泛型");
    reveal_strlit("特征");
    reveal_strlit("生命周期");
    reveal_strlit("算法逻辑");
    reveal_strlit("类型系统");
    reveal_strlit("结果");
    reveal_strlit("语法");
    reveal_strlit("迭代器");
    reveal_strlit("错误处理");
    reveal_strlit("集合");
    match p {
        KnowledgePoint::TypeSystem => {
            lemma_trim_unpadded("类型系统"@);
            lemma_trim_unpadded("TypeSystem"@);
            assert(lower_seq("TypeSystem"@) =~= "typesystem"@);
            lemma_trim_unpadded("typesystem"@);
            assert(lower_seq("typesystem"@) =~= "typesystem"@);
        },
        KnowledgePoint::Syntax => {
            lemma_trim_unpadded("语法"@);
            lemma_trim_unpadded("Syntax"@);
            assert(lower_seq("Syntax"@) =~= "syntax"@);
            lemma_trim_unpadded("syntax"@);
            assert(lower_seq("syntax"@) =~= "syntax"@);
        },
        KnowledgePoint::NameResolution => {
            lemma_trim_unpadded("名称解析"@);
            lemma_trim_unpadded("NameResolution"@);
            assert(lower_seq("NameResolution"@) =~= "nameresolution"@);
            lemma_trim_unpadded("nameresolution"@);
            assert(lower_seq("nameresolution"@) =~= "nameresolution"@);
        },
        KnowledgePoint::Ownership => {
            lemma_trim_unpadded("所有权"@);
            lemma_trim_unpadded("Ownership"@);
            assert(lower_seq("Ownership"@) =~= "ownership"@);
            lemma_trim_unpadded("ownership"@);
            assert(lower_seq("ownership"@) =~= "ownership"@);
        },
        KnowledgePoint::Borrowing => {
            lemma_trim_unpadded("借用"@);
            lemma_trim_unpadded("Borrowing"@);
            assert(lower_seq("Borrowing"@) =~= "borrowing"@);
            lemma_trim_unpadded("borrowing"@);
            assert(lower_seq("borrowing"@) =~= "borrowing"@);
        },
        KnowledgePoint::Lifetime => {
            lemma_trim_unpadded("生命周期"@);
            lemma_trim_unpadded("Lifetime"@);
            assert(lower_seq("Lifetime"@) =~= "lifetime"@);
            lemma_trim_unpadded("lifetime"@);
            assert(lower_seq("lifetime"@) =~= "lifetime"@);
        },
        KnowledgePoint::Trait => {
            lemma_trim_unpadded("特征"@);
            lemma_trim_unpadded("Trait"@);
            assert(lower_seq("Trait"@) =~= "trait"@);
            lemma_trim_unpadded("trait"@);
            assert(lower_seq("trait"@) =~= "trait"@);
        },
        KnowledgePoint::Generic => {
            lemma_trim_unpadded("泛型"@);
            lemma_trim_unpadded("Generic"@);
            assert(lower_seq("Generic"@) =~= "generic"@);
            lemma_trim_unpadded("generic"@);
            assert(lower_seq("generic"@) =~= "generic"@);
        },
        KnowledgePoint::Iterator => {
            lemma_trim_unpadded("迭代器"@);
            lemma_trim_unpadded("Iterator"@);
            assert(lower_seq("Iterator"@) =~= "iterator"@);
            lemma_trim_unpadded("iterator"@);
            assert(lower_seq("iterator"@) =~= "iterator"@);
        },
        KnowledgePoint::Option => {
            lemma_trim_unpadded("可选值"@);
            lemma_trim_unpadded("Option"@);
            assert(lower_seq("Option"@) =~= "option"@);
            lemma_trim_unpadded("option"@);
            assert(lower_seq("option"@) =~= "option"@);
        },
        KnowledgePoint::Result => {
            lemma_trim_unpadded("结果"@);
            lemma_trim_unpadded("Result"@);
            assert(lower_seq("Result"@) =~= "result"@);
            lemma_trim_unpadded("result"@);
            assert(lower_seq("result"@) =~= "result"@);
        },
        KnowledgePoint::PatternMatching => {
            lemma_trim_unpadded("模式匹配"@);
            lemma_trim_unpadded("PatternMatching"@);
            assert(lower_seq("PatternMatching"@) =~= "patternmatching"@);
            lemma_trim_unpadded("patternmatching"@);
            assert(lower_seq("patternmatching"@) =~= "patternmatching"@);
        },
        KnowledgePoint::Collection => {
            lemma_trim_unpadded("集合"@);
            lemma_trim_unpadded("Collection"@);
            assert(lower_seq("Collection"@) =~= "collection"@);
            lemma_trim_unpadded("collection"@);
            assert(lower_seq("collection"@) =~= "collection"@);
        },
        KnowledgePoint::ErrorHandling => {
            lemma_trim_unpadded("错误处理"@);
            lemma_trim_unpadded("ErrorHandling"@);
            assert(lower_seq("ErrorHandling"@) =~= "errorhandling"@);
            lemma_trim_unpadded("errorhandling"@);
            assert(lower_seq("errorhandling"@) =~= "errorhandling"@);
        },
        KnowledgePoint::AlgorithmLogic => {
            lemma_trim_unpadded("算法逻辑"@);
            lemma_trim_unpadded("AlgorithmLogic"@);
            assert(lower_seq("AlgorithmLogic"@) =~= "algorithmlogic"@);
            lemma_trim_unpadded("algorithmlogic"@);
            assert(lower_seq("algorithmlogic"@) =~= "algorithmlogic"@);
        },
    }
}

/// The aliases name the same point as their English counterparts: 可变借用
/// and `borrow` name borrowing, 模块 and `module` name name resolution.
pub proof fn law_label_aliases()
    ensures
        point_label_spec("可变借用"@) == Some(KnowledgePoint::Borrowing),
        point_label_spec("可变借用"@) == point_label_spec("borrow"@),
        point_label_spec("模块"@) == Some(KnowledgePoint::NameResolution),
        point_label_spec("模块"@) == point_label_spec("module"@),
{
    reveal_strlit("AlgorithmLogic");
    reveal_strlit("Borrowing");
    reveal_strlit("Collection");
    reveal_strlit("ErrorHandling");
    reveal_strlit("Generic");
    reveal_strlit("Iterator");
    reveal_strlit("Lifetime");
    reveal_strlit("NameResolution");
    reveal_strlit("Option");
    reveal_strlit("Ownership");
    reveal_strlit("PatternMatching");
    reveal_strlit("Result");
    reveal_strlit("Syntax");
    reveal_strlit("Trait");
    reveal_strlit("TypeSystem");
    reveal_strlit("algorithm logic");
    reveal_strlit("algorithm_logic");
    reveal_strlit("algorithmlogic");
    reveal_strlit("borrow");
    reveal_strlit("borrowing");
    reveal_strlit("collection");
    reveal_strlit("collections");
    reveal_strlit("error handling");
    reveal_strlit("error_handling");
    reveal_strlit("errorhandling");
    reveal_strlit("generic");
    reveal_strlit("generics");
    reveal_strlit("iterator");
    reveal_strlit("iterators");
    reveal_strlit("lifetime");
    reveal_strlit("module");
    reveal_strlit("modules");
    reveal_strlit("name resolution");
    reveal_strlit("name_resolution");
    reveal_strlit("nameresolution");
    reveal_strlit("option");
    reveal_strlit("ownership");
    reveal_strlit("pattern matching");
    reveal_strlit("pattern_matching");
    reveal_strlit("patternmatching");
    reveal_strlit("result");
    reveal_strlit("syntax");
    reveal_strlit("trait");
    reveal_strlit("type system");
    reveal_strlit("type_system");
    reveal_strlit("typesystem");
    reveal_strlit("借用");
    reveal_strlit("可变借用");
    reveal_strlit("可选值");
    reveal_strlit("名称解析");
    reveal_strlit("所有权");
    reveal_strlit("模块");
    reveal_strlit("模式匹配");
    reveal_strlit("泛型");
    reveal_strlit("特征");
    reveal_strlit("生命周期");
    reveal_strlit("算法逻辑");
    reveal_strlit("类型系统");
    reveal_strlit("结果");
    reveal_strlit("语法");
    reveal_strlit("迭代器");
    reveal_strlit("错误处理");
    reveal_strlit("集合");
    lemma_trim_unpadded("可变借用"@);
    lemma_trim_unpadded("borrow"@);
    assert(lower_seq("borrow"@) =~= "borrow"@);
    lemma_trim_unpadded("模块"@);
    lemma_trim_unpadded("module"@);
    assert(lower_seq("module"@) =~= "module"@);
}

fn chinese_point_exec(t: &Vec<char>) -> (r: Option<KnowledgePoint>)
    ensures
        r == chinese_point(t@),
{
    if eq_str(t, "类型系统") {
        Some(KnowledgePoint::TypeSystem)
    } else if eq_str(t, "语法") {
        Some(KnowledgePoint::Syntax)
    } else if eq_str(t, "名称解析") || eq_str(t, "模块") {
        Some(KnowledgePoint::NameResolution)
    } else if eq_str(t, "所有权") {
        Some(KnowledgePoint::Ownership)
    } else if eq_str(t, "借用") || eq_str(t, "可变借用") {
        Some(KnowledgePoint::Borrowing)
    } else if eq_str(t, "生命周期") {
        Some(KnowledgePoint::Lifetime)
    } else if eq_str(t, "泛型") {
        Some(KnowledgePoint::Generic)
    } else if eq_str(t, "特征") {
        Some(KnowledgePoint::Trait)
    } else if eq_str(t, "迭代器") {
        Some(KnowledgePoint::Iterator)
    } else if eq_str(t, "可选值") {
        Some(KnowledgePoint::Option)
    } else if eq_str(t, "结果") {
        Some(KnowledgePoint::Result)
    } else if eq_str(t, "模式匹配") {
        Some(KnowledgePoint::PatternMatching)
    } else if eq_str(t, "集合") {
        Some(KnowledgePoint::Collection)
    } else if eq_str(t, "错误处理") {
        Some(KnowledgePoint::ErrorHandling)
    } else if eq_str(t, "算法逻辑") {
        Some(KnowledgePoint::AlgorithmLogic)
    } else {
        None
    }
}

fn english_point_exec(l: &Vec<char>) -> (r: Option<KnowledgePoint>)
    ensures
        r == english_point(l@),
{
    if eq_str(l, "typesystem") || eq_str(l, "type_system") || eq_str(l, "type system") {
        Some(KnowledgePoint::TypeSystem)
    } else if eq_str(l, "syntax") {
        Some(KnowledgePoint::Syntax)
    } else if eq_str(l, "nameresolution") || eq_str(l, "name_resolution") || eq_str(
        l,
        "name resolution",
    ) || eq_str(l, "module") || eq_str(l, "modules") {
        Some(KnowledgePoint::NameResolution)
    } else if eq_str(l, "ownership") {
        Some(KnowledgePoint::Ownership)
    } else if eq_str(l, "borrowing") || eq_str(l, "borrow") {
        Some(KnowledgePoint::Borrowing)
    } else if eq_str(l, "lifetime") {
        Some(KnowledgePoint::Lifetime)
    } else if eq_str(l, "trait") {
        Some(KnowledgePoint::Trait)
    } else if eq_str(l, "generic") || eq_str(l, "generics") {
        Some(KnowledgePoint::Generic)
    } else if eq_str(l, "iterator") || eq_str(l, "iterators") {
        Some(KnowledgePoint::Iterator)
    } else if eq_str(l, "option") {
        Some(KnowledgePoint::Option)
    } else if eq_str(l, "result") {
        Some(KnowledgePoint::Result)
    } else if eq_str(l, "patternmatching") || eq_str(l, "pattern_matching") || eq_str(
        l,
        "pattern matching",
    ) {
        Some(KnowledgePoint::PatternMatching)
    } else if eq_str(l, "collection") || eq_str(l, "collections") {
        Some(KnowledgePoint::Collection)
    } else if eq_str(l, "errorhandling") || eq_str(l, "error_handling") || eq_str(
        l,
        "error handling",
    ) {
        Some(KnowledgePoint::ErrorHandling)
    } else if eq_str(l, "algorithmlogic") || eq_str(l, "algorithm_logic") || eq_str(
        l,
        "algorithm logic",
    ) {
        Some(KnowledgePoint::AlgorithmLogic)
    } else {
        None
    }
}

/// Reads a knowledge point label written by a model.
pub fn parse_knowledge_point(label: &str) -> (r: Option<KnowledgePoint>)
    ensures
        r == point_label_spec(label@),
{
    let t = trimmed(label);
    match chinese_point_exec(&t) {
        Some(p) => Some(p),
        None => {
            let l = to_ascii_lower(&t);
            english_point_exec(&l)
        },
    }
}

// ------------------------------------------------------------------
// The prompt
// ------------------------------------------------------------------

pub open spec fn mapping_system_text() -> Seq<char> {
    "你负责把 Rust 程序的黑盒测试失败映射到知识点。只输出 JSON，不要给修改方案。knowledge_points 只能使用：TypeSystem, Syntax, NameResolution, Ownership, Borrowing, Lifetime, Trait, Generic, Iterator, Option, Result, PatternMatching, Collection, ErrorHandling, AlgorithmLogic。每个失败最多选择 3 个最相关知识点；证据不足时使用 AlgorithmLogic。格式：{\"mappings\":[{\"index\":0,\"knowledge_points\":[\"Iterator\"]}]}。"@
}

/// One failed case as the model sees it.
pub open spec fn case_text(index: nat, r: TestResult) -> Seq<char> {
    "["@ + decimal(index) + "] "@ + r.name@ + "\n期望: "@ + debug_quoted(trim_spec(r.expected_output@))
        + "\n实际: "@ + debug_quoted(trim_spec(r.actual_output@)) + "\n运行错误: "@ + match r.runtime_error {
        Some(e) => e@,
        None => "无"@,
    }
}

pub open spec fn case_texts(failures: Seq<TestResult>) -> Seq<Seq<char>> {
    Seq::new(failures.len(), |i: int| case_text(i as nat, failures[i]))
}

pub open spec fn mapping_user_text(a: Assignment, source: Seq<char>, failures: Seq<TestResult>) -> Seq<char> {
    "题目："@ + a.title@ + "\n"@ + a.description@ + "\n\nRust 提交：\n```rust\n"@ + source
        + "\n```\n\n失败用例：\n"@ + join_spec(case_texts(failures), "\n\n"@)
}

fn case_text_exec(index: usize, r: &TestResult) -> (out: String)
    ensures
        out@ == case_text(index as nat, *r),
{
    let mut s = string_from("[");
    push_decimal(&mut s, index as u64);
    push_str(&mut s, "] ");
    push_str(&mut s, r.name.as_str());
    push_str(&mut s, "\n期望: ");
    let e = string_of(&trimmed(r.expected_output.as_str()));
    let ed = debug_str(e.as_str());
    push_str(&mut s, ed.as_str());
    push_str(&mut s, "\n实际: ");
    let a = string_of(&trimmed(r.actual_output.as_str()));
    let ad = debug_str(a.as_str());
    push_str(&mut s, ad.as_str());
    push_str(&mut s, "\n运行错误: ");
    match &r.runtime_error {
        Some(err) => push_str(&mut s, err.as_str()),
        None => push_str(&mut s, "无"),
    }
    s
}

/// The messages asking a model to map failed tests to knowledge points.
pub fn mapping_messages(assignment: &Assignment, source_context: &str, failures: &Vec<TestResult>) -> (r: Vec<ChatMessage>)
    ensures
        message_views(r@) == seq![
            MessageView { role: "system"@, content: mapping_system_text() },
            MessageView {
                role: "user"@,
                content: mapping_user_text(*assignment, source_context@, failures@),
            },
        ],
{
    let ghost texts = case_texts(failures@);
    let mut cases = String::new();
    let mut i: usize = 0;
    assert(texts.take(0) =~= Seq::<Seq<char>>::empty());
    while i < failures.len()
        invariant
            i <= failures@.len(),
            texts == case_texts(failures@),
            cases@ == join_spec(texts.take(i as int), "\n\n"@),
        decreases failures.len() - i,
    {
        proof {
            crate::text::lemma_join_take(texts, "\n\n"@, i as int);
        }
        if i > 0 {
            push_str(&mut cases, "\n\n");
        }
        let t = case_text_exec(i, &failures[i]);
        push_str(&mut cases, t.as_str());
        i = i + 1;
    }
    assert(texts.take(failures@.len() as int) =~= texts);
    let system = ChatMessage::system(string_from(
        "你负责把 Rust 程序的黑盒测试失败映射到知识点。只输出 JSON，不要给修改方案。knowledge_points 只能使用：TypeSystem, Syntax, NameResolution, Ownership, Borrowing, Lifetime, Trait, Generic, Iterator, Option, Result, PatternMatching, Collection, ErrorHandling, AlgorithmLogic。每个失败最多选择 3 个最相关知识点；证据不足时使用 AlgorithmLogic。格式：{\"mappings\":[{\"index\":0,\"knowledge_points\":[\"Iterator\"]}]}。",
    ));
    let mut user = string_from("题目：");
    push_str(&mut user, assignment.title.as_str());
    push_str(&mut user, "\n");
    push_str(&mut user, assignment.description.as_str());
    push_str(&mut user, "\n\nRust 提交：\n```rust\n");
    push_str(&mut user, source_context);
    push_str(&mut user, "\n```\n\n失败用例：\n");
    push_str(&mut user, cases.as_str());
    let user_msg = ChatMessage::user(user);
    let mut out: Vec<ChatMessage> = Vec::new();
    out.push(system);
    out.push(user_msg);
    assert(message_views(out@) =~= seq![
        MessageView { role: "system"@, content: mapping_system_text() },
        MessageView {
            role: "user"@,
            content: mapping_user_text(*assignment, source_context@, failures@),
        },
    ]);
    out
}

// ------------------------------------------------------------------
// Merging a model's mapping
// ------------------------------------------------------------------

/// One entry of a model's mapping: a failure's index and the labels chosen for it.
#[derive(Debug, Clone)]
pub struct MappingItem {
    pub index: usize,
    pub knowledge_points: Vec<String>,
}

pub open spec fn item_labels(item: MappingItem) -> Seq<Seq<char>> {
    item.knowledge_points@.map_values(|l: String| l@)
}

/// Adds a point unless it is there already or three are there.
pub open spec fn add_point(points: Seq<KnowledgePoint>, p: KnowledgePoint) -> Seq<KnowledgePoint> {
    if !points.contains(p) && points.len() < 3 {
        points.push(p)
    } else {
        points
    }
}

/// The points named by the recognised labels, at most three, each once.
pub open spec fn select_points(labels: Seq<Seq<char>>) -> Seq<KnowledgePoint>
    decreases labels.len(),
{
    if labels.len() == 0 {
        Seq::empty()
    } else {
        let acc = select_points(labels.drop_last());
        match point_label_spec(labels.last()) {
            Some(p) => add_point(acc, p),
            None => acc,
        }
    }
}

/// `new` added to `existing` in order, keeping at most three distinct points.
pub open spec fn merge_points(existing: Seq<KnowledgePoint>, new: Seq<KnowledgePoint>) -> Seq<KnowledgePoint>
    decreases new.len(),
{
    if new.len() == 0 {
        existing
    } else {
        add_point(merge_points(existing, new.drop_last()), new.last())
    }
}

/// One mapping entry applied; unknown indices and entries without a known label change nothing.
pub open spec fn apply_item(ds: Seq<ClassifiedView>, item: MappingItem) -> Seq<ClassifiedView> {
    let i = item.index as int;
    let pts = select_points(item_labels(item));
    if i >= ds.len() || pts.len() == 0 {
        ds
    } else {
        let d = ds[i];
        ds.update(
            i,
            ClassifiedView {
                category: d.category,
                knowledge_points: merge_points(d.knowledge_points, pts),
                confidence_percent: if d.confidence_percent >= 70 {
                    d.confidence_percent
                } else {
                    70
                },
            },
        )
    }
}

pub open spec fn apply_items(ds: Seq<ClassifiedView>, items: Seq<MappingItem>) -> Seq<ClassifiedView>
    decreases items.len(),
{
    if items.len() == 0 {
        ds
    } else {
        apply_item(apply_items(ds, items.drop_last()), items.last())
    }
}

/// The rule-based diagnostics of the failures.
pub open spec fn fallback_spec(failures: Seq<TestResult>) -> Seq<ClassifiedView> {
    Seq::new(failures.len(), |i: int| classify_test_spec(failures[i].runtime_error is Some))
}

fn has_point(v: &Vec<KnowledgePoint>, p: KnowledgePoint) -> (r: bool)
    ensures
        r == v@.contains(p),
{
    let mut i: usize = 0;
    while i < v.len()
        invariant
            i <= v@.len(),
            forall|j: int| 0 <= j < i ==> v@[j] != p,
        decreases v.len() - i,
    {
        if v[i] == p {
            return true;
        }
        i = i + 1;
    }
    false
}

fn add_point_exec(v: &mut Vec<KnowledgePoint>, p: KnowledgePoint)
    ensures
        final(v)@ == add_point(old(v)@, p),
{
    if !has_point(v, p) && v.len() < 3 {
        v.push(p);
    }
}

/// The rule-based diagnostics of the failures, one per failure.
pub fn fallback_diagnostics(failures: &Vec<TestResult>) -> (r: Vec<Diagnostic>)
    ensures
        classified_views(r@) == fallback_spec(failures@),
{
    let mut out: Vec<Diagnostic> = Vec::new();
    let mut i: usize = 0;
    while i < failures.len()
        invariant
            i <= failures@.len(),
            out@.len() == i,
            forall|k: int|
                0 <= k < i ==> (#[trigger] out@[k])@ == classify_test_spec(
                    failures@[k].runtime_error is Some,
                ),
        decreases failures.len() - i,
    {
        let d = classify_test_result(&failures[i]);
        out.push(d);
        i = i + 1;
    }
    assert(classified_views(out@) =~= fallback_spec(failures@));
    out
}

fn select_points_exec(labels: &Vec<String>) -> (r: Vec<KnowledgePoint>)
    ensures
        r@ == select_points(labels@.map_values(|l: String| l@)),
{
    let ghost ls = labels@.map_values(|l: String| l@);
    let mut out: Vec<KnowledgePoint> = Vec::new();
    let mut i: usize = 0;
    while i < labels.len()
        invariant
            i <= labels@.len(),
            ls == labels@.map_values(|l: String| l@),
            out@ == select_points(ls.take(i as int)),
        decreases labels.len() - i,
    {
        assert(ls.take(i + 1).drop_last() =~= ls.take(i as int));
        assert(ls.take(i + 1).last() == labels@[i as int]@);
        match parse_knowledge_point(labels[i].as_str()) {
            Some(p) => add_point_exec(&mut out, p),
            None => {},
        }
        i = i + 1;
    }
    assert(ls.take(labels@.len() as int) =~= ls);
    out
}

fn merge_points_exec(existing: &Vec<KnowledgePoint>, new: &Vec<KnowledgePoint>) -> (r: Vec<KnowledgePoint>)
    ensures
        r@ == merge_points(existing@, new@),
{
    let mut out: Vec<KnowledgePoint> = Vec::new();
    let mut k: usize = 0;
    while k < existing.len()
        invariant
            k <= existing@.len(),
            out@ == existing@.take(k as int),
        decreases existing.len() - k,
    {
        out.push(existing[k]);
        k = k + 1;
        assert(out@ =~= existing@.take(k as int));
    }
    assert(existing@.take(existing@.len() as int) =~= existing@);
    let mut i: usize = 0;
    assert(new@.take(0) =~= Seq::<KnowledgePoint>::empty());
    while i < new.len()
        invariant
            i <= new@.len(),
            out@ == merge_points(existing@, new@.take(i as int)),
        decreases new.len() - i,
    {
        assert(new@.take(i + 1).drop_last() =~= new@.take(i as int));
        add_point_exec(&mut out, new[i]);
        i = i + 1;
    }
    assert(new@.take(new@.len() as int) =~= new@);
    out
}

/// Merges a model's mapping into the rule-based diagnostics of the failures:
/// each recognised label of a known failure adds its knowledge point (at most
/// three per failure, each once) and raises confidence to at least 70%.
pub fn apply_mapping(failures: &Vec<TestResult>, items: &Vec<MappingItem>) -> (r: Vec<Diagnostic>)
    ensures
        classified_views(r@) == apply_items(fallback_spec(failures@), items@),
{
    let mut ds = fallback_diagnostics(failures);
    let mut j: usize = 0;
    assert(items@.take(0) =~= Seq::<MappingItem>::empty());
    while j < items.len()
        invariant
            j <= items@.len(),
            classified_views(ds@) == apply_items(fallback_spec(failures@), items@.take(j as int)),
        decreases items.len() - j,
    {
        assert(items@.take(j + 1).drop_last() =~= items@.take(j as int));
        let item = &items[j];
        let pts = select_points_exec(&item.knowledge_points);
        let i = item.index;
        if i < ds.len() && pts.len() > 0 {
            let d = &ds[i];
            let merged = merge_points_exec(&d.knowledge_points, &pts);
            let conf = if d.confidence_percent >= 70 {
                d.confidence_percent
            } else {
                70
            };
            let nd = Diagnostic { category: d.category, knowledge_points: merged, confidence_percent: conf };
            let ghost before = ds@;
            ds.set(i, nd);
            assert(classified_views(ds@) =~= classified_views(before).update(i as int, nd@));
        }
        j = j + 1;
    }
    assert(items@.take(items@.len() as int) =~= items@);
    ds
}

pub open spec fn mapping_error_text(content: Seq<char>) -> Seq<char> {
    let t = trim_spec(content);
    "解析模型知识点映射失败：未找到有效的 JSON 映射；模型输出: "@ + if t.len() > 300 {
        t.take(300)
    } else {
        t
    }
}

/// The error for a reply in which no JSON mapping was found; it shows the
/// first 300 characters of the trimmed reply.
pub fn mapping_parse_error(content: &str) -> (r: PadaError)
    ensures
        r matches PadaError::Parse(m) && m@ == mapping_error_text(content@),
{
    let t = trimmed(content);
    let p = if t.len() > 300 {
        slice_chars(&t, 0, 300)
    } else {
        t
    };
    let mut m = string_from("解析模型知识点映射失败：未找到有效的 JSON 映射；模型输出: ");
    push_chars(&mut m, &p);
    PadaError::Parse(m)
}

} // verus!
