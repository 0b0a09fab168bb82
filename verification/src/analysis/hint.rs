//! Layered hints.
//!
//! Levels 1 and 2 (category, location) come straight from the diagnosis;
//! levels 3 and 4 give a deterministic base hint that a configured model may
//! later enrich; level 5 (reference solution) needs a model and, without one,
//! tells the user how to configure it.
use crate::analysis::classifier::ClassifiedView;
use crate::analysis::error_parser::{DiagnosticView, LocationView, RustcDiagnostic, SourceLocation};
use crate::models::{Diagnostic, ErrorCategory, HintLevel, KnowledgePoint, TestResult};
use crate::text::{chars_of, decimal, eq_str, join_spec, push_chars, push_decimal, push_str, trim_spec, trimmed};
use vstd::prelude::*;

verus! {

// ------------------------------------------------------------------
// Level control
// ------------------------------------------------------------------

pub open spec fn level_number(level: HintLevel) -> u8 {
    match level {
        HintLevel::Category => 1,
        HintLevel::Location => 2,
        HintLevel::Concept => 3,
        HintLevel::Direction => 4,
        HintLevel::Solution => 5,
    }
}

pub open spec fn level_from_number(n: u8) -> Option<HintLevel> {
    if n == 1 {
        Some(HintLevel::Category)
    } else if n == 2 {
        Some(HintLevel::Location)
    } else if n == 3 {
        Some(HintLevel::Concept)
    } else if n == 4 {
        Some(HintLevel::Direction)
    } else if n == 5 {
        Some(HintLevel::Solution)
    } else {
        None
    }
}

/// The next, more detailed level; `None` at `Solution`, the highest.
pub fn next_hint_level(level: HintLevel) -> (r: Option<HintLevel>)
    ensures
        r == level_from_number((level_number(level) + 1) as u8),
        r is None <==> level == HintLevel::Solution,
{
    match level {
        HintLevel::Category => Some(HintLevel::Location),
        HintLevel::Location => Some(HintLevel::Concept),
        HintLevel::Concept => Some(HintLevel::Direction),
        HintLevel::Direction => Some(HintLevel::Solution),
        HintLevel::Solution => None,
    }
}

/// The level as a number from 1 to 5.
pub fn hint_level_as_number(level: HintLevel) -> (r: u8)
    ensures
        r == level_number(level),
        1 <= r <= 5,
{
    match level {
        HintLevel::Category => 1,
        HintLevel::Location => 2,
        HintLevel::Concept => 3,
        HintLevel::Direction => 4,
        HintLevel::Solution => 5,
    }
}

/// The level numbered 1 to 5; `None` out of range.
pub fn hint_level_from_number(n: u8) -> (r: Option<HintLevel>)
    ensures
        r == level_from_number(n),
        r is Some <==> 1 <= n <= 5,
{
    match n {
        1 => Some(HintLevel::Category),
        2 => Some(HintLevel::Location),
        3 => Some(HintLevel::Concept),
        4 => Some(HintLevel::Direction),
        5 => Some(HintLevel::Solution),
        _ => None,
    }
}

/// Numbering a level and reading the number back gives the same level, and
/// every number from 1 to 5 names exactly one level.
pub proof fn law_level_numbers_round_trip(level: HintLevel, n: u8)
    ensures
        level_from_number(level_number(level)) == Some(level),
        1 <= level_number(level) <= 5,
        level_from_number(n) matches Some(l) ==> level_number(l) == n,
{
}

/// Going to the next level raises the number by one, up to `Solution`.
pub proof fn law_next_level_steps_by_one(level: HintLevel)
    ensures
        level != HintLevel::Solution ==> (level_from_number((level_number(level) + 1) as u8)
            matches Some(next) && level_number(next) == level_number(level) + 1),
{
}

// ------------------------------------------------------------------
// Hint values and texts
// ------------------------------------------------------------------

/// One layered hint.
#[derive(Debug, Clone, PartialEq, Eq)]
pub struct Hint {
    /// Its level.
    pub level: HintLevel,
    /// Its text.
    pub content: String,
}

impl Hint {
    pub fn new(level: HintLevel, content: String) -> (r: Self)
        ensures
            r.level == level,
            r.content@ == content@,
    {
        Hint { level, content }
    }
}

pub open spec fn category_text_spec(category: ErrorCategory) -> Seq<char> {
    match category {
        ErrorCategory::CompileError => "编译错误"@,
        ErrorCategory::RuntimeError => "运行时错误"@,
        ErrorCategory::LogicError => "逻辑错误"@,
        ErrorCategory::BoundaryCondition => "边界条件错误"@,
        ErrorCategory::AlgorithmError => "算法错误"@,
    }
}

/// Description of an error category (level 1).
pub fn error_category_text(category: ErrorCategory) -> (r: &'static str)
    ensures
        r@ == category_text_spec(category),
{
    match category {
        ErrorCategory::CompileError => "编译错误",
        ErrorCategory::RuntimeError => "运行时错误",
        ErrorCategory::LogicError => "逻辑错误",
        ErrorCategory::BoundaryCondition => "边界条件错误",
        ErrorCategory::AlgorithmError => "算法错误",
    }
}

pub open spec fn point_text_spec(point: KnowledgePoint) -> Seq<char> {
    match point {
        KnowledgePoint::TypeSystem => "类型系统 / TypeSystem"@,
        KnowledgePoint::Syntax => "语法 / Syntax"@,
        KnowledgePoint::NameResolution => "名称解析与模块 / NameResolution"@,
        KnowledgePoint::Ownership => "所有权 / Move"@,
        KnowledgePoint::Borrowing => "借用 / Borrow"@,
        KnowledgePoint::Lifetime => "生命周期 / Lifetime"@,
        KnowledgePoint::Trait => "Trait"@,
        KnowledgePoint::Generic => "泛型 / Generic"@,
        KnowledgePoint::Iterator => "迭代器 / Iterator"@,
        KnowledgePoint::Option => "Option"@,
        KnowledgePoint::Result => "Result"@,
        KnowledgePoint::PatternMatching => "模式匹配"@,
        KnowledgePoint::Collection => "集合 / Collection"@,
        KnowledgePoint::ErrorHandling => "错误处理"@,
        KnowledgePoint::AlgorithmLogic => "算法逻辑"@,
    }
}

/// Description of a knowledge point (level 3).
pub fn knowledge_point_text(point: KnowledgePoint) -> (r: &'static str)
    ensures
        r@ == point_text_spec(point),
{
    match point {
        KnowledgePoint::TypeSystem => "类型系统 / TypeSystem",
        KnowledgePoint::Syntax => "语法 / Syntax",
        KnowledgePoint::NameResolution => "名称解析与模块 / NameResolution",
        KnowledgePoint::Ownership => "所有权 / Move",
        KnowledgePoint::Borrowing => "借用 / Borrow",
        KnowledgePoint::Lifetime => "生命周期 / Lifetime",
        KnowledgePoint::Trait => "Trait",
        KnowledgePoint::Generic => "泛型 / Generic",
        KnowledgePoint::Iterator => "迭代器 / Iterator",
        KnowledgePoint::Option => "Option",
        KnowledgePoint::Result => "Result",
        KnowledgePoint::PatternMatching => "模式匹配",
        KnowledgePoint::Collection => "集合 / Collection",
        KnowledgePoint::ErrorHandling => "错误处理",
        KnowledgePoint::AlgorithmLogic => "算法逻辑",
    }
}

pub open spec fn point_texts(points: Seq<KnowledgePoint>) -> Seq<Seq<char>> {
    Seq::new(points.len(), |i: int| point_text_spec(points[i]))
}

/// The descriptions of the points joined by `、`.
pub open spec fn points_joined(points: Seq<KnowledgePoint>) -> Seq<char> {
    join_spec(point_texts(points), "、"@)
}

/// Appends the descriptions of `points`, separated by `、`.
pub fn push_points_joined(out: &mut String, points: &Vec<KnowledgePoint>)
    ensures
        final(out)@ == old(out)@ + points_joined(points@),
{
    let ghost start = old(out)@;
    let mut i: usize = 0;
    assert(point_texts(points@.take(0)) =~= seq![]);
    while i < points.len()
        invariant
            i <= points@.len(),
            out@ == start + join_spec(point_texts(points@.take(i as int)), "、"@),
        decreases points.len() - i,
    {
        let ghost before = out@;
        assert(point_texts(points@.take(i + 1)).drop_last() =~= point_texts(points@.take(i as int)));
        if i > 0 {
            push_str(out, "、");
        }
        push_str(out, knowledge_point_text(points[i]));
        i = i + 1;
        assert(out@ =~= start + join_spec(point_texts(points@.take(i as int)), "、"@));
    }
    assert(points@.take(points@.len() as int) =~= points@);
}

pub open spec fn location_text_spec(loc: LocationView) -> Seq<char> {
    loc.file + ":"@ + decimal(loc.line as nat) + ":"@ + decimal(loc.column as nat)
}

/// Appends `file:line:col`.
pub fn push_location(out: &mut String, loc: &SourceLocation)
    ensures
        final(out)@ == old(out)@ + location_text_spec(loc@),
{
    push_str(out, loc.file.as_str());
    push_str(out, ":");
    push_decimal(out, loc.line as u64);
    push_str(out, ":");
    push_decimal(out, loc.column as u64);
    assert(out@ =~= old(out)@ + location_text_spec(loc@));
}

/// A location as `file:line:col` (level 2).
pub fn format_location(loc: &SourceLocation) -> (r: String)
    ensures
        r@ == location_text_spec(loc@),
{
    let mut out = String::new();
    push_location(&mut out, loc);
    assert(out@ =~= location_text_spec(loc@));
    out
}

// ------------------------------------------------------------------
// Error code -> direction of the fix
// ------------------------------------------------------------------

pub open spec fn direction_spec(c: Seq<char>) -> Option<Seq<char>> {
    if c == "E0308"@ {
        Some("核对表达式的期望类型与实际类型，并在数据产生处统一类型"@)
    } else if c == "E0282"@ || c == "E0284"@ || c == "E0283"@ {
        Some("补充必要的类型标注或泛型参数，消除类型推断歧义"@)
    } else if c == "E0605"@ || c == "E0606"@ {
        Some("使用该类型支持的显式转换方式，避免无效的 as 转换"@)
    } else if c == "E0369"@ || c == "E0271"@ {
        Some("检查运算两侧或关联类型是否满足相同的类型约束"@)
    } else if c == "E0425"@ || c == "E0412"@ {
        Some("检查名称拼写、定义位置和当前作用域中的导入"@)
    } else if c == "E0432"@ || c == "E0433"@ || c == "E0583"@ || c == "E0603"@ {
        Some("检查模块路径、mod 声明、use 导入以及条目的可见性"@)
    } else if c == "E0599"@ || c == "E0046"@ || c == "E0119"@ || c == "E0404"@ {
        Some("检查 Trait 实现、约束和方法可用条件是否完整且无冲突"@)
    } else if c == "E0004"@ || c == "E0005"@ {
        Some("补全模式分支，并确保模式覆盖所有可能值"@)
    } else if c == "E0107"@ || c == "E0207"@ || c == "E0243"@ {
        Some("核对泛型参数数量、声明位置和实际约束"@)
    } else if c == "E0515"@ || c == "E0716"@ {
        Some("避免返回或长期借用临时值，延长所有者的有效作用域"@)
    } else if c == "E0596"@ || c == "E0506"@ {
        Some("检查绑定的可变性，并在赋值前结束冲突的借用"@)
    } else if c == "E0382"@ {
        Some("在移动值之前克隆，或重新设计所有权结构"@)
    } else if c == "E0507"@ {
        Some("不要从借用内容中直接移出值；可借用、复制或显式克隆"@)
    } else if c == "E0505"@ || c == "E0500"@ {
        Some("调整所有权转移时机，使现有借用先结束"@)
    } else if c == "E0499"@ {
        Some("确保同一时间只有一个可变借用"@)
    } else if c == "E0502"@ {
        Some("避免同时存在可变与不可变借用"@)
    } else if c == "E0106"@ {
        Some("为引用参数添加生命周期标注"@)
    } else if c == "E0597"@ {
        Some("检查被引用数据的生命周期是否足够长"@)
    } else if c == "E0277"@ {
        Some("为类型实现所需 trait 或调整 trait bound"@)
    } else if c == "E0554"@ {
        Some("移除稳定版不支持的 feature 属性，或改用稳定语言能力"@)
    } else {
        None
    }
}

fn direction_chars(c: &Vec<char>) -> (r: Option<&'static str>)
    ensures
        match r {
            Some(t) => direction_spec(c@) == Some(t@),
            None => direction_spec(c@) is None,
        },
{
    if eq_str(c, "E0308") {
        Some("核对表达式的期望类型与实际类型，并在数据产生处统一类型")
    } else if eq_str(c, "E0282") || eq_str(c, "E0284") || eq_str(c, "E0283") {
        Some("补充必要的类型标注或泛型参数，消除类型推断歧义")
    } else if eq_str(c, "E0605") || eq_str(c, "E0606") {
        Some("使用该类型支持的显式转换方式，避免无效的 as 转换")
    } else if eq_str(c, "E0369") || eq_str(c, "E0271") {
        Some("检查运算两侧或关联类型是否满足相同的类型约束")
    } else if eq_str(c, "E0425") || eq_str(c, "E0412") {
        Some("检查名称拼写、定义位置和当前作用域中的导入")
    } else if eq_str(c, "E0432") || eq_str(c, "E0433") || eq_str(c, "E0583") || eq_str(c, "E0603") {
        Some("检查模块路径、mod 声明、use 导入以及条目的可见性")
    } else if eq_str(c, "E0599") || eq_str(c, "E0046") || eq_str(c, "E0119") || eq_str(c, "E0404") {
        Some("检查 Trait 实现、约束和方法可用条件是否完整且无冲突")
    } else if eq_str(c, "E0004") || eq_str(c, "E0005") {
        Some("补全模式分支，并确保模式覆盖所有可能值")
    } else if eq_str(c, "E0107") || eq_str(c, "E0207") || eq_str(c, "E0243") {
        Some("核对泛型参数数量、声明位置和实际约束")
    } else if eq_str(c, "E0515") || eq_str(c, "E0716") {
        Some("避免返回或长期借用临时值，延长所有者的有效作用域")
    } else if eq_str(c, "E0596") || eq_str(c, "E0506") {
        Some("检查绑定的可变性，并在赋值前结束冲突的借用")
    } else if eq_str(c, "E0382") {
        Some("在移动值之前克隆，或重新设计所有权结构")
    } else if eq_str(c, "E0507") {
        Some("不要从借用内容中直接移出值；可借用、复制或显式克隆")
    } else if eq_str(c, "E0505") || eq_str(c, "E0500") {
        Some("调整所有权转移时机，使现有借用先结束")
    } else if eq_str(c, "E0499") {
        Some("确保同一时间只有一个可变借用")
    } else if eq_str(c, "E0502") {
        Some("避免同时存在可变与不可变借用")
    } else if eq_str(c, "E0106") {
        Some("为引用参数添加生命周期标注")
    } else if eq_str(c, "E0597") {
        Some("检查被引用数据的生命周期是否足够长")
    } else if eq_str(c, "E0277") {
        Some("为类型实现所需 trait 或调整 trait bound")
    } else if eq_str(c, "E0554") {
        Some("移除稳定版不支持的 feature 属性，或改用稳定语言能力")
    } else {
        None
    }
}

/// The general direction of the fix for a rustc error code (level 4);
/// `None` when the code has none.
pub fn code_to_direction(code: &str) -> (r: Option<&'static str>)
    ensures
        match r {
            Some(t) => direction_spec(code@) == Some(t@),
            None => direction_spec(code@) is None,
        },
{
    let c = chars_of(code);
    direction_chars(&c)
}

// ------------------------------------------------------------------
// Hints for compiler diagnostics
// ------------------------------------------------------------------

pub open spec fn no_model_solution_text() -> Seq<char> {
    "尚未配置 LLM，无法生成参考方案。请在导师模式输入 config 配置模型。"@
}

/// The text of the hint at `level` for a compiler diagnostic.
pub open spec fn compile_hint_spec(d: DiagnosticView, c: ClassifiedView, level: HintLevel) -> Seq<
    char,
> {
    match level {
        HintLevel::Category => "这是一个"@ + category_text_spec(c.category),
        HintLevel::Location => match d.location {
            Some(loc) => "位置："@ + location_text_spec(loc),
            None => "位置信息缺失"@,
        },
        HintLevel::Concept => if c.knowledge_points.len() == 0 {
            "知识点待分析（无明确映射）"@
        } else {
            "知识点："@ + points_joined(c.knowledge_points)
        },
        HintLevel::Direction => match d.code {
            Some(code) => match direction_spec(code) {
                Some(dir) => "修改方向："@ + dir,
                None => "修改方向待分析"@,
            },
            None => "修改方向待分析（无错误码）"@,
        },
        HintLevel::Solution => no_model_solution_text(),
    }
}

/// Builds the hint at `level` for a compiler diagnostic: its category, its
/// location, its knowledge points, the direction for its error code, or (at
/// level 5, before a model has enriched it) the model configuration notice.
pub fn generate_compile_hint(diag: &RustcDiagnostic, classified: &Diagnostic, level: HintLevel) -> (r:
    Hint)
    ensures
        r.level == level,
        r.content@ == compile_hint_spec(diag@, classified@, level),
{
    let mut out = String::new();
    match level {
        HintLevel::Category => {
            push_str(&mut out, "这是一个");
            push_str(&mut out, error_category_text(classified.category));
        },
        HintLevel::Location => match &diag.location {
            Some(loc) => {
                push_str(&mut out, "位置：");
                push_location(&mut out, loc);
            },
            None => {
                push_str(&mut out, "位置信息缺失");
            },
        },
        HintLevel::Concept => {
            if classified.knowledge_points.len() == 0 {
                push_str(&mut out, "知识点待分析（无明确映射）");
            } else {
                push_str(&mut out, "知识点：");
                push_points_joined(&mut out, &classified.knowledge_points);
            }
        },
        HintLevel::Direction => match &diag.code {
            Some(code) => match code_to_direction(code.as_str()) {
                Some(dir) => {
                    push_str(&mut out, "修改方向：");
                    push_str(&mut out, dir);
                },
                None => {
                    push_str(&mut out, "修改方向待分析");
                },
            },
            None => {
                push_str(&mut out, "修改方向待分析（无错误码）");
            },
        },
        HintLevel::Solution => {
            push_str(&mut out, "尚未配置 LLM，无法生成参考方案。请在导师模式输入 config 配置模型。");
        },
    }
    assert(out@ =~= compile_hint_spec(diag@, classified@, level));
    Hint::new(level, out)
}

// ------------------------------------------------------------------
// Hints for failed tests
// ------------------------------------------------------------------

pub open spec fn mismatch_text(expected: Seq<char>, actual: Seq<char>) -> Seq<char> {
    "输入对应期望输出为「"@ + trim_spec(expected) + "」，但实际输出为「"@ + trim_spec(actual)
        + "」"@
}

/// The text of the hint at `level` for a failed test, given mapped points.
pub open spec fn test_hint_spec(
    name: Seq<char>,
    actual: Seq<char>,
    expected: Seq<char>,
    level: HintLevel,
    points: Seq<KnowledgePoint>,
) -> Seq<char> {
    match level {
        HintLevel::Category => "这是一个逻辑错误（测试未通过）"@,
        HintLevel::Location => "失败的测试用例： "@ + name,
        HintLevel::Concept => if points.len() == 0 {
            "知识点待分析（配置 LLM 后自动映射）"@
        } else {
            "知识点："@ + points_joined(points)
        },
        HintLevel::Direction => mismatch_text(expected, actual),
        HintLevel::Solution => no_model_solution_text(),
    }
}

fn push_mismatch(out: &mut String, expected: &str, actual: &str)
    ensures
        final(out)@ == old(out)@ + mismatch_text(expected@, actual@),
{
    push_str(out, "输入对应期望输出为「");
    let e = trimmed(expected);
    push_chars(out, &e);
    push_str(out, "」，但实际输出为「");
    let a = trimmed(actual);
    push_chars(out, &a);
    push_str(out, "」");
    assert(out@ =~= old(out)@ + mismatch_text(expected@, actual@));
}

/// Builds the hint at `level` for a failed test with no mapped knowledge point.
pub fn generate_test_hint(name: &str, actual: &str, expected: &str, level: HintLevel) -> (r: Hint)
    ensures
        r.level == level,
        r.content@ == test_hint_spec(name@, actual@, expected@, level, seq![]),
{
    let none: Vec<KnowledgePoint> = Vec::new();
    assert(none@ =~= seq![]);
    generate_test_hint_with_points(name, actual, expected, level, &none)
}

/// Builds the hint at `level` for a failed test whose knowledge points are `points`.
pub fn generate_test_hint_with_points(
    name: &str,
    actual: &str,
    expected: &str,
    level: HintLevel,
    points: &Vec<KnowledgePoint>,
) -> (r: Hint)
    ensures
        r.level == level,
        r.content@ == test_hint_spec(name@, actual@, expected@, level, points@),
{
    let mut out = String::new();
    match level {
        HintLevel::Category => {
            push_str(&mut out, "这是一个逻辑错误（测试未通过）");
        },
        HintLevel::Location => {
            push_str(&mut out, "失败的测试用例： ");
            push_str(&mut out, name);
        },
        HintLevel::Concept => {
            if points.len() == 0 {
                push_str(&mut out, "知识点待分析（配置 LLM 后自动映射）");
            } else {
                push_str(&mut out, "知识点：");
                push_points_joined(&mut out, points);
            }
        },
        HintLevel::Direction => {
            push_mismatch(&mut out, expected, actual);
        },
        HintLevel::Solution => {
            push_str(&mut out, "尚未配置 LLM，无法生成参考方案。请在导师模式输入 config 配置模型。");
        },
    }
    assert(out@ =~= test_hint_spec(name@, actual@, expected@, level, points@));
    Hint::new(level, out)
}

/// The text of the hint at `level` for a test result, so that a run that did
/// not exit normally is not reported as a logic error.
pub open spec fn test_result_hint_spec(
    name: Seq<char>,
    actual: Seq<char>,
    expected: Seq<char>,
    runtime_error: Option<Seq<char>>,
    c: ClassifiedView,
    level: HintLevel,
) -> Seq<char> {
    match level {
        HintLevel::Category => if c.category == ErrorCategory::RuntimeError {
            "这是一个运行时错误（程序未正常退出）"@
        } else {
            "这是一个逻辑错误（测试未通过）"@
        },
        HintLevel::Location => "失败的测试用例："@ + name,
        HintLevel::Concept => if c.knowledge_points.len() == 0 {
            "知识点待分析（配置 LLM 后自动映射）"@
        } else {
            "知识点："@ + points_joined(c.knowledge_points)
        },
        HintLevel::Direction => match runtime_error {
            Some(e) => "程序未正常退出；先根据运行错误定位 panic 或异常路径："@ + trim_spec(e),
            None => mismatch_text(expected, actual),
        },
        HintLevel::Solution => no_model_solution_text(),
    }
}

/// At the direction level, a failed test that exited normally is described by
/// its expected output first and its actual output second, each trimmed: the
/// trimmed expected output stands after `期望输出为「` and the trimmed actual
/// output after `实际输出为「`. The hint from a complete test result says the
/// same as the hint from its name and outputs alone.
pub proof fn law_direction_hint_shows_expected_then_actual(
    name: Seq<char>,
    actual: Seq<char>,
    expected: Seq<char>,
    c: ClassifiedView,
    points: Seq<KnowledgePoint>,
)
    ensures
        test_result_hint_spec(name, actual, expected, None, c, HintLevel::Direction)
            == "输入对应期望输出为「"@ + trim_spec(expected) + "」，但实际输出为「"@ + trim_spec(actual)
            + "」"@,
        test_result_hint_spec(name, actual, expected, None, c, HintLevel::Direction)
            == test_hint_spec(name, actual, expected, HintLevel::Direction, points),
{
}

/// Builds the hint at `level` from a complete test result and its classification.
pub fn generate_test_result_hint(result: &TestResult, classified: &Diagnostic, level: HintLevel) -> (r:
    Hint)
    ensures
        r.level == level,
        r.content@ == test_result_hint_spec(
            result.name@,
            result.actual_output@,
            result.expected_output@,
            crate::analysis::error_parser::opt_str(result.runtime_error),
            classified@,
            level,
        ),
{
    let mut out = String::new();
    match level {
        HintLevel::Category => {
            if classified.category == ErrorCategory::RuntimeError {
                push_str(&mut out, "这是一个运行时错误（程序未正常退出）");
            } else {
                push_str(&mut out, "这是一个逻辑错误（测试未通过）");
            }
        },
        HintLevel::Location => {
            push_str(&mut out, "失败的测试用例：");
            push_str(&mut out, result.name.as_str());
        },
        HintLevel::Concept => {
            if classified.knowledge_points.len() == 0 {
                push_str(&mut out, "知识点待分析（配置 LLM 后自动映射）");
            } else {
                push_str(&mut out, "知识点：");
                push_points_joined(&mut out, &classified.knowledge_points);
            }
        },
        HintLevel::Direction => match &result.runtime_error {
            Some(e) => {
                push_str(&mut out, "程序未正常退出；先根据运行错误定位 panic 或异常路径：");
                let t = trimmed(e.as_str());
                push_chars(&mut out, &t);
            },
            None => {
                push_mismatch(&mut out, result.expected_output.as_str(), result.actual_output.as_str());
            },
        },
        HintLevel::Solution => {
            push_str(&mut out, "尚未配置 LLM，无法生成参考方案。请在导师模式输入 config 配置模型。");
        },
    }
    assert(out@ =~= test_result_hint_spec(
        result.name@,
        result.actual_output@,
        result.expected_output@,
        crate::analysis::error_parser::opt_str(result.runtime_error),
        classified@,
        level,
    ));
    Hint::new(level, out)
}

} // verus!
