//! The source context shown to a model: the diagnosed file and nearby lines,
//! limited by the effort policy's file count, line window and byte size.
use crate::analysis::error_parser::{LocationView, SourceLocation};
use crate::config::effort::{for_mode_spec, EffortMode, EffortPolicy, SourceScope};
use crate::path::{path_ends_with, path_ends_with_exec};
use crate::text::{
    byte_len, byte_len_exec, chars_eq, chars_of, clone_chars, count_spec, decimal, has_prefix,
    join_spec, lemma_join_take, lemma_split_nonempty, lines, lines_spec, prefix_within,
    prefix_within_exec, push_chars, push_decimal, push_str, split_once_spec, split_once_str,
    split_spec, split_str, starts_with_str, string_of, views,
};
use vstd::prelude::*;

verus! {

pub open spec fn marker() -> Seq<char> {
    "// file: "@
}

pub open spec fn truncated_note() -> Seq<char> {
    "\n// …源码上下文已按思考模式截断"@
}

/// Cuts text to `max` bytes of UTF-8 at a character boundary and notes the cut.
pub open spec fn truncate_spec(v: Seq<char>, max: nat) -> Seq<char> {
    if byte_len(v) <= max {
        v
    } else {
        prefix_within(v, max) + truncated_note()
    }
}

/// Cuts `value` to `max_bytes` bytes of UTF-8 at a character boundary.
pub fn truncate_utf8(value: &Vec<char>, max_bytes: usize) -> (r: String)
    ensures
        r@ == truncate_spec(value@, max_bytes as nat),
{
    let size = byte_len_exec(value);
    if size <= max_bytes as u128 {
        return string_of(value);
    }
    let p = prefix_within_exec(value, max_bytes);
    let mut out = string_of(&p);
    push_str(&mut out, "\n// …源码上下文已按思考模式截断");
    out
}

/// Parts of a multi-file source after its first file marker, each re-marked,
/// at most `max_files` of them, concatenated.
pub open spec fn marked_concat(parts: Seq<Seq<char>>) -> Seq<char>
    decreases parts.len(),
{
    if parts.len() == 0 {
        seq![]
    } else {
        marked_concat(parts.drop_last()) + marker() + parts.last()
    }
}

/// A source limited by the scope: a multi-file source (starting with
/// `// file: `) keeps its first `max_files` files; then the size is limited.
pub open spec fn limit_spec(source: Seq<char>, scope: SourceScope) -> Seq<char> {
    if !has_prefix(source, marker()) {
        truncate_spec(source, scope.max_bytes as nat)
    } else {
        let parts = split_spec(source, marker()).drop_first();
        let kept = if parts.len() <= scope.max_files {
            parts
        } else {
            parts.take(scope.max_files as int)
        };
        truncate_spec(marked_concat(kept), scope.max_bytes as nat)
    }
}

/// Limits a whole-project source by file count and UTF-8 size.
pub fn limit_source(source: &str, scope: SourceScope) -> (r: String)
    ensures
        r@ == limit_spec(source@, scope),
{
    let src = chars_of(source);
    if !starts_with_str(&src, "// file: ") {
        return truncate_utf8(&src, scope.max_bytes);
    }
    proof {
        reveal_strlit("// file: ");
    }
    let all = split_str(&src, "// file: ");
    proof {
        lemma_split_nonempty(src@, marker());
    }
    let ghost parts = views(all@).drop_first();
    let ghost kept = if parts.len() <= scope.max_files {
        parts
    } else {
        parts.take(scope.max_files as int)
    };
    let n: usize = if all.len() - 1 <= scope.max_files {
        all.len() - 1
    } else {
        scope.max_files
    };
    assert(kept.len() == n);
    let mut out: Vec<char> = Vec::new();
    let mut i: usize = 0;
    let mk = chars_of("// file: ");
    assert(kept.take(0) =~= seq![]);
    while i < n
        invariant
            i <= n,
            n + 1 <= all@.len(),
            kept.len() == n,
            forall|j: int| 0 <= j < n ==> kept[j] == views(all@)[j + 1],
            mk@ == marker(),
            out@ == marked_concat(kept.take(i as int)),
        decreases n - i,
    {
        assert(kept.take(i + 1).drop_last() =~= kept.take(i as int));
        assert(kept[i as int] == all@[i + 1]@);
        let ghost before = out@;
        let mut j: usize = 0;
        while j < mk.len()
            invariant
                j <= mk@.len(),
                out@ == before + mk@.take(j as int),
            decreases mk.len() - j,
        {
            out.push(mk[j]);
            j = j + 1;
            assert(out@ =~= before + mk@.take(j as int));
        }
        assert(mk@.take(mk@.len() as int) =~= mk@);
        let part = &all[i + 1];
        let ghost mid = out@;
        let mut k: usize = 0;
        while k < part.len()
            invariant
                k <= part@.len(),
                out@ == mid + part@.take(k as int),
            decreases part.len() - k,
        {
            out.push(part[k]);
            k = k + 1;
            assert(out@ =~= mid + part@.take(k as int));
        }
        assert(part@.take(part@.len() as int) =~= part@);
        i = i + 1;
        assert(out@ =~= marked_concat(kept.take(i as int)));
    }
    assert(kept.take(n as int) =~= kept);
    truncate_utf8(&out, scope.max_bytes)
}

/// The number of files in a source: the number of `// file: ` markers, at least 1.
pub fn source_file_count(source: &str) -> (r: usize)
    ensures
        r == if count_spec(source@, marker()) >= 1 {
            count_spec(source@, marker())
        } else {
            1
        },
{
    let src = chars_of(source);
    proof {
        reveal_strlit("// file: ");
        lemma_split_nonempty(src@, marker());
    }
    let parts = split_str(&src, "// file: ");
    let count = parts.len() - 1;
    if count >= 1 {
        count
    } else {
        1
    }
}

/// The body of the first file part whose header names `file`, either exactly
/// or as a path that `file` ends with.
pub open spec fn part_body(part: Seq<char>, file: Seq<char>) -> Option<Seq<char>> {
    match split_once_spec(part, "\n"@) {
        Some((f, body)) => if f == file || path_ends_with(file, f) {
            Some(body)
        } else {
            None
        },
        None => None,
    }
}

pub open spec fn first_body(parts: Seq<Seq<char>>, file: Seq<char>) -> Option<Seq<char>>
    decreases parts.len(),
{
    if parts.len() == 0 {
        None
    } else {
        match part_body(parts[0], file) {
            Some(b) => Some(b),
            None => first_body(parts.drop_first(), file),
        }
    }
}

/// The part of a source that holds the diagnosed file (all of it when the
/// source is a single file or no part names the file).
pub open spec fn selected_spec(source: Seq<char>, file: Seq<char>) -> Seq<char> {
    if has_prefix(source, marker()) {
        match first_body(split_spec(source, marker()).drop_first(), file) {
            Some(b) => b,
            None => source,
        }
    } else {
        source
    }
}

/// `usize::saturating_sub`.
pub open spec fn sat_sub(a: usize, b: usize) -> usize {
    if a >= b {
        (a - b) as usize
    } else {
        0
    }
}

/// `usize::saturating_add`.
pub open spec fn sat_add(a: usize, b: usize) -> usize {
    if a + b > usize::MAX {
        usize::MAX
    } else {
        (a + b) as usize
    }
}

/// First line index (0-based) of the window around `line`.
pub open spec fn window_start(line: usize, context_lines: usize) -> usize {
    if context_lines == usize::MAX {
        0
    } else {
        sat_sub(line, ((sat_sub(context_lines, 1) / 2) + 1) as usize)
    }
}

/// End (exclusive) of the window.
pub open spec fn window_end(start: usize, context_lines: usize) -> usize {
    if context_lines == usize::MAX {
        usize::MAX
    } else {
        sat_add(start, context_lines)
    }
}

/// A line with its 1-based number: `n: text`.
pub open spec fn numbered(ls: Seq<Seq<char>>, i: int) -> Seq<char> {
    decimal((i + 1) as nat) + ": "@ + ls[i]
}

/// The numbered lines with index in `[start, end)`.
pub open spec fn window_lines(ls: Seq<Seq<char>>, start: int, end: int) -> Seq<Seq<char>> {
    let hi = if end < ls.len() {
        end
    } else {
        ls.len() as int
    };
    if start < hi {
        Seq::new((hi - start) as nat, |j: int| numbered(ls, start + j))
    } else {
        seq![]
    }
}

/// The window of the diagnosed file around the error line, with numbered
/// lines under a header naming the file, limited in size.
pub open spec fn relevant_spec(source: Seq<char>, loc: Option<LocationView>, scope: SourceScope) -> Seq<
    char,
> {
    match loc {
        None => limit_spec(source, scope),
        Some(l) => {
            let ls = lines_spec(selected_spec(source, l.file));
            let start = window_start(l.line, scope.context_lines);
            let end = window_end(start, scope.context_lines);
            truncate_spec(
                "// "@ + l.file + " (相关源码片段)\n"@ + join_spec(
                    window_lines(ls, start as int, end as int),
                    "\n"@,
                ),
                scope.max_bytes as nat,
            )
        },
    }
}

fn part_body_exec(part: &Vec<char>, file: &Vec<char>) -> (r: Option<Vec<char>>)
    ensures
        match r {
            Some(b) => part_body(part@, file@) == Some(b@),
            None => part_body(part@, file@) is None,
        },
{
    match split_once_str(part, "\n") {
        Some((f, body)) => {
            if chars_eq(&f, file) || path_ends_with_exec(file, &f) {
                Some(body)
            } else {
                None
            }
        },
        None => None,
    }
}

fn selected_exec(src: &Vec<char>, file: &Vec<char>) -> (r: Vec<char>)
    ensures
        r@ == selected_spec(src@, file@),
{
    if !starts_with_str(src, "// file: ") {
        return clone_chars(src);
    }
    proof {
        reveal_strlit("// file: ");
        lemma_split_nonempty(src@, marker());
    }
    let all = split_str(src, "// file: ");
    let ghost parts = views(all@).drop_first();
    let mut i: usize = 1;
    assert(parts.subrange(0, parts.len() as int) =~= parts);
    while i < all.len()
        invariant
            1 <= i <= all@.len(),
            parts == views(all@).drop_first(),
            first_body(parts, file@) == first_body(parts.subrange(i - 1, parts.len() as int), file@),
            selected_spec(src@, file@) == match first_body(parts, file@) {
                Some(b) => b,
                None => src@,
            },
        decreases all.len() - i,
    {
        let ghost rest = parts.subrange(i - 1, parts.len() as int);
        assert(rest[0] == all@[i as int]@);
        assert(rest.drop_first() =~= parts.subrange(i as int, parts.len() as int));
        match part_body_exec(&all[i], file) {
            Some(b) => {
                return b;
            },
            None => {},
        }
        i = i + 1;
    }
    clone_chars(src)
}

/// Selects the diagnosed file and the lines near the error with the medium
/// policy, keeping file and line coordinates.
pub fn relevant_source(source: &str, location: Option<&SourceLocation>) -> (r: String)
    ensures
        r@ == relevant_spec(
            source@,
            match location {
                Some(l) => Some(l@),
                None => None,
            },
            for_mode_spec(EffortMode::Medium).source,
        ),
{
    let policy = EffortPolicy::for_mode(EffortMode::Medium);
    relevant_source_with_scope(source, location, policy.source)
}

/// Selects source according to one effort policy, always preferring the diagnosed file.
#[verifier::rlimit(40)]
pub fn relevant_source_with_scope(source: &str, location: Option<&SourceLocation>, scope: SourceScope) -> (r:
    String)
    ensures
        r@ == relevant_spec(
            source@,
            match location {
                Some(l) => Some(l@),
                None => None,
            },
            scope,
        ),
{
    let loc = match location {
        None => {
            return limit_source(source, scope);
        },
        Some(l) => l,
    };
    let src = chars_of(source);
    let file = chars_of(loc.file.as_str());
    let selected = selected_exec(&src, &file);
    let ls = lines(&selected);
    let radius = if scope.context_lines >= 1 {
        (scope.context_lines - 1) / 2
    } else {
        0
    };
    let start: usize = if scope.context_lines == usize::MAX {
        0
    } else if loc.line >= radius + 1 {
        loc.line - (radius + 1)
    } else {
        0
    };
    let end: usize = if scope.context_lines == usize::MAX {
        usize::MAX
    } else if start > usize::MAX - scope.context_lines {
        usize::MAX
    } else {
        start + scope.context_lines
    };
    assert(start == window_start(loc.line, scope.context_lines));
    assert(end == window_end(start, scope.context_lines));
    let hi: usize = if end < ls.len() {
        end
    } else {
        ls.len()
    };
    let ghost lsv = views(ls@);
    let ghost win = window_lines(lsv, start as int, end as int);
    let mut body: Vec<char> = Vec::new();
    let mut out = String::new();
    push_str(&mut out, "// ");
    push_str(&mut out, loc.file.as_str());
    push_str(&mut out, " (相关源码片段)\n");
    let ghost head = out@;
    let mut i: usize = start;
    if start < hi {
        assert(win.len() == hi - start);
        assert(win.take(0) =~= seq![]);
        while i < hi
            invariant
                start <= i <= hi <= ls@.len(),
                lsv == views(ls@),
                win == window_lines(lsv, start as int, end as int),
                win.len() == hi - start,
                forall|j: int| 0 <= j < hi - start ==> win[j] == numbered(lsv, start + j),
                out@ == head + join_spec(win.take(i - start), "\n"@),
            decreases hi - i,
        {
            proof {
                lemma_join_take(win, "\n"@, i - start);
            }
            if i > start {
                push_str(&mut out, "\n");
            }
            push_decimal(&mut out, (i as u64) + 1);
            push_str(&mut out, ": ");
            assert(lsv[i as int] == ls@[i as int]@);
            push_chars(&mut out, &ls[i]);
            assert(win[i - start] == numbered(lsv, i as int));
            i = i + 1;
            assert(out@ =~= head + join_spec(win.take(i - start), "\n"@));
        }
        assert(win.take(hi - start) =~= win);
    } else {
        assert(win =~= seq![]);
    }
    let all = chars_of(out.as_str());
    let r = truncate_utf8(&all, scope.max_bytes);
    assert(all@ =~= "// "@ + loc.file@ + " (相关源码片段)\n"@ + join_spec(win, "\n"@));
    r
}

// ------------------------------------------------------------------
// Compact assignment rules
// ------------------------------------------------------------------

/// `str::trim_start_matches` for one character.
pub open spec fn drop_leading(s: Seq<char>, c: char) -> Seq<char>
    decreases s.len(),
{
    if s.len() > 0 && s[0] == c {
        drop_leading(s.drop_first(), c)
    } else {
        s
    }
}

/// One section of assignment rules: its heading and its rules in order.
pub struct RuleSection {
    pub section: String,
    pub rules: Vec<String>,
}

pub open spec fn section_view(s: RuleSection) -> (Seq<char>, Seq<Seq<char>>) {
    (s.section@, s.rules@.map_values(|r: String| r@))
}

pub open spec fn section_views(v: Seq<RuleSection>) -> Seq<(Seq<char>, Seq<Seq<char>>)> {
    Seq::new(v.len(), |i: int| section_view(v[i]))
}

/// Adds a rule to the last section.
pub open spec fn add_rule(secs: Seq<(Seq<char>, Seq<Seq<char>>)>, rule: Seq<char>) -> Seq<(Seq<char>, Seq<Seq<char>>)> {
    let last = secs.last();
    secs.update(secs.len() - 1, (last.0, last.1.push(rule)))
}

/// One line read: a heading outside code opens a section; a fence toggles
/// code and is kept; code lines are kept as they are; other non-blank lines
/// are kept trimmed, once per section.
pub open spec fn rule_step(st: (Seq<(Seq<char>, Seq<Seq<char>>)>, bool), line: Seq<char>) -> (
    Seq<(Seq<char>, Seq<Seq<char>>)>,
    bool,
) {
    let t = trim_spec(line);
    let (secs, in_code) = st;
    if !in_code && has_prefix(t, "#"@) {
        (secs.push((trim_spec(drop_leading(t, '#')), Seq::empty())), in_code)
    } else if has_prefix(t, "```"@) {
        (add_rule(secs, line), !in_code)
    } else if in_code {
        (add_rule(secs, line), in_code)
    } else if t.len() > 0 && !secs.last().1.contains(t) {
        (add_rule(secs, t), in_code)
    } else {
        (secs, in_code)
    }
}

pub open spec fn rule_lines(ls: Seq<Seq<char>>) -> (Seq<(Seq<char>, Seq<Seq<char>>)>, bool)
    decreases ls.len(),
{
    if ls.len() == 0 {
        (seq![("requirements"@, Seq::empty())], false)
    } else {
        rule_step(rule_lines(ls.drop_last()), ls.last())
    }
}

/// The sections that have rules.
pub open spec fn nonempty_sections(secs: Seq<(Seq<char>, Seq<Seq<char>>)>) -> Seq<(Seq<char>, Seq<Seq<char>>)> {
    secs.filter(|s: (Seq<char>, Seq<Seq<char>>)| s.1.len() > 0)
}

use crate::text::{trim, trim_spec};

fn drop_leading_exec(s: &Vec<char>, c: char) -> (r: Vec<char>)
    ensures
        r@ == drop_leading(s@, c),
{
    let mut i: usize = 0;
    assert(s@.skip(0) =~= s@);
    while i < s.len() && s[i] == c
        invariant
            i <= s@.len(),
            drop_leading(s@.skip(i as int), c) == drop_leading(s@, c),
        decreases s.len() - i,
    {
        assert(s@.skip(i as int).drop_first() =~= s@.skip(i + 1));
        i = i + 1;
    }
    if i == 0 {
        assert(s@.skip(0) =~= s@);
    }
    let n = s.len();
    let r = slice_chars_of(s, i, n);
    r
}

fn slice_chars_of(s: &Vec<char>, i: usize, n: usize) -> (r: Vec<char>)
    requires
        i <= n == s@.len(),
    ensures
        r@ == s@.skip(i as int),
{
    let r = crate::text::slice_chars(s, i, n);
    assert(r@ =~= s@.skip(i as int));
    r
}

fn rules_contain(rules: &Vec<String>, rule: &Vec<char>) -> (r: bool)
    ensures
        r == rules@.map_values(|x: String| x@).contains(rule@),
{
    let ghost rv = rules@.map_values(|x: String| x@);
    let mut i: usize = 0;
    while i < rules.len()
        invariant
            i <= rules@.len(),
            rv == rules@.map_values(|x: String| x@),
            forall|j: int| 0 <= j < i ==> rv[j] != rule@,
        decreases rules.len() - i,
    {
        if crate::text::chars_eq(&chars_of(rules[i].as_str()), rule) {
            assert(rv[i as int] == rule@);
            return true;
        }
        i = i + 1;
    }
    false
}

fn push_rule(secs: &mut Vec<RuleSection>, rule: String)
    requires
        old(secs)@.len() > 0,
    ensures
        section_views(final(secs)@) == add_rule(section_views(old(secs)@), rule@),
        final(secs)@.len() == old(secs)@.len(),
{
    let ghost before = section_views(secs@);
    let ghost rv = rule@;
    let n = secs.len();
    let mut last = secs.pop().unwrap();
    let ghost lv = section_view(last);
    last.rules.push(rule);
    assert(section_view(last) =~= (lv.0, lv.1.push(rv)));
    secs.push(last);
    assert(section_views(secs@) =~= add_rule(before, rv));
}

/// The assignment's rules by section, for a compact prompt: headings open
/// sections, fenced code is kept verbatim, other lines are kept trimmed and
/// once per section, and sections without rules are left out.
pub fn compact_sections(description: &str) -> (r: Vec<RuleSection>)
    ensures
        section_views(r@) == nonempty_sections(rule_lines(lines_spec(description@)).0),
{
    let ls = lines(&chars_of(description));
    let ghost lv = views(ls@);
    let mut secs: Vec<RuleSection> = Vec::new();
    let first = RuleSection { section: crate::text::string_from("requirements"), rules: Vec::new() };
    assert(first.rules@.map_values(|r: String| r@) =~= Seq::<Seq<char>>::empty());
    secs.push(first);
    let mut in_code = false;
    let mut i: usize = 0;
    assert(lv.take(0) =~= Seq::<Seq<char>>::empty());
    assert(section_views(secs@) =~= seq![("requirements"@, Seq::<Seq<char>>::empty())]);
    while i < ls.len()
        invariant
            i <= ls@.len(),
            lv == views(ls@),
            secs@.len() > 0,
            rule_lines(lv.take(i as int)) == (section_views(secs@), in_code),
        decreases ls.len() - i,
    {
        assert(lv.take(i + 1).drop_last() =~= lv.take(i as int));
        assert(lv.take(i + 1).last() == ls@[i as int]@);
        let line = &ls[i];
        let t = trim(line);
        if !in_code && starts_with_str(&t, "#") {
            let name = trim(&drop_leading_exec(&t, '#'));
            let ghost before = section_views(secs@);
            let sec = RuleSection { section: string_of(&name), rules: Vec::new() };
            assert(section_view(sec) =~= (name@, Seq::<Seq<char>>::empty()));
            secs.push(sec);
            assert(section_views(secs@) =~= before.push((name@, Seq::<Seq<char>>::empty())));
        } else if starts_with_str(&t, "```") {
            push_rule(&mut secs, string_of(line));
            in_code = !in_code;
        } else if in_code {
            push_rule(&mut secs, string_of(line));
        } else if t.len() > 0 {
            let k = secs.len() - 1;
            assert(section_views(secs@).last() == section_view(secs@[k as int]));
            if !rules_contain(&secs[k].rules, &t) {
                push_rule(&mut secs, string_of(&t));
            }
        }
        i = i + 1;
    }
    assert(lv.take(ls@.len() as int) =~= lv);
    let ghost all = section_views(secs@);
    let total = secs.len();
    let mut out: Vec<RuleSection> = Vec::new();
    let mut j: usize = 0;
    let mut rest = secs;
    assert(all.take(0) =~= Seq::<(Seq<char>, Seq<Seq<char>>)>::empty());
    while rest.len() > 0
        invariant
            j + rest@.len() == all.len(),
            all.len() == total,
            section_views(rest@) == all.skip(j as int),
            section_views(out@) == nonempty_sections(all.take(j as int)),
        decreases rest@.len(),
    {
        let ghost old_rest = rest@;
        let sec = rest.remove(0);
        let ghost sv = section_view(sec);
        assert(sv == all[j as int]) by {
            assert(section_views(old_rest)[0] == section_view(old_rest[0]));
            assert(all.skip(j as int)[0] == all[j as int]);
        }
        assert(all.take(j + 1).drop_last() =~= all.take(j as int));
        assert(all.take(j + 1).last() == sv);
        assert(section_views(rest@) =~= all.skip(j + 1)) by {
            assert forall|k: int| 0 <= k < rest@.len() implies section_views(rest@)[k] == all.skip(j + 1)[k] by {
                assert(rest@[k] == old_rest[k + 1]);
                assert(section_views(old_rest)[k + 1] == section_view(old_rest[k + 1]));
                assert(all.skip(j as int)[k + 1] == all[j + 1 + k]);
            }
        }
        proof {
            reveal_with_fuel(Seq::filter, 2);
        }
        if sec.rules.len() > 0 {
            let ghost before = section_views(out@);
            out.push(sec);
            assert(section_views(out@) =~= before.push(sv));
        }
        j = j + 1;
    }
    assert(all.take(j as int) =~= all);
    out
}

} // verus!
