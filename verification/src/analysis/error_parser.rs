//! Parser for the human-readable diagnostics that `rustc` and `cargo` print.
//!
//! Each diagnostic starts with a header line (`error[E0382]: ...`,
//! `warning: ...`), is followed by a location line (` --> file:line:col`)
//! and may carry notes (`= note: ...`, `= help: ...`, `help: ...`).
//! Summary lines such as `error: aborting due to ...` have no location line;
//! a diagnostic is therefore only reported once its location has been seen.
use crate::text::{
    all_digits, chars_of, find_char, find_spec, is_digit, lemma_find, lemma_rfind_from_bounds, lines,
    lines_spec, parse_uint, parse_uint_spec, rfind_char, rfind_spec, slice_chars, string_of,
    strip_prefix_spec, strip_prefix_str, trim, trim_spec, trim_start, trim_start_spec, views,
};
use vstd::prelude::*;

verus! {

/// Severity of a diagnostic.
#[derive(Debug, Clone, Copy, PartialEq, Eq, Structural)]
pub enum Severity {
    Error,
    Warning,
}

/// A position in a source file.
#[derive(Debug, Clone, PartialEq, Eq)]
pub struct SourceLocation {
    /// File path.
    pub file: String,
    /// Line number (from 1).
    pub line: usize,
    /// Column number (from 1).
    pub column: usize,
}

/// The contents of a [`SourceLocation`].
pub struct LocationView {
    pub file: Seq<char>,
    pub line: usize,
    pub column: usize,
}

impl View for SourceLocation {
    type V = LocationView;

    open spec fn view(&self) -> LocationView {
        LocationView { file: self.file@, line: self.line, column: self.column }
    }
}

/// One parsed compiler diagnostic.
#[derive(Debug, Clone, PartialEq, Eq)]
pub struct RustcDiagnostic {
    /// Severity.
    pub severity: Severity,
    /// Error code such as `E0382`, if the header carries one.
    pub code: Option<String>,
    /// Main message (the text after the header's colon).
    pub message: String,
    /// Main location: the first location line after the header.
    pub location: Option<SourceLocation>,
    /// Notes and help lines.
    pub notes: Vec<String>,
}

/// The contents of a [`RustcDiagnostic`].
pub struct DiagnosticView {
    pub severity: Severity,
    pub code: Option<Seq<char>>,
    pub message: Seq<char>,
    pub location: Option<LocationView>,
    pub notes: Seq<Seq<char>>,
}

pub open spec fn opt_str(o: Option<String>) -> Option<Seq<char>> {
    match o {
        Some(s) => Some(s@),
        None => None,
    }
}

pub open spec fn opt_loc(o: Option<SourceLocation>) -> Option<LocationView> {
    match o {
        Some(l) => Some(l@),
        None => None,
    }
}

pub open spec fn string_views(v: Seq<String>) -> Seq<Seq<char>> {
    Seq::new(v.len(), |i: int| v[i]@)
}

impl View for RustcDiagnostic {
    type V = DiagnosticView;

    open spec fn view(&self) -> DiagnosticView {
        DiagnosticView {
            severity: self.severity,
            code: opt_str(self.code),
            message: self.message@,
            location: opt_loc(self.location),
            notes: string_views(self.notes@),
        }
    }
}

pub open spec fn diag_views(v: Seq<RustcDiagnostic>) -> Seq<DiagnosticView> {
    Seq::new(v.len(), |i: int| v[i]@)
}

// ------------------------------------------------------------------
// Header lines
// ------------------------------------------------------------------

/// An error code in brackets: `E` followed by one or more digits.
pub open spec fn valid_code(inside: Seq<char>) -> bool {
    inside.len() > 1 && inside[0] == 'E' && all_digits(inside.drop_first())
}

/// Severity and the rest of a line that starts with `error` or `warning`.
pub open spec fn severity_prefix(t: Seq<char>) -> Option<(Severity, Seq<char>)> {
    match strip_prefix_spec(t, "error"@) {
        Some(rest) => Some((Severity::Error, rest)),
        None => match strip_prefix_spec(t, "warning"@) {
            Some(rest) => Some((Severity::Warning, rest)),
            None => None,
        },
    }
}

/// Parses a header line: leading white space is ignored, then `error` or
/// `warning`, an optional bracketed code `[E0382]`, and `: ` before the message.
pub open spec fn header_spec(line: Seq<char>) -> Option<(Severity, Option<Seq<char>>, Seq<char>)> {
    match severity_prefix(trim_start_spec(line)) {
        None => None,
        Some((sev, rest)) => if rest.len() > 0 && rest[0] == '[' {
            match find_spec(rest, seq![']']) {
                None => None,
                Some(end) => {
                    let inside = rest.subrange(1, end);
                    if valid_code(inside) {
                        match strip_prefix_spec(rest.subrange(end + 1, rest.len() as int), ": "@) {
                            Some(msg) => Some((sev, Some(inside), msg)),
                            None => None,
                        }
                    } else {
                        None
                    }
                },
            }
        } else {
            match strip_prefix_spec(rest, ": "@) {
                Some(msg) => Some((sev, None, msg)),
                None => None,
            }
        },
    }
}

fn valid_code_exec(inside: &Vec<char>) -> (r: bool)
    ensures
        r == valid_code(inside@),
{
    if inside.len() <= 1 || inside[0] != 'E' {
        return false;
    }
    let mut i: usize = 1;
    while i < inside.len()
        invariant
            1 <= i <= inside@.len(),
            forall|j: int| 1 <= j < i ==> is_digit(inside@[j]),
        decreases inside.len() - i,
    {
        let c = inside[i];
        if !('0' <= c && c <= '9') {
            assert(inside@.drop_first()[i - 1] == c);
            return false;
        }
        i = i + 1;
    }
    assert forall|j: int| 0 <= j < inside@.drop_first().len() implies is_digit(
        #[trigger] inside@.drop_first()[j],
    ) by {
        assert(inside@.drop_first()[j] == inside@[j + 1]);
    }
    true
}

fn severity_prefix_exec(t: &Vec<char>) -> (r: Option<(Severity, Vec<char>)>)
    ensures
        match r {
            Some((sev, rest)) => severity_prefix(t@) == Some((sev, rest@)),
            None => severity_prefix(t@) is None,
        },
{
    match strip_prefix_str(t, "error") {
        Some(rest) => Some((Severity::Error, rest)),
        None => match strip_prefix_str(t, "warning") {
            Some(rest) => Some((Severity::Warning, rest)),
            None => None,
        },
    }
}

/// Header parsing on a character sequence.
pub fn parse_header_chars(line: &Vec<char>) -> (r: Option<(Severity, Option<String>, String)>)
    ensures
        match r {
            Some((sev, code, msg)) => header_spec(line@) == Some((sev, opt_str(code), msg@)),
            None => header_spec(line@) is None,
        },
{
    let t = trim_start(line);
    let (sev, rest) = match severity_prefix_exec(&t) {
        Some(p) => p,
        None => return None,
    };
    if rest.len() > 0 && rest[0] == '[' {
        let end = match find_char(&rest, ']') {
            Some(e) => e,
            None => return None,
        };
        proof {
            lemma_find(rest@, seq![']']);
            if end == 0 {
                assert(rest@.subrange(0, 1)[0] == ']');
            }
        }
        let inside = slice_chars(&rest, 1, end);
        if !valid_code_exec(&inside) {
            return None;
        }
        let after = slice_chars(&rest, end + 1, rest.len());
        match strip_prefix_str(&after, ": ") {
            Some(msg) => Some((sev, Some(string_of(&inside)), string_of(&msg))),
            None => None,
        }
    } else {
        match strip_prefix_str(&rest, ": ") {
            Some(msg) => Some((sev, None, string_of(&msg))),
            None => None,
        }
    }
}

/// Tries to read a line as a diagnostic header.
///
/// `error[E0382]: borrow of moved value` gives `(Error, Some("E0382"), "borrow of moved value")`,
/// `warning: unused variable` gives `(Warning, None, "unused variable")`; any other line gives `None`.
/// Summary lines such as `error: aborting due to ...` are headers too; they are
/// told apart by [`parse_diagnostics`].
pub fn parse_header(line: &str) -> (r: Option<(Severity, Option<String>, String)>)
    ensures
        match r {
            Some((sev, code, msg)) => header_spec(line@) == Some((sev, opt_str(code), msg@)),
            None => header_spec(line@) is None,
        },
{
    let v = chars_of(line);
    parse_header_chars(&v)
}

// ------------------------------------------------------------------
// Location lines
// ------------------------------------------------------------------

/// Parses ` --> file:line:col`; line and column are the two last colon-separated
/// fields, so a file path may itself contain colons.
pub open spec fn location_spec(line: Seq<char>) -> Option<LocationView> {
    match strip_prefix_spec(trim_start_spec(line), "-->"@) {
        None => None,
        Some(r0) => {
            let rest = trim_spec(r0);
            match rfind_spec(rest, seq![':']) {
                None => None,
                Some(lc) => {
                    let col = rest.subrange(lc + 1, rest.len() as int);
                    let before = rest.subrange(0, lc);
                    match rfind_spec(before, seq![':']) {
                        None => None,
                        Some(sc) => {
                            let ln = before.subrange(sc + 1, before.len() as int);
                            let file = before.subrange(0, sc);
                            match (
                                parse_uint_spec(col, usize::MAX as nat),
                                parse_uint_spec(ln, usize::MAX as nat),
                            ) {
                                (Some(c), Some(l)) => Some(
                                    LocationView { file, line: l as usize, column: c as usize },
                                ),
                                _ => None,
                            }
                        },
                    }
                },
            }
        },
    }
}

pub fn parse_location_chars(line: &Vec<char>) -> (r: Option<SourceLocation>)
    ensures
        opt_loc(r) == location_spec(line@),
{
    let t = trim_start(line);
    let r0 = match strip_prefix_str(&t, "-->") {
        Some(r) => r,
        None => return None,
    };
    let rest = trim(&r0);
    let lc = match rfind_char(&rest, ':') {
        Some(k) => k,
        None => return None,
    };
    proof {
        lemma_rfind_from_bounds(rest@, seq![':'], rest@.len() - 1);
    }
    let col = slice_chars(&rest, lc + 1, rest.len());
    let before = slice_chars(&rest, 0, lc);
    let sc = match rfind_char(&before, ':') {
        Some(k) => k,
        None => return None,
    };
    proof {
        lemma_rfind_from_bounds(before@, seq![':'], before@.len() - 1);
    }
    let ln = slice_chars(&before, sc + 1, before.len());
    let file = slice_chars(&before, 0, sc);
    let column = match parse_uint(&col, usize::MAX as u64) {
        Some(c) => c as usize,
        None => return None,
    };
    let line_no = match parse_uint(&ln, usize::MAX as u64) {
        Some(l) => l as usize,
        None => return None,
    };
    Some(SourceLocation { file: string_of(&file), line: line_no, column })
}

/// Tries to read a line as a location line ` --> src/main.rs:6:20`.
pub fn parse_location(line: &str) -> (r: Option<SourceLocation>)
    ensures
        opt_loc(r) == location_spec(line@),
{
    let v = chars_of(line);
    parse_location_chars(&v)
}

// ------------------------------------------------------------------
// Note lines
// ------------------------------------------------------------------

/// The text after `= note:`, `= help:` or `help:` on a trimmed line, trimmed.
pub open spec fn note_spec(line: Seq<char>) -> Option<Seq<char>> {
    let t = trim_spec(line);
    match strip_prefix_spec(t, "= note:"@) {
        Some(m) => Some(trim_spec(m)),
        None => match strip_prefix_spec(t, "= help:"@) {
            Some(m) => Some(trim_spec(m)),
            None => match strip_prefix_spec(t, "help:"@) {
                Some(m) => Some(trim_spec(m)),
                None => None,
            },
        },
    }
}

/// A line whose text, without surrounding white space, starts with
/// `= note:`, `= help:` or `help:` is a note; its text is the rest, trimmed.
/// The three forms are read alike whatever follows the marker.
pub proof fn law_note_and_help_lines_are_notes(line: Seq<char>, rest: Seq<char>)
    ensures
        trim_spec(line) == "= note:"@ + rest ==> note_spec(line) == Some(trim_spec(rest)),
        trim_spec(line) == "= help:"@ + rest ==> note_spec(line) == Some(trim_spec(rest)),
        trim_spec(line) == "help:"@ + rest ==> note_spec(line) == Some(trim_spec(rest)),
{
    reveal_strlit("= note:");
    reveal_strlit("= help:");
    reveal_strlit("help:");
    let t = trim_spec(line);
    if t == "= note:"@ + rest {
        assert(t.subrange(0, 7) =~= "= note:"@);
        assert(t.subrange(7, t.len() as int) =~= rest);
    }
    if t == "= help:"@ + rest {
        assert(t[2] == 'h');
        assert(t.subrange(0, 7) != "= note:"@) by {
            assert(t.subrange(0, 7)[2] == 'h');
        }
        assert(t.subrange(0, 7) =~= "= help:"@);
        assert(t.subrange(7, t.len() as int) =~= rest);
    }
    if t == "help:"@ + rest {
        assert(t[0] == 'h');
        if t.len() >= 7 {
            assert(t.subrange(0, 7)[0] == 'h');
        }
        assert(t.subrange(0, 5) =~= "help:"@);
        assert(t.subrange(5, t.len() as int) =~= rest);
    }
}

pub fn parse_note_chars(line: &Vec<char>) -> (r: Option<String>)
    ensures
        opt_str(r) == note_spec(line@),
{
    let t = trim(line);
    let m = match strip_prefix_str(&t, "= note:") {
        Some(m) => m,
        None => match strip_prefix_str(&t, "= help:") {
            Some(m) => m,
            None => match strip_prefix_str(&t, "help:") {
                Some(m) => m,
                None => return None,
            },
        },
    };
    let tm = trim(&m);
    Some(string_of(&tm))
}

/// Tries to read a line as a note (`= note: ...`, `= help: ...`, `help: ...`).
pub fn parse_note(line: &str) -> (r: Option<String>)
    ensures
        opt_str(r) == note_spec(line@),
{
    let v = chars_of(line);
    parse_note_chars(&v)
}

// ------------------------------------------------------------------
// Whole outputs
// ------------------------------------------------------------------

/// Reports the pending diagnostic if it has a location; drops it otherwise.
pub open spec fn commit(done: Seq<DiagnosticView>, pending: Option<DiagnosticView>) -> Seq<
    DiagnosticView,
> {
    match pending {
        Some(d) => if d.location is Some {
            done.push(d)
        } else {
            done
        },
        None => done,
    }
}

/// One line of the state machine: a header starts a new pending diagnostic
/// (committing the previous one); a location line gives the pending one its
/// main location, the first location after the header, and later location
/// lines (spans of notes) leave it; a note line adds a note to it; other
/// lines change nothing.
pub open spec fn parse_step(
    state: (Seq<DiagnosticView>, Option<DiagnosticView>),
    line: Seq<char>,
) -> (Seq<DiagnosticView>, Option<DiagnosticView>) {
    let (done, pending) = state;
    match header_spec(line) {
        Some((severity, code, message)) => (
            commit(done, pending),
            Some(
                DiagnosticView { severity, code, message, location: None, notes: seq![] },
            ),
        ),
        None => match location_spec(line) {
            Some(loc) => (
                done,
                match pending {
                    Some(d) => if d.location is None {
                        Some(DiagnosticView { location: Some(loc), ..d })
                    } else {
                        Some(d)
                    },
                    None => None,
                },
            ),
            None => match note_spec(line) {
                Some(n) => (
                    done,
                    match pending {
                        Some(d) => Some(DiagnosticView { notes: d.notes.push(n), ..d }),
                        None => None,
                    },
                ),
                None => (done, pending),
            },
        },
    }
}

/// A note line (one that is neither a header nor a location) adds its note
/// at the end of the pending diagnostic's notes and changes nothing else;
/// with nothing pending it changes nothing.
pub proof fn law_note_line_extends_pending(
    done: Seq<DiagnosticView>,
    pending: Option<DiagnosticView>,
    line: Seq<char>,
    n: Seq<char>,
)
    requires
        header_spec(line) is None,
        location_spec(line) is None,
        note_spec(line) == Some(n),
    ensures
        parse_step((done, pending), line).0 == done,
        pending is None ==> parse_step((done, pending), line).1 is None,
        pending matches Some(d) ==> parse_step((done, pending), line).1 == Some(
            DiagnosticView { notes: d.notes.push(n), ..d },
        ),
        pending matches Some(d) ==> parse_step((done, pending), line).1->0.notes.len() == d.notes.len() + 1
            && parse_step((done, pending), line).1->0.notes.last() == n
            && parse_step((done, pending), line).1->0.location == d.location
            && parse_step((done, pending), line).1->0.message == d.message,
{
}

pub open spec fn parse_run(lines: Seq<Seq<char>>) -> (Seq<DiagnosticView>, Option<DiagnosticView>)
    decreases lines.len(),
{
    if lines.len() == 0 {
        (seq![], None)
    } else {
        parse_step(parse_run(lines.drop_last()), lines.last())
    }
}

/// The diagnostics in a compiler's standard error output.
pub open spec fn diagnostics_spec(stderr: Seq<char>) -> Seq<DiagnosticView> {
    let (done, pending) = parse_run(lines_spec(stderr));
    commit(done, pending)
}

pub open spec fn all_located(v: Seq<DiagnosticView>) -> bool {
    forall|i: int| 0 <= i < v.len() ==> (#[trigger] v[i]).location is Some
}

proof fn lemma_run_located(lines: Seq<Seq<char>>)
    ensures
        all_located(parse_run(lines).0),
    decreases lines.len(),
{
    if lines.len() > 0 {
        lemma_run_located(lines.drop_last());
    }
}

fn commit_exec(done: &mut Vec<RustcDiagnostic>, pending: Option<RustcDiagnostic>)
    ensures
        diag_views(final(done)@) == commit(diag_views(old(done)@), match pending {
            Some(d) => Some(d@),
            None => None,
        }),
{
    if let Some(d) = pending {
        if d.location.is_some() {
            done.push(d);
            assert(diag_views(done@) =~= diag_views(old(done)@).push(d@));
        }
    }
}

pub open spec fn opt_diag(o: Option<RustcDiagnostic>) -> Option<DiagnosticView> {
    match o {
        Some(d) => Some(d@),
        None => None,
    }
}

/// Parses compiler output into diagnostics.
///
/// Runs [`parse_step`] over the lines; a pending diagnostic is reported when
/// the next header arrives or the output ends, and only if it has a location,
/// so summary lines like `error: aborting due to 1 previous error` are dropped.
/// Empty output, or output of only summary lines, gives no diagnostics.
pub fn parse_diagnostics(stderr: &str) -> (r: Vec<RustcDiagnostic>)
    ensures
        diag_views(r@) == diagnostics_spec(stderr@),
        all_located(diag_views(r@)),
{
    let all = chars_of(stderr);
    let ls = lines(&all);
    let mut done: Vec<RustcDiagnostic> = Vec::new();
    let mut pending: Option<RustcDiagnostic> = None;
    let mut i: usize = 0;
    assert(views(ls@).take(0) =~= seq![]);
    while i < ls.len()
        invariant
            i <= ls@.len(),
            parse_run(views(ls@).take(i as int)) == (diag_views(done@), opt_diag(pending)),
        decreases ls.len() - i,
    {
        let line = &ls[i];
        assert(views(ls@).take(i + 1).drop_last() =~= views(ls@).take(i as int));
        assert(views(ls@).take(i + 1).last() == line@);
        match parse_header_chars(line) {
            Some((severity, code, message)) => {
                let prev = pending;
                commit_exec(&mut done, prev);
                let fresh = RustcDiagnostic {
                    severity,
                    code,
                    message,
                    location: None,
                    notes: Vec::new(),
                };
                assert(fresh@.notes =~= seq![]);
                pending = Some(fresh);
            },
            None => {
                match parse_location_chars(line) {
                    Some(loc) => {
                        match pending {
                            Some(d) => {
                                let RustcDiagnostic { severity, code, message, location, notes } =
                                    d;
                                let main = match location {
                                    Some(first) => Some(first),
                                    None => Some(loc),
                                };
                                pending = Some(
                                    RustcDiagnostic { severity, code, message, location: main, notes },
                                );
                            },
                            None => {},
                        }
                    },
                    None => {
                        match parse_note_chars(line) {
                            Some(n) => {
                                match pending {
                                    Some(d) => {
                                        let RustcDiagnostic {
                                            severity,
                                            code,
                                            message,
                                            location,
                                            notes,
                                        } = d;
                                        let mut notes = notes;
                                        let ghost old_notes = notes@;
                                        notes.push(n);
                                        assert(string_views(notes@) =~= string_views(
                                            old_notes,
                                        ).push(n@));
                                        pending = Some(
                                            RustcDiagnostic {
                                                severity,
                                                code,
                                                message,
                                                location,
                                                notes,
                                            },
                                        );
                                    },
                                    None => {},
                                }
                            },
                            None => {},
                        }
                    },
                }
            },
        }
        i = i + 1;
    }
    assert(views(ls@).take(ls@.len() as int) =~= views(ls@));
    commit_exec(&mut done, pending);
    proof {
        lemma_run_located(views(ls@));
    }
    done
}

} // verus!
