//! Where PADA keeps its data: one root directory with reports, saved
//! sessions and the learning profile.
use crate::path::{file_name, file_name_exec, join_path, lemma_file_name_plain, path_join, plain_name};
use crate::text::{
    chars_eq, chars_of, lemma_lex_total, lemma_lex_transitive, lex_less, lex_lt, parse_uint, parse_uint_spec, str_eq,
    string_from,
};
use vstd::prelude::*;

verus! {

/// How many automatically saved sessions are kept.
pub const MAX_AUTO_SESSIONS: usize = 20;

/// The data directory.
#[derive(Debug, Clone)]
pub struct DataStore {
    root: String,
}

pub open spec fn reports_dir_spec(root: Seq<char>) -> Seq<char> {
    path_join(root, "reports"@)
}

pub open spec fn sessions_dir_spec(root: Seq<char>, kind: Seq<char>) -> Seq<char> {
    path_join(path_join(root, "sessions"@), kind)
}

/// The file name of `requested`, or `fallback` when it has none.
pub open spec fn safe_name_spec(requested: Seq<char>, fallback: Seq<char>) -> Seq<char> {
    match file_name(requested) {
        Some(n) => n,
        None => fallback,
    }
}

/// Keeps only the file name of a requested path, so that files stay inside
/// the data directory.
pub fn safe_file_name(requested: &str, fallback: &str) -> (r: String)
    ensures
        r@ == safe_name_spec(requested@, fallback@),
{
    match file_name_exec(requested) {
        Some(n) => n,
        None => string_from(fallback),
    }
}

impl DataStore {
    pub closed spec fn root_spec(&self) -> Seq<char> {
        self.root@
    }

    pub fn new(root: String) -> (r: Self)
        ensures
            r.root_spec() == root@,
    {
        DataStore { root }
    }

    pub fn root(&self) -> (r: &str)
        ensures
            r@ == self.root_spec(),
    {
        self.root.as_str()
    }

    pub fn reports_dir(&self) -> (r: String)
        ensures
            r@ == reports_dir_spec(self.root_spec()),
    {
        join_path(self.root.as_str(), "reports")
    }

    pub fn auto_sessions_dir(&self) -> (r: String)
        ensures
            r@ == sessions_dir_spec(self.root_spec(), "auto"@),
    {
        let s = join_path(self.root.as_str(), "sessions");
        join_path(s.as_str(), "auto")
    }

    pub fn exported_sessions_dir(&self) -> (r: String)
        ensures
            r@ == sessions_dir_spec(self.root_spec(), "exported"@),
    {
        let s = join_path(self.root.as_str(), "sessions");
        join_path(s.as_str(), "exported")
    }

    pub fn learning_profile_path(&self) -> (r: String)
        ensures
            r@ == path_join(path_join(self.root_spec(), "learning"@), "profile.json"@),
    {
        let s = join_path(self.root.as_str(), "learning");
        join_path(s.as_str(), "profile.json")
    }

    /// Where a report asked for as `requested` is saved: its file name inside
    /// the reports directory.
    pub fn report_path(&self, requested: &str) -> (r: String)
        ensures
            r@ == path_join(reports_dir_spec(self.root_spec()), safe_name_spec(requested@, "report.md"@)),
    {
        let dir = self.reports_dir();
        let name = safe_file_name(requested, "report.md");
        join_path(dir.as_str(), name.as_str())
    }

    /// Where an exported session asked for as `requested` is saved.
    pub fn exported_session_path(&self, requested: &str) -> (r: String)
        ensures
            r@ == path_join(
                sessions_dir_spec(self.root_spec(), "exported"@),
                safe_name_spec(requested@, "session.json"@),
            ),
    {
        let dir = self.exported_sessions_dir();
        let name = safe_file_name(requested, "session.json");
        join_path(dir.as_str(), name.as_str())
    }

    /// Where an automatically saved session with this id is kept.
    pub fn auto_session_path(&self, session_id: &str) -> (r: String)
        ensures
            r@ == path_join(sessions_dir_spec(self.root_spec(), "auto"@), session_id@ + ".json"@),
    {
        let dir = self.auto_sessions_dir();
        let mut name = string_from(session_id);
        crate::text::push_str(&mut name, ".json");
        join_path(dir.as_str(), name.as_str())
    }
}

/// `p` names an entry directly inside the directory `dir`, under a plain name.
pub open spec fn directly_inside(p: Seq<char>, dir: Seq<char>) -> bool {
    exists|n: Seq<char>|
        #![trigger plain_name(n)]
        plain_name(n) && (p == dir + seq!['/'] + n || ((dir.len() == 0 || dir.last() == '/') && p == dir
            + n))
}

proof fn lemma_safe_name_inside(dir: Seq<char>, requested: Seq<char>, fallback: Seq<char>)
    requires
        plain_name(fallback),
    ensures
        directly_inside(path_join(dir, safe_name_spec(requested, fallback)), dir),
{
    lemma_file_name_plain(requested);
    let n = safe_name_spec(requested, fallback);
    assert(plain_name(n));
    assert(n[0] != '/') by {
        assert(!n.contains('/'));
    }
}

/// Reports and exported sessions stay in their directories: whatever path
/// is asked for, only its file name is kept, so the file lands directly in
/// `reports/` or `sessions/exported/` of the data directory, never in
/// another parent directory.
pub proof fn law_saved_files_stay_in_their_directory(store: DataStore, requested: Seq<char>)
    ensures
        directly_inside(
            path_join(reports_dir_spec(store.root_spec()), safe_name_spec(requested, "report.md"@)),
            reports_dir_spec(store.root_spec()),
        ),
        directly_inside(
            path_join(
                sessions_dir_spec(store.root_spec(), "exported"@),
                safe_name_spec(requested, "session.json"@),
            ),
            sessions_dir_spec(store.root_spec(), "exported"@),
        ),
{
    assert(plain_name("report.md"@)) by {
        reveal_strlit("report.md");
        assert forall|j: int| 0 <= j < "report.md"@.len() implies "report.md"@[j] != '/' by {}
    }
    assert(plain_name("session.json"@)) by {
        reveal_strlit("session.json");
        assert forall|j: int| 0 <= j < "session.json"@.len() implies "session.json"@[j] != '/' by {}
    }
    lemma_safe_name_inside(reports_dir_spec(store.root_spec()), requested, "report.md"@);
    lemma_safe_name_inside(sessions_dir_spec(store.root_spec(), "exported"@), requested, "session.json"@);
}

// ------------------------------------------------------------------
// Order of saved sessions
// ------------------------------------------------------------------

/// The key a saved session is listed by: when it was last updated, and its id.
pub open spec fn session_keys(keys: Seq<(u64, String)>) -> Seq<(u64, Seq<char>)> {
    keys.map_values(|k: (u64, String)| (k.0, k.1@))
}

/// Whether the session with key `a`, read at `ia`, is listed before the one
/// with key `b`, read at `ib`: the more recently updated first, then the
/// greater id, then the one read first.
pub open spec fn listed_before(a: (u64, Seq<char>), ia: int, b: (u64, Seq<char>), ib: int) -> bool {
    a.0 > b.0 || (a.0 == b.0 && lex_lt(b.1, a.1)) || (a.0 == b.0 && a.1 == b.1 && ia < ib)
}

/// How many of the first `m` sessions are listed before session `i`.
pub open spec fn count_before(keys: Seq<(u64, Seq<char>)>, i: int, m: int) -> nat
    decreases m,
{
    if m <= 0 {
        0
    } else {
        count_before(keys, i, m - 1) + if listed_before(keys[m - 1], m - 1, keys[i], i) {
            1nat
        } else {
            0nat
        }
    }
}

/// The place of session `i` in the list, from 0.
pub open spec fn place(keys: Seq<(u64, Seq<char>)>, i: int) -> nat {
    count_before(keys, i, keys.len() as int)
}

/// The place of each saved session in the list of recent sessions: the most
/// recently updated first, ties by the greater id, then by the order read.
/// Sessions from the place `MAX_AUTO_SESSIONS` on are the ones pruned.
pub fn session_places(keys: &Vec<(u64, String)>) -> (r: Vec<usize>)
    ensures
        r@.len() == keys@.len(),
        forall|i: int| 0 <= i < keys@.len() ==> r@[i] == place(session_keys(keys@), i),
{
    let ghost ks = session_keys(keys@);
    let mut out: Vec<usize> = Vec::new();
    let mut i: usize = 0;
    while i < keys.len()
        invariant
            i <= keys@.len(),
            ks == session_keys(keys@),
            out@.len() == i,
            forall|a: int| 0 <= a < i ==> out@[a] == place(ks, a),
        decreases keys.len() - i,
    {
        let id_i = chars_of(keys[i].1.as_str());
        let mut count: usize = 0;
        let mut j: usize = 0;
        while j < keys.len()
            invariant
                i < keys@.len(),
                j <= keys@.len(),
                ks == session_keys(keys@),
                id_i@ == ks[i as int].1,
                count == count_before(ks, i as int, j as int),
                count <= j,
            decreases keys.len() - j,
        {
            let id_j = chars_of(keys[j].1.as_str());
            assert(ks[j as int] == (keys@[j as int].0, keys@[j as int].1@));
            assert(ks[i as int] == (keys@[i as int].0, keys@[i as int].1@));
            let before = keys[j].0 > keys[i].0 || (keys[j].0 == keys[i].0 && lex_less(&id_i, &id_j)) || (
            keys[j].0 == keys[i].0 && chars_eq(&id_j, &id_i) && j < i);
            if before {
                count = count + 1;
            }
            j = j + 1;
        }
        out.push(count);
        i = i + 1;
    }
    out
}

proof fn lemma_count_bounds(keys: Seq<(u64, Seq<char>)>, i: int, m: int)
    requires
        0 <= i < keys.len(),
        0 <= m <= keys.len(),
    ensures
        count_before(keys, i, m) <= m,
        i < m ==> count_before(keys, i, m) < m,
    decreases m,
{
    if m > 0 {
        lemma_count_bounds(keys, i, m - 1);
        lemma_lex_total(keys[i].1, keys[i].1);
    }
}

proof fn lemma_count_grows(keys: Seq<(u64, Seq<char>)>, i: int, k: int, m: int)
    requires
        0 <= i < keys.len(),
        0 <= k < keys.len(),
        0 <= m <= keys.len(),
        listed_before(keys[k], k, keys[i], i),
        forall|j: int|
            0 <= j < keys.len() && listed_before(keys[j], j, keys[k], k) ==> listed_before(
                keys[j],
                j,
                keys[i],
                i,
            ),
    ensures
        count_before(keys, i, m) >= count_before(keys, k, m) + if k < m {
            1nat
        } else {
            0nat
        },
    decreases m,
{
    if m > 0 {
        lemma_count_grows(keys, i, k, m - 1);
        lemma_lex_total(keys[k].1, keys[k].1);
    }
}

/// The order is a strict total order on the sessions read.
proof fn lemma_listed_order(keys: Seq<(u64, Seq<char>)>, a: int, b: int, c: int)
    requires
        0 <= a < keys.len(),
        0 <= b < keys.len(),
        0 <= c < keys.len(),
    ensures
        a != b ==> listed_before(keys[a], a, keys[b], b) || listed_before(keys[b], b, keys[a], a),
        !(listed_before(keys[a], a, keys[b], b) && listed_before(keys[b], b, keys[a], a)),
        listed_before(keys[a], a, keys[b], b) && listed_before(keys[b], b, keys[c], c) ==> listed_before(
            keys[a],
            a,
            keys[c],
            c,
        ),
{
    lemma_lex_total(keys[a].1, keys[b].1);
    lemma_lex_total(keys[b].1, keys[c].1);
    lemma_lex_total(keys[a].1, keys[c].1);
    if lex_lt(keys[c].1, keys[b].1) && lex_lt(keys[b].1, keys[a].1) {
        lemma_lex_transitive(keys[c].1, keys[b].1, keys[a].1);
    }
}

/// Every saved session gets a place of its own in the list of recent
/// sessions, below the number of sessions, and a session listed before
/// another (more recent, or a greater id) gets the lower place.
pub proof fn law_session_places_are_distinct(keys: Seq<(u64, Seq<char>)>, i: int, k: int)
    requires
        0 <= i < keys.len(),
        0 <= k < keys.len(),
        i != k,
    ensures
        place(keys, i) < keys.len(),
        place(keys, i) != place(keys, k),
        listed_before(keys[k], k, keys[i], i) ==> place(keys, k) < place(keys, i),
{
    lemma_count_bounds(keys, i, keys.len() as int);
    lemma_listed_order(keys, i, k, i);
    assert forall|j: int|
        0 <= j < keys.len() && listed_before(keys[j], j, keys[k], k) && listed_before(
            keys[k],
            k,
            keys[i],
            i,
        ) implies listed_before(keys[j], j, keys[i], i) by {
        lemma_listed_order(keys, j, k, i);
    }
    assert forall|j: int|
        0 <= j < keys.len() && listed_before(keys[j], j, keys[i], i) && listed_before(
            keys[i],
            i,
            keys[k],
            k,
        ) implies listed_before(keys[j], j, keys[k], k) by {
        lemma_listed_order(keys, j, i, k);
    }
    if listed_before(keys[k], k, keys[i], i) {
        lemma_count_grows(keys, i, k, keys.len() as int);
    } else {
        lemma_count_grows(keys, k, i, keys.len() as int);
    }
}

/// The place a choice names by number: `1` for the first listed session.
pub open spec fn numbered_place(choice: Seq<char>, count: nat) -> Option<int> {
    match parse_uint_spec(choice, usize::MAX as nat) {
        Some(n) => if 1 <= n && n - 1 < count {
            Some(n - 1)
        } else {
            None
        },
        None => None,
    }
}

/// Which of the listed sessions (by id, in list order) a choice names: a
/// number from 1 names that place in the list; otherwise the first session
/// whose id is the choice; `None` when neither names one.
pub fn select_session(ids: &Vec<String>, choice: &str) -> (r: Option<usize>)
    ensures
        numbered_place(choice@, ids@.len()) matches Some(p) ==> r == Some(p as usize),
        numbered_place(choice@, ids@.len()) is None ==> match r {
            Some(k) => k < ids@.len() && ids@[k as int]@ == choice@ && forall|j: int|
                0 <= j < k ==> ids@[j]@ != choice@,
            None => forall|j: int| 0 <= j < ids@.len() ==> ids@[j]@ != choice@,
        },
{
    match parse_uint(&chars_of(choice), usize::MAX as u64) {
        Some(n) => {
            if n >= 1 && n - 1 < ids.len() as u64 {
                return Some((n - 1) as usize);
            }
        },
        None => {},
    }
    let mut k: usize = 0;
    while k < ids.len()
        invariant
            k <= ids@.len(),
            numbered_place(choice@, ids@.len()) is None,
            forall|j: int| 0 <= j < k ==> ids@[j]@ != choice@,
        decreases ids.len() - k,
    {
        if str_eq(ids[k].as_str(), choice) {
            return Some(k);
        }
        k = k + 1;
    }
    None
}

/// The sessions with a place below `m`: those kept when pruning to `m`.
pub open spec fn kept_sessions(keys: Seq<(u64, Seq<char>)>, m: nat) -> Set<int> {
    Set::new(|i: int| 0 <= i < keys.len() && place(keys, i) < m)
}

/// Pruning keeps the most recent sessions: of `n` saved sessions exactly
/// `min(n, m)` have a place below `m`, and each of them is listed before
/// every session that is pruned.
pub proof fn law_pruning_keeps_the_most_recent(keys: Seq<(u64, Seq<char>)>, m: nat)
    ensures
        kept_sessions(keys, m).len() == if keys.len() < m {
            keys.len()
        } else {
            m
        },
        forall|i: int, k: int|
            #![trigger place(keys, i), place(keys, k)]
            0 <= i < keys.len() && 0 <= k < keys.len() && place(keys, i) < m <= place(keys, k)
                ==> listed_before(keys[i], i, keys[k], k),
{
    let n = keys.len() as int;
    let dom = vstd::set_lib::set_int_range(0, n);
    let f = |i: int| place(keys, i) as int;
    vstd::set_lib::lemma_int_range(0, n);
    assert forall|a: int, b: int| dom.contains(a) && dom.contains(b) && #[trigger] f(a) == #[trigger] f(b) implies a
        == b by {
        if a != b {
            law_session_places_are_distinct(keys, a, b);
        }
    }
    assert(vstd::relations::injective_on(f, dom));
    let img = dom.map(f);
    vstd::set_lib::lemma_map_size(dom, img, f);
    assert forall|p: int| img.contains(p) implies dom.contains(p) by {
        let i = choose|i: int| dom.contains(i) && p == f(i);
        lemma_count_bounds(keys, i, n);
    }
    vstd::set_lib::lemma_subset_equality(img, dom);
    let t: int = if n < m {
        n
    } else {
        m as int
    };
    let kept = kept_sessions(keys, m);
    assert(kept.subset_of(dom));
    vstd::set_lib::lemma_len_subset(kept, dom);
    assert(vstd::relations::injective_on(f, kept));
    let low = vstd::set_lib::set_int_range(0, t);
    vstd::set_lib::lemma_int_range(0, t);
    assert forall|p: int| #[trigger] low.contains(p) implies kept.map(f).contains(p) by {
        assert(dom.contains(p));
        assert(img.contains(p));
        let i = choose|i: int| dom.contains(i) && p == f(i);
        assert(kept.contains(i));
    }
    assert forall|p: int| #[trigger] kept.map(f).contains(p) implies low.contains(p) by {
        let i = choose|i: int| kept.contains(i) && p == f(i);
        lemma_count_bounds(keys, i, n);
    }
    assert(kept.map(f) =~= low);
    vstd::set_lib::lemma_map_size(kept, low, f);
    assert forall|i: int, k: int|
        #![trigger place(keys, i), place(keys, k)]
        0 <= i < keys.len() && 0 <= k < keys.len() && place(keys, i) < m <= place(keys, k)
            implies listed_before(keys[i], i, keys[k], k) by {
        law_session_places_are_distinct(keys, i, k);
        lemma_listed_order(keys, i, k, i);
    }
}

} // verus!
