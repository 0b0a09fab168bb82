//! Hiding `<think>` … `</think>` reasoning from streamed model output, even
//! when a tag is split across several chunks.
use crate::text::{
    chars_of, ends_with, find, find_spec, has_suffix, lemma_find, match_at, push_chars, slice_chars,
    string_of,
};
use vstd::prelude::*;

verus! {

pub open spec fn open_tag() -> Seq<char> {
    seq!['<', 't', 'h', 'i', 'n', 'k', '>']
}

pub open spec fn close_tag() -> Seq<char> {
    seq!['<', '/', 't', 'h', 'i', 'n', 'k', '>']
}

/// The tag that ends the current state: `</think>` inside reasoning, `<think>` outside.
pub open spec fn think_tag(thinking: bool) -> Seq<char> {
    if thinking {
        close_tag()
    } else {
        open_tag()
    }
}

/// The longest `n <= len` with `n > 0` such that `p` ends with the first `n`
/// characters of `tag`, or 0.
pub open spec fn held_from(p: Seq<char>, tag: Seq<char>, len: int) -> int
    decreases len,
{
    if len <= 0 {
        0
    } else if has_suffix(p, tag.take(len)) {
        len
    } else {
        held_from(p, tag, len - 1)
    }
}

/// How many trailing characters of `p` may still begin `tag` and are held back.
pub open spec fn held_len(p: Seq<char>, tag: Seq<char>) -> int {
    held_from(p, tag, tag.len() - 1)
}

/// Text that is shown: nothing while inside reasoning.
pub open spec fn shown(thinking: bool, s: Seq<char>) -> Seq<char> {
    if thinking {
        Seq::empty()
    } else {
        s
    }
}

/// Filtering the buffered text `p` from state `thinking`:
/// the visible text, the text held back, and the new state.
pub open spec fn filter(p: Seq<char>, thinking: bool) -> (Seq<char>, Seq<char>, bool)
    decreases p.len(),
{
    let tag = think_tag(thinking);
    match find_spec(p, tag) {
        Some(i) => {
            if 0 <= i && i + tag.len() <= p.len() {
                let rest = filter(p.skip(i + tag.len()), !thinking);
                (shown(thinking, p.take(i)) + rest.0, rest.1, rest.2)
            } else {
                (Seq::empty(), p, thinking)
            }
        },
        None => {
            let end = p.len() - held_len(p, tag);
            (shown(thinking, p.take(end)), p.skip(end), thinking)
        },
    }
}

/// The state of a stream filter: text held back and whether reasoning is open.
pub struct StreamView {
    pub pending: Seq<char>,
    pub thinking: bool,
}

/// Visible text and next state after pushing `chunk` in state `s`.
pub open spec fn push_spec(s: StreamView, chunk: Seq<char>) -> (Seq<char>, StreamView) {
    let r = filter(s.pending + chunk, s.thinking);
    (r.0, StreamView { pending: r.1, thinking: r.2 })
}

/// Hide reasoning tags even when a tag spans several chunks.
pub struct StreamText {
    pending: String,
    thinking: bool,
}

impl View for StreamText {
    type V = StreamView;

    closed spec fn view(&self) -> StreamView {
        StreamView { pending: self.pending@, thinking: self.thinking }
    }
}

impl Default for StreamText {
    fn default() -> (r: Self)
        ensures
            r@ == (StreamView { pending: Seq::empty(), thinking: false }),
    {
        StreamText { pending: String::new(), thinking: false }
    }
}

fn think_tag_exec(thinking: bool) -> (r: Vec<char>)
    ensures
        r@ == think_tag(thinking),
{
    if thinking {
        let t = chars_of("</think>");
        proof {
            reveal_strlit("</think>");
        }
        assert(t@ =~= close_tag());
        t
    } else {
        let t = chars_of("<think>");
        proof {
            reveal_strlit("<think>");
        }
        assert(t@ =~= open_tag());
        t
    }
}

fn held_len_exec(p: &Vec<char>, tag: &Vec<char>) -> (r: usize)
    requires
        tag@.len() >= 1,
    ensures
        r == held_len(p@, tag@),
        r < tag@.len(),
        r <= p@.len(),
{
    let mut len: usize = tag.len() - 1;
    loop
        invariant
            len < tag@.len(),
            held_len(p@, tag@) == held_from(p@, tag@, len as int),
        decreases len,
    {
        if len == 0 {
            return 0;
        }
        let prefix = slice_chars(tag, 0, len);
        assert(prefix@ =~= tag@.take(len as int));
        if ends_with(p, &prefix) {
            return len;
        }
        len = len - 1;
    }
}

impl StreamText {
    pub fn new() -> (r: Self)
        ensures
            r@ == (StreamView { pending: Seq::empty(), thinking: false }),
    {
        StreamText { pending: String::new(), thinking: false }
    }

    /// Whether a reasoning block is open.
    pub fn is_thinking(&self) -> (r: bool)
        ensures
            r == self@.thinking,
    {
        self.thinking
    }

    /// Feeds one chunk and returns the text that can be shown now.
    pub fn push(&mut self, chunk: &str) -> (r: String)
        ensures
            r@ == push_spec(old(self)@, chunk@).0,
            final(self)@ == push_spec(old(self)@, chunk@).1,
    {
        let ghost start = old(self)@;
        let mut p = chars_of(self.pending.as_str());
        let c = chars_of(chunk);
        let mut k: usize = 0;
        while k < c.len()
            invariant
                k <= c@.len(),
                p@ == start.pending + c@.take(k as int),
            decreases c.len() - k,
        {
            p.push(c[k]);
            k = k + 1;
            assert(p@ =~= start.pending + c@.take(k as int));
        }
        assert(c@.take(c@.len() as int) =~= c@);
        let mut thinking = self.thinking;
        let mut visible = String::new();
        let ghost whole = filter(start.pending + chunk@, start.thinking);
        loop
            invariant
                start == old(self)@,
                whole == filter(start.pending + chunk@, start.thinking),
                whole.0 == visible@ + filter(p@, thinking).0,
                whole.1 == filter(p@, thinking).1,
                whole.2 == filter(p@, thinking).2,
            decreases p@.len(),
        {
            let tag = think_tag_exec(thinking);
            match find(&p, &tag) {
                Some(i) => {
                    let ghost v0 = visible@;
                    proof {
                        lemma_find(p@, tag@);
                    }
                    assert(find_spec(p@, tag@) == Some(i as int));
                    assert(i + tag@.len() <= p@.len());
                    let before = slice_chars(&p, 0, i);
                    assert(before@ =~= p@.take(i as int));
                    if !thinking {
                        push_chars(&mut visible, &before);
                    }
                    let n = p.len();
                    let rest = slice_chars(&p, i + tag.len(), n);
                    assert(rest@ =~= p@.skip(i + tag@.len()));
                    assert(visible@ =~= v0 + shown(thinking, p@.take(i as int)));
                    assert(filter(p@, thinking).0 == shown(thinking, p@.take(i as int)) + filter(rest@, !thinking).0);
                    assert(whole.0 =~= visible@ + filter(rest@, !thinking).0);
                    p = rest;
                    thinking = !thinking;
                },
                None => {
                    let keep = held_len_exec(&p, &tag);
                    let end = p.len() - keep;
                    let ghost v0 = visible@;
                    let shown_part = slice_chars(&p, 0, end);
                    assert(shown_part@ =~= p@.take(end as int));
                    if !thinking {
                        push_chars(&mut visible, &shown_part);
                    }
                    let held = slice_chars(&p, end, p.len());
                    assert(held@ =~= p@.skip(end as int));
                    self.pending = string_of(&held);
                    self.thinking = thinking;
                    assert(visible@ =~= v0 + shown(thinking, p@.take(end as int)));
                    assert(filter(p@, thinking) == (shown(thinking, p@.take(end as int)), p@.skip(end as int), thinking));
                    assert(whole.0 =~= visible@);
                    assert(self@ == push_spec(start, chunk@).1);
                    assert(visible@ == push_spec(start, chunk@).0);
                    return visible;
                },
            }
        }
    }
}

// ------------------------------------------------------------------
// Splitting a chunk does not change what is shown
// ------------------------------------------------------------------

proof fn lemma_find_from_first(s: Seq<char>, p: Seq<char>, i: int, j: int)
    requires
        0 <= j <= i,
        match_at(s, p, i),
        forall|m: int| j <= m < i ==> !#[trigger] match_at(s, p, m),
    ensures
        crate::text::find_from(s, p, j) == Some(i),
    decreases i - j,
{
    if j < i {
        assert(!match_at(s, p, j));
        lemma_find_from_first(s, p, i, j + 1);
    }
}

/// The first occurrence is the one before which nothing matches.
proof fn lemma_find_first(s: Seq<char>, p: Seq<char>, i: int)
    requires
        0 <= i,
        match_at(s, p, i),
        forall|m: int| 0 <= m < i ==> !#[trigger] match_at(s, p, m),
    ensures
        find_spec(s, p) == Some(i),
{
    lemma_find_from_first(s, p, i, 0);
}

proof fn lemma_find_none(s: Seq<char>, p: Seq<char>)
    requires
        forall|m: int| 0 <= m ==> !#[trigger] match_at(s, p, m),
    ensures
        find_spec(s, p) is None,
{
    lemma_find(s, p);
    if let Some(k) = find_spec(s, p) {
        assert(match_at(s, p, k));
    }
}

proof fn lemma_held_from(p: Seq<char>, tag: Seq<char>, len: int)
    requires
        len < tag.len(),
    ensures
        0 <= held_from(p, tag, len),
        held_from(p, tag, len) <= if len < 0 { 0 } else { len },
        held_from(p, tag, len) > 0 ==> has_suffix(p, tag.take(held_from(p, tag, len))),
        forall|l: int|
            held_from(p, tag, len) < l <= len ==> !has_suffix(p, #[trigger] tag.take(l)),
    decreases len,
{
    if len > 0 && !has_suffix(p, tag.take(len)) {
        lemma_held_from(p, tag, len - 1);
    }
}

proof fn lemma_held_from_same(x: Seq<char>, y: Seq<char>, tag: Seq<char>, len: int)
    requires
        forall|l: int|
            1 <= l <= len ==> has_suffix(x, #[trigger] tag.take(l)) == has_suffix(y, tag.take(l)),
    ensures
        held_from(x, tag, len) == held_from(y, tag, len),
    decreases len,
{
    if len > 0 {
        lemma_held_from_same(x, y, tag, len - 1);
    }
}

/// With no tag inside `p`, no occurrence in `p + b` starts before the held-back part.
proof fn lemma_no_early_match(p: Seq<char>, b: Seq<char>, tag: Seq<char>)
    requires
        tag.len() > 0,
        find_spec(p, tag) is None,
    ensures
        forall|j: int|
            0 <= j < p.len() - held_len(p, tag) ==> !#[trigger] match_at(p + b, tag, j),
{
    lemma_find(p, tag);
    lemma_held_from(p, tag, tag.len() - 1);
    let k = held_len(p, tag);
    assert forall|j: int| 0 <= j < p.len() - k implies !#[trigger] match_at(p + b, tag, j) by {
        if match_at(p + b, tag, j) {
            if j + tag.len() <= p.len() {
                assert((p + b).subrange(j, j + tag.len()) =~= p.subrange(j, j + tag.len()));
                assert(match_at(p, tag, j));
            } else {
                let l = p.len() - j;
                assert(tag.take(l) =~= (p + b).subrange(j, j + tag.len()).take(l));
                assert(p.subrange(p.len() - l, p.len() as int) =~= tag.take(l));
                assert(has_suffix(p, tag.take(l)));
            }
        }
    }
}

proof fn lemma_shown_append(thinking: bool, x: Seq<char>, y: Seq<char>)
    ensures
        shown(thinking, x + y) == shown(thinking, x) + shown(thinking, y),
{
    if thinking {
        assert(Seq::<char>::empty() + Seq::<char>::empty() =~= Seq::<char>::empty());
    }
}

/// An occurrence of the tag inside `p` is also the first one in `p + b`.
proof fn lemma_append_found(p: Seq<char>, b: Seq<char>, tag: Seq<char>, i: int)
    requires
        find_spec(p, tag) == Some(i),
    ensures
        find_spec(p + b, tag) == Some(i),
        0 <= i,
        i + tag.len() <= p.len(),
        (p + b).skip(i + tag.len()) == p.skip(i + tag.len()) + b,
        (p + b).take(i) == p.take(i),
{
    let n = tag.len();
    let pb = p + b;
    lemma_find(p, tag);
    assert(pb.subrange(i, i + n) =~= p.subrange(i, i + n));
    assert forall|j: int| 0 <= j < i implies !#[trigger] match_at(pb, tag, j) by {
        assert(!match_at(p, tag, j));
        assert(pb.subrange(j, j + n) =~= p.subrange(j, j + n));
    }
    assert(match_at(pb, tag, i));
    lemma_find_first(pb, tag, i);
    assert(pb.skip(i + n) =~= p.skip(i + n) + b);
    assert(pb.take(i) =~= p.take(i));
}

/// Past the held-back part, occurrences in `p + b` are those in `q + b`.
proof fn lemma_shift_match(p: Seq<char>, b: Seq<char>, tag: Seq<char>, end: int)
    requires
        0 <= end <= p.len(),
    ensures
        forall|j: int|
            end <= j ==> #[trigger] match_at(p + b, tag, j) == match_at(p.skip(end) + b, tag, j - end),
{
    let pb = p + b;
    let t = p.skip(end) + b;
    assert forall|j: int| end <= j implies #[trigger] match_at(pb, tag, j) == match_at(t, tag, j - end) by {
        if j + tag.len() <= pb.len() {
            assert(pb.subrange(j, j + tag.len()) =~= t.subrange(j - end, j - end + tag.len()));
        }
    }
}

/// The held-back part followed by `b` contains the tag at `i`.
#[verifier::rlimit(30)]
proof fn lemma_held_then_found(p: Seq<char>, thinking: bool, b: Seq<char>, i: int)
    requires
        find_spec(p, think_tag(thinking)) is None,
        find_spec(p.skip(p.len() - held_len(p, think_tag(thinking))) + b, think_tag(thinking))
            == Some(i),
    ensures
        ({
            let r1 = filter(p, thinking);
            let r2 = filter(r1.1 + b, r1.2);
            filter(p + b, thinking) == (r1.0 + r2.0, r2.1, r2.2)
        }),
{
    let tag = think_tag(thinking);
    let n = tag.len();
    let pb = p + b;
    lemma_held_from(p, tag, n - 1);
    let end = p.len() - held_len(p, tag);
    let t = p.skip(end) + b;
    lemma_find(t, tag);
    lemma_no_early_match(p, b, tag);
    lemma_shift_match(p, b, tag, end);
    assert(match_at(pb, tag, end + i));
    assert forall|j: int| 0 <= j < end + i implies !#[trigger] match_at(pb, tag, j) by {
        if j >= end {
            assert(match_at(pb, tag, j) == match_at(t, tag, j - end));
        }
    }
    lemma_find_first(pb, tag, end + i);
    assert(pb.skip(end + i + n) =~= t.skip(i + n));
    assert(pb.take(end + i) =~= p.take(end) + t.take(i));
    lemma_shown_append(thinking, p.take(end), t.take(i));
    let r = filter(t.skip(i + n), !thinking);
    assert(shown(thinking, p.take(end)) + shown(thinking, t.take(i)) + r.0 =~= shown(
        thinking,
        p.take(end),
    ) + (shown(thinking, t.take(i)) + r.0));
}

/// Neither `p` nor the held-back part followed by `b` contains the tag.
#[verifier::rlimit(30)]
proof fn lemma_held_then_none(p: Seq<char>, thinking: bool, b: Seq<char>)
    requires
        find_spec(p, think_tag(thinking)) is None,
        find_spec(p.skip(p.len() - held_len(p, think_tag(thinking))) + b, think_tag(thinking))
            is None,
    ensures
        ({
            let r1 = filter(p, thinking);
            let r2 = filter(r1.1 + b, r1.2);
            filter(p + b, thinking) == (r1.0 + r2.0, r2.1, r2.2)
        }),
{
    let tag = think_tag(thinking);
    let n = tag.len();
    let pb = p + b;
    lemma_held_from(p, tag, n - 1);
    let end = p.len() - held_len(p, tag);
    let t = p.skip(end) + b;
    lemma_find(t, tag);
    lemma_no_early_match(p, b, tag);
    lemma_shift_match(p, b, tag, end);
    assert forall|j: int| 0 <= j implies !#[trigger] match_at(pb, tag, j) by {
        if j >= end {
            assert(match_at(pb, tag, j) == match_at(t, tag, j - end));
        }
    }
    lemma_find_none(pb, tag);
    assert forall|l: int| 1 <= l <= n - 1 implies has_suffix(pb, #[trigger] tag.take(l)) == has_suffix(
        t,
        tag.take(l),
    ) by {
        if l <= t.len() {
            assert(pb.subrange(pb.len() - l, pb.len() as int) =~= t.subrange(
                t.len() - l,
                t.len() as int,
            ));
        } else if has_suffix(pb, tag.take(l)) {
            let m = l - b.len();
            assert(p.subrange(p.len() - m, p.len() as int) =~= pb.subrange(
                pb.len() - l,
                pb.len() as int,
            ).take(m));
            assert(tag.take(l).take(m) =~= tag.take(m));
            assert(has_suffix(p, tag.take(m)));
        }
    }
    lemma_held_from_same(pb, t, tag, n - 1);
    lemma_held_from(t, tag, n - 1);
    let h = held_len(t, tag);
    let e2 = t.len() - h;
    assert(pb.len() - h == end + e2);
    assert(pb.take(end + e2) =~= p.take(end) + t.take(e2));
    assert(pb.skip(end + e2) =~= t.skip(e2));
    lemma_shown_append(thinking, p.take(end), t.take(e2));
}

/// Filtering `p` and then what was held back together with `b` shows the same
/// text, and ends in the same state, as filtering `p + b` at once.
proof fn lemma_filter_append(p: Seq<char>, thinking: bool, b: Seq<char>)
    ensures
        ({
            let r1 = filter(p, thinking);
            let r2 = filter(r1.1 + b, r1.2);
            filter(p + b, thinking) == (r1.0 + r2.0, r2.1, r2.2)
        }),
    decreases p.len(),
{
    let tag = think_tag(thinking);
    let n = tag.len();
    match find_spec(p, tag) {
        Some(i) => {
            lemma_append_found(p, b, tag, i);
            let rest = p.skip(i + n);
            lemma_filter_append(rest, !thinking, b);
            let r1 = filter(rest, !thinking);
            let r2 = filter(r1.1 + b, r1.2);
            assert(shown(thinking, p.take(i)) + r1.0 + r2.0 =~= shown(thinking, p.take(i)) + (r1.0
                + r2.0));
        },
        None => {
            let t = p.skip(p.len() - held_len(p, tag)) + b;
            match find_spec(t, tag) {
                Some(i) => lemma_held_then_found(p, thinking, b, i),
                None => lemma_held_then_none(p, thinking, b),
            }
        },
    }
}

/// Splitting a chunk in two changes nothing: pushing `a` and then `b` shows,
/// in total, the same text as pushing `a + b`, and leaves the same state.
pub proof fn law_push_split(s: StreamView, a: Seq<char>, b: Seq<char>)
    ensures
        push_spec(s, a + b).0 == push_spec(s, a).0 + push_spec(push_spec(s, a).1, b).0,
        push_spec(s, a + b).1 == push_spec(push_spec(s, a).1, b).1,
{
    assert(s.pending + a + b =~= s.pending + (a + b));
    lemma_filter_append(s.pending + a, s.thinking, b);
}

} // verus!
