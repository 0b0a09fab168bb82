//! Paths as text: components, joining and file names, following the rules
//! of `std::path` on Unix (`/` separates components).
use crate::text::{
    chars_of, eq_str, find_spec, lemma_find, match_at, push_chars, push_str, slice_chars, split_spec, split_str,
    string_of, views,
};
use vstd::prelude::*;

verus! {

/// Keeps the normal pieces: non-empty and not `.`.
pub open spec fn keep_normal(ps: Seq<Seq<char>>) -> Seq<Seq<char>>
    decreases ps.len(),
{
    if ps.len() == 0 {
        seq![]
    } else {
        let r = keep_normal(ps.drop_last());
        let x = ps.last();
        if x.len() > 0 && x != seq!['.'] {
            r.push(x)
        } else {
            r
        }
    }
}

/// `Path::components`: a leading `/` is the root, a leading `.` the current
/// directory; empty pieces and other `.` pieces disappear.
pub open spec fn components(p: Seq<char>) -> Seq<Seq<char>> {
    let ps = split_spec(p, seq!['/']);
    if p.len() > 0 && p[0] == '/' {
        seq![seq!['/']] + keep_normal(ps)
    } else if ps.len() > 0 && ps[0] == seq!['.'] {
        seq![seq!['.']] + keep_normal(ps.drop_first())
    } else {
        keep_normal(ps)
    }
}

/// `Path::ends_with`: the components of `child` are the last components of `p`.
pub open spec fn path_ends_with(p: Seq<char>, child: Seq<char>) -> bool {
    let a = components(p);
    let b = components(child);
    b.len() <= a.len() && a.subrange(a.len() - b.len(), a.len() as int) == b
}

fn keep_normal_exec(ps: &Vec<Vec<char>>, from: usize) -> (r: Vec<Vec<char>>)
    requires
        from <= ps@.len(),
    ensures
        views(r@) == keep_normal(views(ps@).subrange(from as int, ps@.len() as int)),
{
    let mut out: Vec<Vec<char>> = Vec::new();
    let mut i: usize = from;
    let ghost all = views(ps@).subrange(from as int, ps@.len() as int);
    assert(all.take(0) =~= seq![]);
    assert(views(out@) =~= seq![]);
    while i < ps.len()
        invariant
            from <= i <= ps@.len(),
            all == views(ps@).subrange(from as int, ps@.len() as int),
            views(out@) == keep_normal(all.take(i - from)),
        decreases ps.len() - i,
    {
        assert(all.take(i - from + 1).drop_last() =~= all.take(i - from));
        assert(all.take(i - from + 1).last() == ps@[i as int]@);
        let x = &ps[i];
        if x.len() > 0 && !eq_str(x, ".") {
            proof {
                assert(".".view() =~= seq!['.']) by {
                    reveal_strlit(".");
                }
            }
            let ghost old_out = out@;
            out.push(crate::text::clone_chars(x));
            assert(views(out@) =~= views(old_out).push(x@));
        } else {
            proof {
                reveal_strlit(".");
                assert(".".view() =~= seq!['.']);
            }
        }
        i = i + 1;
    }
    assert(all.take(ps@.len() - from) =~= all);
    out
}

/// The components of a path.
pub fn components_exec(p: &Vec<char>) -> (r: Vec<Vec<char>>)
    ensures
        views(r@) == components(p@),
{
    proof {
        reveal_strlit("/");
        assert("/".view() =~= seq!['/']);
    }
    let ps = split_str(p, "/");
    if p.len() > 0 && p[0] == '/' {
        let mut out: Vec<Vec<char>> = Vec::new();
        let mut root: Vec<char> = Vec::new();
        root.push('/');
        out.push(root);
        let rest = keep_normal_exec(&ps, 0);
        assert(views(ps@).subrange(0, ps@.len() as int) =~= views(ps@));
        let mut out2 = out;
        let mut j: usize = 0;
        let ghost head = views(out2@);
        assert(head =~= seq![seq!['/']]);
        while j < rest.len()
            invariant
                j <= rest@.len(),
                views(out2@) == head + views(rest@).take(j as int),
            decreases rest.len() - j,
        {
            assert(views(rest@)[j as int] == rest@[j as int]@);
            crate::text::push_clone(&mut out2, &rest[j]);
            j = j + 1;
            assert(views(out2@) =~= head + views(rest@).take(j as int));
        }
        assert(views(rest@).take(rest@.len() as int) =~= views(rest@));
        out2
    } else if ps.len() > 0 && eq_str(&ps[0], ".") {
        proof {
            reveal_strlit(".");
            assert(".".view() =~= seq!['.']);
            assert(views(ps@)[0] == ps@[0]@);
        }
        let mut out: Vec<Vec<char>> = Vec::new();
        let mut cur: Vec<char> = Vec::new();
        cur.push('.');
        out.push(cur);
        let rest = keep_normal_exec(&ps, 1);
        assert(views(ps@).subrange(1, ps@.len() as int) =~= views(ps@).drop_first());
        let mut j: usize = 0;
        let ghost head = views(out@);
        assert(head =~= seq![seq!['.']]);
        while j < rest.len()
            invariant
                j <= rest@.len(),
                views(out@) == head + views(rest@).take(j as int),
            decreases rest.len() - j,
        {
            assert(views(rest@)[j as int] == rest@[j as int]@);
            crate::text::push_clone(&mut out, &rest[j]);
            j = j + 1;
            assert(views(out@) =~= head + views(rest@).take(j as int));
        }
        assert(views(rest@).take(rest@.len() as int) =~= views(rest@));
        out
    } else {
        proof {
            if ps@.len() > 0 {
                reveal_strlit(".");
                assert(".".view() =~= seq!['.']);
                assert(views(ps@)[0] == ps@[0]@);
            }
        }
        let r = keep_normal_exec(&ps, 0);
        assert(views(ps@).subrange(0, ps@.len() as int) =~= views(ps@));
        r
    }
}

/// Whether the components of `child` end the components of `p`.
pub fn path_ends_with_exec(p: &Vec<char>, child: &Vec<char>) -> (r: bool)
    ensures
        r == path_ends_with(p@, child@),
{
    let a = components_exec(p);
    let b = components_exec(child);
    if b.len() > a.len() {
        return false;
    }
    let off = a.len() - b.len();
    let mut i: usize = 0;
    while i < b.len()
        invariant
            views(a@) == components(p@),
            views(b@) == components(child@),
            b@.len() <= a@.len(),
            off + b@.len() == a@.len(),
            a@.len() == a.len(),
            i <= b@.len(),
            forall|k: int| 0 <= k < i ==> views(a@)[off + k] == views(b@)[k],
        decreases b.len() - i,
    {
        assert(views(a@)[off + i] == a@[off + i]@);
        assert(views(b@)[i as int] == b@[i as int]@);
        if !crate::text::chars_eq(&a[off + i], &b[i]) {
            assert(views(a@).subrange(off as int, a@.len() as int)[i as int] == views(a@)[off + i]);
            assert(views(a@).subrange(off as int, a@.len() as int)[i as int] != views(b@)[i as int]);
            return false;
        }
        i = i + 1;
    }
    assert(views(a@).subrange(off as int, a@.len() as int) =~= views(b@));
    true
}

/// `PathBuf::push` on Unix: an absolute `rel` replaces `base`; otherwise `rel`
/// follows `base`, with one `/` between them unless `base` is empty or ends in `/`.
pub open spec fn path_join(base: Seq<char>, rel: Seq<char>) -> Seq<char> {
    if rel.len() > 0 && rel[0] == '/' {
        rel
    } else if base.len() == 0 || base.last() == '/' {
        base + rel
    } else {
        base + seq!['/'] + rel
    }
}

/// `Path::file_name`: the last component when it is a normal one (not the
/// root, `.` or `..`).
pub open spec fn file_name(p: Seq<char>) -> Option<Seq<char>> {
    let c = components(p);
    if c.len() == 0 {
        None
    } else {
        let l = c.last();
        if l == seq!['/'] || l == seq!['.'] || l == seq!['.', '.'] {
            None
        } else {
            Some(l)
        }
    }
}

/// Joins a relative or absolute path onto `base`.
pub fn join_path(base: &str, rel: &str) -> (r: String)
    ensures
        r@ == path_join(base@, rel@),
{
    let b = chars_of(base);
    let rv = chars_of(rel);
    if rv.len() > 0 && rv[0] == '/' {
        return string_of(&rv);
    }
    let mut out = string_of(&b);
    if b.len() > 0 && b[b.len() - 1] != '/' {
        crate::text::push_char(&mut out, '/');
    }
    push_chars(&mut out, &rv);
    proof {
        if b@.len() > 0 && b@.last() != '/' {
            assert(b@.push('/') + rv@ =~= b@ + seq!['/'] + rv@);
        }
    }
    out
}

/// The file name of a path, if it has one.
pub fn file_name_exec(p: &str) -> (r: Option<String>)
    ensures
        match r {
            Some(n) => file_name(p@) == Some(n@),
            None => file_name(p@) is None,
        },
{
    let c = components_exec(&chars_of(p));
    if c.len() == 0 {
        return None;
    }
    let l = &c[c.len() - 1];
    assert(views(c@).last() == l@);
    proof {
        reveal_strlit("/");
        reveal_strlit(".");
        reveal_strlit("..");
    }
    if eq_str(l, "/") || eq_str(l, ".") || eq_str(l, "..") {
        assert("/"@ =~= seq!['/']);
        assert("."@ =~= seq!['.']);
        assert(".."@ =~= seq!['.', '.']);
        None
    } else {
        assert("/"@ =~= seq!['/']);
        assert("."@ =~= seq!['.']);
        assert(".."@ =~= seq!['.', '.']);
        Some(string_of(l))
    }
}

/// A plain file name: not empty, without `/`, and neither `.` nor `..`.
pub open spec fn plain_name(n: Seq<char>) -> bool {
    n.len() > 0 && !n.contains('/') && n != seq!['.'] && n != seq!['.', '.']
}

/// The pieces of a path split at `/` hold no `/`.
proof fn lemma_split_pieces_have_no_slash(s: Seq<char>)
    ensures
        forall|i: int|
            0 <= i < split_spec(s, seq!['/']).len() ==> !(#[trigger] split_spec(s, seq!['/'])[i]).contains(
                '/',
            ),
    decreases s.len(),
{
    let sep = seq!['/'];
    lemma_find(s, sep);
    match find_spec(s, sep) {
        Some(k) => {
            let rest = s.subrange(k + 1, s.len() as int);
            lemma_split_pieces_have_no_slash(rest);
            let head = s.subrange(0, k);
            assert forall|j: int| 0 <= j < head.len() implies head[j] != '/' by {
                assert(!match_at(s, sep, j));
                if head[j] == '/' {
                    assert(s.subrange(j, j + 1) =~= sep);
                }
            }
            let parts = split_spec(s, sep);
            assert(parts == seq![head] + split_spec(rest, sep));
            assert forall|i: int| 0 <= i < parts.len() implies !(#[trigger] parts[i]).contains('/') by {
                if i > 0 {
                    assert(parts[i] == split_spec(rest, sep)[i - 1]);
                }
            }
        },
        None => {
            assert forall|j: int| 0 <= j < s.len() implies s[j] != '/' by {
                assert(!match_at(s, sep, j));
                if s[j] == '/' {
                    assert(s.subrange(j, j + 1) =~= sep);
                }
            }
        },
    }
}

/// The pieces `keep_normal` keeps are not empty, not `.`, and hold no `/`
/// when none of the pieces did.
proof fn lemma_keep_normal_plain(ps: Seq<Seq<char>>)
    requires
        forall|i: int| 0 <= i < ps.len() ==> !(#[trigger] ps[i]).contains('/'),
    ensures
        forall|i: int|
            0 <= i < keep_normal(ps).len() ==> {
                let x = #[trigger] keep_normal(ps)[i];
                x.len() > 0 && x != seq!['.'] && !x.contains('/')
            },
    decreases ps.len(),
{
    if ps.len() > 0 {
        let init = ps.drop_last();
        assert forall|i: int| 0 <= i < init.len() implies !(#[trigger] init[i]).contains('/') by {
            assert(init[i] == ps[i]);
        }
        lemma_keep_normal_plain(init);
        assert(ps.last() == ps[ps.len() - 1]);
        let r = keep_normal(init);
        let k = keep_normal(ps);
        assert forall|i: int| 0 <= i < k.len() implies {
            let x = #[trigger] k[i];
            x.len() > 0 && x != seq!['.'] && !x.contains('/')
        } by {
            if i < r.len() {
                assert(k[i] == r[i]);
            }
        }
    }
}

/// A file name, when a path has one, is a plain name.
pub proof fn lemma_file_name_plain(p: Seq<char>)
    ensures
        file_name(p) matches Some(n) ==> plain_name(n),
{
    let ps = split_spec(p, seq!['/']);
    lemma_split_pieces_have_no_slash(p);
    lemma_keep_normal_plain(ps);
    let c = components(p);
    if p.len() > 0 && p[0] == '/' {
        let k = keep_normal(ps);
        assert(c == seq![seq!['/']] + k);
        if k.len() > 0 {
            assert(c.last() == k[k.len() - 1]);
        }
    } else if ps.len() > 0 && ps[0] == seq!['.'] {
        let rest = ps.drop_first();
        assert forall|i: int| 0 <= i < rest.len() implies !(#[trigger] rest[i]).contains('/') by {
            assert(rest[i] == ps[i + 1]);
        }
        lemma_keep_normal_plain(rest);
        let k = keep_normal(rest);
        assert(c == seq![seq!['.']] + k);
        if k.len() > 0 {
            assert(c.last() == k[k.len() - 1]);
        }
    } else {
        let k = keep_normal(ps);
        if k.len() > 0 {
            assert(c.last() == k[k.len() - 1]);
        }
    }
}

} // verus!
