//! Lexical path handling: joining a file name onto a directory and removing
//! `.` / `..` components, both on `/`-separated text.

use vstd::prelude::*;
use vstd::string::StringExecFns;

use crate::text::{chars_of, push_char, string_of};

verus! {

/// `dir` joined with the relative `name`: a separator is added unless `dir`
/// is empty or already ends with one.
pub open spec fn path_join(dir: Seq<char>, name: Seq<char>) -> Seq<char> {
    if dir.len() == 0 || dir.last() == '/' {
        dir + name
    } else {
        dir + seq!['/'] + name
    }
}

/// Joins the relative `name` onto `dir`.
pub fn join(dir: &str, name: &str) -> (r: String)
    ensures
        r@ == path_join(dir@, name@),
{
    let d = chars_of(dir);
    let mut s = string_of(&d);
    if d.len() > 0 && d[d.len() - 1] != '/' {
        push_char(&mut s, '/');
    }
    s.append(name);
    s
}

/// The segments after one more segment `cur` is closed: empty and `.`
/// segments vanish, `..` drops the last segment (if any).
pub open spec fn close_segment(stack: Seq<Seq<char>>, cur: Seq<char>) -> Seq<Seq<char>> {
    if cur.len() == 0 || cur == seq!['.'] {
        stack
    } else if cur == seq!['.', '.'] {
        if stack.len() > 0 {
            stack.drop_last()
        } else {
            stack
        }
    } else {
        stack.push(cur)
    }
}

/// Scanning the first `i` characters of `p`: the closed segments and the open one.
pub open spec fn scan_segments(p: Seq<char>, i: nat) -> (Seq<Seq<char>>, Seq<char>)
    decreases i,
{
    if i == 0 || i > p.len() {
        (Seq::empty(), Seq::empty())
    } else {
        let prev = scan_segments(p, (i - 1) as nat);
        if p[i - 1] == '/' {
            (close_segment(prev.0, prev.1), Seq::empty())
        } else {
            (prev.0, prev.1.push(p[i - 1]))
        }
    }
}

/// The normal segments of `p`, with `.` and `..` resolved lexically.
pub open spec fn normal_segments(p: Seq<char>) -> Seq<Seq<char>> {
    let s = scan_segments(p, p.len());
    close_segment(s.0, s.1)
}

/// Segments joined by `/`.
pub open spec fn join_segments(segs: Seq<Seq<char>>) -> Seq<char>
    decreases segs.len(),
{
    if segs.len() == 0 {
        Seq::empty()
    } else if segs.len() == 1 {
        segs[0]
    } else {
        join_segments(segs.drop_last()) + seq!['/'] + segs.last()
    }
}

/// `p` with `.` and `..` removed without touching the file system; an absolute
/// path stays absolute, and `..` above the root (or the start) vanishes.
pub open spec fn normalize_text(p: Seq<char>) -> Seq<char> {
    if p.len() > 0 && p[0] == '/' {
        seq!['/'] + join_segments(normal_segments(p))
    } else {
        join_segments(normal_segments(p))
    }
}

fn close_segment_exec(stack: &mut Vec<Vec<char>>, cur: Vec<char>)
    ensures
        final(stack)@.map_values(|v: Vec<char>| v@) == close_segment(
            old(stack)@.map_values(|v: Vec<char>| v@),
            cur@,
        ),
{
    let ghost before = stack@.map_values(|v: Vec<char>| v@);
    if cur.len() == 0 || (cur.len() == 1 && cur[0] == '.') {
        assert(cur.len() == 1 ==> cur@ =~= seq!['.']);
        return;
    }
    if cur.len() == 2 && cur[0] == '.' && cur[1] == '.' {
        assert(cur@ =~= seq!['.', '.']);
        if stack.len() > 0 {
            stack.pop();
            assert(stack@.map_values(|v: Vec<char>| v@) =~= before.drop_last());
        }
        return;
    }
    assert(cur@ != seq!['.']) by {
        if cur.len() == 1 {
            assert(cur@[0] == seq!['.'][0] ==> cur[0] == '.');
        }
    }
    assert(cur@ != seq!['.', '.']) by {
        if cur.len() == 2 && cur@ == seq!['.', '.'] {
            assert(cur@[0] == '.' && cur@[1] == '.');
        }
    }
    stack.push(cur);
    assert(stack@.map_values(|v: Vec<char>| v@) =~= before.push(cur@));
}

/// The normal segments of `path` (see [`normal_segments`]).
pub fn segments_of(path: &str) -> (r: Vec<Vec<char>>)
    ensures
        r@.map_values(|v: Vec<char>| v@) == normal_segments(path@),
{
    let p = chars_of(path);
    let mut stack: Vec<Vec<char>> = Vec::new();
    let mut cur: Vec<char> = Vec::new();
    let mut i: usize = 0;
    while i < p.len()
        invariant
            i <= p.len(),
            p@ == path@,
            stack@.map_values(|v: Vec<char>| v@) == scan_segments(p@, i as nat).0,
            cur@ == scan_segments(p@, i as nat).1,
        decreases p.len() - i,
    {
        if p[i] == '/' {
            let done = cur;
            cur = Vec::new();
            close_segment_exec(&mut stack, done);
        } else {
            cur.push(p[i]);
        }
        i = i + 1;
    }
    close_segment_exec(&mut stack, cur);
    stack
}

/// Whether `path` starts with `/`.
pub fn is_absolute_text(path: &str) -> (r: bool)
    ensures
        r == (path@.len() > 0 && path@[0] == '/'),
{
    let p = chars_of(path);
    p.len() > 0 && p[0] == '/'
}

/// Removes `.` and `..` components lexically (see [`normalize_text`]).
pub fn normalize_path(path: &str) -> (r: String)
    ensures
        r@ == normalize_text(path@),
{
    let stack = segments_of(path);
    let ghost segs = stack@.map_values(|v: Vec<char>| v@);
    let absolute = is_absolute_text(path);
    let mut out = String::new();
    if absolute {
        push_char(&mut out, '/');
    }
    let ghost start = out@;
    let mut j: usize = 0;
    while j < stack.len()
        invariant
            j <= stack.len(),
            segs == stack@.map_values(|v: Vec<char>| v@),
            out@ == start + join_segments(segs.subrange(0, j as int)),
        decreases stack.len() - j,
    {
        let ghost before = out@;
        if j > 0 {
            push_char(&mut out, '/');
        }
        let seg = string_of(&stack[j]);
        out.append(seg.as_str());
        proof {
            let sub = segs.subrange(0, j as int + 1);
            assert(sub.drop_last() =~= segs.subrange(0, j as int));
            assert(sub.last() == segs[j as int]);
            if j == 0 {
                assert(sub.len() == 1);
                assert(join_segments(segs.subrange(0, 0)) =~= Seq::<char>::empty());
            }
        }
        j = j + 1;
    }
    assert(segs.subrange(0, stack.len() as int) =~= segs);
    out
}

/// `inner` lies at or below `root`: both are absolute or both relative, and
/// the normal segments of `root` begin those of `inner`.
pub open spec fn lies_within(root: Seq<char>, inner: Seq<char>) -> bool {
    let a = normal_segments(root);
    let b = normal_segments(inner);
    &&& (root.len() > 0 && root[0] == '/') == (inner.len() > 0 && inner[0] == '/')
    &&& a.len() <= b.len()
    &&& b.subrange(0, a.len() as int) == a
}

/// Whether `inner` lies at or below `root` (lexically, see [`lies_within`]).
pub fn is_within(root: &str, inner: &str) -> (r: bool)
    ensures
        r == lies_within(root@, inner@),
{
    if is_absolute_text(root) != is_absolute_text(inner) {
        return false;
    }
    let a = segments_of(root);
    let b = segments_of(inner);
    let ghost sa = a@.map_values(|v: Vec<char>| v@);
    let ghost sb = b@.map_values(|v: Vec<char>| v@);
    if a.len() > b.len() {
        return false;
    }
    let mut i: usize = 0;
    while i < a.len()
        invariant
            i <= a.len(),
            a.len() <= b.len(),
            sa == a@.map_values(|v: Vec<char>| v@),
            sb == b@.map_values(|v: Vec<char>| v@),
            sa == normal_segments(root@),
            sb == normal_segments(inner@),
            (root@.len() > 0 && root@[0] == '/') == (inner@.len() > 0 && inner@[0] == '/'),
            forall|j: int| 0 <= j < i ==> sa[j] == sb[j],
        decreases a.len() - i,
    {
        let same = crate::text::chars_equal(&a[i], &b[i]);
        assert(sa[i as int] == a@[i as int]@);
        assert(sb[i as int] == b@[i as int]@);
        if !same {
            assert(sa[i as int] != sb[i as int]);
            assert(sb.subrange(0, sa.len() as int)[i as int] == sb[i as int]);
            return false;
        }
        i = i + 1;
    }
    assert(sb.subrange(0, sa.len() as int) =~= sa);
    true
}

/// Index of the last `c` in `s`, or -1.
pub open spec fn last_index_of(s: Seq<char>, c: char) -> int
    decreases s.len(),
{
    if s.len() == 0 {
        -1
    } else if s.last() == c {
        s.len() - 1
    } else {
        last_index_of(s.drop_last(), c)
    }
}

/// `p` without trailing separators (a lone `/` stays).
pub open spec fn trim_trailing_seps(p: Seq<char>) -> Seq<char>
    decreases p.len(),
{
    if p.len() > 1 && p.last() == '/' {
        trim_trailing_seps(p.drop_last())
    } else {
        p
    }
}

/// The last `/`-separated component of `p`; none when that is empty, `.` or `..`.
pub open spec fn file_name_of(p: Seq<char>) -> Option<Seq<char>> {
    let t = trim_trailing_seps(p);
    let name = t.subrange(last_index_of(t, '/') + 1, t.len() as int);
    if name.len() == 0 || name == "."@ || name == ".."@ {
        None
    } else {
        Some(name)
    }
}

/// The extension of `p`: what follows the last `.` of its file name; none
/// without a file name, without a `.`, or when the only `.` starts the name.
pub open spec fn extension_of(p: Seq<char>) -> Option<Seq<char>> {
    match file_name_of(p) {
        None => None,
        Some(name) => {
            let d = last_index_of(name, '.');
            if d <= 0 {
                None
            } else {
                Some(name.subrange(d + 1, name.len() as int))
            }
        },
    }
}

proof fn lemma_last_index_bounds(s: Seq<char>, c: char)
    ensures
        -1 <= last_index_of(s, c) < s.len(),
    decreases s.len(),
{
    if s.len() > 0 && s.last() != c {
        lemma_last_index_bounds(s.drop_last(), c);
    }
}

pub fn last_index(v: &Vec<char>, c: char, end: usize) -> (r: Option<usize>)
    requires
        end <= v.len(),
    ensures
        match r {
            Some(k) => k == last_index_of(v@.subrange(0, end as int), c) && k < end,
            None => last_index_of(v@.subrange(0, end as int), c) == -1,
        },
    decreases end,
{
    if end == 0 {
        return None;
    }
    assert(v@.subrange(0, end as int).drop_last() =~= v@.subrange(0, end as int - 1));
    proof {
        lemma_last_index_bounds(v@.subrange(0, end as int), c);
    }
    if v[end - 1] == c {
        Some(end - 1)
    } else {
        last_index(v, c, end - 1)
    }
}

/// The extension of `path` (see [`extension_of`]).
pub fn path_extension(path: &str) -> (r: Option<Vec<char>>)
    ensures
        match r {
            Some(e) => extension_of(path@) == Some(e@),
            None => extension_of(path@) is None,
        },
{
    let p = chars_of(path);
    let mut end: usize = p.len();
    assert(p@.subrange(0, end as int) =~= path@);
    while end > 1 && p[end - 1] == '/'
        invariant
            end <= p.len(),
            p@ == path@,
            trim_trailing_seps(p@.subrange(0, end as int)) == trim_trailing_seps(path@),
        decreases end,
    {
        assert(p@.subrange(0, end as int).drop_last() =~= p@.subrange(0, end as int - 1));
        end = end - 1;
    }
    assert(p@.subrange(0, end as int) =~= trim_trailing_seps(path@)) by {
        assert(trim_trailing_seps(p@.subrange(0, end as int)) == p@.subrange(0, end as int));
    }
    let ghost t = p@.subrange(0, end as int);
    let sep = last_index(&p, '/', end);
    let start: usize = match sep {
        Some(k) => k + 1,
        None => 0,
    };
    let mut name: Vec<char> = Vec::new();
    let mut i: usize = start;
    while i < end
        invariant
            start <= i <= end,
            end <= p.len(),
            name@ == p@.subrange(start as int, i as int),
        decreases end - i,
    {
        name.push(p[i]);
        assert(p@.subrange(start as int, i as int + 1) =~= p@.subrange(start as int, i as int).push(
            p@[i as int],
        ));
        i = i + 1;
    }
    assert(name@ =~= t.subrange(last_index_of(t, '/') + 1, t.len() as int));
    let n = name.len();
    if n == 0 || (n == 1 && name[0] == '.') || (n == 2 && name[0] == '.' && name[1] == '.') {
        proof {
            reveal_strlit(".");
            reveal_strlit("..");
            if n == 1 && name@[0] == '.' {
                assert(name@ =~= "."@);
            }
            if n == 2 && name@[0] == '.' && name@[1] == '.' {
                assert(name@ =~= ".."@);
            }
        }
        return None;
    }
    assert(name@ != "."@ && name@ != ".."@) by {
        reveal_strlit(".");
        reveal_strlit("..");
        if n == 1 {
            assert(name@[0] != '.');
        }
        if n == 2 {
            assert(!(name@[0] == '.' && name@[1] == '.'));
        }
    }
    let found = last_index(&name, '.', n);
    assert(name@.subrange(0, n as int) =~= name@);
    let dot: usize = match found {
        Some(k) if k > 0 => k,
        _ => {
            return None;
        },
    };
    let mut ext: Vec<char> = Vec::new();
    let mut j: usize = (dot + 1) as usize;
    while j < n
        invariant
            0 < dot < n,
            dot + 1 <= j <= n,
            n == name.len(),
            ext@ == name@.subrange(dot + 1, j as int),
        decreases n - j,
    {
        ext.push(name[j]);
        assert(name@.subrange(dot + 1, j as int + 1) =~= name@.subrange(dot + 1, j as int).push(
            name@[j as int],
        ));
        j = j + 1;
    }
    Some(ext)
}

/// The parent of `p`: `p` without its last component and the separators
/// before it (the root stays `/`, a lone component has the empty parent);
/// none for an empty path or the root itself.
pub open spec fn parent_of(p: Seq<char>) -> Option<Seq<char>> {
    let t = trim_trailing_seps(p);
    let k = last_index_of(t, '/');
    if t.len() == 0 || t == seq!['/'] {
        None
    } else if k < 0 {
        Some(Seq::empty())
    } else if k == 0 {
        Some(seq!['/'])
    } else {
        Some(trim_trailing_seps(t.subrange(0, k)))
    }
}

/// The length of `v[..end]` once trailing separators are dropped.
fn trimmed_end(v: &Vec<char>, end: usize) -> (r: usize)
    requires
        end <= v.len(),
    ensures
        r <= end,
        v@.subrange(0, r as int) == trim_trailing_seps(v@.subrange(0, end as int)),
{
    let mut e: usize = end;
    while e > 1 && v[e - 1] == '/'
        invariant
            e <= end <= v.len(),
            trim_trailing_seps(v@.subrange(0, e as int)) == trim_trailing_seps(v@.subrange(0, end as int)),
        decreases e,
    {
        assert(v@.subrange(0, e as int).drop_last() =~= v@.subrange(0, e as int - 1));
        e = e - 1;
    }
    assert(trim_trailing_seps(v@.subrange(0, e as int)) == v@.subrange(0, e as int));
    e
}

/// The parent of `path` (see [`parent_of`]).
pub fn parent_text(path: &str) -> (r: Option<String>)
    ensures
        match r {
            Some(q) => parent_of(path@) == Some(q@),
            None => parent_of(path@) is None,
        },
{
    let p = chars_of(path);
    assert(p@.subrange(0, p.len() as int) =~= path@);
    let end = trimmed_end(&p, p.len());
    let ghost t = p@.subrange(0, end as int);
    if end == 0 || (end == 1 && p[0] == '/') {
        assert(end == 1 && p@[0] == '/' ==> t =~= seq!['/']);
        return None;
    }
    assert(t != seq!['/']) by {
        if t == seq!['/'] {
            assert(t.len() == 1);
            assert(t[0] == '/');
            assert(t[0] == p@[0]);
        }
    }
    match last_index(&p, '/', end) {
        None => Some(String::new()),
        Some(0) => {
            let mut s = String::new();
            push_char(&mut s, '/');
            Some(s)
        },
        Some(k) => {
            let e = trimmed_end(&p, k);
            assert(p@.subrange(0, end as int).subrange(0, k as int) =~= p@.subrange(0, k as int));
            let mut v: Vec<char> = Vec::new();
            let mut i: usize = 0;
            while i < e
                invariant
                    i <= e <= k < p.len(),
                    v@ == p@.subrange(0, i as int),
                decreases e - i,
            {
                v.push(p[i]);
                assert(p@.subrange(0, i as int + 1) =~= p@.subrange(0, i as int).push(p@[i as int]));
                i = i + 1;
            }
            Some(string_of(&v))
        },
    }
}

} // verus!
