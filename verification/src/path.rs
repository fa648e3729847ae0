//! Paths as text. Two paths are the same when their components are, as with
//! `std::path::Path` on Unix: repeated separators, a trailing separator and
//! `.` components after the first do not count.
use vstd::prelude::*;

use crate::text::{chars_equal, chars_of, runs, runs_of, string_of, views};

verus! {

/// A `.` component.
pub open spec fn dot() -> Seq<char> {
    seq!['.']
}

/// The components of the path `s`, as `Path::components` yields them: the
/// root (written `"/"`) when `s` starts with `'/'`, a leading `.` of a
/// relative path, then every non-empty run between separators other than
/// `.`.
pub open spec fn components(s: Seq<char>) -> Seq<Seq<char>> {
    let has_root = s.len() > 0 && s[0] == '/';
    let named = keep_named(runs(s, Some('/')));
    let cur_dir = !has_root && (s == dot() || (s.len() >= 2 && s[0] == '.' && s[1] == '/'));
    if has_root {
        seq![seq!['/']] + named
    } else if cur_dir {
        seq![dot()] + named
    } else {
        named
    }
}

/// The runs other than `.`.
pub open spec fn keep_named(parts: Seq<Seq<char>>) -> Seq<Seq<char>> {
    parts.filter(|p: Seq<char>| p != dot())
}

/// `a` and `b` name the same path (`Path`'s `==`).
pub open spec fn same_path(a: Seq<char>, b: Seq<char>) -> bool {
    components(a) == components(b)
}

/// The components of the path `s`.
pub fn components_of(s: &[char]) -> (r: Vec<Vec<char>>)
    ensures
        views(r@) == components(s@),
{
    let parts = runs_of(s, Some('/'));
    let mut named: Vec<Vec<char>> = Vec::new();
    let mut i: usize = 0;
    let dot_v = vec!['.'];
    assert(dot_v@ == dot());
    assert(views(parts@).take(0) =~= Seq::<Seq<char>>::empty());
    assert(views(named@) =~= Seq::<Seq<char>>::empty());
    proof {
        reveal(Seq::filter);
    }
    while i < parts.len()
        invariant
            i <= parts@.len(),
            dot_v@ == dot(),
            views(named@) == keep_named(views(parts@).take(i as int)),
        decreases parts@.len() - i,
    {
        proof {
            reveal(Seq::filter);
        }
        assert(views(parts@).take(i + 1).drop_last() == views(parts@).take(i as int));
        let ghost old_named = named@;
        assert(views(parts@).take(i + 1).last() == parts@[i as int]@);
        if !chars_equal(&parts[i], &dot_v) {
            let p = sub_vec(&parts[i]);
            named.push(p);
            assert(keep_named(views(parts@).take(i + 1)) == keep_named(
                views(parts@).take(i as int),
            ).push(parts@[i as int]@));
            assert(views(named@) == views(old_named).push(parts@[i as int]@));
        } else {
            assert(keep_named(views(parts@).take(i + 1)) == keep_named(
                views(parts@).take(i as int),
            ));
        }
        i = i + 1;
    }
    assert(views(parts@).take(parts@.len() as int) == views(parts@));
    let has_root = s.len() > 0 && s[0] == '/';
    let cur_dir = !has_root && ((s.len() == 1 && s[0] == '.') || (s.len() >= 2 && s[0] == '.'
        && s[1] == '/'));
    proof {
        if s@.len() == 1 && s@[0] == '.' {
            assert(s@ == dot());
        }
        if s@ == dot() {
            assert(s@.len() == 1 && s@[0] == '.');
        }
    }
    if has_root {
        let mut r: Vec<Vec<char>> = Vec::new();
        let root = vec!['/'];
        assert(root@ =~= seq!['/']);
        r.push(root);
        let ghost first = r@;
        assert(views(first) =~= seq![seq!['/']]);
        append_all(&mut r, named);
        assert(views(first) == seq![seq!['/']]);
        r
    } else if cur_dir {
        let mut r: Vec<Vec<char>> = Vec::new();
        let here = vec!['.'];
        assert(here@ =~= dot());
        r.push(here);
        let ghost first = r@;
        assert(views(first) =~= seq![dot()]);
        append_all(&mut r, named);
        assert(views(first) == seq![dot()]);
        r
    } else {
        named
    }
}

/// A copy of a character vector.
fn sub_vec(v: &Vec<char>) -> (r: Vec<char>)
    ensures
        r@ == v@,
{
    let mut r: Vec<char> = Vec::new();
    let mut i: usize = 0;
    while i < v.len()
        invariant
            i <= v@.len(),
            r@ == v@.take(i as int),
        decreases v@.len() - i,
    {
        r.push(v[i]);
        assert(v@.take(i + 1) == v@.take(i as int).push(v@[i as int]));
        i = i + 1;
    }
    assert(v@.take(v@.len() as int) == v@);
    r
}

/// Appends the vectors of `more` to `r`.
fn append_all(r: &mut Vec<Vec<char>>, more: Vec<Vec<char>>)
    ensures
        views(final(r)@) == views(old(r)@) + views(more@),
{
    let ghost start = r@;
    let mut i: usize = 0;
    assert(views(more@).take(0) =~= Seq::<Seq<char>>::empty());
    assert(views(r@) =~= views(start) + views(more@).take(0));
    while i < more.len()
        invariant
            i <= more@.len(),
            views(r@) == views(start) + views(more@).take(i as int),
        decreases more@.len() - i,
    {
        let ghost before = r@;
        r.push(sub_vec(&more[i]));
        assert(views(r@) == views(before).push(more@[i as int]@));
        assert(views(more@).take(i + 1) == views(more@).take(i as int).push(more@[i as int]@));
        i = i + 1;
    }
    assert(views(more@).take(more@.len() as int) == views(more@));
}

/// Whether two sequences of character vectors are equal.
fn all_chars_equal(a: &Vec<Vec<char>>, b: &Vec<Vec<char>>) -> (r: bool)
    ensures
        r == (views(a@) == views(b@)),
{
    if a.len() != b.len() {
        assert(views(a@).len() != views(b@).len());
        return false;
    }
    let mut i: usize = 0;
    while i < a.len()
        invariant
            a@.len() == b@.len(),
            i <= a@.len(),
            forall|k: int| 0 <= k < i ==> a@[k]@ == b@[k]@,
        decreases a@.len() - i,
    {
        if !chars_equal(&a[i], &b[i]) {
            assert(views(a@)[i as int] != views(b@)[i as int]);
            return false;
        }
        i = i + 1;
    }
    assert(views(a@) =~= views(b@));
    true
}

/// Whether `a` and `b` name the same path (`Path`'s `==`).
pub fn paths_equal(a: &str, b: &str) -> (r: bool)
    ensures
        r == same_path(a@, b@),
{
    let ca = components_of(&chars_of(a));
    let cb = components_of(&chars_of(b));
    all_chars_equal(&ca, &cb)
}

/// `dir` followed by the relative path `name`, with a `'/'` between them when
/// `dir` is not empty and does not already end with one (`Path::join` of a
/// relative path).
pub open spec fn join(dir: Seq<char>, name: Seq<char>) -> Seq<char> {
    if dir.len() > 0 && dir.last() != '/' {
        dir + seq!['/'] + name
    } else {
        dir + name
    }
}

/// `dir` joined with the relative path `name`.
pub fn join_path(dir: &str, name: &str) -> (r: String)
    ensures
        r@ == join(dir@, name@),
{
    let mut v = chars_of(dir);
    if v.len() > 0 && v[v.len() - 1] != '/' {
        v.push('/');
    }
    let n = chars_of(name);
    let mut i: usize = 0;
    let ghost start = v@;
    while i < n.len()
        invariant
            i <= n@.len(),
            v@ == start + n@.take(i as int),
        decreases n@.len() - i,
    {
        v.push(n[i]);
        assert(n@.take(i + 1) == n@.take(i as int).push(n@[i as int]));
        i = i + 1;
    }
    assert(n@.take(n@.len() as int) == n@);
    string_of(&v)
}

} // verus!
