//! Character-level text handling: whitespace, trimming, searching, splitting
//! into words and lines, decimal numbers. Specifications are over `Seq<char>`.
use vstd::prelude::*;

verus! {

broadcast use vstd::string::group_string_axioms;

// ---------------------------------------------------------------------------
// Conversions between strings and character vectors
// ---------------------------------------------------------------------------

/// The characters of a string slice, in order.
pub fn chars_of(s: &str) -> (r: Vec<char>)
    ensures
        r@ == s@,
{
    let mut r: Vec<char> = Vec::new();
    for c in it: s.chars()
        invariant
            r@ == it.seq().take(it.index()),
            it.seq() == s@,
    {
        r.push(c);
    }
    r
}

/// `String::push`: appends one character at the end.
#[verifier::external_body]
fn push_char(s: &mut String, c: char)
    ensures
        final(s)@ == old(s)@.push(c),
{
    s.push(c);
}

/// `String::pop`: removes the last character, if any.
#[verifier::external_body]
pub(crate) fn pop_char(s: &mut String) -> (r: Option<char>)
    ensures
        old(s)@.len() == 0 ==> r is None && final(s)@ == old(s)@,
        old(s)@.len() > 0 ==> r == Some(old(s)@.last()) && final(s)@ == old(s)@.drop_last(),
{
    s.pop()
}

/// Appends the character `c` at the end of `s` (`String::push`).
pub fn push_char_to(s: &mut String, c: char)
    ensures
        final(s)@ == old(s)@.push(c),
{
    push_char(s, c);
}

/// The text of `s` without leading and trailing whitespace.
pub fn trim_string(s: &str) -> (r: String)
    ensures
        r@ == trim(s@),
{
    let v = chars_of(s);
    let t = trim_chars(&v);
    string_of(&t)
}

/// A text whose first and last characters are not whitespace is its own
/// trimmed form.
pub proof fn lemma_trim_unchanged(s: Seq<char>)
    requires
        s.len() > 0 ==> !is_ws(s[0]) && !is_ws(s.last()),
    ensures
        trim(s) == s,
{
    lemma_lead_ws_unique(s, 0);
    assert(s.skip(0) == s);
    lemma_trail_ws_unique(s, 0);
    assert(s.take(s.len() as int) == s);
}

/// `a` followed by `b`.
pub fn concat(a: &str, b: &str) -> (r: String)
    ensures
        r@ == a@ + b@,
{
    let mut r = String::from_str(a);
    r.append(b);
    r
}

/// A `String` holding exactly the given characters.
pub fn string_of(v: &[char]) -> (r: String)
    ensures
        r@ == v@,
{
    let mut r = String::new();
    let mut i: usize = 0;
    while i < v.len()
        invariant
            i <= v@.len(),
            r@ == v@.take(i as int),
        decreases v@.len() - i,
    {
        push_char(&mut r, v[i]);
        assert(v@.take(i + 1) == v@.take(i as int).push(v@[i as int]));
        i = i + 1;
    }
    assert(v@.take(v@.len() as int) == v@);
    r
}

/// The characters of `s` from position `i` up to (not including) `j`.
pub fn sub_chars(s: &[char], i: usize, j: usize) -> (r: Vec<char>)
    requires
        i <= j <= s@.len(),
    ensures
        r@ == s@.subrange(i as int, j as int),
{
    let mut r: Vec<char> = Vec::new();
    let mut k: usize = i;
    while k < j
        invariant
            i <= k <= j <= s@.len(),
            r@ == s@.subrange(i as int, k as int),
        decreases j - k,
    {
        r.push(s[k]);
        assert(s@.subrange(i as int, k + 1) == s@.subrange(i as int, k as int).push(s@[k as int]));
        k = k + 1;
    }
    r
}

// ---------------------------------------------------------------------------
// Whitespace and trimming
// ---------------------------------------------------------------------------

/// The Unicode `White_Space` property, the notion of whitespace that
/// `char::is_whitespace`, `str::trim` and `str::split_whitespace` use.
pub open spec fn is_ws(c: char) -> bool {
    ||| ('\u{9}' <= c && c <= '\u{d}')
    ||| c == ' '
    ||| c == '\u{85}'
    ||| c == '\u{a0}'
    ||| c == '\u{1680}'
    ||| ('\u{2000}' <= c && c <= '\u{200a}')
    ||| c == '\u{2028}'
    ||| c == '\u{2029}'
    ||| c == '\u{202f}'
    ||| c == '\u{205f}'
    ||| c == '\u{3000}'
}

/// Whether `c` is whitespace.
pub fn is_whitespace(c: char) -> (r: bool)
    ensures
        r == is_ws(c),
{
    ('\u{9}' <= c && c <= '\u{d}') || c == ' ' || c == '\u{85}' || c == '\u{a0}' || c
        == '\u{1680}' || ('\u{2000}' <= c && c <= '\u{200a}') || c == '\u{2028}' || c
        == '\u{2029}' || c == '\u{202f}' || c == '\u{205f}' || c == '\u{3000}'
}

/// Number of whitespace characters at the start of `s`.
pub open spec fn lead_ws(s: Seq<char>) -> nat
    decreases s.len(),
{
    if s.len() > 0 && is_ws(s[0]) {
        1 + lead_ws(s.drop_first())
    } else {
        0
    }
}

/// Number of whitespace characters at the end of `s`.
pub open spec fn trail_ws(s: Seq<char>) -> nat
    decreases s.len(),
{
    if s.len() > 0 && is_ws(s.last()) {
        1 + trail_ws(s.drop_last())
    } else {
        0
    }
}

/// `s` without leading and trailing whitespace (`str::trim`).
pub open spec fn trim(s: Seq<char>) -> Seq<char> {
    let t = s.skip(lead_ws(s) as int);
    t.take(t.len() - trail_ws(t))
}

/// Characterisation of `lead_ws`: the prefix it counts is whitespace and the
/// character after it is not.
pub proof fn lemma_lead_ws(s: Seq<char>)
    ensures
        lead_ws(s) <= s.len(),
        forall|i: int| 0 <= i < lead_ws(s) ==> is_ws(#[trigger] s[i]),
        lead_ws(s) < s.len() ==> !is_ws(s[lead_ws(s) as int]),
    decreases s.len(),
{
    if s.len() > 0 && is_ws(s[0]) {
        lemma_lead_ws(s.drop_first());
        assert forall|i: int| 0 <= i < lead_ws(s) implies is_ws(#[trigger] s[i]) by {
            if i > 0 {
                assert(s[i] == s.drop_first()[i - 1]);
            }
        }
    }
}

/// Characterisation of `trail_ws`: the suffix it counts is whitespace and the
/// character before it is not.
pub proof fn lemma_trail_ws(s: Seq<char>)
    ensures
        trail_ws(s) <= s.len(),
        forall|i: int| s.len() - trail_ws(s) <= i < s.len() ==> is_ws(#[trigger] s[i]),
        trail_ws(s) < s.len() ==> !is_ws(s[s.len() - trail_ws(s) - 1]),
    decreases s.len(),
{
    if s.len() > 0 && is_ws(s.last()) {
        lemma_trail_ws(s.drop_last());
        assert forall|i: int| s.len() - trail_ws(s) <= i < s.len() implies is_ws(
            #[trigger] s[i],
        ) by {
            if i < s.len() - 1 {
                assert(s[i] == s.drop_last()[i]);
            }
        }
    }
}

/// `lead_ws` is determined by the characterisation above.
pub proof fn lemma_lead_ws_unique(s: Seq<char>, k: int)
    requires
        0 <= k <= s.len(),
        forall|i: int| 0 <= i < k ==> is_ws(#[trigger] s[i]),
        k < s.len() ==> !is_ws(s[k]),
    ensures
        lead_ws(s) == k,
    decreases s.len(),
{
    if k > 0 {
        assert(is_ws(s[0]));
        assert forall|i: int| 0 <= i < k - 1 implies is_ws(#[trigger] s.drop_first()[i]) by {
            assert(s.drop_first()[i] == s[i + 1]);
        }
        if k - 1 < s.len() - 1 {
            assert(s.drop_first()[k - 1] == s[k]);
        }
        lemma_lead_ws_unique(s.drop_first(), k - 1);
    }
}

/// `trail_ws` is determined by the characterisation above.
pub proof fn lemma_trail_ws_unique(s: Seq<char>, k: int)
    requires
        0 <= k <= s.len(),
        forall|i: int| s.len() - k <= i < s.len() ==> is_ws(#[trigger] s[i]),
        k < s.len() ==> !is_ws(s[s.len() - k - 1]),
    ensures
        trail_ws(s) == k,
    decreases s.len(),
{
    if k > 0 {
        assert(is_ws(s.last()));
        assert forall|i: int| s.len() - 1 - (k - 1) <= i < s.len() - 1 implies is_ws(
            #[trigger] s.drop_last()[i],
        ) by {
            assert(s.drop_last()[i] == s[i]);
        }
        if k - 1 < s.len() - 1 {
            assert(s.drop_last()[s.len() - 1 - (k - 1) - 1] == s[s.len() - k - 1]);
        }
        lemma_trail_ws_unique(s.drop_last(), k - 1);
    }
}

/// `s` with leading and trailing whitespace removed (`str::trim`).
pub fn trim_chars(s: &[char]) -> (r: Vec<char>)
    ensures
        r@ == trim(s@),
{
    proof {
        lemma_lead_ws(s@);
    }
    let mut start: usize = 0;
    while start < s.len() && is_whitespace(s[start])
        invariant
            start <= s@.len(),
            forall|i: int| 0 <= i < start ==> is_ws(#[trigger] s@[i]),
        decreases s@.len() - start,
    {
        start = start + 1;
    }
    proof {
        lemma_lead_ws_unique(s@, start as int);
    }
    let mut end: usize = s.len();
    while end > start && is_whitespace(s[end - 1])
        invariant
            start <= end <= s@.len(),
            forall|i: int| end <= i < s@.len() ==> is_ws(#[trigger] s@[i]),
        decreases end,
    {
        end = end - 1;
    }
    let ghost t = s@.skip(start as int);
    proof {
        assert forall|i: int| t.len() - (s@.len() - end) <= i < t.len() implies is_ws(
            #[trigger] t[i],
        ) by {
            assert(t[i] == s@[i + start]);
        }
        if s@.len() - end < t.len() {
            assert(t[t.len() - (s@.len() - end) - 1] == s@[end - 1]);
        }
        lemma_trail_ws_unique(t, s@.len() - end);
    }
    let mut r: Vec<char> = Vec::new();
    let mut i: usize = start;
    while i < end
        invariant
            start <= i <= end <= s@.len(),
            r@ == s@.subrange(start as int, i as int),
        decreases end - i,
    {
        r.push(s[i]);
        assert(s@.subrange(start as int, i + 1) == s@.subrange(start as int, i as int).push(
            s@[i as int],
        ));
        i = i + 1;
    }
    assert(r@ == t.take(t.len() - trail_ws(t)));
    r
}

// ---------------------------------------------------------------------------
// Searching
// ---------------------------------------------------------------------------

/// `p` occurs in `s` starting at position `i`.
pub open spec fn occurs_at(s: Seq<char>, p: Seq<char>, i: int) -> bool {
    0 <= i && i + p.len() <= s.len() && s.subrange(i, i + p.len()) == p
}

/// `p` is a substring of `s` (`str::contains`).
pub open spec fn contains(s: Seq<char>, p: Seq<char>) -> bool {
    exists|i: int| occurs_at(s, p, i)
}

/// The first occurrence of `p` in `s` at or after position `i`.
pub open spec fn find_from(s: Seq<char>, p: Seq<char>, i: int) -> Option<int>
    decreases s.len() + 1 - i,
{
    if i < 0 || i + p.len() > s.len() {
        None
    } else if occurs_at(s, p, i) {
        Some(i)
    } else {
        find_from(s, p, i + 1)
    }
}

/// The first occurrence of `p` in `s` (`str::find`).
pub open spec fn find(s: Seq<char>, p: Seq<char>) -> Option<int> {
    find_from(s, p, 0)
}

/// What `find_from` returns: the least position at or after `i` where `p`
/// occurs, or nothing when there is none.
pub proof fn lemma_find_from(s: Seq<char>, p: Seq<char>, i: int)
    requires
        0 <= i,
    ensures
        find_from(s, p, i) matches Some(k) ==> i <= k && k + p.len() <= s.len() && occurs_at(
            s,
            p,
            k,
        ) && forall|j: int| i <= j < k ==> !occurs_at(s, p, j),
        find_from(s, p, i) is None ==> forall|j: int| i <= j ==> !occurs_at(s, p, j),
    decreases s.len() + 1 - i,
{
    if i + p.len() > s.len() {
    } else if occurs_at(s, p, i) {
    } else {
        lemma_find_from(s, p, i + 1);
    }
}

/// What `find` returns: the least position where `p` occurs, if any.
pub proof fn lemma_find(s: Seq<char>, p: Seq<char>)
    ensures
        find(s, p) matches Some(k) ==> 0 <= k && k + p.len() <= s.len() && occurs_at(s, p, k)
            && forall|j: int| 0 <= j < k ==> !occurs_at(s, p, j),
        find(s, p) is None <==> !contains(s, p),
{
    lemma_find_from(s, p, 0);
}

/// Whether `p` occurs in `s` at position `i`.
fn matches_at(s: &[char], p: &[char], i: usize) -> (r: bool)
    requires
        i + p@.len() <= s@.len(),
    ensures
        r == occurs_at(s@, p@, i as int),
{
    let n = s.len();
    let mut j: usize = 0;
    while j < p.len()
        invariant
            n == s@.len(),
            i + p@.len() <= s@.len(),
            j <= p@.len(),
            forall|k: int| 0 <= k < j ==> s@[i + k] == p@[k],
        decreases p@.len() - j,
    {
        if s[i + j] != p[j] {
            assert(s@.subrange(i as int, i + p@.len())[j as int] != p@[j as int]);
            return false;
        }
        j = j + 1;
    }
    assert(s@.subrange(i as int, i + p@.len()) == p@);
    true
}

/// The first position where `p` occurs in `s` (`str::find`).
pub fn find_chars(s: &[char], p: &[char]) -> (r: Option<usize>)
    ensures
        r matches Some(k) ==> find(s@, p@) == Some(k as int),
        r is None ==> find(s@, p@) is None,
{
    if p.len() > s.len() {
        return None;
    }
    let last = s.len() - p.len();
    let mut i: usize = 0;
    while i <= last
        invariant
            last == s@.len() - p@.len(),
            i <= last + 1,
            find(s@, p@) == find_from(s@, p@, i as int),
        decreases last + 1 - i,
    {
        if matches_at(s, p, i) {
            return Some(i);
        }
        if i == last {
            return None;
        }
        i = i + 1;
    }
    None
}

/// Whether `p` is a substring of `s` (`str::contains`).
pub fn contains_chars(s: &[char], p: &[char]) -> (r: bool)
    ensures
        r == contains(s@, p@),
{
    proof {
        lemma_find(s@, p@);
    }
    find_chars(s, p).is_some()
}

// ---------------------------------------------------------------------------
// Lines and words
// ---------------------------------------------------------------------------

/// A line without the `'\r'` of a `"\r\n"` ending.
pub open spec fn strip_cr(l: Seq<char>) -> Seq<char> {
    if l.len() > 0 && l.last() == '\r' {
        l.drop_last()
    } else {
        l
    }
}

/// The first line of `s` and the text after its line ending, as `str::lines`
/// yields them: lines end at `'\n'` or `"\r\n"`, the last ending is optional,
/// and an empty text has no lines.
pub open spec fn first_line(s: Seq<char>) -> Option<(Seq<char>, Seq<char>)> {
    if s.len() == 0 {
        None
    } else {
        match find(s, seq!['\n']) {
            Some(i) => Some((strip_cr(s.take(i)), s.skip(i + 1))),
            None => Some((s, Seq::empty())),
        }
    }
}

/// The rest after the first line is shorter than the text.
pub proof fn lemma_first_line_shrinks(s: Seq<char>)
    ensures
        first_line(s) matches Some((l, r)) ==> r.len() < s.len(),
{
    lemma_find(s, seq!['\n']);
}

/// The lines of `s` (`str::lines`).
pub open spec fn lines(s: Seq<char>) -> Seq<Seq<char>>
    decreases s.len(),
{
    match first_line(s) {
        None => Seq::empty(),
        Some((l, r)) => {
            proof {
                lemma_first_line_shrinks(s);
            }
            seq![l] + lines(r)
        },
    }
}

/// The first line of `s` and the position where the rest begins.
pub fn first_line_chars(s: &[char]) -> (r: Option<(Vec<char>, usize)>)
    ensures
        r is None <==> first_line(s@) is None,
        r matches Some((l, k)) ==> k <= s@.len() && first_line(s@) == Some(
            (l@, s@.skip(k as int)),
        ),
{
    if s.len() == 0 {
        return None;
    }
    let nl = ['\n'];
    let ghost nls = seq!['\n'];
    assert(nl@ == nls);
    proof {
        lemma_find(s@, nls);
    }
    match find_chars(s, &nl) {
        Some(i) => {
            let mut end = i;
            if i > 0 && s[i - 1] == '\r' {
                end = i - 1;
            }
            let l = sub_chars(s, 0, end);
            assert(l@ == strip_cr(s@.take(i as int)));
            Some((l, i + 1))
        },
        None => {
            let l = sub_chars(s, 0, s.len());
            assert(s@.skip(s@.len() as int) == Seq::<char>::empty());
            Some((l, s.len()))
        },
    }
}

/// The lines of `s` (`str::lines`).
pub fn lines_of(s: &[char]) -> (r: Vec<Vec<char>>)
    ensures
        r@.map_values(|l: Vec<char>| l@) == lines(s@),
{
    let mut r: Vec<Vec<char>> = Vec::new();
    let ghost mut pos: int = 0;
    let mut rest: Vec<char> = sub_chars(s, 0, s.len());
    assert(rest@ == s@.skip(0));
    assert(rest@ == s@);
    assert(r@.map_values(|l: Vec<char>| l@) =~= Seq::<Seq<char>>::empty());
    assert(r@.map_values(|l: Vec<char>| l@) + lines(rest@) =~= lines(rest@));
    while rest.len() > 0
        invariant
            0 <= pos <= s@.len(),
            rest@ == s@.skip(pos),
            lines(s@) == r@.map_values(|l: Vec<char>| l@) + lines(rest@),
        decreases rest@.len(),
    {
        match first_line_chars(&rest) {
            Some((l, k)) => {
                proof {
                    lemma_first_line_shrinks(rest@);
                }
                let ghost old_r = r@;
                r.push(l);
                assert(r@.map_values(|l: Vec<char>| l@) == old_r.map_values(|l: Vec<char>| l@).push(
                    l@,
                ));
                let next = sub_chars(&rest, k, rest.len());
                assert(next@ == rest@.skip(k as int));
                assert(seq![l@] + lines(next@) == lines(rest@));
                proof {
                    pos = pos + k;
                }
                assert(next@ == s@.skip(pos));
                rest = next;
            },
            None => {
                return r;
            },
        }
    }
    assert(lines(rest@) == Seq::<Seq<char>>::empty());
    assert(r@.map_values(|l: Vec<char>| l@) + Seq::<Seq<char>>::empty() == r@.map_values(
        |l: Vec<char>| l@,
    ));
    r
}

/// Whether `c` separates runs: whitespace when `sep` is `None`, else the
/// character `sep` itself.
pub open spec fn is_sep(c: char, sep: Option<char>) -> bool {
    match sep {
        None => is_ws(c),
        Some(x) => c == x,
    }
}

/// The state of a left-to-right split of `s` at separators: the runs
/// finished so far and the run being read.
pub open spec fn scan_runs(s: Seq<char>, sep: Option<char>) -> (Seq<Seq<char>>, Seq<char>)
    decreases s.len(),
{
    if s.len() == 0 {
        (Seq::empty(), Seq::empty())
    } else {
        let (ws, cur) = scan_runs(s.drop_last(), sep);
        let c = s.last();
        if is_sep(c, sep) {
            if cur.len() > 0 {
                (ws.push(cur), Seq::empty())
            } else {
                (ws, cur)
            }
        } else {
            (ws, cur.push(c))
        }
    }
}

/// The maximal non-empty runs of non-separator characters of `s`, in order.
pub open spec fn runs(s: Seq<char>, sep: Option<char>) -> Seq<Seq<char>> {
    let (ws, cur) = scan_runs(s, sep);
    if cur.len() > 0 {
        ws.push(cur)
    } else {
        ws
    }
}

/// `w` is non-empty and holds no separator.
pub open spec fn clean_run(w: Seq<char>, sep: Option<char>) -> bool {
    w.len() > 0 && forall|i: int| 0 <= i < w.len() ==> !is_sep(#[trigger] w[i], sep)
}

/// The scan's finished runs are clean and the run being read holds no
/// separator.
proof fn lemma_scan_runs_clean(s: Seq<char>, sep: Option<char>)
    ensures
        forall|k: int| 0 <= k < scan_runs(s, sep).0.len() ==> clean_run(#[trigger] scan_runs(s, sep).0[k], sep),
        forall|i: int| 0 <= i < scan_runs(s, sep).1.len() ==> !is_sep(#[trigger] scan_runs(s, sep).1[i], sep),
    decreases s.len(),
{
    if s.len() > 0 {
        lemma_scan_runs_clean(s.drop_last(), sep);
        let (ws, cur) = scan_runs(s.drop_last(), sep);
        if !is_sep(s.last(), sep) {
            let c2 = cur.push(s.last());
            assert forall|i: int| 0 <= i < c2.len() implies !is_sep(#[trigger] c2[i], sep) by {
                if i < cur.len() {
                    assert(c2[i] == cur[i]);
                }
            }
        } else if cur.len() > 0 {
            let w2 = ws.push(cur);
            assert forall|k: int| 0 <= k < w2.len() implies clean_run(#[trigger] w2[k], sep) by {
                if k < ws.len() {
                    assert(w2[k] == ws[k]);
                }
            }
        }
    }
}

/// Every run is non-empty and holds no separator; in particular the words
/// of a text are non-empty and hold no whitespace.
pub proof fn lemma_runs_clean(s: Seq<char>, sep: Option<char>)
    ensures
        forall|k: int| 0 <= k < runs(s, sep).len() ==> clean_run(#[trigger] runs(s, sep)[k], sep),
{
    lemma_scan_runs_clean(s, sep);
    let (ws, cur) = scan_runs(s, sep);
    if cur.len() > 0 {
        let w2 = ws.push(cur);
        assert forall|k: int| 0 <= k < w2.len() implies clean_run(#[trigger] w2[k], sep) by {
            if k < ws.len() {
                assert(w2[k] == ws[k]);
            }
        }
    }
}

/// The whitespace-separated words of `s` (`str::split_whitespace`).
pub open spec fn words(s: Seq<char>) -> Seq<Seq<char>> {
    runs(s, None)
}

/// The views of a vector of character vectors.
pub open spec fn views(v: Seq<Vec<char>>) -> Seq<Seq<char>> {
    v.map_values(|w: Vec<char>| w@)
}

/// Whether `c` separates runs (see `is_sep`).
fn is_separator(c: char, sep: Option<char>) -> (r: bool)
    ensures
        r == is_sep(c, sep),
{
    match sep {
        None => is_whitespace(c),
        Some(x) => c == x,
    }
}

/// The maximal non-empty runs of non-separator characters of `s`.
pub fn runs_of(s: &[char], sep: Option<char>) -> (r: Vec<Vec<char>>)
    ensures
        views(r@) == runs(s@, sep),
{
    let mut ws: Vec<Vec<char>> = Vec::new();
    let mut cur: Vec<char> = Vec::new();
    let mut i: usize = 0;
    assert(s@.take(0) =~= Seq::<char>::empty());
    assert(views(ws@) =~= Seq::<Seq<char>>::empty());
    while i < s.len()
        invariant
            i <= s@.len(),
            (views(ws@), cur@) == scan_runs(s@.take(i as int), sep),
        decreases s@.len() - i,
    {
        let c = s[i];
        assert(s@.take(i + 1).drop_last() == s@.take(i as int));
        let ghost old_ws = ws@;
        if is_separator(c, sep) {
            if cur.len() > 0 {
                ws.push(cur);
                assert(views(ws@) == views(old_ws).push(cur@));
                cur = Vec::new();
                assert(cur@ =~= Seq::<char>::empty());
            }
        } else {
            cur.push(c);
        }
        i = i + 1;
    }
    assert(s@.take(s@.len() as int) == s@);
    if cur.len() > 0 {
        let ghost old_ws = ws@;
        ws.push(cur);
        assert(views(ws@) == views(old_ws).push(cur@));
    }
    ws
}

/// The whitespace-separated words of `s` (`str::split_whitespace`).
pub fn words_of(s: &[char]) -> (r: Vec<Vec<char>>)
    ensures
        views(r@) == words(s@),
{
    runs_of(s, None)
}

/// Whether two character vectors hold the same characters.
pub fn chars_equal(a: &[char], b: &[char]) -> (r: bool)
    ensures
        r == (a@ == b@),
{
    if a.len() != b.len() {
        return false;
    }
    let mut i: usize = 0;
    while i < a.len()
        invariant
            a@.len() == b@.len(),
            i <= a@.len(),
            forall|k: int| 0 <= k < i ==> a@[k] == b@[k],
        decreases a@.len() - i,
    {
        if a[i] != b[i] {
            return false;
        }
        i = i + 1;
    }
    assert(a@ =~= b@);
    true
}

// ---------------------------------------------------------------------------
// Decimal numbers
// ---------------------------------------------------------------------------

/// Whether `c` is an ASCII decimal digit.
pub open spec fn is_digit(c: char) -> bool {
    '0' <= c && c <= '9'
}

/// The value of the decimal digit `c`.
pub open spec fn digit_value(c: char) -> nat {
    (c as int - '0' as int) as nat
}

/// The decimal digit with value `d`.
pub open spec fn digit_char(d: nat) -> char {
    (d + '0' as int) as char
}

/// The decimal representation of `n`, without sign or leading zeros
/// (what `to_string` gives for an unsigned integer).
pub open spec fn decimal(n: nat) -> Seq<char>
    decreases n,
{
    if n < 10 {
        seq![digit_char(n)]
    } else {
        decimal(n / 10).push(digit_char(n % 10))
    }
}

/// Every character of `s` is a decimal digit.
pub open spec fn all_digits(s: Seq<char>) -> bool {
    forall|i: int| 0 <= i < s.len() ==> is_digit(#[trigger] s[i])
}

/// The number that the digits `s` denote.
pub open spec fn digits_value(s: Seq<char>) -> nat
    decreases s.len(),
{
    if s.len() == 0 {
        0
    } else {
        digits_value(s.drop_last()) * 10 + digit_value(s.last())
    }
}

/// The digits of an unsigned number in text: an optional leading `'+'` is
/// not part of them.
pub open spec fn unsigned_digits(s: Seq<char>) -> Seq<char> {
    if s.len() > 0 && s[0] == '+' {
        s.drop_first()
    } else {
        s
    }
}

/// What `str::parse` gives for an unsigned integer type whose largest value
/// is `max`: the value when `s` is an optional `'+'` followed by at least one
/// decimal digit and the value is at most `max`, and nothing otherwise.
pub open spec fn parse_unsigned(s: Seq<char>, max: nat) -> Option<nat> {
    let d = unsigned_digits(s);
    if d.len() > 0 && all_digits(d) && digits_value(d) <= max {
        Some(digits_value(d))
    } else {
        None
    }
}

/// The decimal digit with value `d`.
fn digit(d: u64) -> (c: char)
    requires
        d < 10,
    ensures
        c == digit_char(d as nat),
        is_digit(c),
        digit_value(c) == d,
{
    if d == 0 {
        '0'
    } else if d == 1 {
        '1'
    } else if d == 2 {
        '2'
    } else if d == 3 {
        '3'
    } else if d == 4 {
        '4'
    } else if d == 5 {
        '5'
    } else if d == 6 {
        '6'
    } else if d == 7 {
        '7'
    } else if d == 8 {
        '8'
    } else {
        '9'
    }
}

/// The decimal representation of `n`.
pub fn decimal_chars(n: u64) -> (r: Vec<char>)
    ensures
        r@ == decimal(n as nat),
    decreases n,
{
    if n < 10 {
        let mut r = Vec::new();
        r.push(digit(n));
        assert(r@ == seq![digit_char(n as nat)]);
        r
    } else {
        let mut r = decimal_chars(n / 10);
        r.push(digit(n % 10));
        r
    }
}

/// The decimal representation of `n`, as `to_string` gives it.
pub fn u16_to_string(n: u16) -> (r: String)
    ensures
        r@ == decimal(n as nat),
{
    let v = decimal_chars(n as u64);
    string_of(&v)
}

/// The value of a decimal digit.
fn value_of_digit(c: char) -> (d: u64)
    requires
        is_digit(c),
    ensures
        d == digit_value(c),
        d < 10,
{
    if c == '0' {
        0
    } else if c == '1' {
        1
    } else if c == '2' {
        2
    } else if c == '3' {
        3
    } else if c == '4' {
        4
    } else if c == '5' {
        5
    } else if c == '6' {
        6
    } else if c == '7' {
        7
    } else if c == '8' {
        8
    } else {
        9
    }
}

/// The value of an unsigned number written in `s`, at most `max`
/// (`str::parse` for an unsigned type whose largest value is `max`).
pub fn parse_unsigned_chars(s: &[char], max: u64) -> (r: Option<u64>)
    ensures
        r matches Some(v) ==> parse_unsigned(s@, max as nat) == Some(v as nat),
        r is None ==> parse_unsigned(s@, max as nat) is None,
{
    let start: usize = if s.len() > 0 && s[0] == '+' {
        1
    } else {
        0
    };
    let ghost d = unsigned_digits(s@);
    assert(d == s@.skip(start as int));
    if start == s.len() {
        return None;
    }
    let mut acc: u64 = 0;
    let mut over = false;
    let mut i: usize = start;
    assert(d.take(0) =~= Seq::<char>::empty());
    while i < s.len()
        invariant
            start <= i <= s@.len(),
            d == s@.skip(start as int),
            d == unsigned_digits(s@),
            !over ==> acc == digits_value(d.take(i - start)) && acc <= max,
            over ==> digits_value(d.take(i - start)) > max,
            forall|k: int| 0 <= k < i - start ==> is_digit(#[trigger] d[k]),
        decreases s@.len() - i,
    {
        let c = s[i];
        if !('0' <= c && c <= '9') {
            assert(!is_digit(d[i - start]));
            assert(!all_digits(d));
            return None;
        }
        let dv = value_of_digit(c);
        let ghost j = i - start;
        assert(d.take(j + 1).drop_last() == d.take(j));
        assert(d.take(j + 1).last() == c);
        assert(digits_value(d.take(j + 1)) == digits_value(d.take(j)) * 10 + dv);
        if !over {
            match acc.checked_mul(10) {
                Some(m) => match m.checked_add(dv) {
                    Some(v) => {
                        if v > max {
                            over = true;
                        } else {
                            acc = v;
                        }
                    },
                    None => {
                        over = true;
                    },
                },
                None => {
                    over = true;
                },
            }
        }
        i = i + 1;
    }
    assert(d.take(d.len() as int) == d);
    if over {
        None
    } else {
        Some(acc)
    }
}

/// Reading back the decimal representation of `n` gives `n`.
pub proof fn law_parse_decimal(n: nat, max: nat)
    requires
        n <= max,
    ensures
        parse_unsigned(decimal(n), max) == Some(n),
{
    lemma_decimal_digits(n);
}

/// The decimal representation is a non-empty run of digits denoting `n`.
pub proof fn lemma_decimal_digits(n: nat)
    ensures
        decimal(n).len() > 0,
        all_digits(decimal(n)),
        digits_value(decimal(n)) == n,
        unsigned_digits(decimal(n)) == decimal(n),
    decreases n,
{
    if n < 10 {
        assert(digits_value(decimal(n).drop_last()) == 0);
    } else {
        lemma_decimal_digits(n / 10);
        let d = decimal(n / 10);
        assert(decimal(n).drop_last() == d);
        assert forall|i: int| 0 <= i < decimal(n).len() implies is_digit(#[trigger] decimal(n)[i]) by {
            if i < d.len() {
                assert(decimal(n)[i] == d[i]);
            }
        }
    }
    assert(is_digit(decimal(n)[0]));
}

// ---------------------------------------------------------------------------
// Case conversion, truncation, leading characters
// ---------------------------------------------------------------------------

/// What `str::to_lowercase` gives for a text: the Unicode lowercase mapping,
/// character by character, with its context rules.
pub uninterp spec fn lowercase(s: Seq<char>) -> Seq<char>;

/// `str::to_lowercase`: the lowercase equivalent of `s`.
#[verifier::external_body]
pub(crate) fn to_lowercase(s: &str) -> (r: String)
    ensures
        r@ == lowercase(s@),
{
    s.to_lowercase()
}

/// `s` cut to at most `max` characters: a longer text keeps its first
/// `max - 1` characters followed by an ellipsis.
pub open spec fn truncated(s: Seq<char>, max: nat) -> Seq<char> {
    if s.len() <= max {
        s
    } else if max == 0 {
        seq!['\u{2026}']
    } else {
        s.take(max - 1).push('\u{2026}')
    }
}

/// `s` cut to at most `max` characters, with an ellipsis when cut.
pub fn truncate(s: &str, max: usize) -> (r: String)
    ensures
        r@ == truncated(s@, max as nat),
{
    let v = chars_of(s);
    if v.len() <= max {
        string_of(&v)
    } else {
        let keep: usize = if max == 0 {
            0
        } else {
            max - 1
        };
        let mut t = sub_chars(&v, 0, keep);
        t.push('\u{2026}');
        assert(t@ == truncated(s@, max as nat));
        string_of(&t)
    }
}

/// Number of leading characters of `s` equal to `c`.
pub open spec fn lead_count(s: Seq<char>, c: char) -> nat
    decreases s.len(),
{
    if s.len() > 0 && s[0] == c {
        1 + lead_count(s.drop_first(), c)
    } else {
        0
    }
}

/// `s` without the characters `c` at its start (`str::trim_start_matches`).
pub open spec fn trim_start_char(s: Seq<char>, c: char) -> Seq<char> {
    s.skip(lead_count(s, c) as int)
}

/// Leading characters past `i` are counted by `lead_count`.
proof fn lemma_lead_count_step(s: Seq<char>, c: char, i: int)
    requires
        0 <= i <= lead_count(s, c),
        lead_count(s, c) <= s.len(),
    ensures
        i + lead_count(s.skip(i), c) == lead_count(s, c),
    decreases i,
{
    if i > 0 {
        assert(s.skip(i) == s.drop_first().skip(i - 1));
        lemma_lead_count_bound(s.drop_first(), c);
        lemma_lead_count_step(s.drop_first(), c, i - 1);
    } else {
        assert(s.skip(0) == s);
    }
}

/// `lead_count` is at most the length.
proof fn lemma_lead_count_bound(s: Seq<char>, c: char)
    ensures
        lead_count(s, c) <= s.len(),
    decreases s.len(),
{
    if s.len() > 0 && s[0] == c {
        lemma_lead_count_bound(s.drop_first(), c);
    }
}

/// `s` without the characters `c` at its start (`str::trim_start_matches`).
pub fn trim_start_char_chars(s: &[char], c: char) -> (r: Vec<char>)
    ensures
        r@ == trim_start_char(s@, c),
{
    proof {
        lemma_lead_count_bound(s@, c);
    }
    let mut i: usize = 0;
    while i < s.len() && s[i] == c
        invariant
            i <= s@.len(),
            i <= lead_count(s@, c),
            lead_count(s@, c) <= s@.len(),
        decreases s@.len() - i,
    {
        proof {
            lemma_lead_count_step(s@, c, i as int);
            assert(s@.skip(i as int)[0] == s@[i as int]);
        }
        i = i + 1;
    }
    proof {
        lemma_lead_count_step(s@, c, i as int);
        if i < s@.len() {
            assert(s@.skip(i as int)[0] == s@[i as int]);
        }
    }
    sub_chars(s, i, s.len())
}

} // verus!
