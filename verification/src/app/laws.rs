//! Properties of the steps that hold for every state.
use vstd::prelude::*;

use crate::app::{
    add_new_paths, all_mount_point_paths, async_step, bookmark_matches, cache_index, cache_with,
    cursor_at_end, fresh_usage, has_path, key_step, lemma_name_index_from, mount_matches,
    moved_cursor, other_paths, remove_mount_point_step, removal_step, RemovalEventView, RemovalStep, mount_points_of_bookmarks, mount_points_of_mounts, paths_matching, query_matches, search_key, shown_bookmarks, shown_count, shown_mount_points,
    shown_mounts, submit_step, usage_ttl, well_formed, AppView, AsyncResultView, EffectView, Key,
    Mode, SaveReasonView, Tab,
};
use crate::bookmark::{protocol_name, BookmarkView};
use crate::mount::{DiskUsage, MountEntryView};
use crate::path::same_path;
use crate::text::{contains, lowercase, occurs_at};
use crate::ui::{add_new_rows, bookmark_row, mount_point_rows_of, mount_row, row_paths, rows_matching, RowView};

verus! {

/// No two bookmarks have the same name.
pub open spec fn names_unique(bs: Seq<BookmarkView>) -> bool {
    forall|i: int, j: int| 0 <= i < j < bs.len() ==> bs[i].name != bs[j].name
}

/// No two paths of `ps` name the same path.
pub open spec fn distinct_paths(ps: Seq<Seq<char>>) -> bool {
    forall|i: int, j: int| 0 <= i < j < ps.len() ==> !same_path(#[trigger] ps[i], #[trigger] ps[j])
}

/// The effect starts a mount or an unmount.
pub open spec fn starts_operation(e: Option<EffectView>) -> bool {
    e matches Some(x) && (x is Mount || x is Unmount)
}

/// A key release or repeat changes nothing and asks for nothing.
pub proof fn law_release_does_nothing(v: AppView, key: Key)
    ensures
        key_step(v, key, false) == (v, Option::<EffectView>::None),
{
}

/// Whenever items are shown, moving the cursor up or down or to the end
/// leaves it on a shown item.
pub proof fn law_cursor_stays_on_shown_items(v: AppView, delta: i32)
    requires
        shown_count(v) > 0,
    ensures
        moved_cursor(v, delta).cursor < shown_count(v),
        cursor_at_end(v).cursor < shown_count(v),
{
}

/// While a mount or unmount is in progress, no key starts another one;
/// a key that starts one marks an operation as in progress.
pub proof fn law_one_operation_at_a_time(v: AppView, key: Key, press: bool)
    ensures
        v.mount_pending ==> !starts_operation(key_step(v, key, press).1),
        starts_operation(key_step(v, key, press).1) ==> key_step(v, key, press).0.mount_pending,
{
}

/// The outcome of a mount or unmount ends the operation in progress.
pub proof fn law_outcome_ends_operation(v: AppView, r: AsyncResultView)
    ensures
        (r is Mount || r is Unmount) ==> !async_step(v, r).0.mount_pending,
{
}

/// Tab then BackTab in normal mode returns to the tab where it started,
/// and so does BackTab then Tab; three Tabs go round all the tabs.
pub proof fn law_tab_keys_undo(v: AppView)
    requires
        v.mode == Mode::Normal,
    ensures
        key_step(key_step(v, Key::Tab, true).0, Key::BackTab, true).0.tab == v.tab,
        key_step(key_step(v, Key::BackTab, true).0, Key::Tab, true).0.tab == v.tab,
        key_step(key_step(key_step(v, Key::Tab, true).0, Key::Tab, true).0, Key::Tab, true).0.tab
            == v.tab,
{
    crate::app::form::law_tab_cycle(v.tab);
}

/// In search mode, typing a character and then Backspace gives back the
/// query; Esc leaves search mode with an empty query.
pub proof fn law_search_typing_undone(v: AppView, c: char)
    requires
        v.mode == Mode::Search,
    ensures
        search_key(search_key(v, Key::Char(c)), Key::Backspace).search_query == v.search_query,
        search_key(v, Key::Esc).search_query.len() == 0,
        search_key(v, Key::Esc).mode == Mode::Normal,
{
    assert(v.search_query.push(c).drop_last() == v.search_query);
}

/// In form mode, typing a character and then Backspace gives back the
/// field; Tab then BackTab returns to the same field.
pub proof fn law_form_typing_undone(v: AppView, c: char)
    requires
        v.mode == Mode::Form,
        well_formed(v),
        v.form is Some,
    ensures
        key_step(key_step(v, Key::Char(c), true).0, Key::Backspace, true).0.form == v.form,
        key_step(key_step(v, Key::Tab, true).0, Key::BackTab, true).0.form == v.form,
{
    let f = v.form->0;
    let i = f.cursor_field as int;
    let typed = f.fields.update(i, f.fields[i].push(c));
    assert(typed[i].drop_last() == f.fields[i]);
    assert(typed.update(i, typed[i].drop_last()) =~= f.fields);
}

/// Submitting the form never gives two bookmarks the same name when it
/// adds one: a bookmark whose name is taken is refused.
pub proof fn law_add_keeps_names_unique(v: AppView)
    requires
        names_unique(v.bookmarks),
        v.form matches Some(f) && !f.editing,
    ensures
        names_unique(submit_step(v).0.bookmarks),
{
    let f = v.form->0;
    match crate::app::form_bookmark(f.fields) {
        Some(b) => {
            lemma_name_index_from(v.bookmarks, b.name, 0);
        },
        None => {},
    }
}

/// Adding the new paths of `items` to paths that are all different keeps
/// them all different.
pub proof fn law_add_new_paths_distinct(acc: Seq<Seq<char>>, items: Seq<Seq<char>>)
    requires
        distinct_paths(acc),
    ensures
        distinct_paths(add_new_paths(acc, items)),
    decreases items.len(),
{
    if items.len() > 0 {
        law_add_new_paths_distinct(acc, items.drop_last());
        let a = add_new_paths(acc, items.drop_last());
        if !has_path(a, items.last()) {
            let b = a.push(items.last());
            assert forall|i: int, j: int| 0 <= i < j < b.len() implies !same_path(
                #[trigger] b[i],
                #[trigger] b[j],
            ) by {
                if j == b.len() - 1 {
                    assert(b[i] == a[i]);
                    if same_path(b[i], b[j]) {
                        assert(same_path(a[i], items.last()));
                    }
                } else {
                    assert(b[i] == a[i] && b[j] == a[j]);
                }
            }
        }
    }
}

/// The mount points tab lists each path once.
pub proof fn law_mount_points_listed_once(v: AppView)
    ensures
        distinct_paths(all_mount_point_paths(v)),
{
    law_add_new_paths_distinct(Seq::empty(), crate::app::mount_points_of_mounts(v.mounts));
    law_add_new_paths_distinct(
        add_new_paths(Seq::empty(), crate::app::mount_points_of_mounts(v.mounts)),
        crate::app::mount_points_of_bookmarks(v.bookmarks),
    );
    law_add_new_paths_distinct(
        add_new_paths(
            add_new_paths(Seq::empty(), crate::app::mount_points_of_mounts(v.mounts)),
            crate::app::mount_points_of_bookmarks(v.bookmarks),
        ),
        v.mount_points,
    );
}

/// The first cache position for a path depends only on the cached paths.
proof fn lemma_cache_index_same_paths(
    c: Seq<(Seq<char>, DiskUsage, u64)>,
    d: Seq<(Seq<char>, DiskUsage, u64)>,
    p: Seq<char>,
)
    requires
        c.len() == d.len(),
        forall|i: int| 0 <= i < c.len() ==> (#[trigger] c[i]).0 == d[i].0,
    ensures
        cache_index(c, p) == cache_index(d, p),
    decreases c.len(),
{
    if c.len() > 0 {
        lemma_cache_index_same_paths(c.drop_last(), d.drop_last(), p);
        assert(c.last().0 == d.last().0);
    }
}

/// A disk usage just recorded for a path is what the cache gives for that
/// path until it is 30 seconds old.
pub proof fn law_recorded_usage_is_fresh(v: AppView, p: Seq<char>, u: DiskUsage, now: u64, later: u64)
    requires
        now <= later,
        later - now < usage_ttl(),
    ensures
        fresh_usage(
            AppView { disk_usage_cache: cache_with(v.disk_usage_cache, p, u, now), ..v },
            p,
            later,
        ) == Some(u),
{
    let c = v.disk_usage_cache;
    crate::app::lemma_cache_index_prefix(c, p, 0);
    match cache_index(c, p) {
        Some(i) => {
            let d = c.update(i, (c[i].0, u, now));
            lemma_cache_index_same_paths(d, c, p);
        },
        None => {
            let d = c.push((p, u, now));
            assert(d.drop_last() == c);
            assert(same_path(p, p));
        },
    }
}

/// Deleting removes exactly one bookmark, one with the name of the shown
/// bookmark under the cursor, and asks to save the rest.
pub proof fn law_delete_removes_one(v: AppView)
    ensures
        crate::app::delete_step(v).1 matches Some(e) ==> {
            &&& e matches EffectView::SaveBookmarks(SaveReasonView::Deleted(name))
            &&& crate::app::delete_step(v).0.bookmarks.len() == v.bookmarks.len() - 1
            &&& exists|i: int|
                0 <= i < v.bookmarks.len() && v.bookmarks[i].name == name
                    && crate::app::delete_step(v).0.bookmarks == v.bookmarks.remove(i)
        },
{
    let shown = crate::app::shown_bookmarks(v);
    if v.tab == Tab::Bookmarks && v.cursor < shown.len() {
        let name = shown[v.cursor as int].name;
        lemma_name_index_from(v.bookmarks, name, 0);
    }
}

/// A mount point that a current mount uses is never removed.
pub proof fn law_mount_point_in_use_kept(v: AppView)
    ensures
        crate::app::remove_mount_point_step(v).1 matches Some(
            EffectView::RemoveMountPoint { path, .. },
        ) ==> !has_path(crate::app::mount_points_of_mounts(v.mounts), path),
{
}

/// Adding new paths keeps the paths already there and ends with every
/// added path present (as the same path).
pub proof fn law_add_new_paths_covers(acc: Seq<Seq<char>>, items: Seq<Seq<char>>)
    ensures
        add_new_paths(acc, items).len() >= acc.len(),
        forall|i: int| 0 <= i < acc.len() ==> add_new_paths(acc, items)[i] == acc[i],
        forall|k: int| 0 <= k < items.len() ==> has_path(add_new_paths(acc, items), #[trigger] items[k]),
    decreases items.len(),
{
    if items.len() > 0 {
        let rest = items.drop_last();
        law_add_new_paths_covers(acc, rest);
        let a = add_new_paths(acc, rest);
        assert forall|k: int| 0 <= k < items.len() implies has_path(add_new_paths(acc, items), #[trigger] items[k]) by {
            if k < items.len() - 1 {
                assert(items[k] == rest[k]);
                let j = choose|j: int| 0 <= j < a.len() && same_path(#[trigger] a[j], rest[k]);
                assert(add_new_paths(acc, items)[j] == a[j]);
            } else if !has_path(a, items.last()) {
                let b = a.push(items.last());
                assert(b[a.len() as int] == items.last());
                assert(same_path(b[a.len() as int], items[k]));
            }
        }
    }
}

/// At start, every mount and every bookmark's mount point is remembered.
pub proof fn law_start_remembers_mount_points(
    path: Seq<char>,
    bookmarks: Seq<BookmarkView>,
    mounts: Seq<crate::mount::MountEntryView>,
)
    ensures
        forall|k: int| 0 <= k < mounts.len() ==> has_path(
            crate::app::initial_state(path, bookmarks, mounts).mount_points,
            #[trigger] mounts[k].mount_point,
        ),
        forall|k: int| 0 <= k < bookmarks.len() ==> has_path(
            crate::app::initial_state(path, bookmarks, mounts).mount_points,
            #[trigger] bookmarks[k].mount_point,
        ),
{
    let mps = crate::app::mount_points_of_mounts(mounts);
    let bps = crate::app::mount_points_of_bookmarks(bookmarks);
    law_add_new_paths_covers(mps, bps);
    let all = add_new_paths(mps, bps);
    assert forall|k: int| 0 <= k < mounts.len() implies has_path(all, #[trigger] mounts[k].mount_point) by {
        assert(all[k] == mps[k]);
        assert(same_path(all[k], mounts[k].mount_point));
    }
    assert forall|k: int| 0 <= k < bookmarks.len() implies has_path(all, #[trigger] bookmarks[k].mount_point) by {
        assert(bps[k] == bookmarks[k].mount_point);
    }
}

/// With an empty query every bookmark is shown; with a query, every shown
/// bookmark is a bookmark that matches it.
pub proof fn law_shown_bookmarks_match(v: AppView)
    ensures
        v.search_query.len() == 0 ==> crate::app::shown_bookmarks(v) == v.bookmarks,
        v.search_query.len() > 0 ==> forall|i: int| 0 <= i < crate::app::shown_bookmarks(v).len() ==> v.bookmarks.contains(
            #[trigger] crate::app::shown_bookmarks(v)[i],
        ) && crate::app::bookmark_matches(crate::app::shown_bookmarks(v)[i], v.search_query),
{
    if v.search_query.len() > 0 {
        let pred = |b: BookmarkView| crate::app::bookmark_matches(b, v.search_query);
        assert forall|i: int| 0 <= i < crate::app::shown_bookmarks(v).len() implies v.bookmarks.contains(
            #[trigger] crate::app::shown_bookmarks(v)[i],
        ) && crate::app::bookmark_matches(crate::app::shown_bookmarks(v)[i], v.search_query) by {
            v.bookmarks.lemma_filter_pred(pred, i);
            lemma_filter_subset(v.bookmarks, pred, i);
        }
    }
}

/// An element of a filtered sequence is an element of the sequence.
proof fn lemma_filter_subset<A>(s: Seq<A>, pred: spec_fn(A) -> bool, i: int)
    requires
        0 <= i < s.filter(pred).len(),
    ensures
        s.contains(s.filter(pred)[i]),
    decreases s.len(),
{
    reveal(Seq::filter);
    if s.len() > 0 {
        let rest = s.drop_last().filter(pred);
        if i < rest.len() {
            lemma_filter_subset(s.drop_last(), pred, i);
            let j = choose|j: int| 0 <= j < s.drop_last().len() && s.drop_last()[j] == rest[i];
            assert(s[j] == s.drop_last()[j]);
        } else {
            assert(s[s.len() - 1] == s.filter(pred)[i]);
        }
    }
}

/// A text that contains `b`, where `b` contains `c`, contains `c`.
proof fn lemma_contains_trans(a: Seq<char>, b: Seq<char>, c: Seq<char>)
    requires
        contains(a, b),
        contains(b, c),
    ensures
        contains(a, c),
{
    let i = choose|i: int| occurs_at(a, b, i);
    let j = choose|j: int| occurs_at(b, c, j);
    assert(a.subrange(i + j, i + j + c.len()) =~= b.subrange(j, j + c.len()));
    assert(occurs_at(a, c, i + j));
}

/// Filtering by `p` and then by a narrower `q` is filtering by `q`.
proof fn lemma_filter_narrower<A>(s: Seq<A>, p: spec_fn(A) -> bool, q: spec_fn(A) -> bool)
    requires
        forall|x: A| #[trigger] q(x) ==> p(x),
    ensures
        s.filter(p).filter(q) == s.filter(q),
    decreases s.len(),
{
    reveal(Seq::filter);
    if s.len() > 0 {
        lemma_filter_narrower(s.drop_last(), p, q);
        let rp = s.drop_last().filter(p);
        if p(s.last()) {
            assert(s.filter(p) == rp.push(s.last()));
            assert(rp.push(s.last()).drop_last() =~= rp);
            assert(rp.push(s.last()).last() == s.last());
        }
    }
}

/// Lengthening the search query only narrows what is shown: when the old
/// query is empty (everything is shown), or the new query `q`, lowercased,
/// contains the old one lowercased, each list shown under `q` is the list
/// shown under the old query, filtered by `q`.
pub proof fn law_longer_query_narrows(v: AppView, q: Seq<char>)
    requires
        q.len() > 0,
        v.search_query.len() == 0 || contains(lowercase(q), lowercase(v.search_query)),
    ensures
        shown_mounts(AppView { search_query: q, ..v }) == shown_mounts(v).filter(
            |m: MountEntryView| mount_matches(m, q),
        ),
        shown_bookmarks(AppView { search_query: q, ..v }) == shown_bookmarks(v).filter(
            |b: BookmarkView| bookmark_matches(b, q),
        ),
        shown_mount_points(AppView { search_query: q, ..v }) == shown_mount_points(v).filter(
            |p: Seq<char>| query_matches(p, q),
        ),
{
    let old_q = v.search_query;
    if old_q.len() > 0 {
        assert forall|f: Seq<char>| query_matches(f, q) implies query_matches(f, old_q) by {
            lemma_contains_trans(lowercase(f), lowercase(q), lowercase(old_q));
        }
        let pm = |m: MountEntryView| mount_matches(m, old_q);
        let qm = |m: MountEntryView| mount_matches(m, q);
        assert forall|m: MountEntryView| #[trigger] qm(m) implies pm(m) by {
            if query_matches(m.device, q) {
                assert(query_matches(m.device, old_q));
            } else if query_matches(m.mount_point, q) {
                assert(query_matches(m.mount_point, old_q));
            } else {
                assert(query_matches(m.fs_type, old_q));
            }
        }
        lemma_filter_narrower(v.mounts, pm, qm);
        let pb = |b: BookmarkView| bookmark_matches(b, old_q);
        let qb = |b: BookmarkView| bookmark_matches(b, q);
        assert forall|b: BookmarkView| #[trigger] qb(b) implies pb(b) by {
            if query_matches(b.name, q) {
                assert(query_matches(b.name, old_q));
            } else if query_matches(b.host, q) {
                assert(query_matches(b.host, old_q));
            } else {
                assert(query_matches(protocol_name(b.protocol), old_q));
            }
        }
        lemma_filter_narrower(v.bookmarks, pb, qb);
        let pp = |p: Seq<char>| query_matches(p, old_q);
        let qp = |p: Seq<char>| query_matches(p, q);
        assert forall|p: Seq<char>| #[trigger] qp(p) implies pp(p) by {
            assert(query_matches(p, old_q));
        }
        lemma_filter_narrower(all_mount_point_paths(v), pp, qp);
    }
}

/// The paths of rows added without repeats are the paths added without
/// repeats.
proof fn lemma_row_paths_add_new(acc: Seq<RowView>, items: Seq<RowView>)
    ensures
        row_paths(add_new_rows(acc, items)) == add_new_paths(row_paths(acc), row_paths(items)),
    decreases items.len(),
{
    if items.len() > 0 {
        lemma_row_paths_add_new(acc, items.drop_last());
        assert(row_paths(items.drop_last()) =~= row_paths(items).drop_last());
        let a = add_new_rows(acc, items.drop_last());
        assert(row_paths(a.push(items.last())) =~= row_paths(a).push(items.last().path));
    }
}

/// Adding paths that are all present already adds nothing.
proof fn lemma_add_present_paths(acc: Seq<Seq<char>>, items: Seq<Seq<char>>)
    requires
        forall|k: int| 0 <= k < items.len() ==> has_path(acc, #[trigger] items[k]),
    ensures
        add_new_paths(acc, items) == acc,
    decreases items.len(),
{
    if items.len() > 0 {
        lemma_add_present_paths(acc, items.drop_last());
        assert(has_path(acc, items[items.len() - 1]));
    }
}

/// The paths of the rows whose path matches are the matching paths.
proof fn lemma_row_paths_filter(rows: Seq<RowView>, query: Seq<char>)
    ensures
        row_paths(rows_matching(rows, query)) == paths_matching(row_paths(rows), query),
    decreases rows.len(),
{
    reveal(Seq::filter);
    if rows.len() > 0 {
        lemma_row_paths_filter(rows.drop_last(), query);
        assert(row_paths(rows.drop_last()) =~= row_paths(rows).drop_last());
        let r = rows_matching(rows.drop_last(), query);
        assert(row_paths(r.push(rows.last())) =~= row_paths(r).push(rows.last().path));
    }
}

/// When every remembered mount point is the mount point of a current mount
/// or of a bookmark, the mount points tab's rows, once the search query
/// applies, have exactly the paths that `filtered_mount_point_paths` gives.
pub proof fn law_rows_show_filtered_paths(v: AppView)
    requires
        forall|k: int| 0 <= k < v.mount_points.len() ==> has_path(
            mount_points_of_mounts(v.mounts),
            #[trigger] v.mount_points[k],
        ) || has_path(mount_points_of_bookmarks(v.bookmarks), v.mount_points[k]),
    ensures
        row_paths(
            if v.search_query.len() == 0 {
                mount_point_rows_of(v)
            } else {
                rows_matching(mount_point_rows_of(v), v.search_query)
            },
        ) == shown_mount_points(v),
{
    let mrows = v.mounts.map_values(|m: MountEntryView| mount_row(m));
    let brows = v.bookmarks.map_values(|b: BookmarkView| bookmark_row(b));
    let mps = mount_points_of_mounts(v.mounts);
    let bps = mount_points_of_bookmarks(v.bookmarks);
    assert(row_paths(mrows) =~= mps);
    assert(row_paths(brows) =~= bps);
    assert(row_paths(Seq::<RowView>::empty()) =~= Seq::<Seq<char>>::empty());
    lemma_row_paths_add_new(Seq::empty(), mrows);
    lemma_row_paths_add_new(add_new_rows(Seq::empty(), mrows), brows);
    let a = add_new_paths(Seq::empty(), mps);
    let b = add_new_paths(a, bps);
    assert(row_paths(mount_point_rows_of(v)) == b);
    law_add_new_paths_covers(Seq::empty(), mps);
    law_add_new_paths_covers(a, bps);
    assert forall|k: int| 0 <= k < v.mount_points.len() implies has_path(b, #[trigger] v.mount_points[k]) by {
        let p = v.mount_points[k];
        if has_path(mps, p) {
            let i = choose|i: int| 0 <= i < mps.len() && same_path(#[trigger] mps[i], p);
            assert(has_path(a, mps[i]));
            let j = choose|j: int| 0 <= j < a.len() && same_path(#[trigger] a[j], mps[i]);
            assert(b[j] == a[j]);
            assert(same_path(b[j], p));
        } else {
            let i = choose|i: int| 0 <= i < bps.len() && same_path(#[trigger] bps[i], p);
            assert(has_path(b, bps[i]));
            let j = choose|j: int| 0 <= j < b.len() && same_path(#[trigger] b[j], bps[i]);
            assert(same_path(b[j], p));
        }
    }
    lemma_add_present_paths(b, v.mount_points);
    assert(all_mount_point_paths(v) == b);
    if v.search_query.len() > 0 {
        lemma_row_paths_filter(mount_point_rows_of(v), v.search_query);
    }
}

/// Removing a mount point directory goes step by step: it starts only for
/// the path under the cursor that no current mount uses, asks to read the
/// directory only once it is known to exist, asks to remove it only once it
/// was read as empty, and forgets the path only once it was removed. No step
/// changes the mounts, the bookmarks, the tab or the mode.
pub proof fn law_removal_goes_step_by_step(v: AppView, path: Seq<char>, listed: usize, e: RemovalEventView)
    ensures
        remove_mount_point_step(v).1 matches Some(EffectView::RemoveMountPoint { path: p, step, .. })
            ==> step == RemovalStep::CheckExists && v.cursor < shown_mount_points(v).len() && p
            == shown_mount_points(v)[v.cursor as int] && !has_path(mount_points_of_mounts(v.mounts), p),
        remove_mount_point_step(v).0.mount_points == v.mount_points,
        removal_step(v, path, listed, e).1 matches Some(EffectView::RemoveMountPoint { path: p, step, .. })
            ==> p == path && (step == RemovalStep::ReadDir && e == RemovalEventView::Exists(true) || step
            == RemovalStep::RemoveDir && e == RemovalEventView::Listed(Ok(false))),
        removal_step(v, path, listed, e).0.mount_points != v.mount_points ==> (e matches RemovalEventView::Removed(Ok(_))),
        removal_step(v, path, listed, e).0.mount_points != v.mount_points ==> removal_step(v, path, listed, e).0.mount_points
            == other_paths(v.mount_points, path),
        removal_step(v, path, listed, e).0.mounts == v.mounts,
        removal_step(v, path, listed, e).0.bookmarks == v.bookmarks,
        removal_step(v, path, listed, e).0.tab == v.tab,
        removal_step(v, path, listed, e).0.mode == v.mode,
{
}

} // verus!
