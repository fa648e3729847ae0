//! What the search shows and which item an action takes: every action on
//! the current list takes the item the user sees under the cursor, among
//! the items that the search query keeps.
use vstd::prelude::*;

use crate::app::{
    delete_step, key_step, mount_step, shown_bookmarks, shown_mount_points, shown_mounts,
    unmount_step, all_mount_point_paths, AppView, EffectView, Key, Mode, SaveReasonView,
    StatusKind, Tab,
};
use crate::app::{add_new_paths, has_path, lemma_name_index_from, mount_points_of_bookmarks, mount_points_of_mounts};
use crate::app::laws::{distinct_paths, law_add_new_paths_covers, law_mount_points_listed_once};
use crate::path::same_path;
use crate::bookmark::{protocol_name, BookmarkView};
use crate::mount::MountEntryView;
use crate::text::{contains, lowercase};

verus! {

/// A text field matches the query when, both lowercased, the field contains
/// the query.
pub open spec fn field_has(field: Seq<char>, query: Seq<char>) -> bool {
    contains(lowercase(field), lowercase(query))
}

/// The search keeps, in order, the mounts whose device, mount point or
/// filesystem type contains the query (ignoring case), and every mount for
/// an empty query; a mount is shown exactly when it is a mount that matches
/// in one of these three fields.
pub proof fn law_search_mounts_by_fields(v: AppView, m: MountEntryView)
    ensures
        v.search_query.len() == 0 ==> shown_mounts(v) == v.mounts,
        v.search_query.len() > 0 ==> shown_mounts(v) == v.mounts.filter(
            |x: MountEntryView|
                field_has(x.device, v.search_query) || field_has(x.mount_point, v.search_query)
                    || field_has(x.fs_type, v.search_query),
        ),
        v.search_query.len() > 0 ==> (shown_mounts(v).contains(m) <==> v.mounts.contains(m) && (
        field_has(m.device, v.search_query) || field_has(m.mount_point, v.search_query)
            || field_has(m.fs_type, v.search_query))),
{
    if v.search_query.len() > 0 {
        let q = v.search_query;
        let pred = |x: MountEntryView|
            field_has(x.device, q) || field_has(x.mount_point, q) || field_has(x.fs_type, q);
        let used = |x: MountEntryView| crate::app::mount_matches(x, q);
        assert(used =~= pred);
        if shown_mounts(v).contains(m) {
            v.mounts.lemma_filter_contains_rev(pred, m);
            let i = choose|i: int| 0 <= i < shown_mounts(v).len() && shown_mounts(v)[i] == m;
            v.mounts.lemma_filter_pred(pred, i);
        }
        if v.mounts.contains(m) && pred(m) {
            let i = choose|i: int| 0 <= i < v.mounts.len() && v.mounts[i] == m;
            v.mounts.lemma_filter_contains(pred, i);
        }
    }
}

/// The search keeps, in order, the bookmarks whose name, host or protocol
/// contains the query (ignoring case), and every bookmark for an empty
/// query; a bookmark is shown exactly when it is a bookmark that matches in
/// one of these three fields.
pub proof fn law_search_bookmarks_by_fields(v: AppView, b: BookmarkView)
    ensures
        v.search_query.len() == 0 ==> shown_bookmarks(v) == v.bookmarks,
        v.search_query.len() > 0 ==> shown_bookmarks(v) == v.bookmarks.filter(
            |x: BookmarkView|
                field_has(x.name, v.search_query) || field_has(x.host, v.search_query) || field_has(
                    protocol_name(x.protocol),
                    v.search_query,
                ),
        ),
        v.search_query.len() > 0 ==> (shown_bookmarks(v).contains(b) <==> v.bookmarks.contains(b)
            && (field_has(b.name, v.search_query) || field_has(b.host, v.search_query) || field_has(
            protocol_name(b.protocol),
            v.search_query,
        ))),
{
    if v.search_query.len() > 0 {
        let q = v.search_query;
        let pred = |x: BookmarkView|
            field_has(x.name, q) || field_has(x.host, q) || field_has(protocol_name(x.protocol), q);
        let used = |x: BookmarkView| crate::app::bookmark_matches(x, q);
        assert(used =~= pred);
        if shown_bookmarks(v).contains(b) {
            v.bookmarks.lemma_filter_contains_rev(pred, b);
            let i = choose|i: int| 0 <= i < shown_bookmarks(v).len() && shown_bookmarks(v)[i] == b;
            v.bookmarks.lemma_filter_pred(pred, i);
        }
        if v.bookmarks.contains(b) && pred(b) {
            let i = choose|i: int| 0 <= i < v.bookmarks.len() && v.bookmarks[i] == b;
            v.bookmarks.lemma_filter_contains(pred, i);
        }
    }
}

/// The search keeps, in order, the known mount points whose path contains
/// the query (ignoring case), and all of them for an empty query.
pub proof fn law_search_mount_points_by_path(v: AppView)
    ensures
        v.search_query.len() == 0 ==> shown_mount_points(v) == all_mount_point_paths(v),
        v.search_query.len() > 0 ==> shown_mount_points(v) == all_mount_point_paths(v).filter(
            |p: Seq<char>| field_has(p, v.search_query),
        ),
{
    if v.search_query.len() > 0 {
        let q = v.search_query;
        let pred = |p: Seq<char>| field_has(p, q);
        let used = |p: Seq<char>| crate::app::query_matches(p, q);
        assert(used =~= pred);
    }
}

/// Unmounting takes the mount shown under the cursor: a started unmount is
/// that of the shown mount at the cursor, with no other operation running,
/// and with the cursor on a shown mount and nothing running, one starts for
/// it and the status says so. Nothing else is ever asked for.
pub proof fn law_unmount_takes_shown_mount(v: AppView)
    ensures
        unmount_step(v).1 matches Some(e) ==> (e matches EffectView::Unmount(p) && !v.mount_pending
            && v.cursor < shown_mounts(v).len() && p == shown_mounts(v)[v.cursor as int].mount_point),
        !v.mount_pending && v.cursor < shown_mounts(v).len() ==> {
            let p = shown_mounts(v)[v.cursor as int].mount_point;
            &&& unmount_step(v).1 == Some(EffectView::Unmount(p))
            &&& unmount_step(v).0.mount_pending
            &&& unmount_step(v).0.status == Some(("Unmounting "@ + p + "..."@, StatusKind::Info))
        },
        unmount_step(v).0.mounts == v.mounts && unmount_step(v).0.bookmarks == v.bookmarks,
        unmount_step(v).0.cursor == v.cursor && unmount_step(v).0.search_query == v.search_query,
        v.mode == Mode::Normal && v.tab == Tab::Mounts ==> key_step(v, Key::Char('u'), true)
            == unmount_step(v),
{
}

/// Mounting takes the bookmark shown under the cursor: a started mount is
/// that of the shown bookmark at the cursor, with no other operation
/// running, and with the cursor on a shown bookmark and nothing running, one
/// starts for it and the status says so. Nothing else is ever asked for.
pub proof fn law_mount_takes_shown_bookmark(v: AppView)
    ensures
        mount_step(v).1 matches Some(e) ==> (e matches EffectView::Mount(b) && !v.mount_pending
            && v.cursor < shown_bookmarks(v).len() && b == shown_bookmarks(v)[v.cursor as int]),
        !v.mount_pending && v.cursor < shown_bookmarks(v).len() ==> {
            let b = shown_bookmarks(v)[v.cursor as int];
            &&& mount_step(v).1 == Some(EffectView::Mount(b))
            &&& mount_step(v).0.mount_pending
            &&& mount_step(v).0.status == Some(("Mounting "@ + b.name + "..."@, StatusKind::Info))
        },
        mount_step(v).0.mounts == v.mounts && mount_step(v).0.bookmarks == v.bookmarks,
        mount_step(v).0.cursor == v.cursor && mount_step(v).0.search_query == v.search_query,
        v.mode == Mode::Normal && v.tab == Tab::Bookmarks ==> key_step(v, Key::Char('m'), true)
            == mount_step(v),
{
}

/// Deleting takes the bookmark shown under the cursor: a delete happens only
/// on the bookmarks tab with the cursor on a shown bookmark, and then it
/// removes the first bookmark with that bookmark's name (the shown one when
/// names are unique), keeps the others in order, and asks to save with that
/// name. Otherwise nothing changes.
pub proof fn law_delete_takes_shown_bookmark(v: AppView)
    ensures
        delete_step(v).1 matches Some(e) ==> (e matches EffectView::SaveBookmarks(
            SaveReasonView::Deleted(n),
        ) && v.tab == Tab::Bookmarks && v.cursor < shown_bookmarks(v).len() && n == shown_bookmarks(
            v,
        )[v.cursor as int].name),
        delete_step(v).1 is None ==> delete_step(v).0 == v,
        v.tab == Tab::Bookmarks && v.cursor < shown_bookmarks(v).len() ==> {
            let n = shown_bookmarks(v)[v.cursor as int].name;
            &&& delete_step(v).1 == Some(EffectView::SaveBookmarks(SaveReasonView::Deleted(n)))
            &&& exists|i: int|
                0 <= i < v.bookmarks.len() && v.bookmarks[i].name == n && (forall|j: int|
                    0 <= j < i ==> v.bookmarks[j].name != n) && delete_step(v).0.bookmarks
                    == v.bookmarks.remove(i)
        },
        v.mode == Mode::Normal ==> key_step(v, Key::Char('d'), true) == delete_step(v),
{
    let shown = shown_bookmarks(v);
    lemma_name_index_from(v.bookmarks, shown[v.cursor as int].name, 0);
    if v.tab == Tab::Bookmarks && v.cursor < shown.len() {
        let b = shown[v.cursor as int];
        let pred = |x: BookmarkView| crate::app::bookmark_matches(x, v.search_query);
        if v.search_query.len() > 0 {
            assert(shown.contains(b));
            v.bookmarks.lemma_filter_contains_rev(pred, b);
        }
        assert(v.bookmarks.contains(b));
        let k = choose|k: int| 0 <= k < v.bookmarks.len() && v.bookmarks[k] == b;
        assert(v.bookmarks[k].name == b.name);
    }
}

/// The edit key opens the form of the bookmark shown under the cursor: on
/// the bookmarks tab in normal mode, a form opens only with the cursor on a
/// shown bookmark, and then it edits that bookmark (its name first, the
/// bookmark it replaces named by that name); elsewhere nothing changes.
pub proof fn law_edit_takes_shown_bookmark(v: AppView)
    requires
        v.mode == Mode::Normal,
    ensures
        key_step(v, Key::Char('e'), true).1 is None,
        v.tab != Tab::Bookmarks ==> key_step(v, Key::Char('e'), true).0 == v,
        v.tab == Tab::Bookmarks && v.cursor >= shown_bookmarks(v).len() ==> key_step(
            v,
            Key::Char('e'),
            true,
        ).0 == v,
        v.tab == Tab::Bookmarks && v.cursor < shown_bookmarks(v).len() ==> {
            let b = shown_bookmarks(v)[v.cursor as int];
            let w = key_step(v, Key::Char('e'), true).0;
            &&& w.mode == Mode::Form
            &&& w.form matches Some(f)
            &&& f.editing
            &&& f.original_name == Some(b.name)
            &&& f.fields.len() == 8
            &&& f.fields[0] == b.name
            &&& f.fields[1] == protocol_name(b.protocol)
            &&& f.fields[2] == b.host
            &&& f.fields[4] == b.remote_path
            &&& f.fields[5] == b.mount_point
            &&& w.bookmarks == v.bookmarks
        },
{
}

/// Every path that adding new paths gives was already there or was added.
proof fn lemma_add_new_paths_from(acc: Seq<Seq<char>>, items: Seq<Seq<char>>)
    ensures
        forall|i: int| 0 <= i < add_new_paths(acc, items).len() ==> acc.contains(
            #[trigger] add_new_paths(acc, items)[i],
        ) || items.contains(add_new_paths(acc, items)[i]),
    decreases items.len(),
{
    if items.len() > 0 {
        let rest = items.drop_last();
        lemma_add_new_paths_from(acc, rest);
        let a = add_new_paths(acc, rest);
        assert forall|i: int| 0 <= i < add_new_paths(acc, items).len() implies acc.contains(
            #[trigger] add_new_paths(acc, items)[i],
        ) || items.contains(add_new_paths(acc, items)[i]) by {
            let x = add_new_paths(acc, items)[i];
            if i < a.len() {
                assert(x == a[i]);
                if rest.contains(x) {
                    let k = choose|k: int| 0 <= k < rest.len() && rest[k] == x;
                    assert(items[k] == x);
                }
            } else {
                assert(x == items[items.len() - 1]);
            }
        }
    }
}

/// The mount points tab knows each path once; it knows the mount point of
/// every current mount, of every bookmark and every remembered path; and
/// each path it lists is one of these.
pub proof fn law_mount_point_list_complete(v: AppView)
    ensures
        distinct_paths(all_mount_point_paths(v)),
        forall|k: int| 0 <= k < v.mounts.len() ==> has_path(all_mount_point_paths(v), #[trigger] v.mounts[k].mount_point),
        forall|k: int| 0 <= k < v.bookmarks.len() ==> has_path(all_mount_point_paths(v), #[trigger] v.bookmarks[k].mount_point),
        forall|k: int| 0 <= k < v.mount_points.len() ==> has_path(all_mount_point_paths(v), #[trigger] v.mount_points[k]),
        forall|i: int| 0 <= i < all_mount_point_paths(v).len() ==> mount_points_of_mounts(v.mounts).contains(
            #[trigger] all_mount_point_paths(v)[i],
        ) || mount_points_of_bookmarks(v.bookmarks).contains(all_mount_point_paths(v)[i])
            || v.mount_points.contains(all_mount_point_paths(v)[i]),
{
    law_mount_points_listed_once(v);
    let mps = mount_points_of_mounts(v.mounts);
    let bps = mount_points_of_bookmarks(v.bookmarks);
    let a = add_new_paths(Seq::empty(), mps);
    let b = add_new_paths(a, bps);
    let c = add_new_paths(b, v.mount_points);
    law_add_new_paths_covers(Seq::empty(), mps);
    law_add_new_paths_covers(a, bps);
    law_add_new_paths_covers(b, v.mount_points);
    assert forall|k: int| 0 <= k < v.mounts.len() implies has_path(c, #[trigger] v.mounts[k].mount_point) by {
        assert(mps[k] == v.mounts[k].mount_point);
        assert(has_path(a, mps[k]));
        let j = choose|j: int| 0 <= j < a.len() && same_path(#[trigger] a[j], mps[k]);
        assert(b[j] == a[j]);
        assert(c[j] == b[j]);
    }
    assert forall|k: int| 0 <= k < v.bookmarks.len() implies has_path(c, #[trigger] v.bookmarks[k].mount_point) by {
        assert(bps[k] == v.bookmarks[k].mount_point);
        assert(has_path(b, bps[k]));
        let j = choose|j: int| 0 <= j < b.len() && same_path(#[trigger] b[j], bps[k]);
        assert(c[j] == b[j]);
    }
    lemma_add_new_paths_from(Seq::empty(), mps);
    lemma_add_new_paths_from(a, bps);
    lemma_add_new_paths_from(b, v.mount_points);
    assert forall|i: int| 0 <= i < c.len() implies mps.contains(#[trigger] c[i]) || bps.contains(c[i])
        || v.mount_points.contains(c[i]) by {
        let x = c[i];
        if b.contains(x) {
            let j = choose|j: int| 0 <= j < b.len() && b[j] == x;
            if a.contains(b[j]) {
                let l = choose|l: int| 0 <= l < a.len() && a[l] == x;
                assert(a[l] == add_new_paths(Seq::empty(), mps)[l]);
                assert(!Seq::<Seq<char>>::empty().contains(x));
            }
        }
    }
}

/// How many items the list of the current tab shows.
pub open spec fn items_on_tab(v: AppView) -> nat {
    match v.tab {
        Tab::Mounts => shown_mounts(v).len(),
        Tab::Bookmarks => shown_bookmarks(v).len(),
        Tab::MountPoints => shown_mount_points(v).len(),
    }
}

/// The cursor moves over the items the current tab shows: `j` goes one down
/// and from the last back to the first, `k` one up and from the first to the
/// last, `G` to the last and `g` to the first; nothing else changes.
pub proof fn law_cursor_keys_move_over_shown_items(v: AppView)
    requires
        v.mode == Mode::Normal,
        v.cursor < items_on_tab(v),
        items_on_tab(v) < 0x7fff_ffff,
    ensures
        key_step(v, Key::Char('j'), true) == (AppView {
            cursor: if v.cursor + 1 == items_on_tab(v) { 0 } else { (v.cursor + 1) as usize },
            ..v
        }, None::<EffectView>),
        key_step(v, Key::Char('k'), true) == (AppView {
            cursor: if v.cursor == 0 { (items_on_tab(v) - 1) as usize } else { (v.cursor - 1) as usize },
            ..v
        }, None::<EffectView>),
        key_step(v, Key::Char('G'), true) == (AppView { cursor: (items_on_tab(v) - 1) as usize, ..v }, None::<EffectView>),
        key_step(v, Key::Char('g'), true) == (AppView { cursor: 0, ..v }, None::<EffectView>),
{
}

} // verus!
