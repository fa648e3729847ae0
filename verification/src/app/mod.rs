//! The application state, and what each key press, finished operation and
//! outside result does to it. Work outside the program (listing mounts,
//! running mount commands, writing the bookmarks file, removing
//! directories) is not done here: a step returns it as an `Effect`, and the
//! result comes back through the matching method.
use vstd::prelude::*;

use crate::bookmark::{protocol_name, Bookmark, BookmarkView};
use crate::mount::{
    entry_views, error_text, strs, DiskUsage, MountEntry, MountEntryView, MountError,
    MountErrorView,
};
use crate::path::{paths_equal, same_path};
use crate::text::{chars_of, contains, contains_chars, lowercase, to_lowercase};

pub mod form;
pub mod laws;
pub mod selection;

pub use self::form::{
    add_fields, edit_fields, form_bookmark, next_tab, prev_tab, tab_at, tab_index, FormData,
    FormField, FormView, Mode, StatusKind, StatusMessage, Tab, FORM_FIELD_COUNT,
};

verus! {

// ---------------------------------------------------------------------------
// Views of the collections the application holds
// ---------------------------------------------------------------------------

/// The views of a list of bookmarks.
pub open spec fn bookmark_views(v: Seq<Bookmark>) -> Seq<BookmarkView> {
    v.map_values(|b: Bookmark| b@)
}

/// The text and kind of a status message.
pub open spec fn status_view(s: Option<StatusMessage>) -> Option<(Seq<char>, StatusKind)> {
    match s {
        Some(m) => Some((m.text@, m.kind)),
        None => None,
    }
}

/// The view of an optional form.
pub open spec fn form_view(f: Option<FormData>) -> Option<FormView> {
    match f {
        Some(d) => Some(d@),
        None => None,
    }
}

/// A disk usage measured for a path at a time (in milliseconds).
#[derive(Debug)]
pub struct CachedUsage {
    pub path: String,
    pub usage: DiskUsage,
    pub at: u64,
}

/// The views of the disk usage cache.
pub open spec fn cache_views(v: Seq<CachedUsage>) -> Seq<(Seq<char>, DiskUsage, u64)> {
    v.map_values(|c: CachedUsage| (c.path@, c.usage, c.at))
}

// ---------------------------------------------------------------------------
// The application state
// ---------------------------------------------------------------------------

/// The core application state.
pub struct App {
    pub tab: Tab,
    pub mode: Mode,
    pub running: bool,
    pub mounts: Vec<MountEntry>,
    pub bookmarks: Vec<Bookmark>,
    pub mount_points: Vec<String>,
    pub cursor: usize,
    pub scroll_offset: usize,
    pub search_query: String,
    pub status: Option<StatusMessage>,
    pub mount_pending: bool,
    pub form: Option<FormData>,
    pub disk_usage_cache: Vec<CachedUsage>,
    /// Where the bookmarks are saved.
    pub bookmarks_path: String,
}

/// The application state as plain values.
#[verifier::ext_equal]
pub struct AppView {
    pub tab: Tab,
    pub mode: Mode,
    pub running: bool,
    pub mounts: Seq<MountEntryView>,
    pub bookmarks: Seq<BookmarkView>,
    pub mount_points: Seq<Seq<char>>,
    pub cursor: usize,
    pub scroll_offset: usize,
    pub search_query: Seq<char>,
    pub status: Option<(Seq<char>, StatusKind)>,
    pub mount_pending: bool,
    pub form: Option<FormView>,
    pub disk_usage_cache: Seq<(Seq<char>, DiskUsage, u64)>,
    pub bookmarks_path: Seq<char>,
}

impl View for App {
    type V = AppView;

    open spec fn view(&self) -> AppView {
        AppView {
            tab: self.tab,
            mode: self.mode,
            running: self.running,
            mounts: entry_views(self.mounts@),
            bookmarks: bookmark_views(self.bookmarks@),
            mount_points: strs(self.mount_points@),
            cursor: self.cursor,
            scroll_offset: self.scroll_offset,
            search_query: self.search_query@,
            status: status_view(self.status),
            mount_pending: self.mount_pending,
            form: form_view(self.form),
            disk_usage_cache: cache_views(self.disk_usage_cache@),
            bookmarks_path: self.bookmarks_path@,
        }
    }
}

// ---------------------------------------------------------------------------
// Searching
// ---------------------------------------------------------------------------

/// The field matches the search query: the query, in lowercase, occurs in
/// the field in lowercase.
pub open spec fn query_matches(field: Seq<char>, query: Seq<char>) -> bool {
    contains(lowercase(field), lowercase(query))
}

/// A mount matches the query by its device, mount point or filesystem type.
pub open spec fn mount_matches(m: MountEntryView, query: Seq<char>) -> bool {
    query_matches(m.device, query) || query_matches(m.mount_point, query) || query_matches(
        m.fs_type,
        query,
    )
}

/// A bookmark matches the query by its name, host or protocol.
pub open spec fn bookmark_matches(b: BookmarkView, query: Seq<char>) -> bool {
    query_matches(b.name, query) || query_matches(b.host, query) || query_matches(
        protocol_name(b.protocol),
        query,
    )
}

/// The mounts that match a non-empty query, in order.
pub open spec fn mounts_matching(ms: Seq<MountEntryView>, query: Seq<char>) -> Seq<MountEntryView> {
    ms.filter(|m: MountEntryView| mount_matches(m, query))
}

/// The bookmarks that match a non-empty query, in order.
pub open spec fn bookmarks_matching(bs: Seq<BookmarkView>, query: Seq<char>) -> Seq<BookmarkView> {
    bs.filter(|b: BookmarkView| bookmark_matches(b, query))
}

/// The paths that match a non-empty query, in order.
pub open spec fn paths_matching(ps: Seq<Seq<char>>, query: Seq<char>) -> Seq<Seq<char>> {
    ps.filter(|p: Seq<char>| query_matches(p, query))
}

/// The mounts shown: all of them for an empty query, else those that match.
pub open spec fn shown_mounts(v: AppView) -> Seq<MountEntryView> {
    if v.search_query.len() == 0 {
        v.mounts
    } else {
        mounts_matching(v.mounts, v.search_query)
    }
}

/// The bookmarks shown: all of them for an empty query, else those that
/// match.
pub open spec fn shown_bookmarks(v: AppView) -> Seq<BookmarkView> {
    if v.search_query.len() == 0 {
        v.bookmarks
    } else {
        bookmarks_matching(v.bookmarks, v.search_query)
    }
}

/// `ps` holds a path that is the same as `p`.
pub open spec fn has_path(ps: Seq<Seq<char>>, p: Seq<char>) -> bool {
    exists|i: int| 0 <= i < ps.len() && same_path(#[trigger] ps[i], p)
}

/// `acc` followed by the paths of `items`, in order, that are not the same
/// as one already there.
pub open spec fn add_new_paths(acc: Seq<Seq<char>>, items: Seq<Seq<char>>) -> Seq<Seq<char>>
    decreases items.len(),
{
    if items.len() == 0 {
        acc
    } else {
        let a = add_new_paths(acc, items.drop_last());
        if has_path(a, items.last()) {
            a
        } else {
            a.push(items.last())
        }
    }
}

/// The mount points of a list of mounts.
pub open spec fn mount_points_of_mounts(ms: Seq<MountEntryView>) -> Seq<Seq<char>> {
    ms.map_values(|m: MountEntryView| m.mount_point)
}

/// The mount points of a list of bookmarks.
pub open spec fn mount_points_of_bookmarks(bs: Seq<BookmarkView>) -> Seq<Seq<char>> {
    bs.map_values(|b: BookmarkView| b.mount_point)
}

/// Every known mount point, each path once: those of the mounts, then those
/// of the bookmarks, then the remembered ones.
pub open spec fn all_mount_point_paths(v: AppView) -> Seq<Seq<char>> {
    add_new_paths(
        add_new_paths(
            add_new_paths(Seq::empty(), mount_points_of_mounts(v.mounts)),
            mount_points_of_bookmarks(v.bookmarks),
        ),
        v.mount_points,
    )
}

/// The mount points shown: all of them for an empty query, else those that
/// match.
pub open spec fn shown_mount_points(v: AppView) -> Seq<Seq<char>> {
    if v.search_query.len() == 0 {
        all_mount_point_paths(v)
    } else {
        paths_matching(all_mount_point_paths(v), v.search_query)
    }
}

/// How many items the current tab shows.
pub open spec fn shown_count(v: AppView) -> nat {
    match v.tab {
        Tab::Mounts => shown_mounts(v).len(),
        Tab::Bookmarks => shown_bookmarks(v).len(),
        Tab::MountPoints => shown_mount_points(v).len(),
    }
}

/// Whether the lowercase of `field` contains the lowercase query `q`.
fn field_matches(field: &str, q: &Vec<char>) -> (r: bool)
    ensures
        r == contains(lowercase(field@), q@),
{
    let lower = to_lowercase(field);
    contains_chars(&chars_of(lower.as_str()), q)
}

/// Whether a path in `ps` is the same as `p`.
fn contains_path(ps: &Vec<String>, p: &str) -> (r: bool)
    ensures
        r == has_path(strs(ps@), p@),
{
    let mut i: usize = 0;
    while i < ps.len()
        invariant
            i <= ps@.len(),
            forall|k: int| 0 <= k < i ==> !same_path(#[trigger] strs(ps@)[k], p@),
        decreases ps@.len() - i,
    {
        if paths_equal(ps[i].as_str(), p) {
            assert(same_path(strs(ps@)[i as int], p@));
            return true;
        }
        i = i + 1;
    }
    false
}

/// Appends to `acc` the paths of `items` not the same as one already there.
fn push_new_paths(acc: &mut Vec<String>, items: &Vec<String>)
    ensures
        strs(final(acc)@) == add_new_paths(strs(old(acc)@), strs(items@)),
{
    let ghost start = strs(acc@);
    let mut i: usize = 0;
    assert(strs(items@).take(0) =~= Seq::<Seq<char>>::empty());
    while i < items.len()
        invariant
            i <= items@.len(),
            strs(acc@) == add_new_paths(start, strs(items@).take(i as int)),
        decreases items@.len() - i,
    {
        assert(strs(items@).take(i + 1).drop_last() == strs(items@).take(i as int));
        assert(strs(items@).take(i + 1).last() == items@[i as int]@);
        if !contains_path(acc, items[i].as_str()) {
            let ghost before = acc@;
            acc.push(items[i].clone());
            assert(strs(acc@) == strs(before).push(items@[i as int]@));
        }
        i = i + 1;
    }
    assert(strs(items@).take(items@.len() as int) == strs(items@));
}

impl App {
    /// The mounts shown for the current search query.
    pub fn filtered_mounts(&self) -> (r: Vec<MountEntry>)
        ensures
            entry_views(r@) == shown_mounts(self@),
    {
        let mut r: Vec<MountEntry> = Vec::new();
        let empty = self.search_query.as_str().is_empty();
        let q = chars_of(to_lowercase(self.search_query.as_str()).as_str());
        let mut i: usize = 0;
        let ghost ms = entry_views(self.mounts@);
        let ghost query = self.search_query@;
        assert(ms.take(0) =~= Seq::<MountEntryView>::empty());
        assert(entry_views(r@) =~= Seq::<MountEntryView>::empty());
        proof {
            reveal(Seq::filter);
        }
        while i < self.mounts.len()
            invariant
                i <= ms.len(),
                ms == entry_views(self.mounts@),
                query == self.search_query@,
                q@ == lowercase(query),
                empty == (query.len() == 0),
                empty ==> entry_views(r@) == ms.take(i as int),
                !empty ==> entry_views(r@) == mounts_matching(ms.take(i as int), query),
            decreases ms.len() - i,
        {
            proof {
                reveal(Seq::filter);
            }
            let m = &self.mounts[i];
            assert(ms.take(i + 1).drop_last() == ms.take(i as int));
            assert(ms.take(i + 1).last() == m@);
            let keep = empty || field_matches(m.device.as_str(), &q) || field_matches(
                m.mount_point.as_str(),
                &q,
            ) || field_matches(m.fs_type.as_str(), &q);
            let ghost before = r@;
            if keep {
                r.push(m.clone());
                assert(entry_views(r@) == entry_views(before).push(m@));
            }
            i = i + 1;
        }
        assert(ms.take(ms.len() as int) == ms);
        r
    }

    /// The bookmarks shown for the current search query.
    pub fn filtered_bookmarks(&self) -> (r: Vec<Bookmark>)
        ensures
            bookmark_views(r@) == shown_bookmarks(self@),
    {
        let mut r: Vec<Bookmark> = Vec::new();
        let empty = self.search_query.as_str().is_empty();
        let q = chars_of(to_lowercase(self.search_query.as_str()).as_str());
        let mut i: usize = 0;
        let ghost bs = bookmark_views(self.bookmarks@);
        let ghost query = self.search_query@;
        assert(bs.take(0) =~= Seq::<BookmarkView>::empty());
        assert(bookmark_views(r@) =~= Seq::<BookmarkView>::empty());
        proof {
            reveal(Seq::filter);
        }
        while i < self.bookmarks.len()
            invariant
                i <= bs.len(),
                bs == bookmark_views(self.bookmarks@),
                query == self.search_query@,
                q@ == lowercase(query),
                empty == (query.len() == 0),
                empty ==> bookmark_views(r@) == bs.take(i as int),
                !empty ==> bookmark_views(r@) == bookmarks_matching(bs.take(i as int), query),
            decreases bs.len() - i,
        {
            proof {
                reveal(Seq::filter);
            }
            let b = &self.bookmarks[i];
            assert(bs.take(i + 1).drop_last() == bs.take(i as int));
            assert(bs.take(i + 1).last() == b@);
            let keep = empty || field_matches(b.name.as_str(), &q) || field_matches(
                b.host.as_str(),
                &q,
            ) || field_matches(b.protocol.to_string().as_str(), &q);
            let ghost before = r@;
            if keep {
                r.push(b.clone());
                assert(bookmark_views(r@) == bookmark_views(before).push(b@));
            }
            i = i + 1;
        }
        assert(bs.take(bs.len() as int) == bs);
        r
    }

    /// Every known mount point, each path once, before the search query is
    /// applied.
    pub fn all_mount_point_paths(&self) -> (r: Vec<String>)
        ensures
            strs(r@) == all_mount_point_paths(self@),
    {
        let mut from_mounts: Vec<String> = Vec::new();
        let mut i: usize = 0;
        assert(strs(from_mounts@) =~= mount_points_of_mounts(self@.mounts).take(0));
        while i < self.mounts.len()
            invariant
                i <= self.mounts@.len(),
                strs(from_mounts@) == mount_points_of_mounts(self@.mounts).take(i as int),
            decreases self.mounts@.len() - i,
        {
            let ghost before = from_mounts@;
            from_mounts.push(self.mounts[i].mount_point.clone());
            assert(strs(from_mounts@) == strs(before).push(self.mounts@[i as int].mount_point@));
            assert(mount_points_of_mounts(self@.mounts).take(i + 1) == mount_points_of_mounts(
                self@.mounts,
            ).take(i as int).push(self.mounts@[i as int].mount_point@));
            i = i + 1;
        }
        assert(mount_points_of_mounts(self@.mounts).take(self.mounts@.len() as int)
            == mount_points_of_mounts(self@.mounts));
        let mut from_bookmarks: Vec<String> = Vec::new();
        let mut j: usize = 0;
        assert(strs(from_bookmarks@) =~= mount_points_of_bookmarks(self@.bookmarks).take(0));
        while j < self.bookmarks.len()
            invariant
                j <= self.bookmarks@.len(),
                strs(from_bookmarks@) == mount_points_of_bookmarks(self@.bookmarks).take(j as int),
            decreases self.bookmarks@.len() - j,
        {
            let ghost before = from_bookmarks@;
            from_bookmarks.push(self.bookmarks[j].mount_point.clone());
            assert(strs(from_bookmarks@) == strs(before).push(
                self.bookmarks@[j as int].mount_point@,
            ));
            assert(mount_points_of_bookmarks(self@.bookmarks).take(j + 1)
                == mount_points_of_bookmarks(self@.bookmarks).take(j as int).push(
                self.bookmarks@[j as int].mount_point@,
            ));
            j = j + 1;
        }
        assert(mount_points_of_bookmarks(self@.bookmarks).take(self.bookmarks@.len() as int)
            == mount_points_of_bookmarks(self@.bookmarks));
        let mut r: Vec<String> = Vec::new();
        assert(strs(r@) =~= Seq::<Seq<char>>::empty());
        push_new_paths(&mut r, &from_mounts);
        push_new_paths(&mut r, &from_bookmarks);
        push_new_paths(&mut r, &self.mount_points);
        r
    }

    /// The mount points shown for the current search query, each path once.
    pub fn filtered_mount_point_paths(&self) -> (r: Vec<String>)
        ensures
            strs(r@) == shown_mount_points(self@),
    {
        let all = self.all_mount_point_paths();
        if self.search_query.as_str().is_empty() {
            return all;
        }
        let q = chars_of(to_lowercase(self.search_query.as_str()).as_str());
        let ghost ps = strs(all@);
        let ghost query = self.search_query@;
        let mut r: Vec<String> = Vec::new();
        let mut i: usize = 0;
        assert(ps.take(0) =~= Seq::<Seq<char>>::empty());
        assert(strs(r@) =~= Seq::<Seq<char>>::empty());
        proof {
            reveal(Seq::filter);
        }
        while i < all.len()
            invariant
                i <= ps.len(),
                ps == strs(all@),
                q@ == lowercase(query),
                strs(r@) == paths_matching(ps.take(i as int), query),
            decreases ps.len() - i,
        {
            proof {
                reveal(Seq::filter);
            }
            assert(ps.take(i + 1).drop_last() == ps.take(i as int));
            assert(ps.take(i + 1).last() == all@[i as int]@);
            let ghost before = r@;
            if field_matches(all[i].as_str(), &q) {
                r.push(all[i].clone());
                assert(strs(r@) == strs(before).push(all@[i as int]@));
            }
            i = i + 1;
        }
        assert(ps.take(ps.len() as int) == ps);
        r
    }

    /// How many items the current tab shows.
    pub fn filtered_items_count(&self) -> (r: usize)
        ensures
            r == shown_count(self@),
    {
        match self.tab {
            Tab::Mounts => self.filtered_mounts().len(),
            Tab::Bookmarks => self.filtered_bookmarks().len(),
            Tab::MountPoints => self.filtered_mount_point_paths().len(),
        }
    }

    /// Whether a bookmark's mount point is currently mounted: a mount has
    /// exactly that mount point text.
    pub fn is_bookmark_mounted(&self, bookmark: &Bookmark) -> (r: bool)
        ensures
            r == exists|i: int|
                0 <= i < self@.mounts.len() && #[trigger] self@.mounts[i].mount_point
                    == bookmark@.mount_point,
    {
        let mut i: usize = 0;
        while i < self.mounts.len()
            invariant
                i <= self.mounts@.len(),
                forall|k: int|
                    0 <= k < i ==> #[trigger] self@.mounts[k].mount_point != bookmark@.mount_point,
            decreases self.mounts@.len() - i,
        {
            if self.mounts[i].mount_point == bookmark.mount_point {
                assert(self@.mounts[i as int].mount_point == bookmark@.mount_point);
                return true;
            }
            assert(self@.mounts[i as int] == self.mounts@[i as int]@);
            i = i + 1;
        }
        false
    }
}

// ---------------------------------------------------------------------------
// Keys, effects and outside results
// ---------------------------------------------------------------------------

/// A key as the application reads it.
#[derive(Debug, Clone, Copy, PartialEq, Eq, Structural)]
pub enum Key {
    Char(char),
    F(u8),
    Tab,
    BackTab,
    Up,
    Down,
    Home,
    End,
    Enter,
    Esc,
    Backspace,
    Other,
}

/// Why the bookmarks are saved: the message shown once they are.
#[derive(Debug)]
pub enum SaveReason {
    Added,
    Updated,
    Deleted(String),
}

/// A save reason as plain values.
pub enum SaveReasonView {
    Added,
    Updated,
    Deleted(Seq<char>),
}

impl View for SaveReason {
    type V = SaveReasonView;

    open spec fn view(&self) -> SaveReasonView {
        match self {
            SaveReason::Added => SaveReasonView::Added,
            SaveReason::Updated => SaveReasonView::Updated,
            SaveReason::Deleted(n) => SaveReasonView::Deleted(n@),
        }
    }
}

/// The steps of removing a mount point directory, in order.
#[derive(Debug, Clone, Copy, PartialEq, Eq, Structural)]
pub enum RemovalStep {
    /// Check that the directory exists.
    CheckExists,
    /// Check that the directory is empty.
    ReadDir,
    /// Remove the directory.
    RemoveDir,
}

/// What came of a removal step.
#[derive(Debug)]
pub enum RemovalEvent {
    /// Whether the directory exists.
    Exists(bool),
    /// Whether the directory has entries, or why it could not be read.
    Listed(Result<bool, String>),
    /// Whether the directory was removed, or why not.
    Removed(Result<(), String>),
}

/// A removal event as plain values.
pub enum RemovalEventView {
    Exists(bool),
    Listed(Result<bool, Seq<char>>),
    Removed(Result<(), Seq<char>>),
}

impl View for RemovalEvent {
    type V = RemovalEventView;

    open spec fn view(&self) -> RemovalEventView {
        match self {
            RemovalEvent::Exists(b) => RemovalEventView::Exists(*b),
            RemovalEvent::Listed(Ok(b)) => RemovalEventView::Listed(Ok(*b)),
            RemovalEvent::Listed(Err(e)) => RemovalEventView::Listed(Err(e@)),
            RemovalEvent::Removed(Ok(())) => RemovalEventView::Removed(Ok(())),
            RemovalEvent::Removed(Err(e)) => RemovalEventView::Removed(Err(e@)),
        }
    }
}

/// Work outside the program that a step asks for.
#[derive(Debug)]
pub enum Effect {
    /// List the mounts now and hand them to `handle_async_result` as
    /// `AsyncResult::RefreshMounts`.
    RefreshMounts,
    /// List the mounts in the background; they come back as
    /// `AsyncResult::RefreshMounts`.
    RefreshMountsInBackground,
    /// Create the bookmark's mount point and mount it in the background;
    /// the outcome comes back as `AsyncResult::Mount` with its name.
    Mount(Bookmark),
    /// Unmount the mount point in the background; the outcome comes back as
    /// `AsyncResult::Unmount`.
    Unmount(String),
    /// Write the bookmarks to the bookmarks file and hand the outcome to
    /// `finish_save`.
    SaveBookmarks(SaveReason),
    /// Perform a step of removing the mount point directory `path` and hand
    /// the outcome to `continue_removal`; `listed` is how many mount points
    /// were shown when the removal began.
    RemoveMountPoint { path: String, listed: usize, step: RemovalStep },
}

/// An effect as plain values.
pub enum EffectView {
    RefreshMounts,
    RefreshMountsInBackground,
    Mount(BookmarkView),
    Unmount(Seq<char>),
    SaveBookmarks(SaveReasonView),
    RemoveMountPoint { path: Seq<char>, listed: usize, step: RemovalStep },
}

impl View for Effect {
    type V = EffectView;

    open spec fn view(&self) -> EffectView {
        match self {
            Effect::RefreshMounts => EffectView::RefreshMounts,
            Effect::RefreshMountsInBackground => EffectView::RefreshMountsInBackground,
            Effect::Mount(b) => EffectView::Mount(b@),
            Effect::Unmount(p) => EffectView::Unmount(p@),
            Effect::SaveBookmarks(r) => EffectView::SaveBookmarks(r@),
            Effect::RemoveMountPoint { path, listed, step } => EffectView::RemoveMountPoint {
                path: path@,
                listed: *listed,
                step: *step,
            },
        }
    }
}

/// The view of an optional effect.
pub open spec fn effect_view(e: Option<Effect>) -> Option<EffectView> {
    match e {
        Some(x) => Some(x@),
        None => None,
    }
}

/// Result from a background mount, unmount or listing.
#[derive(Debug)]
pub enum AsyncResult {
    Mount { name: String, result: Result<(), MountError> },
    Unmount { mount_point: String, result: Result<(), MountError> },
    RefreshMounts(Vec<MountEntry>),
}

/// A background result as plain values.
pub enum AsyncResultView {
    Mount { name: Seq<char>, result: Result<(), MountErrorView> },
    Unmount { mount_point: Seq<char>, result: Result<(), MountErrorView> },
    RefreshMounts(Seq<MountEntryView>),
}

/// The view of the outcome of an operation.
pub open spec fn outcome_view(r: Result<(), MountError>) -> Result<(), MountErrorView> {
    match r {
        Ok(()) => Ok(()),
        Err(e) => Err(e@),
    }
}

impl View for AsyncResult {
    type V = AsyncResultView;

    open spec fn view(&self) -> AsyncResultView {
        match self {
            AsyncResult::Mount { name, result } => AsyncResultView::Mount {
                name: name@,
                result: outcome_view(*result),
            },
            AsyncResult::Unmount { mount_point, result } => AsyncResultView::Unmount {
                mount_point: mount_point@,
                result: outcome_view(*result),
            },
            AsyncResult::RefreshMounts(ms) => AsyncResultView::RefreshMounts(entry_views(ms@)),
        }
    }
}

// ---------------------------------------------------------------------------
// What each step does, as a function of the state
// ---------------------------------------------------------------------------

/// `v` with the status message `text` of kind `kind`.
pub open spec fn with_status(v: AppView, text: Seq<char>, kind: StatusKind) -> AppView {
    AppView { status: Some((text, kind)), ..v }
}

/// A state with no outside work to do.
pub open spec fn stay(v: AppView) -> (AppView, Option<EffectView>) {
    (v, None)
}

/// Switching to a tab: the cursor and scroll go to the top, and the mounts
/// are listed again when the tab is the mounts tab.
pub open spec fn switch_tab_step(v: AppView, tab: Tab) -> (AppView, Option<EffectView>) {
    (
        AppView { tab, cursor: 0, scroll_offset: 0, ..v },
        if tab == Tab::Mounts {
            Some(EffectView::RefreshMounts)
        } else {
            None
        },
    )
}

/// Moving the cursor by `delta` among the shown items, wrapping around at
/// both ends; nothing happens when no item is shown. The cursor is taken as
/// a 32-bit signed number.
pub open spec fn moved_cursor(v: AppView, delta: i32) -> AppView {
    let len = shown_count(v);
    if len == 0 {
        v
    } else {
        let new = (v.cursor as i32) + delta;
        AppView {
            cursor: if new < 0 {
                (len - 1) as usize
            } else if new >= len {
                0
            } else {
                new as usize
            },
            ..v
        }
    }
}

/// The cursor on the last shown item, if any.
pub open spec fn cursor_at_end(v: AppView) -> AppView {
    let len = shown_count(v);
    if len > 0 {
        AppView { cursor: (len - 1) as usize, ..v }
    } else {
        v
    }
}

/// Starting to unmount the shown mount under the cursor, unless an
/// operation is in progress.
pub open spec fn unmount_step(v: AppView) -> (AppView, Option<EffectView>) {
    let shown = shown_mounts(v);
    if v.mount_pending {
        stay(with_status(v, "Operation already in progress"@, StatusKind::Info))
    } else if v.cursor < shown.len() {
        let mp = shown[v.cursor as int].mount_point;
        (
            with_status(
                AppView { mount_pending: true, ..v },
                "Unmounting "@ + mp + "..."@,
                StatusKind::Info,
            ),
            Some(EffectView::Unmount(mp)),
        )
    } else {
        stay(v)
    }
}

/// Starting to mount the shown bookmark under the cursor, unless an
/// operation is in progress.
pub open spec fn mount_step(v: AppView) -> (AppView, Option<EffectView>) {
    let shown = shown_bookmarks(v);
    if v.mount_pending {
        stay(with_status(v, "Mount operation already in progress"@, StatusKind::Info))
    } else if v.cursor < shown.len() {
        let b = shown[v.cursor as int];
        (
            with_status(
                AppView { mount_pending: true, ..v },
                "Mounting "@ + b.name + "..."@,
                StatusKind::Info,
            ),
            Some(EffectView::Mount(b)),
        )
    } else {
        stay(v)
    }
}

/// The first position at or after `i` of a bookmark named `name`.
pub open spec fn name_index_from(bs: Seq<BookmarkView>, name: Seq<char>, i: int) -> Option<int>
    decreases bs.len() - i,
{
    if i < 0 || i >= bs.len() {
        None
    } else if bs[i].name == name {
        Some(i)
    } else {
        name_index_from(bs, name, i + 1)
    }
}

/// What `name_index_from` finds: a position at or after `i` holding a
/// bookmark of that name, with none of that name between.
pub proof fn lemma_name_index_from(bs: Seq<BookmarkView>, name: Seq<char>, i: int)
    requires
        0 <= i,
    ensures
        name_index_from(bs, name, i) matches Some(k) ==> i <= k < bs.len() && bs[k].name == name
            && forall|j: int| i <= j < k ==> bs[j].name != name,
        name_index_from(bs, name, i) is None ==> forall|j: int|
            i <= j < bs.len() ==> bs[j].name != name,
    decreases bs.len() - i,
{
    if i < bs.len() && bs[i].name != name {
        lemma_name_index_from(bs, name, i + 1);
    }
}

/// The first position of a bookmark named `name`.
pub open spec fn name_index(bs: Seq<BookmarkView>, name: Seq<char>) -> Option<int> {
    name_index_from(bs, name, 0)
}

/// Deleting the shown bookmark under the cursor on the bookmarks tab: the
/// first bookmark with its name goes, the cursor moves up when it would be
/// past the end, and the bookmarks are saved.
pub open spec fn delete_step(v: AppView) -> (AppView, Option<EffectView>) {
    let shown = shown_bookmarks(v);
    if v.tab != Tab::Bookmarks || v.cursor >= shown.len() {
        stay(v)
    } else {
        let name = shown[v.cursor as int].name;
        match name_index(v.bookmarks, name) {
            None => stay(v),
            Some(pos) => {
                let bookmarks = v.bookmarks.remove(pos);
                let cursor = if v.cursor > 0 && v.cursor >= bookmarks.len() {
                    (v.cursor - 1) as usize
                } else {
                    v.cursor
                };
                (
                    AppView { bookmarks, cursor, ..v },
                    Some(EffectView::SaveBookmarks(SaveReasonView::Deleted(name))),
                )
            },
        }
    }
}

/// Starting to remove the shown mount point under the cursor: refused when
/// a mount uses it, else its directory is checked and removed step by step.
pub open spec fn remove_mount_point_step(v: AppView) -> (AppView, Option<EffectView>) {
    let shown = shown_mount_points(v);
    if v.cursor >= shown.len() {
        stay(v)
    } else {
        let path = shown[v.cursor as int];
        if has_path(mount_points_of_mounts(v.mounts), path) {
            stay(with_status(v, "Cannot remove: mount point is in use"@, StatusKind::Error))
        } else {
            (
                v,
                Some(
                    EffectView::RemoveMountPoint {
                        path,
                        listed: shown.len() as usize,
                        step: RemovalStep::CheckExists,
                    },
                ),
            )
        }
    }
}

/// The form that edits a bookmark, as a view.
pub open spec fn edit_form(b: BookmarkView) -> FormView {
    FormView { fields: edit_fields(b), cursor_field: 0, editing: true, original_name: Some(b.name) }
}

/// The form that adds a bookmark, as a view.
pub open spec fn add_form() -> FormView {
    FormView { fields: add_fields(), cursor_field: 0, editing: false, original_name: None }
}

/// A key in normal mode.
pub open spec fn normal_key(v: AppView, key: Key) -> (AppView, Option<EffectView>) {
    match key {
        Key::Char(c) => {
            if c == 'q' {
                stay(AppView { running: false, ..v })
            } else if c == '1' {
                switch_tab_step(v, Tab::Mounts)
            } else if c == '2' {
                switch_tab_step(v, Tab::Bookmarks)
            } else if c == '3' {
                switch_tab_step(v, Tab::MountPoints)
            } else if c == 'j' {
                stay(moved_cursor(v, 1i32))
            } else if c == 'k' {
                stay(moved_cursor(v, -1i32))
            } else if c == 'G' {
                stay(cursor_at_end(v))
            } else if c == 'g' {
                stay(AppView { cursor: 0, ..v })
            } else if c == '/' {
                stay(AppView { mode: Mode::Search, search_query: Seq::empty(), ..v })
            } else if c == 'r' {
                (v, Some(EffectView::RefreshMountsInBackground))
            } else if c == 'u' {
                if v.tab == Tab::Mounts {
                    unmount_step(v)
                } else {
                    stay(v)
                }
            } else if c == 'm' {
                if v.tab == Tab::Bookmarks {
                    mount_step(v)
                } else {
                    stay(v)
                }
            } else if c == 'd' {
                delete_step(v)
            } else if c == 'a' {
                if v.tab == Tab::Bookmarks {
                    stay(AppView { form: Some(add_form()), mode: Mode::Form, ..v })
                } else {
                    stay(v)
                }
            } else if c == 'e' {
                if v.tab == Tab::Bookmarks && v.cursor < shown_bookmarks(v).len() {
                    stay(
                        AppView {
                            form: Some(edit_form(shown_bookmarks(v)[v.cursor as int])),
                            mode: Mode::Form,
                            ..v
                        },
                    )
                } else {
                    stay(v)
                }
            } else if c == 'x' {
                if v.tab == Tab::MountPoints {
                    remove_mount_point_step(v)
                } else {
                    stay(v)
                }
            } else {
                stay(v)
            }
        },
        Key::F(n) => {
            if n == 1 {
                switch_tab_step(v, Tab::Mounts)
            } else if n == 2 {
                switch_tab_step(v, Tab::Bookmarks)
            } else if n == 3 {
                switch_tab_step(v, Tab::MountPoints)
            } else {
                stay(v)
            }
        },
        Key::Tab => switch_tab_step(v, next_tab(v.tab)),
        Key::BackTab => switch_tab_step(v, prev_tab(v.tab)),
        Key::Down => stay(moved_cursor(v, 1i32)),
        Key::Up => stay(moved_cursor(v, -1i32)),
        Key::End => stay(cursor_at_end(v)),
        Key::Home => stay(AppView { cursor: 0, ..v }),
        _ => stay(v),
    }
}

/// A key in search mode: typing edits the query and sends the cursor to the
/// top, Enter keeps the query, Esc drops it.
pub open spec fn search_key(v: AppView, key: Key) -> AppView {
    match key {
        Key::Esc => AppView {
            mode: Mode::Normal,
            search_query: Seq::empty(),
            cursor: 0,
            scroll_offset: 0,
            ..v
        },
        Key::Enter => AppView { mode: Mode::Normal, ..v },
        Key::Backspace => AppView {
            search_query: if v.search_query.len() > 0 {
                v.search_query.drop_last()
            } else {
                v.search_query
            },
            cursor: 0,
            scroll_offset: 0,
            ..v
        },
        Key::Char(c) => AppView {
            search_query: v.search_query.push(c),
            cursor: 0,
            scroll_offset: 0,
            ..v
        },
        _ => v,
    }
}

/// `f` with its fields replaced by `fields`.
pub open spec fn with_fields(f: FormView, fields: Seq<Seq<char>>) -> FormView {
    FormView { fields, ..f }
}

/// `v` with its form changed by `change`, when there is a form.
pub open spec fn change_form(v: AppView, change: spec_fn(FormView) -> FormView) -> AppView {
    match v.form {
        Some(f) => AppView { form: Some(change(f)), ..v },
        None => v,
    }
}

/// Submitting the form: a bookmark that lacks a name, host or mount point,
/// or that would add a second bookmark of the same name, is refused with a
/// message and the form stays; else the bookmark is added, or replaces the
/// first bookmark with the edited name, the form closes, the bookmarks tab
/// is shown and the bookmarks are saved.
pub open spec fn submit_step(v: AppView) -> (AppView, Option<EffectView>) {
    match v.form {
        None => stay(v),
        Some(f) => match form_bookmark(f.fields) {
            None => stay(
                with_status(v, "Name, Host, and Mount Point are required"@, StatusKind::Error),
            ),
            Some(b) => {
                if f.editing {
                    let bookmarks = match f.original_name {
                        Some(n) => match name_index(v.bookmarks, n) {
                            Some(pos) => v.bookmarks.update(pos, b),
                            None => v.bookmarks,
                        },
                        None => v.bookmarks,
                    };
                    (
                        AppView {
                            form: None,
                            bookmarks,
                            mode: Mode::Normal,
                            tab: Tab::Bookmarks,
                            ..v
                        },
                        Some(EffectView::SaveBookmarks(SaveReasonView::Updated)),
                    )
                } else if name_index(v.bookmarks, b.name) is Some {
                    stay(
                        with_status(
                            v,
                            "Bookmark '"@ + b.name + "' already exists"@,
                            StatusKind::Error,
                        ),
                    )
                } else {
                    (
                        AppView {
                            form: None,
                            bookmarks: v.bookmarks.push(b),
                            mode: Mode::Normal,
                            tab: Tab::Bookmarks,
                            ..v
                        },
                        Some(EffectView::SaveBookmarks(SaveReasonView::Added)),
                    )
                }
            },
        },
    }
}

/// A key in form mode: Tab and BackTab move between fields (wrapping), typing
/// edits the current field, Enter submits, Esc closes the form.
pub open spec fn form_key(v: AppView, key: Key) -> (AppView, Option<EffectView>) {
    match key {
        Key::Esc => stay(AppView { form: None, mode: Mode::Normal, ..v }),
        Key::Tab => stay(
            change_form(
                v,
                |f: FormView| FormView { cursor_field: ((f.cursor_field + 1) % 8) as usize, ..f },
            ),
        ),
        Key::BackTab => stay(
            change_form(
                v,
                |f: FormView|
                    FormView {
                        cursor_field: if f.cursor_field == 0 {
                            7
                        } else {
                            (f.cursor_field - 1) as usize
                        },
                        ..f
                    },
            ),
        ),
        Key::Enter => submit_step(v),
        Key::Backspace => stay(
            change_form(
                v,
                |f: FormView|
                    with_fields(
                        f,
                        f.fields.update(
                            f.cursor_field as int,
                            if f.fields[f.cursor_field as int].len() > 0 {
                                f.fields[f.cursor_field as int].drop_last()
                            } else {
                                f.fields[f.cursor_field as int]
                            },
                        ),
                    ),
            ),
        ),
        Key::Char(c) => stay(
            change_form(
                v,
                |f: FormView|
                    with_fields(
                        f,
                        f.fields.update(
                            f.cursor_field as int,
                            f.fields[f.cursor_field as int].push(c),
                        ),
                    ),
            ),
        ),
        _ => stay(v),
    }
}

/// A key event: a release does nothing; a press acts by the mode.
pub open spec fn key_step(v: AppView, key: Key, press: bool) -> (AppView, Option<EffectView>) {
    if !press {
        stay(v)
    } else {
        match v.mode {
            Mode::Normal => normal_key(v, key),
            Mode::Search => stay(search_key(v, key)),
            Mode::Form => form_key(v, key),
        }
    }
}

/// The form's current field, if there is a form, is one of its fields.
pub open spec fn well_formed(v: AppView) -> bool {
    v.form matches Some(f) ==> f.cursor_field < 8 && f.fields.len() == 8
}

/// The key would index the form's fields past the last one (typing or
/// deleting with a current field out of range), or step the current field
/// past the largest `usize`.
pub open spec fn form_index_fails(v: AppView, key: Key) -> bool {
    &&& v.mode == Mode::Form
    &&& v.form matches Some(f) && {
        ||| (key is Char || key == Key::Backspace) && f.cursor_field >= 8
        ||| key == Key::Tab && f.cursor_field == usize::MAX
    }
}

/// The key would make the cursor overflow as a 32-bit signed number: moving
/// down from the largest such number or up from the smallest.
pub open spec fn cursor_overflows(v: AppView, key: Key) -> bool {
    &&& v.mode == Mode::Normal
    &&& shown_count(v) > 0
    &&& {
        ||| (key == Key::Char('j') || key == Key::Down) && (v.cursor as i32) == 0x7fff_ffff
        ||| (key == Key::Char('k') || key == Key::Up) && (v.cursor as i32) == -0x8000_0000
    }
}

/// Saving the bookmarks finished: the message says what was done, or why
/// saving failed.
pub open spec fn save_step(v: AppView, reason: SaveReasonView, result: Result<(), Seq<char>>) -> AppView {
    let last_name = if v.bookmarks.len() > 0 {
        v.bookmarks.last().name
    } else {
        Seq::empty()
    };
    match result {
        Err(e) => with_status(v, "Failed to save: "@ + e, StatusKind::Error),
        Ok(()) => match reason {
            SaveReasonView::Deleted(name) => with_status(
                v,
                "Deleted bookmark '"@ + name + "'"@,
                StatusKind::Success,
            ),
            SaveReasonView::Added => with_status(
                v,
                "Added bookmark '"@ + last_name + "'"@,
                StatusKind::Success,
            ),
            SaveReasonView::Updated => with_status(
                v,
                "Updated bookmark '"@ + last_name + "'"@,
                StatusKind::Success,
            ),
        },
    }
}

/// The remembered mount points that are not the same path as `path`.
pub open spec fn other_paths(ps: Seq<Seq<char>>, path: Seq<char>) -> Seq<Seq<char>> {
    ps.filter(|p: Seq<char>| !same_path(p, path))
}

/// A step of removing a mount point directory finished: a missing, non-empty
/// or unreadable directory stops the removal with a message; otherwise the
/// next step follows; once removed, the path is forgotten and the cursor
/// moves up when it would be past the shown items.
pub open spec fn removal_step(v: AppView, path: Seq<char>, listed: usize, e: RemovalEventView) -> (
    AppView,
    Option<EffectView>,
) {
    match e {
        RemovalEventView::Exists(false) => stay(
            with_status(v, "Directory does not exist"@, StatusKind::Error),
        ),
        RemovalEventView::Exists(true) => (
            v,
            Some(EffectView::RemoveMountPoint { path, listed, step: RemovalStep::ReadDir }),
        ),
        RemovalEventView::Listed(Ok(true)) => stay(
            with_status(v, "Cannot remove: directory is not empty"@, StatusKind::Error),
        ),
        RemovalEventView::Listed(Ok(false)) => (
            v,
            Some(EffectView::RemoveMountPoint { path, listed, step: RemovalStep::RemoveDir }),
        ),
        RemovalEventView::Listed(Err(msg)) => stay(
            with_status(v, "Cannot read directory: "@ + msg, StatusKind::Error),
        ),
        RemovalEventView::Removed(Ok(())) => {
            let new_count: int = if listed > 0 {
                listed - 1
            } else {
                0
            };
            let cursor = if v.cursor > 0 && v.cursor >= new_count {
                (v.cursor - 1) as usize
            } else {
                v.cursor
            };
            stay(
                with_status(
                    AppView { mount_points: other_paths(v.mount_points, path), cursor, ..v },
                    "Removed mount point: "@ + path,
                    StatusKind::Success,
                ),
            )
        },
        RemovalEventView::Removed(Err(msg)) => stay(
            with_status(v, "Failed to remove: "@ + msg, StatusKind::Error),
        ),
    }
}

/// A background result arrived: a finished mount or unmount ends the
/// operation in progress, reports its outcome and, on success, lists the
/// mounts again; a listing replaces the mounts.
pub open spec fn async_step(v: AppView, r: AsyncResultView) -> (AppView, Option<EffectView>) {
    match r {
        AsyncResultView::Mount { name, result } => {
            let w = AppView { mount_pending: false, ..v };
            match result {
                Ok(()) => (
                    with_status(w, "Mounted "@ + name, StatusKind::Success),
                    Some(EffectView::RefreshMounts),
                ),
                Err(e) => stay(
                    with_status(
                        w,
                        "Failed to mount "@ + name + ": "@ + error_text(e),
                        StatusKind::Error,
                    ),
                ),
            }
        },
        AsyncResultView::Unmount { mount_point, result } => {
            let w = AppView { mount_pending: false, ..v };
            match result {
                Ok(()) => (
                    with_status(w, "Unmounted "@ + mount_point, StatusKind::Success),
                    Some(EffectView::RefreshMounts),
                ),
                Err(e) => stay(
                    with_status(w, "Failed to unmount: "@ + error_text(e), StatusKind::Error),
                ),
            }
        },
        AsyncResultView::RefreshMounts(ms) => stay(AppView { mounts: ms, ..v }),
    }
}

/// The state at start: the mounts tab in normal mode, the given bookmarks
/// and mounts, and as remembered mount points those of the mounts followed
/// by those of the bookmarks that are not the same path as one before.
pub open spec fn initial_state(
    bookmarks_path: Seq<char>,
    bookmarks: Seq<BookmarkView>,
    mounts: Seq<MountEntryView>,
) -> AppView {
    AppView {
        tab: Tab::Mounts,
        mode: Mode::Normal,
        running: true,
        mounts,
        bookmarks,
        mount_points: add_new_paths(
            mount_points_of_mounts(mounts),
            mount_points_of_bookmarks(bookmarks),
        ),
        cursor: 0,
        scroll_offset: 0,
        search_query: Seq::empty(),
        status: None,
        mount_pending: false,
        form: None,
        disk_usage_cache: Seq::empty(),
        bookmarks_path,
    }
}

/// How long a measured disk usage stays valid, in milliseconds.
pub open spec fn usage_ttl() -> u64 {
    30_000
}

/// The disk usage cached for `path` that is younger than the time to live
/// at time `now`.
pub open spec fn fresh_usage(v: AppView, path: Seq<char>, now: u64) -> Option<DiskUsage> {
    match cache_index(v.disk_usage_cache, path) {
        Some(i) => {
            let (_, u, at) = v.disk_usage_cache[i];
            if (if now >= at {
                now - at
            } else {
                0
            }) < usage_ttl() {
                Some(u)
            } else {
                None
            }
        },
        None => None,
    }
}

/// The first position in the cache of an entry for the same path as `path`.
pub open spec fn cache_index(c: Seq<(Seq<char>, DiskUsage, u64)>, path: Seq<char>) -> Option<int>
    decreases c.len(),
{
    if c.len() == 0 {
        None
    } else {
        match cache_index(c.drop_last(), path) {
            Some(i) => Some(i),
            None => if same_path(c.last().0, path) {
                Some(c.len() - 1)
            } else {
                None
            },
        }
    }
}

/// The first match in a prefix is the first match in the whole cache, and a
/// match is a position of the cache holding the same path.
pub proof fn lemma_cache_index_prefix(c: Seq<(Seq<char>, DiskUsage, u64)>, path: Seq<char>, k: int)
    requires
        0 <= k <= c.len(),
    ensures
        cache_index(c.take(k), path) matches Some(i) ==> cache_index(c, path) == Some(i),
        cache_index(c, path) matches Some(i) ==> 0 <= i < c.len() && same_path(c[i].0, path),
    decreases c.len(),
{
    if c.len() > 0 {
        if k == c.len() {
            assert(c.take(k) == c);
            lemma_cache_index_prefix(c.drop_last(), path, k - 1);
        } else {
            assert(c.take(k) == c.drop_last().take(k));
            lemma_cache_index_prefix(c.drop_last(), path, k);
        }
    }
}

/// The cache with the usage of `path` measured at `now`: it replaces the
/// entry for the same path, or is added.
pub open spec fn cache_with(c: Seq<(Seq<char>, DiskUsage, u64)>, path: Seq<char>, u: DiskUsage, now: u64) -> Seq<(Seq<char>, DiskUsage, u64)> {
    match cache_index(c, path) {
        Some(i) => c.update(i, (c[i].0, u, now)),
        None => c.push((path, u, now)),
    }
}

// ---------------------------------------------------------------------------
// The steps
// ---------------------------------------------------------------------------

/// `a`, `b` and `c` in a row.
fn text3(a: &str, b: &str, c: &str) -> (r: String)
    ensures
        r@ == a@ + b@ + c@,
{
    let mut r = String::from_str(a);
    r.append(b);
    r.append(c);
    r
}

/// The first position of a bookmark named `name`.
fn find_bookmark_named(bs: &Vec<Bookmark>, name: &String) -> (r: Option<usize>)
    ensures
        r matches Some(i) ==> name_index(bookmark_views(bs@), name@) == Some(i as int),
        r is None ==> name_index(bookmark_views(bs@), name@) is None,
{
    let ghost v = bookmark_views(bs@);
    let mut i: usize = 0;
    while i < bs.len()
        invariant
            i <= bs@.len(),
            v == bookmark_views(bs@),
            name_index(v, name@) == name_index_from(v, name@, i as int),
        decreases bs@.len() - i,
    {
        assert(v[i as int] == bs@[i as int]@);
        if bs[i].name == *name {
            return Some(i);
        }
        i = i + 1;
    }
    None
}

impl App {
    /// The state at start, with the bookmarks read from `bookmarks_path` and
    /// the mounts listed from the system.
    pub fn new(bookmarks_path: String, bookmarks: Vec<Bookmark>, mounts: Vec<MountEntry>) -> (r: Self)
        ensures
            r@ == initial_state(bookmarks_path@, bookmark_views(bookmarks@), entry_views(mounts@)),
    {
        let mut mount_points: Vec<String> = Vec::new();
        let mut i: usize = 0;
        let ghost ms = entry_views(mounts@);
        assert(strs(mount_points@) =~= mount_points_of_mounts(ms).take(0));
        while i < mounts.len()
            invariant
                i <= mounts@.len(),
                ms == entry_views(mounts@),
                strs(mount_points@) == mount_points_of_mounts(ms).take(i as int),
            decreases mounts@.len() - i,
        {
            let ghost before = mount_points@;
            mount_points.push(mounts[i].mount_point.clone());
            assert(strs(mount_points@) == strs(before).push(mounts@[i as int].mount_point@));
            assert(mount_points_of_mounts(ms).take(i + 1) == mount_points_of_mounts(ms).take(
                i as int,
            ).push(mounts@[i as int].mount_point@));
            i = i + 1;
        }
        assert(mount_points_of_mounts(ms).take(mounts@.len() as int) == mount_points_of_mounts(ms));
        let mut from_bookmarks: Vec<String> = Vec::new();
        let mut j: usize = 0;
        let ghost bs = bookmark_views(bookmarks@);
        assert(strs(from_bookmarks@) =~= mount_points_of_bookmarks(bs).take(0));
        while j < bookmarks.len()
            invariant
                j <= bookmarks@.len(),
                bs == bookmark_views(bookmarks@),
                strs(from_bookmarks@) == mount_points_of_bookmarks(bs).take(j as int),
            decreases bookmarks@.len() - j,
        {
            let ghost before = from_bookmarks@;
            from_bookmarks.push(bookmarks[j].mount_point.clone());
            assert(strs(from_bookmarks@) == strs(before).push(bookmarks@[j as int].mount_point@));
            assert(mount_points_of_bookmarks(bs).take(j + 1) == mount_points_of_bookmarks(bs).take(
                j as int,
            ).push(bookmarks@[j as int].mount_point@));
            j = j + 1;
        }
        assert(mount_points_of_bookmarks(bs).take(bookmarks@.len() as int)
            == mount_points_of_bookmarks(bs));
        push_new_paths(&mut mount_points, &from_bookmarks);
        let r = App {
            tab: Tab::Mounts,
            mode: Mode::Normal,
            running: true,
            mounts,
            bookmarks,
            mount_points,
            cursor: 0,
            scroll_offset: 0,
            search_query: String::new(),
            status: None,
            mount_pending: false,
            form: None,
            disk_usage_cache: Vec::new(),
            bookmarks_path,
        };
        assert(cache_views(r.disk_usage_cache@) =~= Seq::empty());
        r
    }

    /// Shows `text` in the status bar as a message of kind `kind`.
    pub fn set_status(&mut self, text: &str, kind: StatusKind)
        ensures
            final(self)@ == with_status(old(self)@, text@, kind),
    {
        self.status = Some(StatusMessage { text: String::from_str(text), kind });
    }

    /// Clears the status bar.
    pub fn clear_status(&mut self)
        ensures
            final(self)@ == (AppView { status: None, ..old(self)@ }),
    {
        self.status = None;
    }

    /// The shown bookmark under the cursor, if any.
    pub fn get_bookmark_at_cursor(&self) -> (r: Option<Bookmark>)
        ensures
            r matches Some(b) ==> self.cursor < shown_bookmarks(self@).len() && b@
                == shown_bookmarks(self@)[self.cursor as int],
            r is None ==> self.cursor >= shown_bookmarks(self@).len(),
    {
        let shown = self.filtered_bookmarks();
        if self.cursor < shown.len() {
            assert(bookmark_views(shown@)[self.cursor as int] == shown@[self.cursor as int]@);
            Some(shown[self.cursor].clone())
        } else {
            None
        }
    }

    /// Switches to `tab`.
    pub fn switch_tab(&mut self, tab: Tab) -> (r: Option<Effect>)
        ensures
            (final(self)@, effect_view(r)) == switch_tab_step(old(self)@, tab),
    {
        self.tab = tab;
        self.cursor = 0;
        self.scroll_offset = 0;
        if tab == Tab::Mounts {
            Some(Effect::RefreshMounts)
        } else {
            None
        }
    }

    /// Moves the cursor by `delta` among the shown items, wrapping around.
    pub fn move_cursor(&mut self, delta: i32)
        requires
            shown_count(old(self)@) > 0 ==> i32::MIN <= (old(self).cursor as i32) + delta
                <= i32::MAX,
        ensures
            final(self)@ == moved_cursor(old(self)@, delta),
    {
        let len = self.filtered_items_count();
        if len == 0 {
            return;
        }
        let new = self.cursor as i32 + delta;
        self.cursor = if new < 0 {
            len - 1
        } else if new as usize >= len {
            0
        } else {
            new as usize
        };
    }

    /// Moves the cursor to the last shown item.
    pub fn move_cursor_end(&mut self)
        ensures
            final(self)@ == cursor_at_end(old(self)@),
    {
        let len = self.filtered_items_count();
        if len > 0 {
            self.cursor = len - 1;
        }
    }

    /// Moves the cursor to the first item.
    pub fn move_cursor_home(&mut self)
        ensures
            final(self)@ == (AppView { cursor: 0, ..old(self)@ }),
    {
        self.cursor = 0;
    }

    /// Starts unmounting the shown mount under the cursor.
    pub fn handle_unmount(&mut self) -> (r: Option<Effect>)
        ensures
            (final(self)@, effect_view(r)) == unmount_step(old(self)@),
    {
        if self.mount_pending {
            self.set_status("Operation already in progress", StatusKind::Info);
            return None;
        }
        let shown = self.filtered_mounts();
        if self.cursor < shown.len() {
            assert(entry_views(shown@)[self.cursor as int] == shown@[self.cursor as int]@);
            let mp = shown[self.cursor].mount_point.clone();
            self.mount_pending = true;
            let text = text3("Unmounting ", mp.as_str(), "...");
            self.set_status(text.as_str(), StatusKind::Info);
            Some(Effect::Unmount(mp))
        } else {
            None
        }
    }

    /// Starts mounting the shown bookmark under the cursor.
    pub fn handle_mount(&mut self) -> (r: Option<Effect>)
        ensures
            (final(self)@, effect_view(r)) == mount_step(old(self)@),
    {
        if self.mount_pending {
            self.set_status("Mount operation already in progress", StatusKind::Info);
            return None;
        }
        match self.get_bookmark_at_cursor() {
            None => None,
            Some(b) => {
                self.mount_pending = true;
                let text = text3("Mounting ", b.name.as_str(), "...");
                self.set_status(text.as_str(), StatusKind::Info);
                Some(Effect::Mount(b))
            },
        }
    }

    /// Deletes the shown bookmark under the cursor on the bookmarks tab.
    pub fn handle_delete(&mut self) -> (r: Option<Effect>)
        ensures
            (final(self)@, effect_view(r)) == delete_step(old(self)@),
    {
        if self.tab != Tab::Bookmarks {
            return None;
        }
        let name = match self.get_bookmark_at_cursor() {
            None => {
                return None;
            },
            Some(b) => b.name,
        };
        proof {
            lemma_name_index_from(bookmark_views(self.bookmarks@), name@, 0);
        }
        match find_bookmark_named(&self.bookmarks, &name) {
            None => None,
            Some(pos) => {
                let ghost before = self.bookmarks@;
                self.bookmarks.remove(pos);
                assert(bookmark_views(self.bookmarks@) == bookmark_views(before).remove(pos as int));
                if self.cursor > 0 && self.cursor >= self.bookmarks.len() {
                    self.cursor = self.cursor - 1;
                }
                Some(Effect::SaveBookmarks(SaveReason::Deleted(name)))
            },
        }
    }

    /// Starts removing the shown mount point under the cursor.
    pub fn handle_remove_mount_point(&mut self) -> (r: Option<Effect>)
        ensures
            (final(self)@, effect_view(r)) == remove_mount_point_step(old(self)@),
    {
        let shown = self.filtered_mount_point_paths();
        if self.cursor >= shown.len() {
            return None;
        }
        assert(strs(shown@)[self.cursor as int] == shown@[self.cursor as int]@);
        let path = shown[self.cursor].clone();
        let mut in_use = false;
        let mut i: usize = 0;
        while i < self.mounts.len()
            invariant
                i <= self.mounts@.len(),
                !in_use ==> forall|k: int|
                    0 <= k < i ==> !same_path(
                        #[trigger] mount_points_of_mounts(self@.mounts)[k],
                        path@,
                    ),
                in_use ==> has_path(mount_points_of_mounts(self@.mounts), path@),
            decreases self.mounts@.len() - i,
        {
            assert(mount_points_of_mounts(self@.mounts)[i as int] == self.mounts@[i as int].mount_point@);
            if !in_use && paths_equal(self.mounts[i].mount_point.as_str(), path.as_str()) {
                in_use = true;
            }
            i = i + 1;
        }
        if in_use {
            self.set_status("Cannot remove: mount point is in use", StatusKind::Error);
            return None;
        }
        Some(Effect::RemoveMountPoint { path, listed: shown.len(), step: RemovalStep::CheckExists })
    }
}

impl App {
    /// Submits the form.
    pub fn submit_form(&mut self) -> (r: Option<Effect>)
        ensures
            (final(self)@, effect_view(r)) == submit_step(old(self)@),
    {
        let ghost v = self@;
        let form = self.form.take();
        let f = match form {
            None => {
                return None;
            },
            Some(f) => f,
        };
        match f.to_bookmark() {
            None => {
                self.set_status("Name, Host, and Mount Point are required", StatusKind::Error);
                self.form = Some(f);
                assert(self@ == with_status(v, "Name, Host, and Mount Point are required"@, StatusKind::Error));
                None
            },
            Some(b) => {
                if f.editing {
                    let ghost before = self.bookmarks@;
                    match &f.original_name {
                        Some(n) => {
                            match find_bookmark_named(&self.bookmarks, n) {
                                Some(pos) => {
                                    proof {
                                        lemma_name_index_from(bookmark_views(self.bookmarks@), n@, 0);
                                    }
                                    let ghost bv = b@;
                                    self.bookmarks.set(pos, b);
                                    assert(bookmark_views(self.bookmarks@) == bookmark_views(before).update(pos as int, bv));
                                },
                                None => {},
                            }
                        },
                        None => {},
                    }
                    self.mode = Mode::Normal;
                    self.tab = Tab::Bookmarks;
                    Some(Effect::SaveBookmarks(SaveReason::Updated))
                } else {
                    match find_bookmark_named(&self.bookmarks, &b.name) {
                        Some(_) => {
                            let text = text3("Bookmark '", b.name.as_str(), "' already exists");
                            self.set_status(text.as_str(), StatusKind::Error);
                            self.form = Some(f);
                            assert(self@ == with_status(v, "Bookmark '"@ + b@.name + "' already exists"@, StatusKind::Error));
                            None
                        },
                        None => {
                            let ghost before = self.bookmarks@;
                            let ghost bv = b@;
                            self.bookmarks.push(b);
                            assert(bookmark_views(self.bookmarks@) == bookmark_views(before).push(bv));
                            self.mode = Mode::Normal;
                            self.tab = Tab::Bookmarks;
                            Some(Effect::SaveBookmarks(SaveReason::Added))
                        },
                    }
                }
            },
        }
    }

    /// A key in search mode.
    pub fn handle_search_mode(&mut self, key: Key)
        ensures
            final(self)@ == search_key(old(self)@, key),
    {
        match key {
            Key::Esc => {
                self.mode = Mode::Normal;
                self.search_query = String::new();
                self.cursor = 0;
                self.scroll_offset = 0;
            },
            Key::Enter => {
                self.mode = Mode::Normal;
            },
            Key::Backspace => {
                crate::text::pop_char(&mut self.search_query);
                self.cursor = 0;
                self.scroll_offset = 0;
            },
            Key::Char(c) => {
                crate::text::push_char_to(&mut self.search_query, c);
                self.cursor = 0;
                self.scroll_offset = 0;
            },
            _ => {},
        }
    }

    /// A key in form mode.
    pub fn handle_form_mode(&mut self, key: Key) -> (r: Option<Effect>)
        requires
            old(self)@.mode == Mode::Form,
            !form_index_fails(old(self)@, key),
        ensures
            (final(self)@, effect_view(r)) == form_key(old(self)@, key),
            well_formed(old(self)@) ==> well_formed(final(self)@),
    {
        match key {
            Key::Esc => {
                self.form = None;
                self.mode = Mode::Normal;
                None
            },
            Key::Tab => {
                let form = self.form.take();
                match form {
                    Some(mut f) => {
                        f.cursor_field = (f.cursor_field + 1) % 8;
                        self.form = Some(f);
                    },
                    None => {},
                }
                None
            },
            Key::BackTab => {
                let form = self.form.take();
                match form {
                    Some(mut f) => {
                        f.cursor_field = if f.cursor_field == 0 {
                            7
                        } else {
                            f.cursor_field - 1
                        };
                        self.form = Some(f);
                    },
                    None => {},
                }
                None
            },
            Key::Enter => {
                let r = self.submit_form();
                r
            },
            Key::Backspace => {
                let form = self.form.take();
                match form {
                    Some(mut f) => {
                        let i = f.cursor_field;
                        let ghost old_fields = f@.fields;
                        let mut field = f.fields[i].clone();
                        crate::text::pop_char(&mut field);
                        let ghost fv = field@;
                        f.fields[i] = field;
                        assert(f@.fields == old_fields.update(i as int, fv));
                        self.form = Some(f);
                    },
                    None => {},
                }
                None
            },
            Key::Char(c) => {
                let form = self.form.take();
                match form {
                    Some(mut f) => {
                        let i = f.cursor_field;
                        let ghost old_fields = f@.fields;
                        let mut field = f.fields[i].clone();
                        crate::text::push_char_to(&mut field, c);
                        let ghost fv = field@;
                        f.fields[i] = field;
                        assert(f@.fields == old_fields.update(i as int, fv));
                        self.form = Some(f);
                    },
                    None => {},
                }
                None
            },
            _ => None,
        }
    }
}

impl App {
    /// A key in normal mode.
    pub fn handle_normal_mode(&mut self, key: Key) -> (r: Option<Effect>)
        requires
            !cursor_overflows(old(self)@, key),
            old(self)@.mode == Mode::Normal,
        ensures
            (final(self)@, effect_view(r)) == normal_key(old(self)@, key),
    {
        match key {
            Key::Char(c) => {
                if c == 'q' {
                    self.running = false;
                    None
                } else if c == '1' {
                    self.switch_tab(Tab::Mounts)
                } else if c == '2' {
                    self.switch_tab(Tab::Bookmarks)
                } else if c == '3' {
                    self.switch_tab(Tab::MountPoints)
                } else if c == 'j' {
                    self.move_cursor(1);
                    None
                } else if c == 'k' {
                    self.move_cursor(-1);
                    None
                } else if c == 'G' {
                    self.move_cursor_end();
                    None
                } else if c == 'g' {
                    self.move_cursor_home();
                    None
                } else if c == '/' {
                    self.mode = Mode::Search;
                    self.search_query = String::new();
                    None
                } else if c == 'r' {
                    Some(Effect::RefreshMountsInBackground)
                } else if c == 'u' {
                    if self.tab == Tab::Mounts {
                        self.handle_unmount()
                    } else {
                        None
                    }
                } else if c == 'm' {
                    if self.tab == Tab::Bookmarks {
                        self.handle_mount()
                    } else {
                        None
                    }
                } else if c == 'd' {
                    self.handle_delete()
                } else if c == 'a' {
                    if self.tab == Tab::Bookmarks {
                        self.form = Some(FormData::new_for_add());
                        self.mode = Mode::Form;
                    }
                    None
                } else if c == 'e' {
                    if self.tab == Tab::Bookmarks {
                        match self.get_bookmark_at_cursor() {
                            Some(b) => {
                                self.form = Some(FormData::new_for_edit(&b));
                                self.mode = Mode::Form;
                            },
                            None => {},
                        }
                    }
                    None
                } else if c == 'x' {
                    if self.tab == Tab::MountPoints {
                        self.handle_remove_mount_point()
                    } else {
                        None
                    }
                } else {
                    None
                }
            },
            Key::F(n) => {
                if n == 1 {
                    self.switch_tab(Tab::Mounts)
                } else if n == 2 {
                    self.switch_tab(Tab::Bookmarks)
                } else if n == 3 {
                    self.switch_tab(Tab::MountPoints)
                } else {
                    None
                }
            },
            Key::Tab => {
                let next = (self.tab.index() + 1) % 3;
                self.switch_tab(Tab::from_index(next))
            },
            Key::BackTab => {
                let prev = if self.tab.index() == 0 {
                    2
                } else {
                    self.tab.index() - 1
                };
                self.switch_tab(Tab::from_index(prev))
            },
            Key::Down => {
                self.move_cursor(1);
                None
            },
            Key::Up => {
                self.move_cursor(-1);
                None
            },
            Key::End => {
                self.move_cursor_end();
                None
            },
            Key::Home => {
                self.move_cursor_home();
                None
            },
            _ => None,
        }
    }

    /// A key event: `press` tells a press from a release or repeat, which
    /// do nothing. Keys act by the mode. The returned effect is work for
    /// the caller to do.
    pub fn handle_key_event(&mut self, key: Key, press: bool) -> (r: Option<Effect>)
        requires
            press ==> !cursor_overflows(old(self)@, key) && !form_index_fails(old(self)@, key),
        ensures
            (final(self)@, effect_view(r)) == key_step(old(self)@, key, press),
            well_formed(old(self)@) ==> well_formed(final(self)@),
    {
        if !press {
            return None;
        }
        match self.mode {
            Mode::Normal => self.handle_normal_mode(key),
            Mode::Search => {
                self.handle_search_mode(key);
                None
            },
            Mode::Form => self.handle_form_mode(key),
        }
    }

    /// Saving the bookmarks finished with `result` (the error text on
    /// failure).
    pub fn finish_save(&mut self, reason: SaveReason, result: Result<(), String>)
        ensures
            final(self)@ == save_step(
                old(self)@,
                reason@,
                match result {
                    Ok(()) => Ok(()),
                    Err(e) => Err(e@),
                },
            ),
    {
        match result {
            Err(e) => {
                let text = crate::text::concat("Failed to save: ", e.as_str());
                self.set_status(text.as_str(), StatusKind::Error);
            },
            Ok(()) => {
                let n = self.bookmarks.len();
                let last_name = if n > 0 {
                    assert(bookmark_views(self.bookmarks@).last() == self.bookmarks@[n - 1]@);
                    self.bookmarks[n - 1].name.clone()
                } else {
                    String::new()
                };
                match reason {
                    SaveReason::Deleted(name) => {
                        let text = text3("Deleted bookmark '", name.as_str(), "'");
                        self.set_status(text.as_str(), StatusKind::Success);
                    },
                    SaveReason::Added => {
                        let text = text3("Added bookmark '", last_name.as_str(), "'");
                        self.set_status(text.as_str(), StatusKind::Success);
                    },
                    SaveReason::Updated => {
                        let text = text3("Updated bookmark '", last_name.as_str(), "'");
                        self.set_status(text.as_str(), StatusKind::Success);
                    },
                }
            },
        }
    }

    /// A step of removing the mount point directory `path` finished with
    /// `event`; `listed` is how many mount points were shown when the
    /// removal began.
    pub fn continue_removal(&mut self, path: String, listed: usize, event: RemovalEvent) -> (r: Option<Effect>)
        ensures
            (final(self)@, effect_view(r)) == removal_step(old(self)@, path@, listed, event@),
    {
        match event {
            RemovalEvent::Exists(false) => {
                self.set_status("Directory does not exist", StatusKind::Error);
                None
            },
            RemovalEvent::Exists(true) => Some(
                Effect::RemoveMountPoint { path, listed, step: RemovalStep::ReadDir },
            ),
            RemovalEvent::Listed(Ok(true)) => {
                self.set_status("Cannot remove: directory is not empty", StatusKind::Error);
                None
            },
            RemovalEvent::Listed(Ok(false)) => Some(
                Effect::RemoveMountPoint { path, listed, step: RemovalStep::RemoveDir },
            ),
            RemovalEvent::Listed(Err(e)) => {
                let text = crate::text::concat("Cannot read directory: ", e.as_str());
                self.set_status(text.as_str(), StatusKind::Error);
                None
            },
            RemovalEvent::Removed(Err(e)) => {
                let text = crate::text::concat("Failed to remove: ", e.as_str());
                self.set_status(text.as_str(), StatusKind::Error);
                None
            },
            RemovalEvent::Removed(Ok(())) => {
                let mut kept: Vec<String> = Vec::new();
                let mut i: usize = 0;
                let ghost ps = strs(self.mount_points@);
                assert(ps.take(0) =~= Seq::<Seq<char>>::empty());
                assert(strs(kept@) =~= Seq::<Seq<char>>::empty());
                proof {
                    reveal(Seq::filter);
                }
                while i < self.mount_points.len()
                    invariant
                        i <= ps.len(),
                        ps == strs(self.mount_points@),
                        strs(kept@) == other_paths(ps.take(i as int), path@),
                    decreases ps.len() - i,
                {
                    proof {
                        reveal(Seq::filter);
                    }
                    assert(ps.take(i + 1).drop_last() == ps.take(i as int));
                    assert(ps.take(i + 1).last() == self.mount_points@[i as int]@);
                    if !paths_equal(self.mount_points[i].as_str(), path.as_str()) {
                        let ghost before = kept@;
                        kept.push(self.mount_points[i].clone());
                        assert(strs(kept@) == strs(before).push(self.mount_points@[i as int]@));
                    }
                    i = i + 1;
                }
                assert(ps.take(ps.len() as int) == ps);
                self.mount_points = kept;
                let text = crate::text::concat("Removed mount point: ", path.as_str());
                self.set_status(text.as_str(), StatusKind::Success);
                let new_count = if listed > 0 {
                    listed - 1
                } else {
                    0
                };
                if self.cursor > 0 && self.cursor >= new_count {
                    self.cursor = self.cursor - 1;
                }
                None
            },
        }
    }

    /// A background result arrived.
    pub fn handle_async_result(&mut self, result: AsyncResult) -> (r: Option<Effect>)
        ensures
            (final(self)@, effect_view(r)) == async_step(old(self)@, result@),
    {
        match result {
            AsyncResult::Mount { name, result } => {
                self.mount_pending = false;
                match result {
                    Ok(()) => {
                        let text = crate::text::concat("Mounted ", name.as_str());
                        self.set_status(text.as_str(), StatusKind::Success);
                        Some(Effect::RefreshMounts)
                    },
                    Err(e) => {
                        let msg = e.message();
                        let mut text = text3("Failed to mount ", name.as_str(), ": ");
                        text.append(msg.as_str());
                        self.set_status(text.as_str(), StatusKind::Error);
                        None
                    },
                }
            },
            AsyncResult::Unmount { mount_point, result } => {
                self.mount_pending = false;
                match result {
                    Ok(()) => {
                        let text = crate::text::concat("Unmounted ", mount_point.as_str());
                        self.set_status(text.as_str(), StatusKind::Success);
                        Some(Effect::RefreshMounts)
                    },
                    Err(e) => {
                        let msg = e.message();
                        let text = crate::text::concat("Failed to unmount: ", msg.as_str());
                        self.set_status(text.as_str(), StatusKind::Error);
                        None
                    },
                }
            },
            AsyncResult::RefreshMounts(ms) => {
                self.mounts = ms;
                None
            },
        }
    }
}

/// The first position in the cache of an entry for the same path as `path`.
fn find_cached(c: &Vec<CachedUsage>, path: &str) -> (r: Option<usize>)
    ensures
        r matches Some(i) ==> cache_index(cache_views(c@), path@) == Some(i as int),
        r is None ==> cache_index(cache_views(c@), path@) is None,
{
    let ghost cv = cache_views(c@);
    let mut i: usize = 0;
    assert(cv.take(0) =~= Seq::<(Seq<char>, DiskUsage, u64)>::empty());
    while i < c.len()
        invariant
            i <= c@.len(),
            cv == cache_views(c@),
            cache_index(cv.take(i as int), path@) is None,
        decreases c@.len() - i,
    {
        assert(cv.take(i + 1).drop_last() == cv.take(i as int));
        assert(cv.take(i + 1).last() == cv[i as int]);
        if paths_equal(c[i].path.as_str(), path) {
            proof {
                lemma_cache_index_prefix(cv, path@, i + 1);
            }
            return Some(i);
        }
        i = i + 1;
    }
    assert(cv.take(c@.len() as int) == cv);
    None
}

impl App {
    /// The disk usage of `path` measured less than 30 seconds before `now`
    /// (in milliseconds), if the cache holds one; `None` means that it has
    /// to be measured, and the measurement handed to `record_disk_usage`.
    pub fn get_disk_usage(&self, path: &str, now: u64) -> (r: Option<DiskUsage>)
        ensures
            r == fresh_usage(self@, path@, now),
    {
        proof {
            lemma_cache_index_prefix(cache_views(self.disk_usage_cache@), path@, 0);
        }
        match find_cached(&self.disk_usage_cache, path) {
            Some(i) => {
                let e = &self.disk_usage_cache[i];
                assert(cache_views(self.disk_usage_cache@)[i as int] == (e.path@, e.usage, e.at));
                let age = if now >= e.at {
                    now - e.at
                } else {
                    0
                };
                if age < 30_000 {
                    Some(e.usage)
                } else {
                    None
                }
            },
            None => None,
        }
    }

    /// A disk usage of `path` was measured at `now`: a measurement is cached
    /// and returned; a failed one gives `None` and changes nothing.
    pub fn record_disk_usage(&mut self, path: &str, measured: Result<DiskUsage, MountError>, now: u64) -> (r: Option<DiskUsage>)
        ensures
            measured matches Ok(u) ==> r == Some(u) && final(self)@ == (AppView {
                disk_usage_cache: cache_with(old(self)@.disk_usage_cache, path@, u, now),
                ..old(self)@
            }),
            measured is Err ==> r is None && final(self)@ == old(self)@,
    {
        match measured {
            Err(_) => None,
            Ok(u) => {
                let ghost before = self.disk_usage_cache@;
                match find_cached(&self.disk_usage_cache, path) {
                    Some(i) => {
                        proof {
                            lemma_cache_index_prefix(cache_views(before), path@, 0);
                        }
                        let p = self.disk_usage_cache[i].path.clone();
                        let entry = CachedUsage { path: p, usage: u, at: now };
                        self.disk_usage_cache.set(i, entry);
                        assert(cache_views(self.disk_usage_cache@) == cache_views(before).update(
                            i as int,
                            (cache_views(before)[i as int].0, u, now),
                        ));
                    },
                    None => {
                        self.disk_usage_cache.push(
                            CachedUsage { path: String::from_str(path), usage: u, at: now },
                        );
                        assert(cache_views(self.disk_usage_cache@) == cache_views(before).push(
                            (path@, u, now),
                        ));
                    },
                }
                Some(u)
            },
        }
    }
}

} // verus!
