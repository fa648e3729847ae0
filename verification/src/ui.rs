//! What the screen shows, as text: the mount point rows, which filesystems
//! are remote, the status line and the key help.
use vstd::prelude::*;

use crate::app::{cache_with, fresh_usage, has_path, App, AppView, Mode, Tab};
use crate::bookmark::{protocol_name, BookmarkView};
use crate::mount::{DiskUsage, MountEntryView, MountError, MountErrorView};
use crate::path::paths_equal;
use crate::text::{chars_of, contains, contains_chars, lowercase, to_lowercase};

verus! {

/// The filesystem types of remote mounts.
pub open spec fn is_remote(fs_type: Seq<char>) -> bool {
    ||| fs_type == "nfs"@
    ||| fs_type == "sshfs"@
    ||| fs_type == "smbfs"@
    ||| fs_type == "cifs"@
    ||| fs_type == "fuse.sshfs"@
    ||| fs_type == "fuse.osxfuse"@
}

/// Whether a mount of this filesystem type is remote (NFS, SSHFS, SMB).
pub fn is_remote_fs(fs_type: &str) -> (r: bool)
    ensures
        r == is_remote(fs_type@),
{
    let t = String::from_str(fs_type);
    t == String::from_str("nfs") || t == String::from_str("sshfs") || t == String::from_str(
        "smbfs",
    ) || t == String::from_str("cifs") || t == String::from_str("fuse.sshfs") || t
        == String::from_str("fuse.osxfuse")
}

/// A row of the mount points tab.
#[derive(Debug)]
pub struct MountPointInfo {
    pub path: String,
    pub device: String,
    pub fs_type: String,
    pub disk_usage: Option<DiskUsage>,
    /// The row comes from a current mount (and has a disk usage to show).
    pub from_mount: bool,
}

/// A mount point row as plain values.
pub struct RowView {
    pub path: Seq<char>,
    pub device: Seq<char>,
    pub fs_type: Seq<char>,
    pub disk_usage: Option<DiskUsage>,
    pub from_mount: bool,
}

impl View for MountPointInfo {
    type V = RowView;

    open spec fn view(&self) -> RowView {
        RowView {
            path: self.path@,
            device: self.device@,
            fs_type: self.fs_type@,
            disk_usage: self.disk_usage,
            from_mount: self.from_mount,
        }
    }
}

/// The views of a list of rows.
pub open spec fn row_views(v: Seq<MountPointInfo>) -> Seq<RowView> {
    v.map_values(|r: MountPointInfo| r@)
}

/// The paths of a list of rows.
pub open spec fn row_paths(rows: Seq<RowView>) -> Seq<Seq<char>> {
    rows.map_values(|r: RowView| r.path)
}

/// `acc` followed by the rows of `items`, in order, whose path is not the
/// same as that of a row already there.
pub open spec fn add_new_rows(acc: Seq<RowView>, items: Seq<RowView>) -> Seq<RowView>
    decreases items.len(),
{
    if items.len() == 0 {
        acc
    } else {
        let a = add_new_rows(acc, items.drop_last());
        if has_path(row_paths(a), items.last().path) {
            a
        } else {
            a.push(items.last())
        }
    }
}

/// The row of a current mount: its mount point, device and type.
pub open spec fn mount_row(m: MountEntryView) -> RowView {
    RowView {
        path: m.mount_point,
        device: m.device,
        fs_type: m.fs_type,
        disk_usage: None,
        from_mount: true,
    }
}

/// The row of a bookmark: its mount point, `host:path` as the device and
/// the protocol as the type.
pub open spec fn bookmark_row(b: BookmarkView) -> RowView {
    RowView {
        path: b.mount_point,
        device: b.host + ":"@ + b.remote_path,
        fs_type: protocol_name(b.protocol),
        disk_usage: None,
        from_mount: false,
    }
}

/// The rows of the mount points tab before disk usage is known and before
/// the search query applies: a row per current mount, then per bookmark,
/// each path once.
pub open spec fn mount_point_rows_of(v: AppView) -> Seq<RowView> {
    add_new_rows(
        add_new_rows(Seq::empty(), v.mounts.map_values(|m: MountEntryView| mount_row(m))),
        v.bookmarks.map_values(|b: BookmarkView| bookmark_row(b)),
    )
}

/// Whether the row needs a disk usage measured at `now`: it comes from a
/// current mount and the cache holds no fresh usage for its path.
pub open spec fn usage_needed(v: AppView, row: RowView, now: u64) -> bool {
    row.from_mount && fresh_usage(v, row.path, now) is None
}

/// The app and the row after the row's disk usage is filled in at `now`: a
/// row of a bookmark is left as it is; a row of a current mount takes the
/// fresh cached usage, else the measurement `measured`, which is cached when
/// it succeeded; without a successful measurement it shows none.
pub open spec fn filled_row(
    v: AppView,
    row: RowView,
    now: u64,
    measured: Option<Result<DiskUsage, MountErrorView>>,
) -> (AppView, RowView) {
    if !row.from_mount {
        (v, row)
    } else {
        match fresh_usage(v, row.path, now) {
            Some(u) => (v, RowView { disk_usage: Some(u), ..row }),
            None => match measured {
                Some(Ok(u)) => (
                    AppView { disk_usage_cache: cache_with(v.disk_usage_cache, row.path, u, now), ..v },
                    RowView { disk_usage: Some(u), ..row },
                ),
                _ => (v, RowView { disk_usage: None, ..row }),
            },
        }
    }
}

/// The view of an optional measurement.
pub open spec fn measured_view(m: Option<Result<DiskUsage, MountError>>) -> Option<Result<DiskUsage, MountErrorView>> {
    match m {
        Some(Ok(u)) => Some(Ok(u)),
        Some(Err(e)) => Some(Err(e@)),
        None => None,
    }
}

/// Whether a row of `rows` has the same path as `p`.
fn row_has_path(rows: &Vec<MountPointInfo>, p: &str) -> (r: bool)
    ensures
        r == has_path(row_paths(row_views(rows@)), p@),
{
    let ghost ps = row_paths(row_views(rows@));
    let mut i: usize = 0;
    while i < rows.len()
        invariant
            i <= rows@.len(),
            ps == row_paths(row_views(rows@)),
            forall|k: int| 0 <= k < i ==> !crate::path::same_path(#[trigger] ps[k], p@),
        decreases rows@.len() - i,
    {
        assert(ps[i as int] == rows@[i as int].path@);
        if paths_equal(rows[i].path.as_str(), p) {
            return true;
        }
        i = i + 1;
    }
    false
}

/// Appends `row` to `rows` unless a row there has the same path.
fn push_new_row(rows: &mut Vec<MountPointInfo>, row: MountPointInfo)
    ensures
        row_views(final(rows)@) == (if has_path(row_paths(row_views(old(rows)@)), row@.path) {
            row_views(old(rows)@)
        } else {
            row_views(old(rows)@).push(row@)
        }),
{
    if !row_has_path(rows, row.path.as_str()) {
        let ghost before = rows@;
        let ghost rv = row@;
        rows.push(row);
        assert(row_views(rows@) == row_views(before).push(rv));
    }
}

impl App {
    /// Whether `row` needs its disk usage measured at `now` (in
    /// milliseconds) before `fill_disk_usage`.
    pub fn needs_disk_usage(&self, row: &MountPointInfo, now: u64) -> (r: bool)
        ensures
            r == usage_needed(self@, row@, now),
    {
        row.from_mount && self.get_disk_usage(row.path.as_str(), now).is_none()
    }

    /// Fills in the disk usage of `row` at `now`; `measured` is the
    /// measurement of its path, taken where `needs_disk_usage` said so.
    pub fn fill_disk_usage(&mut self, row: &mut MountPointInfo, now: u64, measured: Option<Result<DiskUsage, MountError>>)
        ensures
            (final(self)@, final(row)@) == filled_row(old(self)@, old(row)@, now, measured_view(measured)),
    {
        if row.from_mount {
            match self.get_disk_usage(row.path.as_str(), now) {
                Some(u) => {
                    row.disk_usage = Some(u);
                },
                None => {
                    let usage = match measured {
                        Some(m) => self.record_disk_usage(row.path.as_str(), m, now),
                        None => None,
                    };
                    row.disk_usage = usage;
                },
            }
        }
    }

    /// The rows of the mount points tab, without disk usage and before the
    /// search query applies.
    pub fn collect_mount_points(&self) -> (r: Vec<MountPointInfo>)
        ensures
            row_views(r@) == mount_point_rows_of(self@),
    {
        let mut rows: Vec<MountPointInfo> = Vec::new();
        let ghost from_mounts = self@.mounts.map_values(|m: MountEntryView| mount_row(m));
        let ghost from_bookmarks = self@.bookmarks.map_values(|b: BookmarkView| bookmark_row(b));
        let mut i: usize = 0;
        assert(from_mounts.take(0) =~= Seq::<RowView>::empty());
        assert(row_views(rows@) =~= Seq::<RowView>::empty());
        while i < self.mounts.len()
            invariant
                i <= self.mounts@.len(),
                from_mounts == self@.mounts.map_values(|m: MountEntryView| mount_row(m)),
                row_views(rows@) == add_new_rows(Seq::empty(), from_mounts.take(i as int)),
            decreases self.mounts@.len() - i,
        {
            let m = &self.mounts[i];
            assert(from_mounts.take(i + 1).drop_last() == from_mounts.take(i as int));
            assert(from_mounts.take(i + 1).last() == mount_row(m@));
            let row = MountPointInfo {
                path: m.mount_point.clone(),
                device: m.device.clone(),
                fs_type: m.fs_type.clone(),
                disk_usage: None,
                from_mount: true,
            };
            push_new_row(&mut rows, row);
            i = i + 1;
        }
        assert(from_mounts.take(self.mounts@.len() as int) == from_mounts);
        let ghost after_mounts = row_views(rows@);
        let mut j: usize = 0;
        assert(from_bookmarks.take(0) =~= Seq::<RowView>::empty());
        while j < self.bookmarks.len()
            invariant
                j <= self.bookmarks@.len(),
                from_bookmarks == self@.bookmarks.map_values(|b: BookmarkView| bookmark_row(b)),
                row_views(rows@) == add_new_rows(after_mounts, from_bookmarks.take(j as int)),
            decreases self.bookmarks@.len() - j,
        {
            let b = &self.bookmarks[j];
            assert(from_bookmarks.take(j + 1).drop_last() == from_bookmarks.take(j as int));
            assert(from_bookmarks.take(j + 1).last() == bookmark_row(b@));
            let mut device = String::from_str(b.host.as_str());
            device.append(":");
            device.append(b.remote_path.as_str());
            let row = MountPointInfo {
                path: b.mount_point.clone(),
                device,
                fs_type: b.protocol.to_string(),
                disk_usage: None,
                from_mount: false,
            };
            push_new_row(&mut rows, row);
            j = j + 1;
        }
        assert(from_bookmarks.take(self.bookmarks@.len() as int) == from_bookmarks);
        rows
    }

    /// The rows whose path matches the search query (all of them for an
    /// empty query), in order.
    pub fn filter_mount_point_rows(&self, rows: Vec<MountPointInfo>) -> (r: Vec<MountPointInfo>)
        ensures
            row_views(r@) == (if self@.search_query.len() == 0 {
                row_views(rows@)
            } else {
                rows_matching(row_views(rows@), self@.search_query)
            }),
    {
        if self.search_query.as_str().is_empty() {
            return rows;
        }
        let q = chars_of(to_lowercase(self.search_query.as_str()).as_str());
        let ghost rv = row_views(rows@);
        let ghost query = self.search_query@;
        let mut r: Vec<MountPointInfo> = Vec::new();
        let items = rows;
        let mut i: usize = 0;
        let n = items.len();
        assert(rv.take(0) =~= Seq::<RowView>::empty());
        assert(row_views(r@) =~= Seq::<RowView>::empty());
        while i < n
            invariant
                i <= n,
                n == items@.len(),
                row_views(items@) == rv,
                q@ == lowercase(query),
                row_views(r@) == rows_matching(rv.take(i as int), query),
            decreases n - i,
        {
            proof {
                reveal(Seq::filter);
            }
            assert(rv.take(i + 1).drop_last() == rv.take(i as int));
            assert(rv.take(i + 1).last() == items@[i as int]@);
            let lower = to_lowercase(items[i].path.as_str());
            if contains_chars(&chars_of(lower.as_str()), &q) {
                let ghost before = r@;
                let row = MountPointInfo {
                    path: items[i].path.clone(),
                    device: items[i].device.clone(),
                    fs_type: items[i].fs_type.clone(),
                    disk_usage: items[i].disk_usage,
                    from_mount: items[i].from_mount,
                };
                r.push(row);
                assert(row_views(r@) == row_views(before).push(items@[i as int]@));
            }
            i = i + 1;
        }
        assert(rv.take(n as int) == rv);
        r
    }
}

/// The rows whose path matches a non-empty query, in order.
pub open spec fn rows_matching(rows: Seq<RowView>, query: Seq<char>) -> Seq<RowView> {
    rows.filter(|r: RowView| contains(lowercase(r.path), lowercase(query)))
}

/// The text of the status line: the query while searching, a note while
/// editing the form, else the status message if any.
pub open spec fn status_line_text(v: AppView) -> Seq<char> {
    match v.mode {
        Mode::Search => "Search: "@ + v.search_query,
        Mode::Form => "Form mode"@,
        Mode::Normal => match v.status {
            Some((t, _)) => t,
            None => Seq::empty(),
        },
    }
}

impl App {
    /// The text of the status line.
    pub fn status_line(&self) -> (r: String)
        ensures
            r@ == status_line_text(self@),
    {
        match self.mode {
            Mode::Search => crate::text::concat("Search: ", self.search_query.as_str()),
            Mode::Form => String::from_str("Form mode"),
            Mode::Normal => match &self.status {
                Some(m) => m.text.clone(),
                None => String::new(),
            },
        }
    }

    /// The key help for the current mode and tab.
    pub fn help_line(&self) -> (r: &'static str)
        ensures
            r@ == help_text(self.mode, self.tab),
    {
        match self.mode {
            Mode::Normal => match self.tab {
                Tab::Mounts => "[j/k] Navigate  [u]Unmount  [r]Refresh  [/]Search  [1-3] Tab  [q]Quit",
                Tab::Bookmarks => "[j/k] Navigate  [m]Mount  [d]Delete  [a]Add  [e]Edit  [/]Search  [1-3] Tab  [q]Quit",
                Tab::MountPoints => "[j/k] Navigate  [c]Create  [x]Remove  [/]Search  [1-3] Tab  [q]Quit",
            },
            Mode::Search => "[Esc] Cancel  [Enter] Confirm  type to search",
            Mode::Form => "[Tab] Next field  [Esc] Cancel  [Enter] Confirm",
        }
    }
}

/// The key help for a mode and tab.
pub open spec fn help_text(mode: Mode, tab: Tab) -> Seq<char> {
    match mode {
        Mode::Normal => match tab {
            Tab::Mounts => "[j/k] Navigate  [u]Unmount  [r]Refresh  [/]Search  [1-3] Tab  [q]Quit"@,
            Tab::Bookmarks => "[j/k] Navigate  [m]Mount  [d]Delete  [a]Add  [e]Edit  [/]Search  [1-3] Tab  [q]Quit"@,
            Tab::MountPoints => "[j/k] Navigate  [c]Create  [x]Remove  [/]Search  [1-3] Tab  [q]Quit"@,
        },
        Mode::Search => "[Esc] Cancel  [Enter] Confirm  type to search"@,
        Mode::Form => "[Tab] Next field  [Esc] Cancel  [Enter] Confirm"@,
    }
}

} // verus!
