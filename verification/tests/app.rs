use mountui::app::{
    App, AsyncResult, Effect, FormData, FormField, Key, Mode, RemovalEvent, RemovalStep,
    SaveReason, StatusKind, Tab,
};
use mountui::bookmark::{Bookmark, Protocol};
use mountui::mount::{DiskUsage, MountEntry, MountError};

fn bm(name: &str, protocol: Protocol, host: &str, mp: &str) -> Bookmark {
    Bookmark {
        name: name.to_string(),
        protocol,
        host: host.to_string(),
        port: None,
        remote_path: "/export".to_string(),
        mount_point: mp.to_string(),
        username: None,
        options: None,
    }
}

fn entry(device: &str, mp: &str, fs: &str) -> MountEntry {
    MountEntry {
        device: device.to_string(),
        mount_point: mp.to_string(),
        fs_type: fs.to_string(),
        options: "rw".to_string(),
    }
}

fn sample() -> App {
    App::new(
        "/cfg/bookmarks.toml".to_string(),
        vec![
            bm("nas", Protocol::Nfs, "nas.lan", "/mnt/nas/"),
            bm("Media", Protocol::Smb, "media.lan", "/mnt/media"),
            bm("backup", Protocol::Sshfs, "backup.lan", "/mnt/backup"),
        ],
        vec![entry("/dev/sda1", "/", "ext4"), entry("nas.lan:/export", "/mnt/nas", "nfs")],
    )
}

fn press(app: &mut App, key: Key) -> Option<Effect> {
    app.handle_key_event(key, true)
}

fn type_text(app: &mut App, text: &str) {
    for c in text.chars() {
        press(app, Key::Char(c));
    }
}

fn status(app: &App) -> (String, StatusKind) {
    let s = app.status.as_ref().expect("a status message");
    (s.text.clone(), s.kind)
}

#[test]
fn start_state_collects_mount_points() {
    let app = sample();
    assert_eq!(app.tab, Tab::Mounts);
    assert_eq!(app.mode, Mode::Normal);
    assert!(app.running);
    assert_eq!(app.mount_points, vec!["/", "/mnt/nas", "/mnt/media", "/mnt/backup"]);
    assert_eq!(app.bookmarks_path, "/cfg/bookmarks.toml");
}

#[test]
fn release_does_nothing_and_q_quits() {
    let mut app = sample();
    assert!(app.handle_key_event(Key::Char('q'), false).is_none());
    assert!(app.running);
    press(&mut app, Key::Char('q'));
    assert!(!app.running);
}

#[test]
fn tabs_switch_and_cycle() {
    let mut app = sample();
    assert!(press(&mut app, Key::Char('2')).is_none());
    assert_eq!(app.tab, Tab::Bookmarks);
    assert!(matches!(press(&mut app, Key::F(1)), Some(Effect::RefreshMounts)));
    assert_eq!(app.tab, Tab::Mounts);
    assert!(matches!(press(&mut app, Key::BackTab), None));
    assert_eq!(app.tab, Tab::MountPoints);
    assert!(matches!(press(&mut app, Key::Tab), Some(Effect::RefreshMounts)));
    assert_eq!(app.tab, Tab::Mounts);
    assert_eq!(Tab::from_index(7), Tab::MountPoints);
    assert_eq!(Tab::MountPoints.title(), "Mount Points");
    assert_eq!(Tab::Bookmarks.index(), 1);
}

#[test]
fn cursor_wraps_around_shown_items() {
    let mut app = sample();
    press(&mut app, Key::Char('2'));
    press(&mut app, Key::Char('k'));
    assert_eq!(app.cursor, 2);
    press(&mut app, Key::Down);
    assert_eq!(app.cursor, 0);
    press(&mut app, Key::End);
    assert_eq!(app.cursor, 2);
    press(&mut app, Key::Char('g'));
    assert_eq!(app.cursor, 0);
    assert_eq!(app.filtered_items_count(), 3);
}

#[test]
fn search_filters_case_insensitively() {
    let mut app = sample();
    press(&mut app, Key::Char('2'));
    press(&mut app, Key::Char('/'));
    assert_eq!(app.mode, Mode::Search);
    type_text(&mut app, "MEDIA");
    assert_eq!(app.search_query, "MEDIA");
    let shown = app.filtered_bookmarks();
    assert_eq!(shown.len(), 1);
    assert_eq!(shown[0].name, "Media");
    press(&mut app, Key::Backspace);
    assert_eq!(app.search_query, "MEDI");
    press(&mut app, Key::Enter);
    assert_eq!(app.mode, Mode::Normal);
    assert_eq!(app.search_query, "MEDI");
    press(&mut app, Key::Char('/'));
    type_text(&mut app, "smb");
    assert_eq!(app.filtered_bookmarks().len(), 1);
    press(&mut app, Key::Esc);
    assert_eq!(app.search_query, "");
    assert_eq!(app.filtered_bookmarks().len(), 3);
    app.search_query = "NFS".to_string();
    let mounts = app.filtered_mounts();
    assert_eq!(mounts.len(), 1);
    assert_eq!(mounts[0].mount_point, "/mnt/nas");
    app.search_query = "ME".to_string();
    assert_eq!(app.filtered_mount_point_paths(), vec!["/mnt/media"]);
}

#[test]
fn adding_a_bookmark_through_the_form() {
    let mut app = sample();
    press(&mut app, Key::Char('2'));
    press(&mut app, Key::Char('a'));
    assert_eq!(app.mode, Mode::Form);
    type_text(&mut app, " new ");
    press(&mut app, Key::Tab);
    press(&mut app, Key::Backspace);
    press(&mut app, Key::Backspace);
    press(&mut app, Key::Backspace);
    press(&mut app, Key::Backspace);
    press(&mut app, Key::Backspace);
    type_text(&mut app, "smb");
    press(&mut app, Key::Tab);
    type_text(&mut app, "srv");
    press(&mut app, Key::Tab);
    type_text(&mut app, "445");
    press(&mut app, Key::Tab);
    type_text(&mut app, "/share");
    press(&mut app, Key::Tab);
    type_text(&mut app, "/mnt/new");
    let effect = press(&mut app, Key::Enter);
    assert!(matches!(effect, Some(Effect::SaveBookmarks(SaveReason::Added))));
    assert_eq!(app.mode, Mode::Normal);
    assert_eq!(app.tab, Tab::Bookmarks);
    assert!(app.form.is_none());
    let b = app.bookmarks.last().unwrap();
    assert_eq!(b.name, "new");
    assert_eq!(b.protocol, Protocol::Smb);
    assert_eq!(b.port, Some(445));
    assert_eq!(b.username, None);
    app.finish_save(SaveReason::Added, Ok(()));
    assert_eq!(status(&app), ("Added bookmark 'new'".to_string(), StatusKind::Success));
}

#[test]
fn form_refuses_missing_fields_and_duplicates() {
    let mut app = sample();
    press(&mut app, Key::Char('2'));
    press(&mut app, Key::Char('a'));
    assert!(press(&mut app, Key::Enter).is_none());
    assert_eq!(
        status(&app),
        ("Name, Host, and Mount Point are required".to_string(), StatusKind::Error)
    );
    assert!(app.form.is_some());
    assert_eq!(app.mode, Mode::Form);
    type_text(&mut app, "nas");
    press(&mut app, Key::Tab);
    press(&mut app, Key::Tab);
    type_text(&mut app, "h");
    for _ in 0..3 {
        press(&mut app, Key::Tab);
    }
    type_text(&mut app, "/mnt/x");
    assert!(press(&mut app, Key::Enter).is_none());
    assert_eq!(status(&app), ("Bookmark 'nas' already exists".to_string(), StatusKind::Error));
    assert_eq!(app.bookmarks.len(), 3);
    press(&mut app, Key::BackTab);
    assert_eq!(app.form.as_ref().unwrap().cursor_field, 4);
    press(&mut app, Key::Esc);
    assert!(app.form.is_none());
    assert_eq!(app.mode, Mode::Normal);
}

#[test]
fn editing_a_bookmark_replaces_it() {
    let mut app = sample();
    press(&mut app, Key::Char('2'));
    press(&mut app, Key::Char('j'));
    press(&mut app, Key::Char('e'));
    let form = app.form.as_ref().unwrap();
    assert!(form.editing);
    assert_eq!(form.fields[0], "Media");
    assert_eq!(form.fields[1], "smb");
    type_text(&mut app, "2");
    assert!(matches!(press(&mut app, Key::Enter), Some(Effect::SaveBookmarks(SaveReason::Updated))));
    assert_eq!(app.bookmarks[1].name, "Media2");
    app.finish_save(SaveReason::Updated, Ok(()));
    assert_eq!(status(&app), ("Updated bookmark 'backup'".to_string(), StatusKind::Success));
}

#[test]
fn form_for_edit_reads_back_the_bookmark() {
    let mut b = bm("nas", Protocol::Sshfs, "nas.lan", "/mnt/nas");
    b.port = Some(2222);
    b.username = Some("bob".to_string());
    b.options = Some("ro".to_string());
    let f = FormData::new_for_edit(&b);
    assert_eq!(f.fields[FormField::Port.index()], "2222");
    assert_eq!(f.original_name, Some("nas".to_string()));
    let back = f.to_bookmark().unwrap();
    assert_eq!(back.name, b.name);
    assert_eq!(back.protocol, b.protocol);
    assert_eq!(back.port, b.port);
    assert_eq!(back.username, b.username);
    assert_eq!(back.options, b.options);
    assert_eq!(back.remote_path, b.remote_path);
    assert!(FormData::new_for_add().to_bookmark().is_none());
    assert_eq!(FormData::new_for_add().fields[1], "sshfs");
    assert_eq!(FormField::Protocol.label(), "Protocol (sshfs/nfs/smb)");
}

#[test]
fn to_bookmark_trims_and_defaults() {
    let mut f = FormData::new_for_add();
    f.fields[0] = "  x ".to_string();
    f.fields[1] = " NFS ".to_string();
    f.fields[2] = "h".to_string();
    f.fields[3] = "99999".to_string();
    f.fields[5] = " /m ".to_string();
    f.fields[6] = "   ".to_string();
    let b = f.to_bookmark().unwrap();
    assert_eq!(b.name, "x");
    assert_eq!(b.protocol, Protocol::Sshfs);
    assert_eq!(b.port, None);
    assert_eq!(b.mount_point, "/m");
    assert_eq!(b.username, None);
    f.fields[1] = "nfs".to_string();
    assert_eq!(f.to_bookmark().unwrap().protocol, Protocol::Nfs);
}

#[test]
fn deleting_a_bookmark() {
    let mut app = sample();
    press(&mut app, Key::Char('d'));
    assert_eq!(app.bookmarks.len(), 3);
    press(&mut app, Key::Char('2'));
    press(&mut app, Key::End);
    let effect = press(&mut app, Key::Char('d'));
    match effect {
        Some(Effect::SaveBookmarks(SaveReason::Deleted(name))) => assert_eq!(name, "backup"),
        other => panic!("unexpected {:?}", other),
    }
    assert_eq!(app.bookmarks.len(), 2);
    assert_eq!(app.cursor, 1);
    app.finish_save(SaveReason::Deleted("backup".to_string()), Err("disk full".to_string()));
    assert_eq!(status(&app), ("Failed to save: disk full".to_string(), StatusKind::Error));
    app.finish_save(SaveReason::Deleted("backup".to_string()), Ok(()));
    assert_eq!(status(&app), ("Deleted bookmark 'backup'".to_string(), StatusKind::Success));
}

#[test]
fn mounting_one_at_a_time() {
    let mut app = sample();
    press(&mut app, Key::Char('2'));
    match press(&mut app, Key::Char('m')) {
        Some(Effect::Mount(b)) => assert_eq!(b.name, "nas"),
        other => panic!("unexpected {:?}", other),
    }
    assert!(app.mount_pending);
    assert_eq!(status(&app), ("Mounting nas...".to_string(), StatusKind::Info));
    assert!(press(&mut app, Key::Char('m')).is_none());
    assert_eq!(status(&app), ("Mount operation already in progress".to_string(), StatusKind::Info));
    assert!(matches!(press(&mut app, Key::Char('1')), Some(Effect::RefreshMounts)));
    assert!(press(&mut app, Key::Char('u')).is_none());
    assert_eq!(status(&app), ("Operation already in progress".to_string(), StatusKind::Info));
    press(&mut app, Key::Char('2'));
    let effect = app.handle_async_result(AsyncResult::Mount { name: "nas".to_string(), result: Ok(()) });
    assert!(matches!(effect, Some(Effect::RefreshMounts)));
    assert!(!app.mount_pending);
    assert_eq!(status(&app), ("Mounted nas".to_string(), StatusKind::Success));
    let effect = app.handle_async_result(AsyncResult::Mount {
        name: "nas".to_string(),
        result: Err(MountError::MountFailed("no route".to_string())),
    });
    assert!(effect.is_none());
    assert_eq!(
        status(&app),
        ("Failed to mount nas: Mount failed: no route".to_string(), StatusKind::Error)
    );
}

#[test]
fn unmounting_the_mount_under_the_cursor() {
    let mut app = sample();
    press(&mut app, Key::Char('j'));
    match press(&mut app, Key::Char('u')) {
        Some(Effect::Unmount(mp)) => assert_eq!(mp, "/mnt/nas"),
        other => panic!("unexpected {:?}", other),
    }
    assert_eq!(status(&app), ("Unmounting /mnt/nas...".to_string(), StatusKind::Info));
    let effect = app.handle_async_result(AsyncResult::Unmount {
        mount_point: "/mnt/nas".to_string(),
        result: Err(MountError::UnmountFailed("busy".to_string())),
    });
    assert!(effect.is_none());
    assert!(!app.mount_pending);
    assert_eq!(status(&app), ("Failed to unmount: Unmount failed: busy".to_string(), StatusKind::Error));
    let effect = app.handle_async_result(AsyncResult::Unmount { mount_point: "/mnt/nas".to_string(), result: Ok(()) });
    assert!(matches!(effect, Some(Effect::RefreshMounts)));
    assert_eq!(status(&app), ("Unmounted /mnt/nas".to_string(), StatusKind::Success));
    app.handle_async_result(AsyncResult::RefreshMounts(vec![entry("/dev/sda1", "/", "ext4")]));
    assert_eq!(app.mounts.len(), 1);
    assert!(matches!(press(&mut app, Key::Char('r')), Some(Effect::RefreshMountsInBackground)));
}

#[test]
fn removing_a_mount_point_step_by_step() {
    let mut app = sample();
    press(&mut app, Key::Char('3'));
    assert_eq!(app.filtered_mount_point_paths(), vec!["/", "/mnt/nas", "/mnt/media", "/mnt/backup"]);
    press(&mut app, Key::Char('j'));
    assert!(press(&mut app, Key::Char('x')).is_none());
    assert_eq!(status(&app), ("Cannot remove: mount point is in use".to_string(), StatusKind::Error));
    press(&mut app, Key::End);
    let (path, listed) = match press(&mut app, Key::Char('x')) {
        Some(Effect::RemoveMountPoint { path, listed, step: RemovalStep::CheckExists }) => (path, listed),
        other => panic!("unexpected {:?}", other),
    };
    assert_eq!(path, "/mnt/backup");
    assert_eq!(listed, 4);
    assert!(app.continue_removal(path.clone(), listed, RemovalEvent::Exists(false)).is_none());
    assert_eq!(status(&app), ("Directory does not exist".to_string(), StatusKind::Error));
    assert!(matches!(
        app.continue_removal(path.clone(), listed, RemovalEvent::Exists(true)),
        Some(Effect::RemoveMountPoint { step: RemovalStep::ReadDir, .. })
    ));
    assert!(app.continue_removal(path.clone(), listed, RemovalEvent::Listed(Ok(true))).is_none());
    assert_eq!(status(&app), ("Cannot remove: directory is not empty".to_string(), StatusKind::Error));
    assert!(app.continue_removal(path.clone(), listed, RemovalEvent::Listed(Err("denied".to_string()))).is_none());
    assert_eq!(status(&app), ("Cannot read directory: denied".to_string(), StatusKind::Error));
    assert!(matches!(
        app.continue_removal(path.clone(), listed, RemovalEvent::Listed(Ok(false))),
        Some(Effect::RemoveMountPoint { step: RemovalStep::RemoveDir, .. })
    ));
    assert!(app.continue_removal(path.clone(), listed, RemovalEvent::Removed(Err("busy".to_string()))).is_none());
    assert_eq!(status(&app), ("Failed to remove: busy".to_string(), StatusKind::Error));
    assert!(app.continue_removal(path.clone(), listed, RemovalEvent::Removed(Ok(()))).is_none());
    assert_eq!(status(&app), ("Removed mount point: /mnt/backup".to_string(), StatusKind::Success));
    assert_eq!(app.mount_points, vec!["/", "/mnt/nas", "/mnt/media"]);
    assert_eq!(app.cursor, 2);
}

#[test]
fn disk_usage_is_cached_for_thirty_seconds() {
    let mut app = sample();
    assert_eq!(app.get_disk_usage("/mnt/nas", 1_000), None);
    let u = DiskUsage { total: 10, used: 4, available: 6 };
    assert_eq!(app.record_disk_usage("/mnt/nas", Ok(u), 1_000), Some(u));
    assert_eq!(app.get_disk_usage("/mnt/nas/", 30_999), Some(u));
    assert_eq!(app.get_disk_usage("/mnt/nas", 31_000), None);
    assert_eq!(app.record_disk_usage("/mnt/nas", Err(MountError::Parse("x".to_string())), 40_000), None);
    assert_eq!(app.disk_usage_cache.len(), 1);
    let v = DiskUsage { total: 20, used: 5, available: 15 };
    app.record_disk_usage("/mnt//nas", Ok(v), 40_000);
    assert_eq!(app.disk_usage_cache.len(), 1);
    assert_eq!(app.disk_usage_cache[0].path, "/mnt/nas");
    assert_eq!(app.get_disk_usage("/mnt/nas", 45_000), Some(v));
}

#[test]
fn mount_point_rows_and_bookmark_state() {
    let mut app = sample();
    let rows = app.collect_mount_points();
    let paths: Vec<&str> = rows.iter().map(|r| r.path.as_str()).collect();
    assert_eq!(paths, vec!["/", "/mnt/nas", "/mnt/media", "/mnt/backup"]);
    assert_eq!(rows[2].device, "media.lan:/export");
    assert_eq!(rows[2].fs_type, "smb");
    assert!(rows[1].from_mount && !rows[2].from_mount);
    app.search_query = "BACK".to_string();
    let kept = app.filter_mount_point_rows(rows);
    assert_eq!(kept.len(), 1);
    assert_eq!(kept[0].path, "/mnt/backup");
    assert!(!app.is_bookmark_mounted(&app.bookmarks[0].clone()));
    let exact = bm("x", Protocol::Nfs, "h", "/mnt/nas");
    assert!(app.is_bookmark_mounted(&exact));
}

#[test]
fn status_and_help_lines() {
    let mut app = sample();
    assert_eq!(app.status_line(), "");
    assert_eq!(app.help_line(), "[j/k] Navigate  [u]Unmount  [r]Refresh  [/]Search  [1-3] Tab  [q]Quit");
    app.set_status("hello", StatusKind::Info);
    assert_eq!(app.status_line(), "hello");
    app.clear_status();
    assert!(app.status.is_none());
    press(&mut app, Key::Char('/'));
    type_text(&mut app, "ab");
    assert_eq!(app.status_line(), "Search: ab");
    assert_eq!(app.help_line(), "[Esc] Cancel  [Enter] Confirm  type to search");
    press(&mut app, Key::Esc);
    press(&mut app, Key::Char('2'));
    press(&mut app, Key::Char('a'));
    assert_eq!(app.status_line(), "Form mode");
    assert_eq!(Protocol::Sshfs.to_string(), "sshfs");
    assert!(mountui::ui::is_remote_fs("fuse.sshfs"));
    assert!(!mountui::ui::is_remote_fs("ext4"));
}

#[test]
fn action_keys_act_only_on_their_tab() {
    let mut app = sample();
    // Mounts tab: `m` and `a` do nothing.
    assert!(press(&mut app, Key::Char('m')).is_none());
    assert!(press(&mut app, Key::Char('a')).is_none());
    assert!(app.form.is_none());
    assert_eq!(app.mode, Mode::Normal);
    assert!(!app.mount_pending);
    assert!(app.status.is_none());
    // Bookmarks tab: `u` does nothing.
    press(&mut app, Key::Char('2'));
    assert!(press(&mut app, Key::Char('u')).is_none());
    assert!(!app.mount_pending);
    assert!(app.status.is_none());
    // Mount Points tab: none of the three acts.
    press(&mut app, Key::Char('3'));
    assert!(press(&mut app, Key::Char('u')).is_none());
    assert!(press(&mut app, Key::Char('m')).is_none());
    assert!(press(&mut app, Key::Char('a')).is_none());
    assert!(app.form.is_none());
    assert!(!app.mount_pending);
    assert_eq!(app.tab, Tab::MountPoints);
}

#[test]
fn filling_disk_usage_of_mount_point_rows() {
    let mut app = sample();
    let mut rows = app.collect_mount_points();
    // Rows: "/", "/mnt/nas" (mounts), "/mnt/media", "/mnt/backup" (bookmarks).
    assert_eq!(rows.len(), 4);
    let u = DiskUsage { total: 100, used: 40, available: 60 };
    assert!(app.needs_disk_usage(&rows[1], 5_000));
    assert!(!app.needs_disk_usage(&rows[2], 5_000));
    app.fill_disk_usage(&mut rows[1], 5_000, Some(Ok(u)));
    assert_eq!(rows[1].disk_usage, Some(u));
    assert_eq!(app.get_disk_usage("/mnt/nas", 6_000), Some(u));
    // Fresh in the cache: no measurement needed, the cached value is used.
    let mut again = app.collect_mount_points();
    assert!(!app.needs_disk_usage(&again[1], 6_000));
    app.fill_disk_usage(&mut again[1], 6_000, None);
    assert_eq!(again[1].disk_usage, Some(u));
    // A failed measurement shows nothing and caches nothing.
    app.fill_disk_usage(&mut rows[0], 5_000, Some(Err(MountError::Parse("bad".to_string()))));
    assert_eq!(rows[0].disk_usage, None);
    assert_eq!(app.get_disk_usage("/", 5_000), None);
    // A bookmark's row is left alone.
    app.fill_disk_usage(&mut rows[3], 5_000, Some(Ok(u)));
    assert_eq!(rows[3].disk_usage, None);
    assert_eq!(app.get_disk_usage("/mnt/backup", 5_000), None);
}
