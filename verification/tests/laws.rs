use mountui::app::{App, FormData, Key, Mode, Tab};
use mountui::bookmark::{Bookmark, Protocol};
use mountui::mount::linux::parse_proc_mounts_line;
use mountui::mount::MountEntry;

fn app() -> App {
    App::new(
        "b.toml".to_string(),
        vec![Bookmark {
            name: "nas".to_string(),
            protocol: Protocol::Nfs,
            host: "nas".to_string(),
            port: Some(2049),
            remote_path: "/x".to_string(),
            mount_point: "/mnt/nas".to_string(),
            username: Some("me".to_string()),
            options: None,
        }],
        vec![MountEntry {
            device: "d".to_string(),
            mount_point: "/mnt/nas/".to_string(),
            fs_type: "nfs".to_string(),
            options: "rw".to_string(),
        }],
    )
}

#[test]
fn search_typing_is_undone_by_backspace() {
    let mut a = app();
    a.handle_key_event(Key::Char('/'), true);
    a.handle_key_event(Key::Char('n'), true);
    let before = a.search_query.clone();
    a.handle_key_event(Key::Char('é'), true);
    a.handle_key_event(Key::Backspace, true);
    assert_eq!(a.search_query, before);
    a.handle_key_event(Key::Esc, true);
    assert_eq!(a.search_query, "");
    assert_eq!(a.mode, Mode::Normal);
}

#[test]
fn form_typing_and_field_moves_are_undone() {
    let mut a = app();
    a.handle_key_event(Key::Char('2'), true);
    a.handle_key_event(Key::Char('e'), true);
    a.handle_key_event(Key::Tab, true);
    a.handle_key_event(Key::Tab, true);
    let fields = a.form.as_ref().unwrap().fields.clone();
    a.handle_key_event(Key::Char('z'), true);
    assert_eq!(a.form.as_ref().unwrap().fields[2], "nasz");
    a.handle_key_event(Key::Backspace, true);
    assert_eq!(a.form.as_ref().unwrap().fields, fields);
    a.handle_key_event(Key::Tab, true);
    a.handle_key_event(Key::BackTab, true);
    assert_eq!(a.form.as_ref().unwrap().cursor_field, 2);
    for _ in 0..8 {
        a.handle_key_event(Key::Tab, true);
    }
    assert_eq!(a.form.as_ref().unwrap().cursor_field, 2);
}

#[test]
fn unchanged_edit_form_gives_back_the_bookmark() {
    let a = app();
    let b = &a.bookmarks[0];
    let back = FormData::new_for_edit(b).to_bookmark().unwrap();
    assert_eq!(
        (back.name.as_str(), back.protocol, back.host.as_str(), back.port),
        (b.name.as_str(), b.protocol, b.host.as_str(), b.port)
    );
    assert_eq!(
        (back.remote_path.as_str(), back.mount_point.as_str(), back.username.clone(), back.options.clone()),
        (b.remote_path.as_str(), b.mount_point.as_str(), b.username.clone(), b.options.clone())
    );
}

#[test]
fn tab_then_back_tab_returns() {
    let mut a = app();
    a.handle_key_event(Key::Char('2'), true);
    a.handle_key_event(Key::Tab, true);
    assert_eq!(a.tab, Tab::MountPoints);
    a.handle_key_event(Key::BackTab, true);
    assert_eq!(a.tab, Tab::Bookmarks);
}

#[test]
fn mount_points_are_listed_once_and_remembered() {
    let a = app();
    assert_eq!(a.mount_points, vec!["/mnt/nas/"]);
    assert_eq!(a.filtered_mount_point_paths(), vec!["/mnt/nas/"]);
}

#[test]
fn mount_point_in_use_is_not_removed() {
    let mut a = app();
    a.handle_key_event(Key::Char('3'), true);
    assert!(a.handle_key_event(Key::Char('x'), true).is_none());
    assert_eq!(a.mount_points.len(), 1);
}

#[test]
fn proc_mounts_fields_have_no_whitespace() {
    let e = parse_proc_mounts_line(&"  dev\t/mnt   nfs rw ".chars().collect::<Vec<_>>()).unwrap();
    for f in [&e.device, &e.mount_point, &e.fs_type, &e.options] {
        assert!(!f.is_empty() && !f.chars().any(char::is_whitespace));
    }
}

fn wider_app() -> App {
    let mut a = app();
    a.mounts.push(MountEntry {
        device: "/dev/sda1".to_string(),
        mount_point: "/".to_string(),
        fs_type: "ext4".to_string(),
        options: "rw".to_string(),
    });
    a.bookmarks.push(Bookmark {
        name: "Backup".to_string(),
        protocol: Protocol::Sshfs,
        host: "backup.lan".to_string(),
        port: None,
        remote_path: "/b".to_string(),
        mount_point: "/mnt/backup".to_string(),
        username: None,
        options: None,
    });
    a
}

#[test]
fn longer_query_only_narrows() {
    let mut a = wider_app();
    a.search_query = "N".to_string();
    let wide_mounts = a.filtered_mounts();
    let wide_bookmarks = a.filtered_bookmarks();
    let wide_paths = a.filtered_mount_point_paths();
    assert_eq!(wide_mounts.len(), 1);
    assert_eq!(wide_paths, vec!["/mnt/nas/", "/mnt/backup"]);
    assert_eq!(wide_bookmarks.len(), 2);
    a.search_query = "nAs".to_string();
    let narrow_mounts = a.filtered_mounts();
    let narrow_bookmarks = a.filtered_bookmarks();
    let narrow_paths = a.filtered_mount_point_paths();
    assert!(narrow_mounts.iter().all(|m| wide_mounts.iter().any(|w| w.mount_point == m.mount_point)));
    assert!(narrow_bookmarks.iter().all(|b| wide_bookmarks.iter().any(|w| w.name == b.name)));
    assert!(narrow_paths.iter().all(|p| wide_paths.contains(p)));
    assert_eq!(narrow_bookmarks.len(), 1);
    a.search_query = String::new();
    assert_eq!(a.filtered_mounts().len(), 2);
}

#[test]
fn mount_point_rows_have_the_filtered_paths() {
    let mut a = wider_app();
    for q in ["", "mnt", "BACK", "zzz"] {
        a.search_query = q.to_string();
        let rows = a.filter_mount_point_rows(a.collect_mount_points());
        let paths: Vec<String> = rows.iter().map(|r| r.path.clone()).collect();
        assert_eq!(paths, a.filtered_mount_point_paths(), "query {q:?}");
    }
}
