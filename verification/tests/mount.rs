use mountui::bookmark::{Bookmark, Protocol};
use mountui::mount::linux::{parse_proc_mounts_line, LinuxAdapter};
use mountui::mount::macos::{format_smb_remote, parse_mount_line, MacOsAdapter};
use mountui::mount::{
    after_unmount_attempt, df_output_overflows, disk_usage_command, disk_usage_outcome,
    format_remote_path, mount_outcome,
    parse_df_output, unmount_failure, CommandSpec, DiskUsage, MountAdapter, MountError,
};

fn cs(s: &str) -> Vec<char> {
    s.chars().collect()
}

fn bookmark(protocol: Protocol, user: Option<&str>, port: Option<u16>, opts: Option<&str>) -> Bookmark {
    Bookmark {
        name: "nas".to_string(),
        protocol,
        host: "host.lan".to_string(),
        port,
        remote_path: "/data".to_string(),
        mount_point: "/mnt/nas".to_string(),
        username: user.map(|s| s.to_string()),
        options: opts.map(|s| s.to_string()),
    }
}

fn args(c: &CommandSpec) -> Vec<&str> {
    c.args.iter().map(|s| s.as_str()).collect()
}

#[test]
fn proc_mounts_line_takes_first_four_fields() {
    let e = parse_proc_mounts_line(&cs("192.168.1.100:/ /mnt/nas nfs rw,vers=4 0 0")).unwrap();
    assert_eq!(e.device, "192.168.1.100:/");
    assert_eq!(e.mount_point, "/mnt/nas");
    assert_eq!(e.fs_type, "nfs");
    assert_eq!(e.options, "rw,vers=4");
    assert!(parse_proc_mounts_line(&cs("only three fields")).is_none());
}

#[test]
fn proc_mounts_text_skips_short_lines() {
    let text = "/dev/sda1 / ext4 rw 0 0\n\nbad line\nsshfs#u@h:/ /mnt/x fuse.sshfs rw 0 0\n";
    let entries = LinuxAdapter.parse_mounts(text);
    assert_eq!(entries.len(), 2);
    assert_eq!(entries[0].mount_point, "/");
    assert_eq!(entries[1].fs_type, "fuse.sshfs");
}

#[test]
fn linux_sshfs_command() {
    let b = bookmark(Protocol::Sshfs, Some("bob"), Some(2222), Some("ro"));
    let c = LinuxAdapter.mount_command(&b);
    assert_eq!(c.program, "sshfs");
    assert_eq!(args(&c), vec!["bob@host.lan:/data", "/mnt/nas", "-o", "ro", "-p", "2222"]);
    assert!(c.env.is_empty());
    let plain = bookmark(Protocol::Sshfs, None, None, None);
    assert_eq!(args(&LinuxAdapter.mount_command(&plain)), vec!["host.lan:/data", "/mnt/nas"]);
}

#[test]
fn linux_nfs_and_cifs_commands() {
    let nfs = bookmark(Protocol::Nfs, Some("bob"), None, Some("ro"));
    let c = LinuxAdapter.mount_command(&nfs);
    assert_eq!(c.program, "mount");
    assert_eq!(args(&c), vec!["-t", "nfs", "host.lan:/data", "/mnt/nas", "-o", "ro"]);
    let smb = bookmark(Protocol::Smb, Some("bob"), None, Some("vers=3"));
    let c = LinuxAdapter.mount_command(&smb);
    assert_eq!(
        args(&c),
        vec!["-t", "cifs", "//host.lan/data", "/mnt/nas", "-o", "user=bob", "-o", "vers=3"]
    );
}

#[test]
fn macos_commands() {
    let smb = bookmark(Protocol::Smb, Some("bob"), None, None);
    let c = MacOsAdapter.mount_command(&smb);
    assert_eq!(c.program, "mount_smbfs");
    assert_eq!(args(&c), vec!["//bob@host.lan/data", "/mnt/nas"]);
    let anon = bookmark(Protocol::Smb, None, None, Some("nobrowse"));
    assert_eq!(format_smb_remote(&anon), "//host.lan/data");
    assert_eq!(
        args(&MacOsAdapter.mount_command(&anon)),
        vec!["//host.lan/data", "/mnt/nas", "-o", "nobrowse"]
    );
    let nfs = bookmark(Protocol::Nfs, None, None, None);
    let n = MacOsAdapter.mount_command(&nfs);
    assert_eq!(n.program, "mount_nfs");
    assert_eq!(args(&n), vec!["host.lan:/data", "/mnt/nas"]);
    assert_eq!(format_remote_path(&bookmark(Protocol::Sshfs, Some("u"), None, None)), "u@host.lan:/data");
}

#[test]
fn unmount_commands_per_platform() {
    let l = LinuxAdapter.unmount_commands("/mnt/nas");
    assert_eq!(l.len(), 1);
    assert_eq!(l[0].program, "umount");
    assert_eq!(args(&l[0]), vec!["/mnt/nas"]);
    let m = MacOsAdapter.unmount_commands("/mnt/nas");
    assert_eq!(m.len(), 2);
    assert_eq!(m[1].program, "diskutil");
    assert_eq!(args(&m[1]), vec!["unmount", "/mnt/nas"]);
}

#[test]
fn macos_mount_line() {
    let e = parse_mount_line(&cs("/dev/disk1s1 on / (apfs, local, journaled)")).unwrap();
    assert_eq!(e.device, "/dev/disk1s1");
    assert_eq!(e.mount_point, "/");
    assert_eq!(e.fs_type, "apfs");
    assert_eq!(e.options, "apfs, local, journaled");
    let e = parse_mount_line(&cs("map auto_home on /System/Volumes/Data/home (autofs)")).unwrap();
    assert_eq!(e.device, "map auto_home");
    assert_eq!(e.fs_type, "autofs");
    assert!(parse_mount_line(&cs("no parenthesis on /x")).is_none());
    assert!(parse_mount_line(&cs("nothing here")).is_none());
    let entries = MacOsAdapter.parse_mounts("a on /a (nfs)\ngarbage\nb on /b (smbfs, nodev)\n");
    assert_eq!(entries.len(), 2);
    assert_eq!(entries[1].fs_type, "smbfs");
}

#[test]
fn df_output_is_read_in_bytes() {
    let text = "Filesystem 1024-blocks Used Available Capacity Mounted on\n/dev/disk1 100 40 60 40% /\n";
    assert!(!df_output_overflows(text));
    let u = parse_df_output(text).unwrap();
    assert_eq!(u, DiskUsage { total: 102400, used: 40960, available: 61440 });
}

#[test]
fn df_output_errors() {
    let msg = |r: Result<DiskUsage, MountError>| match r {
        Err(MountError::Parse(m)) => m,
        other => panic!("unexpected {:?}", other),
    };
    assert_eq!(msg(parse_df_output("Filesystem only\n")), "no data line in df output");
    assert_eq!(msg(parse_df_output("")), "no data line in df output");
    assert_eq!(msg(parse_df_output("h\n/dev 1 2\n")), "unexpected df output format");
    assert_eq!(msg(parse_df_output("h\n/dev x 2 3\n")), "invalid total");
    assert_eq!(msg(parse_df_output("h\n/dev 1 y 3\n")), "invalid used");
    assert_eq!(msg(parse_df_output("h\n/dev 1 2 z\n")), "invalid available");
    assert!(df_output_overflows("h\n/dev 18014398509481984 2 3\n"));
    assert!(!df_output_overflows("h\n/dev 18014398509481983 2 3\n"));
}

#[test]
fn df_command_uses_the_c_locale() {
    let c = disk_usage_command("/mnt/nas");
    assert_eq!(c.program, "df");
    assert_eq!(args(&c), vec!["-k", "/mnt/nas"]);
    assert_eq!(c.env, vec![("LC_ALL".to_string(), "C".to_string())]);
}

#[test]
fn errors_and_outcomes() {
    assert!(mount_outcome(true, String::new()).is_ok());
    match mount_outcome(false, "denied".to_string()) {
        Err(e) => assert_eq!(e.message(), "Mount failed: denied"),
        Ok(()) => panic!("expected an error"),
    }
    let one = unmount_failure(&vec!["busy".to_string()]);
    assert_eq!(one.message(), "Unmount failed: busy");
    let two = unmount_failure(&vec!["busy".to_string(), "still busy".to_string()]);
    assert_eq!(two.message(), "Unmount failed: busy\nstill busy");
    assert_eq!(MountError::Io("gone".to_string()).message(), "IO error: gone");
    assert_eq!(
        MountError::CommandFailed("df command failed".to_string()).message(),
        "Failed to execute command: df command failed"
    );
    assert_eq!(MountError::Parse("x".to_string()).message(), "Parse error: x");
}

#[test]
fn failed_runs_become_command_errors() {
    match disk_usage_outcome(false, "") {
        Err(e) => assert_eq!(e.message(), "Failed to execute command: df command failed"),
        Ok(_) => panic!("expected an error"),
    }
    assert_eq!(
        disk_usage_outcome(true, "h\n/dev 2 1 1 50% /\n").unwrap(),
        DiskUsage { total: 2048, used: 1024, available: 1024 }
    );
    match MacOsAdapter.mount_listing_outcome(false, "x on /x (nfs)") {
        Err(e) => assert_eq!(e.message(), "Failed to execute command: mount command failed"),
        Ok(_) => panic!("expected an error"),
    }
    assert_eq!(MacOsAdapter.mount_listing_outcome(true, "x on /x (nfs)").unwrap().len(), 1);
}

#[test]
fn unmount_attempts_stop_at_the_first_success() {
    let mut failures = Vec::new();
    assert!(after_unmount_attempt(false, "busy".to_string(), &mut failures, 1).is_none());
    assert_eq!(failures, vec!["busy"]);
    match after_unmount_attempt(false, "nope".to_string(), &mut failures, 0) {
        Some(Err(e)) => assert_eq!(e.message(), "Unmount failed: busy\nnope"),
        other => panic!("unexpected {:?}", other),
    }
    let mut none = Vec::new();
    assert!(matches!(after_unmount_attempt(true, String::new(), &mut none, 3), Some(Ok(()))));
    assert!(none.is_empty());
}
