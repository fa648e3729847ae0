//! Mounting on Linux: `/proc/mounts`, `mount -t nfs|cifs`, `sshfs`, `umount`.
use vstd::prelude::*;

use crate::bookmark::{opt_view, Bookmark, BookmarkView, Protocol};
use crate::mount::{
    build_sshfs_command, command, entry_views, format_nfs_remote, mount_t_args, mount_t_command,
    nfs_remote, opt_flag, push_arg, push_opt_flag, remote_path_without_root, sshfs_command, strs,
    CommandSpec, CommandView, MountAdapter, MountEntry, MountEntryView,
};
use crate::text::{
    chars_of, clean_run, lemma_runs_clean, lines, lines_of, string_of, trim_start_char, views,
    words, words_of,
};

verus! {

/// The Linux side of mounting.
pub struct LinuxAdapter;

/// The mount entry of a `/proc/mounts` line
/// `device mount_point fs_type options dump pass`: the first four
/// whitespace-separated fields, when there are at least four.
pub open spec fn proc_mounts_entry(line: Seq<char>) -> Option<MountEntryView> {
    let w = words(line);
    if w.len() < 4 {
        None
    } else {
        Some(MountEntryView { device: w[0], mount_point: w[1], fs_type: w[2], options: w[3] })
    }
}

/// Every field of a `/proc/mounts` entry is non-empty and holds no
/// whitespace.
pub proof fn law_proc_mounts_fields_clean(line: Seq<char>)
    ensures
        proc_mounts_entry(line) matches Some(e) ==> clean_run(e.device, None) && clean_run(
            e.mount_point,
            None,
        ) && clean_run(e.fs_type, None) && clean_run(e.options, None),
{
    lemma_runs_clean(line, None);
    let w = words(line);
    if w.len() >= 4 {
        assert(clean_run(w[0], None) && clean_run(w[1], None) && clean_run(w[2], None)
            && clean_run(w[3], None));
    }
}

/// The mount entries of the lines of `/proc/mounts` that have one.
pub open spec fn proc_mounts_entries(ls: Seq<Seq<char>>) -> Seq<MountEntryView> {
    ls.filter_map(|l: Seq<char>| proc_mounts_entry(l))
}

/// Parses a `/proc/mounts` line.
pub fn parse_proc_mounts_line(line: &[char]) -> (r: Option<MountEntry>)
    ensures
        r matches Some(e) ==> proc_mounts_entry(line@) == Some(e@),
        r is None ==> proc_mounts_entry(line@) is None,
{
    let parts = words_of(line);
    if parts.len() < 4 {
        return None;
    }
    assert(views(parts@)[0] == parts@[0]@);
    assert(views(parts@)[1] == parts@[1]@);
    assert(views(parts@)[2] == parts@[2]@);
    assert(views(parts@)[3] == parts@[3]@);
    Some(
        MountEntry {
            device: string_of(&parts[0]),
            mount_point: string_of(&parts[1]),
            fs_type: string_of(&parts[2]),
            options: string_of(&parts[3]),
        },
    )
}

/// The CIFS target of a bookmark: `//host/path` with the path's leading
/// `'/'` characters removed.
pub open spec fn cifs_remote(b: BookmarkView) -> Seq<char> {
    "//"@ + b.host + "/"@ + trim_start_char(b.remote_path, '/')
}

/// The `user=<name>` mount option of a bookmark with a user name.
pub open spec fn cifs_user(b: BookmarkView) -> Option<Seq<char>> {
    match b.username {
        Some(u) => Some("user="@ + u),
        None => None,
    }
}

/// The command that mounts a bookmark on Linux: `sshfs` for SSHFS,
/// `mount -t nfs` for NFS, `mount -t cifs` with the user as an option for
/// SMB; the bookmark's options follow `-o`.
pub open spec fn linux_mount_command(b: BookmarkView) -> CommandView {
    match b.protocol {
        Protocol::Sshfs => sshfs_command(b),
        Protocol::Nfs => mount_t_command(
            "nfs"@,
            nfs_remote(b),
            b.mount_point,
            opt_flag("-o"@, b.options),
        ),
        Protocol::Smb => mount_t_command(
            "cifs"@,
            cifs_remote(b),
            b.mount_point,
            opt_flag("-o"@, cifs_user(b)) + opt_flag("-o"@, b.options),
        ),
    }
}

/// The command `umount <mount point>`.
pub open spec fn umount_command(mount_point: Seq<char>) -> CommandView {
    CommandView { program: "umount"@, args: seq![mount_point], env: Seq::empty() }
}

/// The command `umount <mount point>`.
pub fn build_umount_command(mount_point: &str) -> (r: CommandSpec)
    ensures
        r@ == umount_command(mount_point@),
{
    let mut args: Vec<String> = Vec::new();
    push_arg(&mut args, String::from_str(mount_point));
    assert(strs(args@) =~= seq![mount_point@]);
    command("umount", args)
}

/// The views of a list of commands.
pub open spec fn command_views(v: Seq<CommandSpec>) -> Seq<CommandView> {
    v.map_values(|c: CommandSpec| c@)
}

impl LinuxAdapter {
    /// The command that mounts the target of `bookmark`.
    pub fn build_mount_command(&self, bookmark: &Bookmark) -> (r: CommandSpec)
        ensures
            r@ == linux_mount_command(bookmark@),
    {
        let b = bookmark;
        match b.protocol {
            Protocol::Sshfs => {
                let c = build_sshfs_command(b);
                assert(c@.args == linux_mount_command(b@).args);
                c
            },
            Protocol::Nfs => {
                let mut args = mount_t_args("nfs", format_nfs_remote(b), &b.mount_point);
                push_opt_flag(&mut args, "-o", &b.options);
                assert(strs(args@) == seq!["-t"@, "nfs"@, nfs_remote(b@), b@.mount_point] + opt_flag(
                    "-o"@,
                    b@.options,
                ));
                let c = command("mount", args);
                assert(c@.args == linux_mount_command(b@).args);
                c
            },
            Protocol::Smb => {
                let mut remote = String::from_str("//");
                remote.append(b.host.as_str());
                remote.append("/");
                let path = remote_path_without_root(b);
                remote.append(path.as_str());
                let mut args = mount_t_args("cifs", remote, &b.mount_point);
                let user = match &b.username {
                    Some(u) => Some(crate::text::concat("user=", u.as_str())),
                    None => None,
                };
                assert(opt_view(user) == cifs_user(b@));
                push_opt_flag(&mut args, "-o", &user);
                push_opt_flag(&mut args, "-o", &b.options);
                proof {
                    assert(strs(args@) == seq!["-t"@, "cifs"@, cifs_remote(b@), b@.mount_point]
                        + opt_flag("-o"@, cifs_user(b@)) + opt_flag("-o"@, b@.options));
                }
                let c = command("mount", args);
                assert(c@.args == linux_mount_command(b@).args);
                c
            },
        }
    }

    /// The mount entries of the text of `/proc/mounts`, one per line that
    /// has at least four fields.
    pub fn parse_proc_mounts(&self, text: &str) -> (r: Vec<MountEntry>)
        ensures
            entry_views(r@) == proc_mounts_entries(lines(text@)),
    {
        let ls = lines_of(&chars_of(text));
        let mut r: Vec<MountEntry> = Vec::new();
        let mut i: usize = 0;
        assert(views(ls@).take(0) =~= Seq::<Seq<char>>::empty());
        assert(entry_views(r@) =~= Seq::<MountEntryView>::empty());
        while i < ls.len()
            invariant
                i <= ls@.len(),
                views(ls@) == lines(text@),
                entry_views(r@) == proc_mounts_entries(views(ls@).take(i as int)),
            decreases ls@.len() - i,
        {
            let ghost pre = views(ls@).take(i as int);
            assert(views(ls@).take(i + 1).drop_last() == pre);
            assert(views(ls@).take(i + 1).last() == ls@[i as int]@);
            let ghost before = r@;
            match parse_proc_mounts_line(&ls[i]) {
                Some(e) => {
                    r.push(e);
                    assert(entry_views(r@) == entry_views(before).push(e@));
                    assert(proc_mounts_entries(views(ls@).take(i + 1)) == proc_mounts_entries(pre)
                        + seq![e@]);
                },
                None => {
                    assert(proc_mounts_entries(views(ls@).take(i + 1)) == proc_mounts_entries(
                        pre,
                    ));
                },
            }
            i = i + 1;
        }
        assert(views(ls@).take(ls@.len() as int) == views(ls@));
        r
    }
}

impl MountAdapter for LinuxAdapter {
    fn mount_command(&self, bookmark: &Bookmark) -> (r: CommandSpec)
        ensures
            r@ == linux_mount_command(bookmark@),
    {
        self.build_mount_command(bookmark)
    }

    fn unmount_commands(&self, mount_point: &str) -> (r: Vec<CommandSpec>)
        ensures
            command_views(r@) == seq![umount_command(mount_point@)],
    {
        let mut r: Vec<CommandSpec> = Vec::new();
        r.push(build_umount_command(mount_point));
        assert(command_views(r@) =~= seq![umount_command(mount_point@)]);
        r
    }

    fn parse_mounts(&self, text: &str) -> (r: Vec<MountEntry>)
        ensures
            entry_views(r@) == proc_mounts_entries(lines(text@)),
    {
        self.parse_proc_mounts(text)
    }
}

} // verus!
