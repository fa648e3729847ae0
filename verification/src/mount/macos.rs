//! Mounting on macOS: the output of `mount`, `mount_nfs`, `mount_smbfs`, `sshfs`,
//! `umount` with `diskutil unmount` as a fallback.
use vstd::prelude::*;

use crate::bookmark::{Bookmark, BookmarkView, Protocol};
use crate::mount::linux::{build_umount_command, command_views, umount_command};
use crate::mount::{
    build_sshfs_command, command, entry_views, format_nfs_remote,
    nfs_remote, opt_flag, push_arg, push_opt_flag, remote_path_without_root, sshfs_command, strs,
    CommandSpec, CommandView, MountAdapter, MountEntry, MountEntryView, MountError,
    MountErrorView,
};
use crate::text::{
    chars_of, find, find_chars, lines, lines_of, string_of, sub_chars, trim, trim_chars,
    trim_start_char, views,
};

verus! {

/// The macOS side of mounting.
pub struct MacOsAdapter;

/// The text before the `')'` that ends the rest of a mount line, if it has
/// one.
pub open spec fn without_close_paren(s: Seq<char>) -> Seq<char> {
    if s.len() > 0 && s.last() == ')' {
        s.drop_last()
    } else {
        s
    }
}

/// The text before the first `','`, or all of it.
pub open spec fn before_comma(s: Seq<char>) -> Seq<char> {
    match find(s, seq![',']) {
        Some(k) => s.take(k),
        None => s,
    }
}

/// The mount entry of a line of `mount` output
/// `device on /mount/point (fstype, options)`: the device before the first
/// `" on "`, the mount point up to the next `" ("`, the options up to a
/// closing `')'`, and the filesystem type as the trimmed first option.
pub open spec fn mac_mount_entry(line: Seq<char>) -> Option<MountEntryView> {
    match find(line, " on "@) {
        None => None,
        Some(i) => {
            let rest = line.skip(i + " on "@.len());
            match find(rest, " ("@) {
                None => None,
                Some(j) => {
                    let opts = without_close_paren(rest.skip(j + " ("@.len()));
                    Some(
                        MountEntryView {
                            device: line.take(i),
                            mount_point: rest.take(j),
                            fs_type: trim(before_comma(opts)),
                            options: opts,
                        },
                    )
                },
            }
        },
    }
}

/// The mount entries of the lines of `mount` output that have one.
pub open spec fn mac_mount_entries(ls: Seq<Seq<char>>) -> Seq<MountEntryView> {
    ls.filter_map(|l: Seq<char>| mac_mount_entry(l))
}

/// Parses a line of `mount` output.
pub fn parse_mount_line(line: &[char]) -> (r: Option<MountEntry>)
    ensures
        r matches Some(e) ==> mac_mount_entry(line@) == Some(e@),
        r is None ==> mac_mount_entry(line@) is None,
{
    let on = chars_of(" on ");
    let i = match find_chars(line, &on) {
        Some(i) => i,
        None => {
            return None;
        },
    };
    proof {
        crate::text::lemma_find(line@, on@);
    }
    let n = line.len();
    assert(i + on@.len() <= n);
    let device = sub_chars(line, 0, i);
    let rest = sub_chars(line, i + on.len(), n);
    let paren = chars_of(" (");
    let j = match find_chars(&rest, &paren) {
        Some(j) => j,
        None => {
            return None;
        },
    };
    proof {
        crate::text::lemma_find(rest@, paren@);
    }
    let mount_point = sub_chars(&rest, 0, j);
    let mut end = rest.len();
    if end > j + paren.len() && rest[end - 1] == ')' {
        end = end - 1;
    }
    let opts = sub_chars(&rest, j + paren.len(), end);
    assert(opts@ == without_close_paren(rest@.skip(j + paren@.len())));
    let comma = vec![','];
    assert(comma@ == seq![',']);
    proof {
        crate::text::lemma_find(opts@, comma@);
    }
    let first = match find_chars(&opts, &comma) {
        Some(k) => sub_chars(&opts, 0, k),
        None => sub_chars(&opts, 0, opts.len()),
    };
    assert(first@ == before_comma(opts@));
    let fs_type = trim_chars(&first);
    Some(
        MountEntry {
            device: string_of(&device),
            mount_point: string_of(&mount_point),
            fs_type: string_of(&fs_type),
            options: string_of(&opts),
        },
    )
}

/// The SMB target of a bookmark: `//user@host/path`, or `//host/path`
/// without a user name, with the path's leading `'/'` characters removed.
pub open spec fn smb_remote(b: BookmarkView) -> Seq<char> {
    match b.username {
        Some(u) => "//"@ + u + "@"@ + b.host + "/"@ + trim_start_char(b.remote_path, '/'),
        None => "//"@ + b.host + "/"@ + trim_start_char(b.remote_path, '/'),
    }
}

/// The SMB target of a bookmark.
pub fn format_smb_remote(b: &Bookmark) -> (r: String)
    ensures
        r@ == smb_remote(b@),
{
    let mut r = String::from_str("//");
    match &b.username {
        Some(u) => {
            r.append(u.as_str());
            r.append("@");
        },
        None => {},
    }
    r.append(b.host.as_str());
    r.append("/");
    let path = remote_path_without_root(b);
    r.append(path.as_str());
    r
}

/// The command `program <remote> <mount point>`, followed by `extra`.
pub open spec fn native_mount_command(
    program: Seq<char>,
    remote: Seq<char>,
    mount_point: Seq<char>,
    extra: Seq<Seq<char>>,
) -> CommandView {
    CommandView { program, args: seq![remote, mount_point] + extra, env: Seq::empty() }
}

/// The command that mounts a bookmark on macOS: `sshfs` for SSHFS,
/// `mount_nfs host:path <mount point>` for NFS and
/// `mount_smbfs //user@host/share <mount point>` for SMB; the bookmark's
/// options follow `-o`.
pub open spec fn mac_mount_command(b: BookmarkView) -> CommandView {
    match b.protocol {
        Protocol::Sshfs => sshfs_command(b),
        Protocol::Nfs => native_mount_command(
            "mount_nfs"@,
            nfs_remote(b),
            b.mount_point,
            opt_flag("-o"@, b.options),
        ),
        Protocol::Smb => native_mount_command(
            "mount_smbfs"@,
            smb_remote(b),
            b.mount_point,
            opt_flag("-o"@, b.options),
        ),
    }
}

/// The command `diskutil unmount <mount point>`.
pub open spec fn diskutil_command(mount_point: Seq<char>) -> CommandView {
    CommandView {
        program: "diskutil"@,
        args: seq!["unmount"@, mount_point],
        env: Seq::empty(),
    }
}

/// The command `program <remote> <mount point>` with the bookmark's options
/// after `-o`.
fn native_mount(program: &str, remote: String, b: &Bookmark) -> (r: CommandSpec)
    ensures
        r@ == native_mount_command(program@, remote@, b@.mount_point, opt_flag("-o"@, b@.options)),
{
    let mut args: Vec<String> = Vec::new();
    push_arg(&mut args, remote);
    push_arg(&mut args, b.mount_point.clone());
    assert(strs(args@) =~= seq![remote@, b@.mount_point]);
    push_opt_flag(&mut args, "-o", &b.options);
    let c = command(program, args);
    assert(c@.args =~= native_mount_command(program@, remote@, b@.mount_point, opt_flag("-o"@, b@.options)).args);
    c
}

impl MacOsAdapter {
    /// The command that mounts the target of `bookmark`.
    pub fn build_mount_command(&self, bookmark: &Bookmark) -> (r: CommandSpec)
        ensures
            r@ == mac_mount_command(bookmark@),
    {
        let b = bookmark;
        match b.protocol {
            Protocol::Sshfs => {
                let c = build_sshfs_command(b);
                assert(c@ == mac_mount_command(b@));
                c
            },
            Protocol::Nfs => native_mount("mount_nfs", format_nfs_remote(b), b),
            Protocol::Smb => native_mount("mount_smbfs", format_smb_remote(b), b),
        }
    }

    /// The mount entries of the output of `mount`, one per line that has
    /// the form `device on /mount/point (fstype, options)`.
    pub fn parse_mount_output(&self, text: &str) -> (r: Vec<MountEntry>)
        ensures
            entry_views(r@) == mac_mount_entries(lines(text@)),
    {
        let ls = lines_of(&chars_of(text));
        let mut r: Vec<MountEntry> = Vec::new();
        let mut i: usize = 0;
        assert(views(ls@).take(0) =~= Seq::<Seq<char>>::empty());
        assert(entry_views(r@) =~= Seq::<MountEntryView>::empty());
        while i < ls.len()
            invariant
                i <= ls@.len(),
                views(ls@) == lines(text@),
                entry_views(r@) == mac_mount_entries(views(ls@).take(i as int)),
            decreases ls@.len() - i,
        {
            let ghost pre = views(ls@).take(i as int);
            assert(views(ls@).take(i + 1).drop_last() == pre);
            assert(views(ls@).take(i + 1).last() == ls@[i as int]@);
            let ghost before = r@;
            match parse_mount_line(&ls[i]) {
                Some(e) => {
                    r.push(e);
                    assert(entry_views(r@) == entry_views(before).push(e@));
                    assert(mac_mount_entries(views(ls@).take(i + 1)) == mac_mount_entries(pre)
                        + seq![e@]);
                },
                None => {
                    assert(mac_mount_entries(views(ls@).take(i + 1)) == mac_mount_entries(pre));
                },
            }
            i = i + 1;
        }
        assert(views(ls@).take(ls@.len() as int) == views(ls@));
        r
    }
}

impl MacOsAdapter {
    /// The mounts from a run of `mount`: a failed run gives
    /// `CommandFailed("mount command failed")`, else its output is parsed.
    pub fn mount_listing_outcome(&self, success: bool, stdout: &str) -> (r: Result<Vec<MountEntry>, MountError>)
        ensures
            !success ==> (r matches Err(e) && e@ == MountErrorView::CommandFailed(
                "mount command failed"@,
            )),
            success ==> (r matches Ok(v) && entry_views(v@) == mac_mount_entries(lines(stdout@))),
    {
        if !success {
            return Err(MountError::CommandFailed(String::from_str("mount command failed")));
        }
        Ok(self.parse_mount_output(stdout))
    }
}

impl MountAdapter for MacOsAdapter {
    fn mount_command(&self, bookmark: &Bookmark) -> (r: CommandSpec)
        ensures
            r@ == mac_mount_command(bookmark@),
    {
        self.build_mount_command(bookmark)
    }

    fn unmount_commands(&self, mount_point: &str) -> (r: Vec<CommandSpec>)
        ensures
            command_views(r@) == seq![umount_command(mount_point@), diskutil_command(mount_point@)],
    {
        let mut r: Vec<CommandSpec> = Vec::new();
        r.push(build_umount_command(mount_point));
        let mut args: Vec<String> = Vec::new();
        push_arg(&mut args, String::from_str("unmount"));
        push_arg(&mut args, String::from_str(mount_point));
        assert(strs(args@) =~= seq!["unmount"@, mount_point@]);
        r.push(command("diskutil", args));
        assert(command_views(r@) =~= seq![
            umount_command(mount_point@),
            diskutil_command(mount_point@),
        ]);
        r
    }

    fn parse_mounts(&self, text: &str) -> (r: Vec<MountEntry>)
        ensures
            entry_views(r@) == mac_mount_entries(lines(text@)),
    {
        self.parse_mount_output(text)
    }
}

} // verus!
