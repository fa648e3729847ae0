//! Mounted filesystems: entries of the mount table, disk usage, the commands
//! that mount and unmount, and the parsing of what the system reports.
use vstd::prelude::*;

use crate::bookmark::{opt_view, Bookmark, BookmarkView};
use crate::text::{
    chars_of, decimal, first_line, first_line_chars, parse_unsigned, parse_unsigned_chars,
    string_of, trim_start_char, trim_start_char_chars, u16_to_string, views, words, words_of,
};

pub mod linux;
pub mod macos;

verus! {

/// Errors of mount operations.
#[derive(Debug)]
pub enum MountError {
    CommandFailed(String),
    MountFailed(String),
    UnmountFailed(String),
    Io(String),
    Parse(String),
}

/// A mount error as plain values.
pub enum MountErrorView {
    CommandFailed(Seq<char>),
    MountFailed(Seq<char>),
    UnmountFailed(Seq<char>),
    Io(Seq<char>),
    Parse(Seq<char>),
}

impl View for MountError {
    type V = MountErrorView;

    open spec fn view(&self) -> MountErrorView {
        match self {
            MountError::CommandFailed(s) => MountErrorView::CommandFailed(s@),
            MountError::MountFailed(s) => MountErrorView::MountFailed(s@),
            MountError::UnmountFailed(s) => MountErrorView::UnmountFailed(s@),
            MountError::Io(s) => MountErrorView::Io(s@),
            MountError::Parse(s) => MountErrorView::Parse(s@),
        }
    }
}

/// The text that describes a mount error.
pub open spec fn error_text(e: MountErrorView) -> Seq<char> {
    match e {
        MountErrorView::CommandFailed(s) => "Failed to execute command: "@ + s,
        MountErrorView::MountFailed(s) => "Mount failed: "@ + s,
        MountErrorView::UnmountFailed(s) => "Unmount failed: "@ + s,
        MountErrorView::Io(s) => "IO error: "@ + s,
        MountErrorView::Parse(s) => "Parse error: "@ + s,
    }
}

impl MountError {
    /// The text that describes the error.
    pub fn message(&self) -> (r: String)
        ensures
            r@ == error_text(self@),
    {
        match self {
            MountError::CommandFailed(s) => crate::text::concat("Failed to execute command: ", s),
            MountError::MountFailed(s) => crate::text::concat("Mount failed: ", s),
            MountError::UnmountFailed(s) => crate::text::concat("Unmount failed: ", s),
            MountError::Io(s) => crate::text::concat("IO error: ", s),
            MountError::Parse(s) => crate::text::concat("Parse error: ", s),
        }
    }
}

/// A single mount entry from the system.
#[derive(Debug)]
pub struct MountEntry {
    pub device: String,
    pub mount_point: String,
    pub fs_type: String,
    pub options: String,
}

/// A mount entry as plain values.
pub struct MountEntryView {
    pub device: Seq<char>,
    pub mount_point: Seq<char>,
    pub fs_type: Seq<char>,
    pub options: Seq<char>,
}

impl View for MountEntry {
    type V = MountEntryView;

    open spec fn view(&self) -> MountEntryView {
        MountEntryView {
            device: self.device@,
            mount_point: self.mount_point@,
            fs_type: self.fs_type@,
            options: self.options@,
        }
    }
}

impl Clone for MountEntry {
    fn clone(&self) -> (r: Self)
        ensures
            r@ == self@,
    {
        MountEntry {
            device: self.device.clone(),
            mount_point: self.mount_point.clone(),
            fs_type: self.fs_type.clone(),
            options: self.options.clone(),
        }
    }
}

/// The views of a list of mount entries.
pub open spec fn entry_views(v: Seq<MountEntry>) -> Seq<MountEntryView> {
    v.map_values(|m: MountEntry| m@)
}

/// Disk usage information for a mount point, in bytes.
#[derive(Debug, Clone, Copy, PartialEq, Eq, Structural)]
pub struct DiskUsage {
    pub total: u64,
    pub used: u64,
    pub available: u64,
}

/// A command to run: the program, its arguments and the environment
/// variables to set for it.
#[derive(Debug)]
pub struct CommandSpec {
    pub program: String,
    pub args: Vec<String>,
    pub env: Vec<(String, String)>,
}

/// The texts of a list of strings.
pub open spec fn strs(v: Seq<String>) -> Seq<Seq<char>> {
    v.map_values(|s: String| s@)
}

/// The texts of a list of pairs of strings.
pub open spec fn str_pairs(v: Seq<(String, String)>) -> Seq<(Seq<char>, Seq<char>)> {
    v.map_values(|p: (String, String)| (p.0@, p.1@))
}

/// A command as plain values.
pub struct CommandView {
    pub program: Seq<char>,
    pub args: Seq<Seq<char>>,
    pub env: Seq<(Seq<char>, Seq<char>)>,
}

impl View for CommandSpec {
    type V = CommandView;

    open spec fn view(&self) -> CommandView {
        CommandView { program: self.program@, args: strs(self.args@), env: str_pairs(self.env@) }
    }
}

/// Appends `a` to the argument list `args`.
pub fn push_arg(args: &mut Vec<String>, a: String)
    ensures
        strs(final(args)@) == strs(old(args)@).push(a@),
{
    let ghost before = args@;
    args.push(a);
    assert(strs(args@) =~= strs(before).push(a@));
}

/// The command that reports the disk usage of `path` in kilobytes, in the
/// C locale: `df -k <path>` with `LC_ALL=C`.
pub open spec fn df_command(path: Seq<char>) -> CommandView {
    CommandView {
        program: "df"@,
        args: seq!["-k"@, path],
        env: seq![("LC_ALL"@, "C"@)],
    }
}

/// The command that reports the disk usage of `path`.
pub fn disk_usage_command(path: &str) -> (r: CommandSpec)
    ensures
        r@ == df_command(path@),
{
    let mut args: Vec<String> = Vec::new();
    push_arg(&mut args, String::from_str("-k"));
    push_arg(&mut args, String::from_str(path));
    let mut env: Vec<(String, String)> = Vec::new();
    env.push((String::from_str("LC_ALL"), String::from_str("C")));
    assert(str_pairs(env@) =~= seq![("LC_ALL"@, "C"@)]);
    assert(strs(args@) =~= seq!["-k"@, path@]);
    CommandSpec { program: String::from_str("df"), args, env }
}

/// What reading `df -k` output gives: the usage in bytes, an error message,
/// or an overflow when a kilobyte count times 1024 does not fit in 64 bits.
pub enum DfReading {
    Usage(DiskUsage),
    Error(Seq<char>),
    Overflow,
}

/// The largest 64-bit unsigned value.
pub open spec fn u64_max() -> nat {
    0xffff_ffff_ffff_ffff
}

/// A kilobyte count read from a df field, scaled to bytes.
pub open spec fn df_field(f: Seq<char>, what: Seq<char>) -> Option<DfReading> {
    match parse_unsigned(f, u64_max()) {
        None => Some(DfReading::Error(what)),
        Some(v) => if v * 1024 > u64_max() {
            Some(DfReading::Overflow)
        } else {
            None
        },
    }
}

/// The byte count of a df field whose reading succeeded.
pub open spec fn df_bytes(f: Seq<char>) -> u64 {
    (parse_unsigned(f, u64_max()).unwrap() * 1024) as u64
}

/// The disk usage in the output of `df -k`: the second line holds the
/// filesystem, then the total, used and available kilobytes.
pub open spec fn read_df(text: Seq<char>) -> DfReading {
    let rest = match first_line(text) {
        None => Seq::empty(),
        Some((_, r)) => r,
    };
    match first_line(rest) {
        None => DfReading::Error("no data line in df output"@),
        Some((data, _)) => {
            let f = words(data);
            if f.len() < 4 {
                DfReading::Error("unexpected df output format"@)
            } else {
                match df_field(f[1], "invalid total"@) {
                    Some(r) => r,
                    None => match df_field(f[2], "invalid used"@) {
                        Some(r) => r,
                        None => match df_field(f[3], "invalid available"@) {
                            Some(r) => r,
                            None => DfReading::Usage(
                                DiskUsage {
                                    total: df_bytes(f[1]),
                                    used: df_bytes(f[2]),
                                    available: df_bytes(f[3]),
                                },
                            ),
                        },
                    },
                }
            }
        },
    }
}

/// Reads one df field; `Err(true)` on overflow, `Err(false)` when it is not a
/// number.
fn df_field_value(f: &Vec<char>) -> (r: Result<u64, bool>)
    ensures
        r matches Ok(v) ==> df_field(f@, Seq::empty()) is None && v == df_bytes(f@),
        r == Err::<u64, bool>(true) ==> df_field(f@, Seq::empty()) == Some(DfReading::Overflow),
        r == Err::<u64, bool>(false) ==> parse_unsigned(f@, u64_max()) is None,
{
    match parse_unsigned_chars(f, 0xffff_ffff_ffff_ffff) {
        None => Err(false),
        Some(v) => match v.checked_mul(1024) {
            Some(b) => Ok(b),
            None => Err(true),
        },
    }
}

/// The outcome of reading `df -k` output (see `read_df`).
fn df_reading(text: &str) -> (r: Result<DiskUsage, Option<MountError>>)
    ensures
        r matches Ok(u) ==> read_df(text@) == DfReading::Usage(u),
        r matches Err(Some(e)) ==> e@ matches MountErrorView::Parse(m) && read_df(text@)
            == DfReading::Error(m),
        r matches Err(None) ==> read_df(text@) is Overflow,
{
    let chars = chars_of(text);
    let rest: Vec<char> = match first_line_chars(&chars) {
        None => {
            assert(Seq::<char>::empty() =~= Seq::<char>::empty());
            Vec::new()
        },
        Some((_, k)) => crate::text::sub_chars(&chars, k, chars.len()),
    };
    match first_line_chars(&rest) {
        None => Err(Some(MountError::Parse(String::from_str("no data line in df output")))),
        Some((data, _)) => {
            let f = words_of(&data);
            if f.len() < 4 {
                return Err(Some(MountError::Parse(String::from_str("unexpected df output format"))));
            }
            assert(views(f@)[1] == f@[1]@);
            assert(views(f@)[2] == f@[2]@);
            assert(views(f@)[3] == f@[3]@);
            let total = match df_field_value(&f[1]) {
                Ok(v) => v,
                Err(true) => {
                    return Err(None);
                },
                Err(false) => {
                    return Err(Some(MountError::Parse(String::from_str("invalid total"))));
                },
            };
            let used = match df_field_value(&f[2]) {
                Ok(v) => v,
                Err(true) => {
                    return Err(None);
                },
                Err(false) => {
                    return Err(Some(MountError::Parse(String::from_str("invalid used"))));
                },
            };
            let available = match df_field_value(&f[3]) {
                Ok(v) => v,
                Err(true) => {
                    return Err(None);
                },
                Err(false) => {
                    return Err(Some(MountError::Parse(String::from_str("invalid available"))));
                },
            };
            Ok(DiskUsage { total, used, available })
        },
    }
}

/// Whether reading the `df -k` output `text` would overflow: a kilobyte
/// count that, times 1024, does not fit in 64 bits.
pub fn df_output_overflows(text: &str) -> (r: bool)
    ensures
        r == (read_df(text@) is Overflow),
{
    match df_reading(text) {
        Err(None) => true,
        _ => false,
    }
}

/// Parses the output of `df -k` into the disk usage of its first
/// filesystem, in bytes.
pub fn parse_df_output(text: &str) -> (r: Result<DiskUsage, MountError>)
    requires
        !(read_df(text@) is Overflow),
    ensures
        r matches Ok(u) ==> read_df(text@) == DfReading::Usage(u),
        r matches Err(e) ==> e@ matches MountErrorView::Parse(m) && read_df(text@)
            == DfReading::Error(m),
{
    match df_reading(text) {
        Ok(u) => Ok(u),
        Err(Some(e)) => Err(e),
        Err(None) => Err(MountError::Parse(String::new())),
    }
}

/// The outcome of a mount command: success, or `MountFailed` with the
/// command's error output.
pub fn mount_outcome(success: bool, stderr: String) -> (r: Result<(), MountError>)
    ensures
        success ==> r is Ok,
        !success ==> (r matches Err(e) && e@ == MountErrorView::MountFailed(stderr@)),
{
    if success {
        Ok(())
    } else {
        Err(MountError::MountFailed(stderr))
    }
}

/// The disk usage from a run of `df -k`: a failed run gives
/// `CommandFailed("df command failed")`, else its output is parsed.
pub fn disk_usage_outcome(success: bool, stdout: &str) -> (r: Result<DiskUsage, MountError>)
    requires
        success ==> !(read_df(stdout@) is Overflow),
    ensures
        !success ==> (r matches Err(e) && e@ == MountErrorView::CommandFailed(
            "df command failed"@,
        )),
        success ==> (r matches Ok(u) ==> read_df(stdout@) == DfReading::Usage(u)),
        success ==> (r matches Err(e) ==> e@ matches MountErrorView::Parse(m) && read_df(stdout@)
            == DfReading::Error(m)),
{
    if !success {
        return Err(MountError::CommandFailed(String::from_str("df command failed")));
    }
    parse_df_output(stdout)
}

/// The error when every unmount command failed: `UnmountFailed` with the
/// error output of each attempt, one per line.
pub open spec fn unmount_failure_text(stderrs: Seq<Seq<char>>) -> Seq<char>
    decreases stderrs.len(),
{
    if stderrs.len() <= 1 {
        if stderrs.len() == 1 {
            stderrs[0]
        } else {
            Seq::empty()
        }
    } else {
        unmount_failure_text(stderrs.drop_last()) + seq!['\n'] + stderrs.last()
    }
}

/// The error when every unmount command failed, from the error output of
/// each attempt in order.
pub fn unmount_failure(stderrs: &Vec<String>) -> (r: MountError)
    ensures
        r@ == MountErrorView::UnmountFailed(unmount_failure_text(strs(stderrs@))),
{
    let mut text = String::new();
    let mut i: usize = 0;
    assert(strs(stderrs@).take(0) =~= Seq::<Seq<char>>::empty());
    while i < stderrs.len()
        invariant
            i <= stderrs@.len(),
            text@ == unmount_failure_text(strs(stderrs@).take(i as int)),
        decreases stderrs@.len() - i,
    {
        assert(strs(stderrs@).take(i + 1).drop_last() == strs(stderrs@).take(i as int));
        if i > 0 {
            text.append("\n");
            proof {
                reveal_strlit("\n");
            }
        }
        text.append(stderrs[i].as_str());
        proof {
            if i == 0 {
                assert(strs(stderrs@).take(1)[0] == stderrs@[0]@);
            }
        }
        i = i + 1;
    }
    assert(strs(stderrs@).take(stderrs@.len() as int) == strs(stderrs@));
    MountError::UnmountFailed(text)
}

/// `flag` and `value` as two arguments when there is a value, else nothing.
pub open spec fn opt_flag(flag: Seq<char>, value: Option<Seq<char>>) -> Seq<Seq<char>> {
    match value {
        Some(v) => seq![flag, v],
        None => Seq::empty(),
    }
}

/// Appends `flag` and the value to `args` when there is a value.
pub fn push_opt_flag(args: &mut Vec<String>, flag: &str, value: &Option<String>)
    ensures
        strs(final(args)@) == strs(old(args)@) + opt_flag(flag@, opt_view(*value)),
{
    match value {
        Some(v) => {
            push_arg(args, String::from_str(flag));
            push_arg(args, v.clone());
        },
        None => {
            assert(strs(args@) =~= strs(args@) + Seq::<Seq<char>>::empty());
        },
    }
}

/// The port of a bookmark in decimal, if it has one.
pub open spec fn port_text(port: Option<u16>) -> Option<Seq<char>> {
    match port {
        Some(p) => Some(decimal(p as nat)),
        None => None,
    }
}

/// The port of a bookmark in decimal, if it has one.
pub fn port_string(port: Option<u16>) -> (r: Option<String>)
    ensures
        opt_view(r) == port_text(port),
{
    match port {
        Some(p) => Some(u16_to_string(p)),
        None => None,
    }
}

/// The remote target of an SSHFS mount: `user@host:path`, or `host:path`
/// without a user name.
pub open spec fn sshfs_remote(b: BookmarkView) -> Seq<char> {
    match b.username {
        Some(u) => u + "@"@ + b.host + ":"@ + b.remote_path,
        None => b.host + ":"@ + b.remote_path,
    }
}

/// The remote target of an SSHFS mount.
pub fn format_remote_path(b: &Bookmark) -> (r: String)
    ensures
        r@ == sshfs_remote(b@),
{
    let mut r = match &b.username {
        Some(u) => {
            let mut t = String::from_str(u.as_str());
            t.append("@");
            t.append(b.host.as_str());
            t
        },
        None => String::from_str(b.host.as_str()),
    };
    r.append(":");
    r.append(b.remote_path.as_str());
    r
}

/// The SSHFS command: `sshfs <remote> <mount point>`, then `-o <options>`
/// and `-p <port>` when the bookmark has them.
pub open spec fn sshfs_command(b: BookmarkView) -> CommandView {
    CommandView {
        program: "sshfs"@,
        args: seq![sshfs_remote(b), b.mount_point] + opt_flag("-o"@, b.options) + opt_flag(
            "-p"@,
            port_text(b.port),
        ),
        env: Seq::empty(),
    }
}

/// The SSHFS command for a bookmark.
pub fn build_sshfs_command(b: &Bookmark) -> (r: CommandSpec)
    ensures
        r@ == sshfs_command(b@),
{
    let mut args: Vec<String> = Vec::new();
    push_arg(&mut args, format_remote_path(b));
    push_arg(&mut args, b.mount_point.clone());
    push_opt_flag(&mut args, "-o", &b.options);
    let port = port_string(b.port);
    push_opt_flag(&mut args, "-p", &port);
    let env: Vec<(String, String)> = Vec::new();
    assert(str_pairs(env@) =~= Seq::empty());
    assert(strs(args@) =~= sshfs_command(b@).args);
    CommandSpec { program: String::from_str("sshfs"), args, env }
}

/// The NFS target of a bookmark: `host:path`.
pub open spec fn nfs_remote(b: BookmarkView) -> Seq<char> {
    b.host + ":"@ + b.remote_path
}

/// The command `mount -t <fs type> <remote> <mount point>` followed by the
/// given extra arguments.
pub open spec fn mount_t_command(
    fs_type: Seq<char>,
    remote: Seq<char>,
    mount_point: Seq<char>,
    extra: Seq<Seq<char>>,
) -> CommandView {
    CommandView {
        program: "mount"@,
        args: seq!["-t"@, fs_type, remote, mount_point] + extra,
        env: Seq::empty(),
    }
}

/// The first arguments of a `mount -t` command.
pub fn mount_t_args(fs_type: &str, remote: String, mount_point: &String) -> (r: Vec<String>)
    ensures
        strs(r@) == seq!["-t"@, fs_type@, remote@, mount_point@],
{
    let mut args: Vec<String> = Vec::new();
    push_arg(&mut args, String::from_str("-t"));
    push_arg(&mut args, String::from_str(fs_type));
    push_arg(&mut args, remote);
    push_arg(&mut args, mount_point.clone());
    assert(strs(args@) =~= seq!["-t"@, fs_type@, remote@, mount_point@]);
    args
}

/// The NFS target of a bookmark.
pub fn format_nfs_remote(b: &Bookmark) -> (r: String)
    ensures
        r@ == nfs_remote(b@),
{
    let mut r = String::from_str(b.host.as_str());
    r.append(":");
    r.append(b.remote_path.as_str());
    r
}

/// The remote path without its leading `'/'` characters.
pub fn remote_path_without_root(b: &Bookmark) -> (r: String)
    ensures
        r@ == trim_start_char(b.remote_path@, '/'),
{
    let v = chars_of(b.remote_path.as_str());
    let t = trim_start_char_chars(&v, '/');
    string_of(&t)
}

/// A command with no environment variables.
pub fn command(program: &str, args: Vec<String>) -> (r: CommandSpec)
    ensures
        r@ == (CommandView { program: program@, args: strs(args@), env: Seq::empty() }),
{
    let env: Vec<(String, String)> = Vec::new();
    assert(str_pairs(env@) =~= Seq::empty());
    CommandSpec { program: String::from_str(program), args, env }
}

/// After an unmount command ran: a success ends the unmount; a failure adds
/// the command's error output to `failures` and, when no command is left
/// (`remaining` is zero), ends it with the error of all failures; else
/// (`None`) the next command runs.
pub fn after_unmount_attempt(
    success: bool,
    stderr: String,
    failures: &mut Vec<String>,
    remaining: usize,
) -> (r: Option<Result<(), MountError>>)
    ensures
        success ==> r == Some(Ok::<(), MountError>(())) && final(failures)@ == old(failures)@,
        !success ==> strs(final(failures)@) == strs(old(failures)@).push(stderr@),
        !success && remaining > 0 ==> r is None,
        !success && remaining == 0 ==> (r matches Some(Err(e)) && e@ == MountErrorView::UnmountFailed(
            unmount_failure_text(strs(final(failures)@)),
        )),
{
    if success {
        return Some(Ok(()));
    }
    let ghost before = failures@;
    let ghost sv = stderr@;
    failures.push(stderr);
    assert(strs(failures@) == strs(before).push(sv));
    if remaining > 0 {
        None
    } else {
        Some(Err(unmount_failure(failures)))
    }
}

/// What the platform side of mounting provides: the commands to run and the
/// reading of what the system reports.
pub trait MountAdapter {
    /// The command that mounts the target of `bookmark` at its mount point.
    fn mount_command(&self, bookmark: &Bookmark) -> CommandSpec;

    /// The commands that unmount `mount_point`, tried in order until one
    /// succeeds.
    fn unmount_commands(&self, mount_point: &str) -> Vec<CommandSpec>;

    /// The mount entries in the system's mount table, given as text.
    fn parse_mounts(&self, text: &str) -> Vec<MountEntry>;
}

} // verus!
