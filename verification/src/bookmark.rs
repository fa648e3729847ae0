//! Bookmarks: saved targets of remote mounts.
use vstd::prelude::*;

use crate::text::string_of;

verus! {

/// Supported remote filesystem protocols.
#[derive(Debug, Clone, Copy, PartialEq, Eq, Structural)]
pub enum Protocol {
    Sshfs,
    Nfs,
    Smb,
}

/// The lowercase name of a protocol, as it is shown and stored.
pub open spec fn protocol_name(p: Protocol) -> Seq<char> {
    match p {
        Protocol::Sshfs => seq!['s', 's', 'h', 'f', 's'],
        Protocol::Nfs => seq!['n', 'f', 's'],
        Protocol::Smb => seq!['s', 'm', 'b'],
    }
}

impl Protocol {
    /// The lowercase name of the protocol (`"sshfs"`, `"nfs"` or `"smb"`).
    pub fn to_string(&self) -> (r: String)
        ensures
            r@ == protocol_name(*self),
    {
        match self {
            Protocol::Sshfs => string_of(&['s', 's', 'h', 'f', 's']),
            Protocol::Nfs => string_of(&['n', 'f', 's']),
            Protocol::Smb => string_of(&['s', 'm', 'b']),
        }
    }
}

/// A saved bookmark for a remote mount target.
#[derive(Debug)]
pub struct Bookmark {
    pub name: String,
    pub protocol: Protocol,
    pub host: String,
    pub port: Option<u16>,
    pub remote_path: String,
    pub mount_point: String,
    pub username: Option<String>,
    pub options: Option<String>,
}

/// The text of an optional string.
pub open spec fn opt_view(s: Option<String>) -> Option<Seq<char>> {
    match s {
        Some(t) => Some(t@),
        None => None,
    }
}

/// What a bookmark holds, as plain values.
pub struct BookmarkView {
    pub name: Seq<char>,
    pub protocol: Protocol,
    pub host: Seq<char>,
    pub port: Option<u16>,
    pub remote_path: Seq<char>,
    pub mount_point: Seq<char>,
    pub username: Option<Seq<char>>,
    pub options: Option<Seq<char>>,
}

impl View for Bookmark {
    type V = BookmarkView;

    open spec fn view(&self) -> BookmarkView {
        BookmarkView {
            name: self.name@,
            protocol: self.protocol,
            host: self.host@,
            port: self.port,
            remote_path: self.remote_path@,
            mount_point: self.mount_point@,
            username: opt_view(self.username),
            options: opt_view(self.options),
        }
    }
}

/// A copy of an optional string.
pub fn clone_opt(s: &Option<String>) -> (r: Option<String>)
    ensures
        opt_view(r) == opt_view(*s),
{
    match s {
        Some(t) => Some(t.clone()),
        None => None,
    }
}

impl Clone for Bookmark {
    fn clone(&self) -> (r: Self)
        ensures
            r@ == self@,
    {
        Bookmark {
            name: self.name.clone(),
            protocol: self.protocol,
            host: self.host.clone(),
            port: self.port,
            remote_path: self.remote_path.clone(),
            mount_point: self.mount_point.clone(),
            username: clone_opt(&self.username),
            options: clone_opt(&self.options),
        }
    }
}

/// The contents of the bookmarks file: a list stored as `[[bookmark]]`
/// tables.
#[derive(Debug)]
pub struct BookmarkFile {
    pub bookmark: Vec<Bookmark>,
}

} // verus!
