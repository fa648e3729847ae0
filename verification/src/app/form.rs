//! Tabs, modes, status messages and the bookmark form.
use vstd::prelude::*;

use crate::bookmark::{opt_view, protocol_name, Bookmark, BookmarkView, Protocol};
use crate::text::{
    chars_equal, chars_of, decimal, is_ws, lemma_decimal_digits, law_parse_decimal,
    lemma_trim_unchanged, parse_unsigned, parse_unsigned_chars, trim, trim_string,
    u16_to_string,
};

verus! {

// ---------------------------------------------------------------------------
// Tabs, modes, status
// ---------------------------------------------------------------------------

/// Active tab in the UI.
#[derive(Debug, Clone, Copy, PartialEq, Eq, Structural)]
pub enum Tab {
    Mounts,
    Bookmarks,
    MountPoints,
}

/// The position of a tab in the tab bar.
pub open spec fn tab_index(t: Tab) -> nat {
    match t {
        Tab::Mounts => 0,
        Tab::Bookmarks => 1,
        Tab::MountPoints => 2,
    }
}

/// The tab at position `i`; positions past the last give the last tab.
pub open spec fn tab_at(i: nat) -> Tab {
    if i == 0 {
        Tab::Mounts
    } else if i == 1 {
        Tab::Bookmarks
    } else {
        Tab::MountPoints
    }
}

/// The tab after `t`, the first after the last.
pub open spec fn next_tab(t: Tab) -> Tab {
    tab_at((tab_index(t) + 1) % 3)
}

/// The tab before `t`, the last before the first.
pub open spec fn prev_tab(t: Tab) -> Tab {
    if tab_index(t) == 0 {
        tab_at(2)
    } else {
        tab_at((tab_index(t) - 1) as nat)
    }
}

impl Tab {
    /// Every tab, in the order of the tab bar.
    pub const ALL: [Tab; 3] = [Tab::Mounts, Tab::Bookmarks, Tab::MountPoints];

    /// The title shown in the tab bar.
    pub fn title(self) -> (r: &'static str)
        ensures
            r@ == (match self {
                Tab::Mounts => "Mounts"@,
                Tab::Bookmarks => "Bookmarks"@,
                Tab::MountPoints => "Mount Points"@,
            }),
    {
        match self {
            Tab::Mounts => "Mounts",
            Tab::Bookmarks => "Bookmarks",
            Tab::MountPoints => "Mount Points",
        }
    }

    /// The position of the tab in the tab bar.
    pub fn index(self) -> (r: usize)
        ensures
            r == tab_index(self),
    {
        match self {
            Tab::Mounts => 0,
            Tab::Bookmarks => 1,
            Tab::MountPoints => 2,
        }
    }

    /// The tab at position `i`; any position past the last gives the last
    /// tab.
    pub fn from_index(i: usize) -> (r: Self)
        ensures
            r == tab_at(i as nat),
    {
        if i == 0 {
            Tab::Mounts
        } else if i == 1 {
            Tab::Bookmarks
        } else {
            Tab::MountPoints
        }
    }
}

/// Going to a tab by its position finds it again, and the tab bar lists
/// each tab at its position.
pub proof fn law_tab_index_round_trip(t: Tab)
    ensures
        tab_at(tab_index(t)) == t,
        tab_index(t) < 3,
        Tab::ALL@.len() == 3,
        Tab::ALL@[tab_index(t) as int] == t,
{
}

/// Going back one tab undoes going forward one tab, and the other way
/// round; three steps forward return to the start.
pub proof fn law_tab_cycle(t: Tab)
    ensures
        prev_tab(next_tab(t)) == t,
        next_tab(prev_tab(t)) == t,
        next_tab(next_tab(next_tab(t))) == t,
{
}

/// Application mode.
#[derive(Debug, Clone, Copy, PartialEq, Eq, Structural)]
pub enum Mode {
    Normal,
    Search,
    Form,
}

/// The kind of a status bar message.
#[derive(Debug, Clone, Copy, PartialEq, Eq, Structural)]
pub enum StatusKind {
    Info,
    Success,
    Error,
}

/// Status bar message.
#[derive(Debug)]
pub struct StatusMessage {
    pub text: String,
    pub kind: StatusKind,
}

// ---------------------------------------------------------------------------
// The bookmark form
// ---------------------------------------------------------------------------

/// The fields of the bookmark form, in order.
#[derive(Debug, Clone, Copy, PartialEq, Eq, Structural)]
pub enum FormField {
    Name,
    Protocol,
    Host,
    Port,
    RemotePath,
    MountPoint,
    Username,
    Options,
}

/// The number of fields of the bookmark form.
pub const FORM_FIELD_COUNT: usize = 8;

/// The position of a field in the form.
pub open spec fn field_index(f: FormField) -> nat {
    match f {
        FormField::Name => 0,
        FormField::Protocol => 1,
        FormField::Host => 2,
        FormField::Port => 3,
        FormField::RemotePath => 4,
        FormField::MountPoint => 5,
        FormField::Username => 6,
        FormField::Options => 7,
    }
}

/// The label shown before a field.
pub open spec fn field_label(f: FormField) -> Seq<char> {
    match f {
        FormField::Name => "Name"@,
        FormField::Protocol => "Protocol (sshfs/nfs/smb)"@,
        FormField::Host => "Host"@,
        FormField::Port => "Port"@,
        FormField::RemotePath => "Remote Path"@,
        FormField::MountPoint => "Mount Point"@,
        FormField::Username => "Username"@,
        FormField::Options => "Options"@,
    }
}

impl FormField {
    /// The position of the field in the form.
    pub fn index(self) -> (r: usize)
        ensures
            r == field_index(self),
            r < FORM_FIELD_COUNT,
    {
        match self {
            FormField::Name => 0,
            FormField::Protocol => 1,
            FormField::Host => 2,
            FormField::Port => 3,
            FormField::RemotePath => 4,
            FormField::MountPoint => 5,
            FormField::Username => 6,
            FormField::Options => 7,
        }
    }

    /// The label shown before the field.
    pub fn label(self) -> (r: &'static str)
        ensures
            r@ == field_label(self),
    {
        match self {
            FormField::Name => "Name",
            FormField::Protocol => "Protocol (sshfs/nfs/smb)",
            FormField::Host => "Host",
            FormField::Port => "Port",
            FormField::RemotePath => "Remote Path",
            FormField::MountPoint => "Mount Point",
            FormField::Username => "Username",
            FormField::Options => "Options",
        }
    }
}

/// Form fields for adding or editing a bookmark.
#[derive(Debug)]
pub struct FormData {
    pub fields: [String; 8],
    pub cursor_field: usize,
    /// `true` when an existing bookmark is edited, `false` when one is added.
    pub editing: bool,
    /// The name of the bookmark being edited.
    pub original_name: Option<String>,
}

/// The form as plain values.
#[verifier::ext_equal]
pub struct FormView {
    pub fields: Seq<Seq<char>>,
    pub cursor_field: usize,
    pub editing: bool,
    pub original_name: Option<Seq<char>>,
}

impl View for FormData {
    type V = FormView;

    open spec fn view(&self) -> FormView {
        FormView {
            fields: self.fields@.map_values(|s: String| s@),
            cursor_field: self.cursor_field,
            editing: self.editing,
            original_name: opt_view(self.original_name),
        }
    }
}

/// A text, or the empty text for nothing.
pub open spec fn or_empty(s: Option<Seq<char>>) -> Seq<char> {
    match s {
        Some(t) => t,
        None => Seq::empty(),
    }
}

/// The fields of the form that adds a bookmark: all empty but the protocol,
/// which is `sshfs`.
pub open spec fn add_fields() -> Seq<Seq<char>> {
    seq![
        Seq::empty(),
        protocol_name(Protocol::Sshfs),
        Seq::empty(),
        Seq::empty(),
        Seq::empty(),
        Seq::empty(),
        Seq::empty(),
        Seq::empty(),
    ]
}

/// The fields of the form that edits `b`: its values as text, empty where
/// it has none.
pub open spec fn edit_fields(b: BookmarkView) -> Seq<Seq<char>> {
    seq![
        b.name,
        protocol_name(b.protocol),
        b.host,
        or_empty(
            match b.port {
                Some(p) => Some(decimal(p as nat)),
                None => None,
            },
        ),
        b.remote_path,
        b.mount_point,
        or_empty(b.username),
        or_empty(b.options),
    ]
}

/// The protocol named by a form field: `nfs`, `smb`, and SSHFS for anything
/// else.
pub open spec fn protocol_named(s: Seq<char>) -> Protocol {
    if s == protocol_name(Protocol::Nfs) {
        Protocol::Nfs
    } else if s == protocol_name(Protocol::Smb) {
        Protocol::Smb
    } else {
        Protocol::Sshfs
    }
}

/// The port in a form field: a number up to 65535, else none.
pub open spec fn port_named(s: Seq<char>) -> Option<u16> {
    match parse_unsigned(s, 65535) {
        Some(v) => Some(v as u16),
        None => None,
    }
}

/// A text, or nothing for the empty text.
pub open spec fn non_empty(s: Seq<char>) -> Option<Seq<char>> {
    if s.len() == 0 {
        None
    } else {
        Some(s)
    }
}

/// The bookmark that the form fields describe, each field trimmed: none
/// when the name, host or mount point is empty.
pub open spec fn form_bookmark(fields: Seq<Seq<char>>) -> Option<BookmarkView> {
    let name = trim(fields[0]);
    let host = trim(fields[2]);
    let mount_point = trim(fields[5]);
    if name.len() == 0 || host.len() == 0 || mount_point.len() == 0 {
        None
    } else {
        Some(
            BookmarkView {
                name,
                protocol: protocol_named(trim(fields[1])),
                host,
                port: port_named(trim(fields[3])),
                remote_path: trim(fields[4]),
                mount_point,
                username: non_empty(trim(fields[6])),
                options: non_empty(trim(fields[7])),
            },
        )
    }
}

/// The trimmed text of a string, or nothing when that is empty.
fn non_empty_trimmed(s: &String) -> (r: Option<String>)
    ensures
        opt_view(r) == non_empty(trim(s@)),
{
    let t = trim_string(s.as_str());
    if t.as_str().is_empty() {
        None
    } else {
        Some(t)
    }
}

impl FormData {
    /// The form that adds a new bookmark.
    pub fn new_for_add() -> (r: Self)
        ensures
            r@ == (FormView {
                fields: add_fields(),
                cursor_field: 0,
                editing: false,
                original_name: None,
            }),
    {
        let r = FormData {
            fields: [
                String::new(),
                Protocol::Sshfs.to_string(),
                String::new(),
                String::new(),
                String::new(),
                String::new(),
                String::new(),
                String::new(),
            ],
            cursor_field: 0,
            editing: false,
            original_name: None,
        };
        assert(r@.fields =~= add_fields());
        r
    }

    /// The form that edits `bookmark`.
    pub fn new_for_edit(bookmark: &Bookmark) -> (r: Self)
        ensures
            r@ == (FormView {
                fields: edit_fields(bookmark@),
                cursor_field: 0,
                editing: true,
                original_name: Some(bookmark@.name),
            }),
    {
        let port = match bookmark.port {
            Some(p) => u16_to_string(p),
            None => String::new(),
        };
        let username = match &bookmark.username {
            Some(u) => u.clone(),
            None => String::new(),
        };
        let options = match &bookmark.options {
            Some(o) => o.clone(),
            None => String::new(),
        };
        let r = FormData {
            fields: [
                bookmark.name.clone(),
                bookmark.protocol.to_string(),
                bookmark.host.clone(),
                port,
                bookmark.remote_path.clone(),
                bookmark.mount_point.clone(),
                username,
                options,
            ],
            cursor_field: 0,
            editing: true,
            original_name: Some(bookmark.name.clone()),
        };
        assert(r@.fields =~= edit_fields(bookmark@));
        r
    }

    /// The bookmark the form describes, each field trimmed; `None` when the
    /// name, host or mount point is empty.
    pub fn to_bookmark(&self) -> (r: Option<Bookmark>)
        ensures
            r matches Some(b) ==> form_bookmark(self@.fields) == Some(b@),
            r is None ==> form_bookmark(self@.fields) is None,
    {
        let ghost f = self@.fields;
        assert(f[0] == self.fields[0]@);
        assert(f[1] == self.fields[1]@);
        assert(f[2] == self.fields[2]@);
        assert(f[3] == self.fields[3]@);
        assert(f[4] == self.fields[4]@);
        assert(f[5] == self.fields[5]@);
        assert(f[6] == self.fields[6]@);
        assert(f[7] == self.fields[7]@);
        let name = trim_string(self.fields[0].as_str());
        let host = trim_string(self.fields[2].as_str());
        let mount_point = trim_string(self.fields[5].as_str());
        if name.as_str().is_empty() || host.as_str().is_empty() || mount_point.as_str().is_empty() {
            return None;
        }
        let proto_text = chars_of(trim_string(self.fields[1].as_str()).as_str());
        let protocol = if chars_equal(&proto_text, &['n', 'f', 's']) {
            Protocol::Nfs
        } else if chars_equal(&proto_text, &['s', 'm', 'b']) {
            Protocol::Smb
        } else {
            Protocol::Sshfs
        };
        let port_text = chars_of(trim_string(self.fields[3].as_str()).as_str());
        let port = match parse_unsigned_chars(&port_text, 65535) {
            Some(v) => Some(v as u16),
            None => None,
        };
        let remote_path = trim_string(self.fields[4].as_str());
        let username = non_empty_trimmed(&self.fields[6]);
        let options = non_empty_trimmed(&self.fields[7]);
        Some(
            Bookmark {
                name,
                protocol,
                host,
                port,
                remote_path,
                mount_point,
                username,
                options,
            },
        )
    }
}

/// `s` is non-empty and has no whitespace at either end.
pub open spec fn trimmed_non_empty(s: Seq<char>) -> bool {
    s.len() > 0 && trim(s) == s
}

/// Editing a bookmark whose texts are already trimmed (name, host and mount
/// point non-empty, user name and options absent or non-empty) and
/// submitting the form unchanged gives back the same bookmark.
pub proof fn law_edit_form_round_trip(b: BookmarkView)
    requires
        trimmed_non_empty(b.name),
        trimmed_non_empty(b.host),
        trimmed_non_empty(b.mount_point),
        trim(b.remote_path) == b.remote_path,
        b.username matches Some(u) ==> trimmed_non_empty(u),
        b.options matches Some(o) ==> trimmed_non_empty(o),
    ensures
        form_bookmark(edit_fields(b)) == Some(b),
{
    let f = edit_fields(b);
    let pn = protocol_name(b.protocol);
    assert(!is_ws(pn[0]) && !is_ws(pn.last()));
    lemma_trim_unchanged(pn);
    assert(protocol_named(pn) == b.protocol);
    match b.port {
        Some(p) => {
            lemma_decimal_digits(p as nat);
            let d = decimal(p as nat);
            assert(crate::text::is_digit(d[0]) && crate::text::is_digit(d.last()));
            lemma_trim_unchanged(d);
            law_parse_decimal(p as nat, 65535);
            assert(port_named(trim(f[3])) == Some(p));
        },
        None => {
            lemma_trim_unchanged(Seq::<char>::empty());
            assert(f[3] == Seq::<char>::empty());
            assert(port_named(trim(f[3])) is None);
        },
    }
    if b.username is None {
        lemma_trim_unchanged(Seq::<char>::empty());
    }
    if b.options is None {
        lemma_trim_unchanged(Seq::<char>::empty());
    }
    assert(form_bookmark(f) =~= Some(b));
}

/// The form that adds a bookmark does not describe one until the name, host
/// and mount point are filled in.
pub proof fn law_add_form_incomplete()
    ensures
        form_bookmark(add_fields()) is None,
{
    lemma_trim_unchanged(Seq::<char>::empty());
}

} // verus!
