//! The client session's decision logic.
//!
//! A client session is the symmetric, single-peer counterpart of a server
//! handler, without a hub: it multiplexes "line from server" against "line
//! from local input", forwards each local line tagged with the display name,
//! and renders each server line, highlighted when it mentions the client's
//! own name with an `@name` token. The transport and console plumbing live
//! outside this crate; they feed every observed event through
//! [`session_step`] and perform the action returned.
//!
//! Mentions and tagging are specified over the UTF-8 bytes of the lines:
//! a byte-level match of one valid UTF-8 string inside another is exactly a
//! character-level substring match, and the wire carries bytes.

use vstd::prelude::*;
use vstd::string::StringSliceAdditionalSpecFns;
use vstd::utf8::encode_utf8;

verus! {

/// `needle` occurs contiguously somewhere inside `hay`.
pub open spec fn contains_seq(hay: Seq<u8>, needle: Seq<u8>) -> bool {
    exists|i: int|
        0 <= i && i + needle.len() <= hay.len() && #[trigger] hay.subrange(i, i + needle.len())
            == needle
}

/// The bytes of the mention token for a display name: `@` followed by the
/// name. `0x40` is `@`.
pub open spec fn mention_token(name: Seq<u8>) -> Seq<u8> {
    seq![0x40u8] + name
}

/// A line mentions a display name when the literal token `@name` occurs
/// anywhere in it.
pub open spec fn mentions(line: Seq<u8>, name: Seq<u8>) -> bool {
    contains_seq(line, mention_token(name))
}

/// The bytes of a local line tagged with the display name:
/// `name`, `: ` (`0x3a`, `0x20`), then the line.
pub open spec fn tagged_line(name: Seq<u8>, text: Seq<u8>) -> Seq<u8> {
    name + seq![0x3au8, 0x20u8] + text
}

/// Whether `needle` occurs in `hay` starting exactly at `at`.
fn matches_at(hay: &[u8], needle: &[u8], at: usize) -> (r: bool)
    requires
        at + needle@.len() <= hay@.len(),
    ensures
        r == (hay@.subrange(at as int, at + needle@.len()) == needle@),
{
    let n = needle.len();
    let hlen = hay.len();
    let mut j: usize = 0;
    while j < n
        invariant
            n == needle@.len(),
            hlen == hay@.len(),
            at + n <= hlen,
            0 <= j <= n,
            forall|k: int| 0 <= k < j ==> hay@[at + k] == needle@[k],
        decreases n - j,
    {
        if hay[at + j] != needle[j] {
            assert(hay@.subrange(at as int, at + needle@.len())[j as int] != needle@[j as int]);
            return false;
        }
        j = j + 1;
    }
    assert(hay@.subrange(at as int, at + needle@.len()) =~= needle@);
    true
}

/// Whether `needle` occurs contiguously anywhere inside `hay`.
pub fn contains_bytes(hay: &[u8], needle: &[u8]) -> (r: bool)
    ensures
        r == contains_seq(hay@, needle@),
{
    let hlen = hay.len();
    let nlen = needle.len();
    if nlen > hlen {
        assert(!contains_seq(hay@, needle@));
        return false;
    }
    if nlen == 0 {
        assert(contains_seq(hay@, needle@)) by {
            assert(hay@.subrange(0, 0 + needle@.len() as int) =~= needle@);
        }
        return true;
    }
    let positions: usize = hlen - nlen + 1;
    let mut i: usize = 0;
    while i < positions
        invariant
            hlen == hay@.len(),
            nlen == needle@.len(),
            1 <= nlen <= hlen,
            positions == hlen - nlen + 1,
            0 <= i <= positions,
            forall|k: int|
                0 <= k < i ==> #[trigger] hay@.subrange(k, k + needle@.len()) != needle@,
        decreases positions - i,
    {
        if matches_at(hay, needle, i) {
            assert(contains_seq(hay@, needle@));
            return true;
        }
        i = i + 1;
    }
    assert(!contains_seq(hay@, needle@));
    false
}

/// Whether `line` contains the literal token `@name`.
///
/// This is the client-side mention test: recognition is a plain substring
/// match for `@name` anywhere in the line, nothing more.
pub fn is_mention(line: &str, name: &str) -> (r: bool)
    ensures
        r == mentions(line.spec_bytes(), name.spec_bytes()),
{
    let line_bytes = line.as_bytes();
    let name_bytes = name.as_bytes();
    let mut token: Vec<u8> = Vec::new();
    token.push(0x40u8);
    let mut i: usize = 0;
    let n = name_bytes.len();
    while i < n
        invariant
            n == name_bytes@.len(),
            0 <= i <= n,
            token@ == seq![0x40u8] + name_bytes@.subrange(0, i as int),
        decreases n - i,
    {
        token.push(name_bytes[i]);
        assert(token@ =~= seq![0x40u8] + name_bytes@.subrange(0, i + 1));
        i = i + 1;
    }
    assert(token@ =~= mention_token(name.spec_bytes()));
    contains_bytes(line_bytes, token.as_slice())
}

/// The bytes to send for one local input line: the display name, `: `, then
/// the line itself.
pub fn tag_line(name: &str, text: &str) -> (r: Vec<u8>)
    ensures
        r@ == tagged_line(name.spec_bytes(), text.spec_bytes()),
{
    let name_bytes = name.as_bytes();
    let text_bytes = text.as_bytes();
    let mut out: Vec<u8> = Vec::new();
    let n = name_bytes.len();
    let mut i: usize = 0;
    while i < n
        invariant
            n == name_bytes@.len(),
            0 <= i <= n,
            out@ == name_bytes@.subrange(0, i as int),
        decreases n - i,
    {
        out.push(name_bytes[i]);
        assert(out@ =~= name_bytes@.subrange(0, i + 1));
        i = i + 1;
    }
    assert(out@ =~= name.spec_bytes());
    out.push(0x3au8);
    out.push(0x20u8);
    let m = text_bytes.len();
    let mut j: usize = 0;
    while j < m
        invariant
            m == text_bytes@.len(),
            0 <= j <= m,
            out@ == name.spec_bytes() + seq![0x3au8, 0x20u8] + text_bytes@.subrange(0, j as int),
        decreases m - j,
    {
        out.push(text_bytes[j]);
        assert(out@ =~= name.spec_bytes() + seq![0x3au8, 0x20u8] + text_bytes@.subrange(
            0,
            j + 1,
        ));
        j = j + 1;
    }
    assert(out@ =~= tagged_line(name.spec_bytes(), text.spec_bytes()));
    out
}

/// One event a client session can observe.
pub enum SessionEvent {
    /// One line arrived from the server.
    ServerLine(String),
    /// The server connection reached end-of-stream or failed on read.
    ServerEnd,
    /// One line was read from local input.
    UserLine(String),
    /// Local input reached end-of-stream or failed on read.
    UserEnd,
}

/// Mathematical model of a [`SessionEvent`], over the UTF-8 bytes of the
/// line.
pub enum SessionEventModel {
    ServerLine(Seq<u8>),
    ServerEnd,
    UserLine(Seq<u8>),
    UserEnd,
}

impl View for SessionEvent {
    type V = SessionEventModel;

    open spec fn view(&self) -> SessionEventModel {
        match self {
            SessionEvent::ServerLine(l) => SessionEventModel::ServerLine(encode_utf8(l@)),
            SessionEvent::ServerEnd => SessionEventModel::ServerEnd,
            SessionEvent::UserLine(l) => SessionEventModel::UserLine(encode_utf8(l@)),
            SessionEvent::UserEnd => SessionEventModel::UserEnd,
        }
    }
}

/// What the client session's task must do next.
pub enum SessionAction {
    /// Show this server line to the user; `highlight` is set exactly when the
    /// line mentions the client's own name.
    Render { line: String, highlight: bool },
    /// Send these bytes, followed by a newline, to the server.
    Send(Vec<u8>),
    /// The session is over: release the connection and exit normally.
    Stop,
}

/// Mathematical model of a [`SessionAction`].
pub enum SessionActionModel {
    Render { line: Seq<u8>, highlight: bool },
    Send(Seq<u8>),
    Stop,
}

impl View for SessionAction {
    type V = SessionActionModel;

    open spec fn view(&self) -> SessionActionModel {
        match self {
            SessionAction::Render { line, highlight } => SessionActionModel::Render {
                line: encode_utf8(line@),
                highlight: *highlight,
            },
            SessionAction::Send(b) => SessionActionModel::Send(b@),
            SessionAction::Stop => SessionActionModel::Stop,
        }
    }
}

/// The client session's transition function: a server line is rendered,
/// highlighted exactly when it mentions `@name`; a local line is sent tagged
/// with the name; either stream ending stops the session.
pub open spec fn session_model(name: Seq<u8>, ev: SessionEventModel) -> SessionActionModel {
    match ev {
        SessionEventModel::ServerLine(l) => SessionActionModel::Render {
            line: l,
            highlight: mentions(l, name),
        },
        SessionEventModel::ServerEnd => SessionActionModel::Stop,
        SessionEventModel::UserLine(l) => SessionActionModel::Send(tagged_line(name, l)),
        SessionEventModel::UserEnd => SessionActionModel::Stop,
    }
}

/// Drive one client session step: the executable transition function.
///
/// `name` is this client's display name; the returned action is what the
/// session's task must perform before re-entering its event loop.
pub fn session_step(name: &str, ev: SessionEvent) -> (r: SessionAction)
    ensures
        r@ == session_model(name.spec_bytes(), ev@),
{
    match ev {
        SessionEvent::ServerLine(l) => {
            let highlight = is_mention(l.as_str(), name);
            SessionAction::Render { line: l, highlight }
        },
        SessionEvent::ServerEnd => SessionAction::Stop,
        SessionEvent::UserLine(l) => SessionAction::Send(tag_line(name, l.as_str())),
        SessionEvent::UserEnd => SessionAction::Stop,
    }
}

} // verus!
