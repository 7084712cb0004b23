//! Trusted boundary around the X11 transport.
//!
//! Every function here is an `external_body` wrapper around one request of
//! the x11rb crate (the request and the reading of its reply). The rest of
//! the crate talks to the window system only through these wrappers and is
//! verified against their contracts. The wrappers state nothing about the
//! values the server returns — those depend on live desktop state — beyond
//! what the X11 protocol and x11rb's reply parsing themselves enforce.

use crate::XCallError;
use vstd::prelude::*;
use x11rb::connection::Connection;
use x11rb::protocol::xproto::ConnectionExt;
use x11rb::rust_connection::RustConnection;

verus! {

/// An open exchange with the X11 server. Holds x11rb's `RustConnection`,
/// which Verus cannot take as it stands (its stream type parameter is bound
/// by an outside trait), so the whole struct is opaque to verification: a
/// value of it is only ever threaded from `open_session` into the other
/// wrappers here.
#[verifier::external_body]
pub struct Session {
    conn: RustConnection,
}

/// Relies on `RustConnection::connect`: opens a connection to the display
/// named by the environment and returns it with the preferred screen number.
#[verifier::external_body]
pub(crate) fn open_session() -> (r: Result<(Session, usize), XCallError>)
{
    match RustConnection::connect(None) {
        Ok((conn, screen)) => Ok((Session { conn }, screen)),
        Err(_) => Err(XCallError::Transport),
    }
}

/// Relies on `Connection::setup`: returns the root window of the given
/// screen, or `None` if the screen number is out of range.
#[verifier::external_body]
pub(crate) fn root_window(conn: &Session, screen: usize) -> (r: Option<u32>)
{
    conn.conn.setup().roots.get(screen).map(|s| s.root)
}

/// Relies on `ConnectionExt::intern_atom` and `Cookie::reply`: returns the
/// atom the server associates with `name` (creating it if it is new). The
/// request carries the name's byte length in a 16-bit field and x11rb
/// panics on a name that does not fit; a character takes at most four
/// bytes, so the precondition keeps every admissible name inside the field.
#[verifier::external_body]
pub(crate) fn intern_atom(conn: &Session, name: &str) -> (r: Result<u32, XCallError>)
    requires
        name@.len() <= 0x3FFF,
{
    match conn.conn.intern_atom(false, name.as_bytes()) {
        Err(_) => Err(XCallError::Transport),
        Ok(cookie) => match cookie.reply() {
            Ok(rep) => Ok(rep.atom),
            Err(x11rb::errors::ReplyError::ConnectionError(_)) => Err(XCallError::Transport),
            Err(x11rb::errors::ReplyError::X11Error(_)) => Err(XCallError::Rejected),
        },
    }
}

/// Relies on `ConnectionExt::get_property` and `Cookie::reply`: reads up to
/// `long_length` 32-bit units of the property `property` of `window`,
/// expecting type `type_`, and returns `(format, value_len, value)` from the
/// reply. x11rb's reply parsing enforces that the value buffer holds exactly
/// `value_len * (format / 8)` bytes, which the contract restates.
#[verifier::external_body]
pub(crate) fn get_property(
    conn: &Session,
    window: u32,
    property: u32,
    type_: u32,
    long_length: u32,
) -> (r: Result<(u8, u32, Vec<u8>), XCallError>)
    ensures
        r matches Ok(p) ==> p.2@.len() == p.1 as int * ((p.0 as int) / 8),
{
    match conn.conn.get_property(false, window, property, type_, 0, long_length) {
        Err(_) => Err(XCallError::Transport),
        Ok(cookie) => match cookie.reply() {
            Ok(rep) => Ok((rep.format, rep.value_len, rep.value)),
            Err(x11rb::errors::ReplyError::ConnectionError(_)) => Err(XCallError::Transport),
            Err(x11rb::errors::ReplyError::X11Error(_)) => Err(XCallError::Rejected),
        },
    }
}

/// Relies on `ConnectionExt::get_geometry` and `Cookie::reply`: returns the
/// `(x, y, width, height)` fields of the geometry reply for `drawable`. The
/// server rejects the request (an X11 error) when the drawable is gone.
#[verifier::external_body]
pub(crate) fn get_geometry(conn: &Session, drawable: u32) -> (r: Result<
    (i16, i16, u16, u16),
    XCallError,
>)
{
    match conn.conn.get_geometry(drawable) {
        Err(_) => Err(XCallError::Transport),
        Ok(cookie) => match cookie.reply() {
            Ok(g) => Ok((g.x, g.y, g.width, g.height)),
            Err(x11rb::errors::ReplyError::ConnectionError(_)) => Err(XCallError::Transport),
            Err(x11rb::errors::ReplyError::X11Error(_)) => Err(XCallError::Rejected),
        },
    }
}

/// Relies on `ConnectionExt::get_window_attributes` and `Cookie::reply`:
/// returns the map state of `window` as its protocol code (0 unmapped,
/// 1 unviewable, 2 viewable).
#[verifier::external_body]
pub(crate) fn get_map_state(conn: &Session, window: u32) -> (r: Result<u8, XCallError>)
{
    match conn.conn.get_window_attributes(window) {
        Err(_) => Err(XCallError::Transport),
        Ok(cookie) => match cookie.reply() {
            Ok(rep) => Ok(u8::from(rep.map_state)),
            Err(x11rb::errors::ReplyError::ConnectionError(_)) => Err(XCallError::Transport),
            Err(x11rb::errors::ReplyError::X11Error(_)) => Err(XCallError::Rejected),
        },
    }
}

/// Relies on `ConnectionExt::unmap_window` and `VoidCookie::check`: asks
/// the server to unmap `window` and waits for its answer, so a rejection
/// (the window is gone) is seen, not dropped.
#[verifier::external_body]
pub(crate) fn unmap_window(conn: &Session, window: u32) -> (r: Result<(), XCallError>)
{
    match conn.conn.unmap_window(window) {
        Err(_) => Err(XCallError::Transport),
        Ok(cookie) => match cookie.check() {
            Ok(()) => Ok(()),
            Err(x11rb::errors::ReplyError::ConnectionError(_)) => Err(XCallError::Transport),
            Err(x11rb::errors::ReplyError::X11Error(_)) => Err(XCallError::Rejected),
        },
    }
}

/// Relies on `ConnectionExt::map_window` and `VoidCookie::check`: asks the
/// server to map `window` and waits for its answer, so a rejection is seen,
/// not dropped.
#[verifier::external_body]
pub(crate) fn map_window(conn: &Session, window: u32) -> (r: Result<(), XCallError>)
{
    match conn.conn.map_window(window) {
        Err(_) => Err(XCallError::Transport),
        Ok(cookie) => match cookie.check() {
            Ok(()) => Ok(()),
            Err(x11rb::errors::ReplyError::ConnectionError(_)) => Err(XCallError::Transport),
            Err(x11rb::errors::ReplyError::X11Error(_)) => Err(XCallError::Rejected),
        },
    }
}

/// Relies on `ConnectionExt::change_property` and `VoidCookie::check`:
/// replaces the property `property` of `window` with `data_len` 32-bit
/// units of type `type_`, taken from `data`, and waits for the server's
/// answer, so a rejection is seen, not dropped. The X11 protocol reads
/// exactly `4 * data_len` bytes of data for format 32, which the first
/// precondition pins down; x11rb sizes the request by `data_len` times the
/// format in a 32-bit multiply and panics where that overflows, which the
/// second precondition rules out.
#[verifier::external_body]
pub(crate) fn replace_property32(
    conn: &Session,
    window: u32,
    property: u32,
    type_: u32,
    data_len: u32,
    data: &[u8],
) -> (r: Result<(), XCallError>)
    requires
        data@.len() == 4 * data_len as int,
        data_len <= 0x07FF_FFFF,
{
    let mode = x11rb::protocol::xproto::PropMode::REPLACE;
    match conn.conn.change_property(mode, window, property, type_, 32, data_len, data) {
        Err(_) => Err(XCallError::Transport),
        Ok(cookie) => match cookie.check() {
            Ok(()) => Ok(()),
            Err(x11rb::errors::ReplyError::ConnectionError(_)) => Err(XCallError::Transport),
            Err(x11rb::errors::ReplyError::X11Error(_)) => Err(XCallError::Rejected),
        },
    }
}

} // verus!
