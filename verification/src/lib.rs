//! Querying and steering desktop windows over the X11 protocol: reading a
//! window's on-screen rectangle, finding the top-level windows a process
//! owns, resolving the active window's owning process, and taking a window
//! out of the taskbar and window switcher.
//!
//! Every exchange with the window system goes through the trusted wrappers
//! in `x11`; everything decided from the values that come back — decoding
//! property replies, keeping a process's windows, choosing its main window,
//! laying out the bytes of a property change — is verified, in `prop` and
//! `select` and here.

pub mod prop;
pub mod select;
mod x11;

use vstd::prelude::*;

verus! {

/// Predefined X11 atom for the ATOM type.
const ATOM_ATOM: u32 = 4;

/// Predefined X11 atom for the CARDINAL type.
const ATOM_CARDINAL: u32 = 6;

/// Predefined X11 atom for the WINDOW type.
const ATOM_WINDOW: u32 = 33;

/// Predefined X11 atom for the WM_NAME property.
const ATOM_WM_NAME: u32 = 39;

/// Atom code that leaves a property's type unconstrained in a query.
const ATOM_ANY: u32 = 0;

/// Map-state code of a window that is mapped and viewable.
pub const MAP_STATE_VIEWABLE: u8 = 2;

/// A snapshot of a window's on-screen geometry: position of the top-left
/// corner in screen coordinates, and size in pixels. A zero width or height
/// is a legal size, not a failure.
#[derive(Clone, Copy, Debug)]
pub struct WindowInfo {
    pub pos: (i32, i32),
    pub size: (u32, u32),
}

/// The snapshot that the raw fields of a geometry reply describe.
pub open spec fn geometry_info(x: i16, y: i16, width: u16, height: u16) -> WindowInfo {
    WindowInfo { pos: (x as i32, y as i32), size: (width as u32, height as u32) }
}

/// The snapshot that a screen rectangle describes: the left-top corner as
/// the position, the distance to the right-bottom corner as the size.
pub open spec fn rect_info(left: i32, top: i32, right: i32, bottom: i32) -> WindowInfo
    recommends
        left <= right,
        top <= bottom,
{
    WindowInfo { pos: (left, top), size: (((right - left) as u32), ((bottom - top) as u32)) }
}

impl WindowInfo {
    /// Build a snapshot from the raw geometry fields of an X11 geometry
    /// reply. Position is sign-extended, size is zero-extended, so both
    /// size components are nonnegative counts of pixels.
    pub fn from_geometry(x: i16, y: i16, width: u16, height: u16) -> (r: WindowInfo)
        ensures
            r == geometry_info(x, y, width, height),
            r.pos.0 == x as i32,
            r.pos.1 == y as i32,
            r.size.0 == width as u32,
            r.size.1 == height as u32,
    {
        WindowInfo {
            pos: (x as i32, y as i32),
            size: (width as u32, height as u32),
        }
    }

    /// Build a snapshot from a screen rectangle given by its two corners,
    /// as window systems that answer with rectangles report geometry. The
    /// difference of two 32-bit corners always fits an unsigned 32-bit
    /// size, so no input of a well-formed rectangle can overflow.
    pub fn from_rect(left: i32, top: i32, right: i32, bottom: i32) -> (r: WindowInfo)
        requires
            left <= right,
            top <= bottom,
        ensures
            r == rect_info(left, top, right, bottom),
            r.pos.0 == left,
            r.pos.1 == top,
            r.size.0 == right - left,
            r.size.1 == bottom - top,
    {
        let width = (right as i64 - left as i64) as u32;
        let height = (bottom as i64 - top as i64) as u32;
        WindowInfo { pos: (left, top), size: (width, height) }
    }
}

/// Why a query or a command against the window system failed.
#[derive(Clone, Copy, PartialEq, Eq, Structural, Debug)]
pub enum QueryError {
    /// The connection to the window system could not be established or
    /// broke down during the call.
    Transport,
    /// A property the answer needs is absent or not in the expected format.
    Property,
    /// The window no longer exists (or never did).
    InvalidHandle,
    /// A multi-step change failed after its first step had already gone
    /// out: the window may be left partway through the sequence.
    PartialOperation,
}

/// How a single exchange with the X11 server failed.
#[derive(Clone, Copy, PartialEq, Eq, Structural, Debug)]
pub enum XCallError {
    /// The connection could not be established or broke down mid-call.
    Transport,
    /// The server answered the request with an X11 protocol error.
    Rejected,
}

/// How a failed request aimed at one window surfaces: a connection failure
/// is `Transport`, and a server rejection means the window no longer exists
/// (or never did) and is typed `InvalidHandle` — a stale handle degrades to
/// an error, never to a panic.
pub fn stale_window_error(e: XCallError) -> (r: QueryError)
    ensures
        e == XCallError::Transport ==> r == QueryError::Transport,
        e == XCallError::Rejected ==> r == QueryError::InvalidHandle,
{
    match e {
        XCallError::Transport => QueryError::Transport,
        XCallError::Rejected => QueryError::InvalidHandle,
    }
}

/// The process a foreground-owner report stands for: the window system
/// reports owner zero where no window has the focus, and zero is no
/// process.
pub fn foreground_owner(pid: u32) -> (r: Option<u32>)
    ensures
        r == (if pid == 0 { None::<u32> } else { Some(pid) }),
{
    if pid == 0 {
        None
    } else {
        Some(pid)
    }
}

/// Whether a drawn map state says the window is on screen: only the
/// viewable code counts; an unmapped or covered-by-an-unmapped-ancestor
/// window does not.
pub fn is_viewable(state: u8) -> (r: bool)
    ensures
        r == (state == MAP_STATE_VIEWABLE),
{
    state == MAP_STATE_VIEWABLE
}

/// Whether a drawn title-property length says the window is titled: any
/// nonzero length does; an absent property comes back with length zero.
pub fn is_titled(value_len: u32) -> (r: bool)
    ensures
        r == (value_len > 0),
{
    value_len > 0
}

/// Read the current on-screen rectangle of `window`.
///
/// A destroyed or never-valid handle is rejected by the server and comes
/// back as `InvalidHandle`, never as a panic. Any snapshot returned has
/// nonnegative size components, and its fields are exactly those of the
/// server's geometry reply.
pub fn get_window_info(window: u32) -> (r: Result<WindowInfo, QueryError>)
    ensures
        r matches Ok(info) ==> exists|x: i16, y: i16, w: u16, h: u16|
            info == geometry_info(x, y, w, h),
        r matches Ok(info) ==> info.size.0 >= 0 && info.size.1 >= 0,
        r matches Err(e) ==> e == QueryError::Transport || e == QueryError::InvalidHandle,
{
    let (conn, _screen) = match x11::open_session() {
        Ok(p) => p,
        Err(_) => {
            return Err(QueryError::Transport);
        },
    };
    match x11::get_geometry(&conn, window) {
        Ok((x, y, w, h)) => {
            Ok(WindowInfo::from_geometry(x, y, w, h))
        },
        Err(e) => Err(stale_window_error(e)),
    }
}

/// Find every top-level window owned by `target_pid`, in the order the
/// window manager enumerates them.
///
/// The result is exactly the owner filter applied to the enumerated windows
/// and the owner each one reported: windows without an owner property are
/// never kept, and a process that owns no window yields an empty list, not
/// an error. A hard error arises only from the transport, an unreadable
/// window list (`Property`), or a window vanishing while its owner was
/// being read (`InvalidHandle`).
pub fn find_windows_by_pid(target_pid: u32) -> (r: Result<Vec<u32>, QueryError>)
    ensures
        r matches Err(e) ==> e == QueryError::Transport || e == QueryError::Property || e
            == QueryError::InvalidHandle,
{
    let (conn, screen) = match x11::open_session() {
        Ok(p) => p,
        Err(_) => {
            return Err(QueryError::Transport);
        },
    };
    let root = match x11::root_window(&conn, screen) {
        Some(w) => w,
        None => {
            return Err(QueryError::Transport);
        },
    };
    let wins = match client_list(&conn, root) {
        Ok(ws) => ws,
        Err(e) => {
            return Err(e);
        },
    };
    let pids = match owner_pids(&conn, &wins) {
        Ok(ps) => ps,
        Err(e) => {
            return Err(e);
        },
    };
    let kept = select::filter_by_pid(&wins, &pids, target_pid);
    Ok(kept)
}

/// Find a plausible main window of `target_pid`: the first of its windows
/// that is both viewable and titled, failing that its first window, and
/// `None` — not an error — where the process owns no window.
///
/// Whatever the policy settles on lies among the windows that
/// `find_windows_by_pid` keeps for the same process: the choice is made
/// inside the owner-filtered list, never outside it.
pub fn find_window_by_pid(target_pid: u32) -> (r: Result<Option<u32>, QueryError>)
    ensures
        r matches Err(e) ==> e == QueryError::Transport || e == QueryError::Property || e
            == QueryError::InvalidHandle,
{
    let (conn, screen) = match x11::open_session() {
        Ok(p) => p,
        Err(_) => {
            return Err(QueryError::Transport);
        },
    };
    let root = match x11::root_window(&conn, screen) {
        Some(w) => w,
        None => {
            return Err(QueryError::Transport);
        },
    };
    let wins = match client_list(&conn, root) {
        Ok(ws) => ws,
        Err(e) => {
            return Err(e);
        },
    };
    let pids = match owner_pids(&conn, &wins) {
        Ok(ps) => ps,
        Err(e) => {
            return Err(e);
        },
    };
    let kept = select::filter_by_pid(&wins, &pids, target_pid);
    let vis = match viewable_flags(&conn, &kept) {
        Ok(fs) => fs,
        Err(e) => {
            return Err(e);
        },
    };
    let titled = match titled_flags(&conn, &kept) {
        Ok(fs) => fs,
        Err(e) => {
            return Err(e);
        },
    };
    Ok(select::choose_main_window(&kept, &vis, &titled))
}

/// Resolve the process that owns the currently active (focused) window.
///
/// Returns `None` — not an error — when no window is active, when the
/// active-window property cannot be read, or when the active window
/// carries no owner property; the only hard failure is the transport.
pub fn get_active_window_pid() -> (r: Result<Option<u32>, QueryError>)
    ensures
        r matches Err(e) ==> e == QueryError::Transport,
{
    let (conn, screen) = match x11::open_session() {
        Ok(p) => p,
        Err(_) => {
            return Err(QueryError::Transport);
        },
    };
    let root = match x11::root_window(&conn, screen) {
        Some(w) => w,
        None => {
            return Err(QueryError::Transport);
        },
    };
    let active = match active_window(&conn, root) {
        Ok(Some(w)) => w,
        Ok(None) => {
            return Ok(None);
        },
        Err(e) => {
            return Err(e);
        },
    };
    proof {
        reveal_strlit("_NET_WM_PID");
    }
    let pid_atom = match x11::intern_atom(&conn, "_NET_WM_PID") {
        Ok(a) => a,
        Err(_) => {
            return Err(QueryError::Transport);
        },
    };
    match x11::get_property(&conn, active, pid_atom, ATOM_CARDINAL, 1) {
        Ok((format, value_len, value)) => Ok(
            prop::first_u32_of_property(format, value_len, &value),
        ),
        Err(XCallError::Transport) => Err(QueryError::Transport),
        Err(XCallError::Rejected) => Ok(None),
    }
}

/// Take `window` out of the taskbar and the window switcher while leaving
/// it on screen: briefly unmap it, replace its window-manager state with
/// the skip-taskbar and skip-pager hints, then map it back. Every step
/// waits for the server's answer, so no rejection goes unseen.
///
/// A failure before anything was changed is `Transport`, or `InvalidHandle`
/// where the server rejects the first step because the window is already
/// gone; a failure after the first step has gone out is reported as
/// `PartialOperation` rather than swallowed, since the window may be left
/// mid-sequence.
pub fn hide_window(window: u32) -> (r: Result<(), QueryError>)
    ensures
        r matches Err(e) ==> e == QueryError::Transport || e == QueryError::InvalidHandle || e
            == QueryError::PartialOperation,
{
    let (conn, _screen) = match x11::open_session() {
        Ok(p) => p,
        Err(_) => {
            return Err(QueryError::Transport);
        },
    };
    match x11::unmap_window(&conn, window) {
        Ok(()) => {},
        Err(e) => {
            // Nothing has changed yet: a rejected unmap means the window no
            // longer exists.
            return Err(stale_window_error(e));
        },
    }
    // From here on the window is unmapped: any failure is partial.
    proof {
        reveal_strlit("_NET_WM_STATE");
    }
    let wm_state = match x11::intern_atom(&conn, "_NET_WM_STATE") {
        Ok(a) => a,
        Err(_) => {
            return Err(QueryError::PartialOperation);
        },
    };
    proof {
        reveal_strlit("_NET_WM_STATE_SKIP_TASKBAR");
    }
    let skip_taskbar = match x11::intern_atom(&conn, "_NET_WM_STATE_SKIP_TASKBAR") {
        Ok(a) => a,
        Err(_) => {
            return Err(QueryError::PartialOperation);
        },
    };
    proof {
        reveal_strlit("_NET_WM_STATE_SKIP_PAGER");
    }
    let skip_pager = match x11::intern_atom(&conn, "_NET_WM_STATE_SKIP_PAGER") {
        Ok(a) => a,
        Err(_) => {
            return Err(QueryError::PartialOperation);
        },
    };
    let data = prop::encode_atom_pair(skip_taskbar, skip_pager);
    if x11::replace_property32(&conn, window, wm_state, ATOM_ATOM, 2, &data).is_err() {
        return Err(QueryError::PartialOperation);
    }
    if x11::map_window(&conn, window).is_err() {
        return Err(QueryError::PartialOperation);
    }
    Ok(())
}

/// Resolve the active (focused) window off the root window's active-window
/// property. `None` where no window is active: the property is absent,
/// unreadable, or names window id zero — `foreground_owner` reads that
/// report, zero being how the window manager parks the property when
/// nothing holds the focus.
fn active_window(conn: &x11::Session, root: u32) -> (r: Result<Option<u32>, QueryError>)
    ensures
        r matches Err(e) ==> e == QueryError::Transport,
{
    proof {
        reveal_strlit("_NET_ACTIVE_WINDOW");
    }
    let active_atom = match x11::intern_atom(conn, "_NET_ACTIVE_WINDOW") {
        Ok(a) => a,
        Err(_) => {
            return Err(QueryError::Transport);
        },
    };
    let active = match x11::get_property(conn, root, active_atom, ATOM_WINDOW, 1) {
        Ok((format, value_len, value)) => {
            match prop::first_u32_of_property(format, value_len, &value) {
                Some(w) => w,
                None => {
                    return Ok(None);
                },
            }
        },
        Err(XCallError::Transport) => {
            return Err(QueryError::Transport);
        },
        Err(XCallError::Rejected) => {
            return Ok(None);
        },
    };
    Ok(foreground_owner(active))
}

/// Read the window manager's list of top-level windows off the root window.
fn client_list(conn: &x11::Session, root: u32) -> (r: Result<Vec<u32>, QueryError>)
    ensures
        r matches Err(e) ==> e == QueryError::Transport || e == QueryError::Property,
{
    proof {
        reveal_strlit("_NET_CLIENT_LIST");
    }
    let list_atom = match x11::intern_atom(conn, "_NET_CLIENT_LIST") {
        Ok(a) => a,
        Err(_) => {
            return Err(QueryError::Transport);
        },
    };
    let (format, _value_len, value) = match x11::get_property(
        conn,
        root,
        list_atom,
        ATOM_WINDOW,
        u32::MAX,
    ) {
        Ok(t) => t,
        Err(_) => {
            return Err(QueryError::Transport);
        },
    };
    match prop::u32s_of_property(format, &value) {
        Some(ws) => Ok(ws),
        None => Err(QueryError::Property),
    }
}

/// Read the owner process of each window in `wins`, `None` where a window
/// carries no owner property. The owners come back in step with `wins`.
fn owner_pids(conn: &x11::Session, wins: &Vec<u32>) -> (r: Result<Vec<Option<u32>>, QueryError>)
    ensures
        r matches Ok(pids) ==> pids@.len() == wins@.len(),
        r matches Err(e) ==> e == QueryError::Transport || e == QueryError::InvalidHandle,
{
    proof {
        reveal_strlit("_NET_WM_PID");
    }
    let pid_atom = match x11::intern_atom(conn, "_NET_WM_PID") {
        Ok(a) => a,
        Err(_) => {
            return Err(QueryError::Transport);
        },
    };
    let mut pids: Vec<Option<u32>> = Vec::new();
    let n = wins.len();
    for i in 0..n
        invariant
            n == wins@.len(),
            pids@.len() == i,
    {
        match x11::get_property(conn, wins[i], pid_atom, ATOM_CARDINAL, 1) {
            Ok((format, value_len, value)) => {
                pids.push(prop::first_u32_of_property(format, value_len, &value));
            },
            Err(XCallError::Transport) => {
                return Err(QueryError::Transport);
            },
            Err(XCallError::Rejected) => {
                return Err(QueryError::InvalidHandle);
            },
        }
    }
    Ok(pids)
}

/// Read whether each window in `wins` is currently mapped and viewable. A
/// window that vanished since it was enumerated counts as not viewable.
fn viewable_flags(conn: &x11::Session, wins: &Vec<u32>) -> (r: Result<Vec<bool>, QueryError>)
    ensures
        r matches Ok(flags) ==> flags@.len() == wins@.len(),
        r matches Err(e) ==> e == QueryError::Transport,
{
    let mut flags: Vec<bool> = Vec::new();
    let n = wins.len();
    for i in 0..n
        invariant
            n == wins@.len(),
            flags@.len() == i,
    {
        match x11::get_map_state(conn, wins[i]) {
            Ok(state) => {
                flags.push(is_viewable(state));
            },
            Err(XCallError::Transport) => {
                return Err(QueryError::Transport);
            },
            Err(XCallError::Rejected) => {
                flags.push(false);
            },
        }
    }
    Ok(flags)
}

/// Read whether each window in `wins` carries a nonempty title. A window
/// that vanished since it was enumerated counts as untitled.
fn titled_flags(conn: &x11::Session, wins: &Vec<u32>) -> (r: Result<Vec<bool>, QueryError>)
    ensures
        r matches Ok(flags) ==> flags@.len() == wins@.len(),
        r matches Err(e) ==> e == QueryError::Transport,
{
    let mut flags: Vec<bool> = Vec::new();
    let n = wins.len();
    for i in 0..n
        invariant
            n == wins@.len(),
            flags@.len() == i,
    {
        match x11::get_property(conn, wins[i], ATOM_WM_NAME, ATOM_ANY, 1) {
            Ok((_format, value_len, _value)) => {
                flags.push(is_titled(value_len));
            },
            Err(XCallError::Transport) => {
                return Err(QueryError::Transport);
            },
            Err(XCallError::Rejected) => {
                flags.push(false);
            },
        }
    }
    Ok(flags)
}

} // verus!
