//! The query surface against whatever window system the host offers.
//!
//! These tests make no assumption about whether a display is reachable:
//! they check what the contracts promise of every outcome, in particular
//! which errors each operation may surface.

use winctl::{find_window_by_pid, find_windows_by_pid, foreground_owner, get_active_window_pid,
    get_window_info, hide_window, is_titled, is_viewable, stale_window_error, QueryError,
    XCallError, MAP_STATE_VIEWABLE};

#[test]
fn geometry_query_never_panics_and_errors_are_typed() {
    // Window id zero is never a valid window.
    match get_window_info(0) {
        Ok(info) => {
            // A snapshot comes from a geometry reply, whose size fields are
            // 16-bit pixel counts.
            assert!(info.size.0 <= 0xFFFF && info.size.1 <= 0xFFFF);
        },
        Err(e) => {
            assert!(e == QueryError::Transport || e == QueryError::InvalidHandle);
        },
    }
}

#[test]
fn repeated_geometry_queries_agree() {
    // Nothing moves window id zero between two immediate queries: both
    // calls must tell the same story.
    let first = get_window_info(0);
    let second = get_window_info(0);
    match (first, second) {
        (Ok(a), Ok(b)) => {
            assert_eq!(a.pos, b.pos);
            assert_eq!(a.size, b.size);
        },
        (Err(a), Err(b)) => assert_eq!(a, b),
        _ => panic!("two immediate queries of the same window disagreed"),
    }
}

#[test]
fn window_enumeration_errors_are_typed() {
    match find_windows_by_pid(u32::MAX) {
        Ok(_) => {},
        Err(e) => {
            assert!(
                e == QueryError::Transport || e == QueryError::Property
                    || e == QueryError::InvalidHandle
            );
        },
    }
}

#[test]
fn single_window_search_errors_are_typed() {
    match find_window_by_pid(u32::MAX) {
        Ok(_) => {},
        Err(e) => {
            assert!(
                e == QueryError::Transport || e == QueryError::Property
                    || e == QueryError::InvalidHandle
            );
        },
    }
}

#[test]
fn active_window_query_fails_only_on_transport() {
    match get_active_window_pid() {
        Ok(_) => {},
        Err(e) => {
            assert_eq!(e, QueryError::Transport);
        },
    }
}

#[test]
fn hiding_reports_partial_failures() {
    match hide_window(0) {
        Ok(()) => {},
        Err(e) => {
            assert!(
                e == QueryError::Transport || e == QueryError::InvalidHandle
                    || e == QueryError::PartialOperation
            );
        },
    }
}

#[test]
fn server_rejection_is_the_stale_handle_error() {
    assert_eq!(stale_window_error(XCallError::Rejected), QueryError::InvalidHandle);
    assert_eq!(stale_window_error(XCallError::Transport), QueryError::Transport);
}

#[test]
fn zero_owner_report_means_no_process() {
    assert_eq!(foreground_owner(0), None);
    assert_eq!(foreground_owner(4242), Some(4242));
}

#[test]
fn only_the_viewable_map_state_counts_as_on_screen() {
    assert!(is_viewable(MAP_STATE_VIEWABLE));
    assert!(!is_viewable(0)); // unmapped
    assert!(!is_viewable(1)); // mapped under an unmapped ancestor
}

#[test]
fn any_nonempty_title_counts_as_titled() {
    assert!(!is_titled(0));
    assert!(is_titled(1));
    assert!(is_titled(200));
}
