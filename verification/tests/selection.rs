//! The owner filter and the main-window policy.

use winctl::select::{choose_main_window, filter_by_pid};

#[test]
fn keeps_only_the_owners_windows_in_order() {
    let wins = vec![10, 20, 30, 40];
    let pids = vec![Some(7), Some(9), None, Some(7)];
    assert_eq!(filter_by_pid(&wins, &pids, 7), vec![10, 40]);
    assert_eq!(filter_by_pid(&wins, &pids, 9), vec![20]);
}

#[test]
fn owner_of_nothing_gets_an_empty_list() {
    let wins = vec![10, 20, 30];
    let pids = vec![Some(1), None, Some(2)];
    let kept = filter_by_pid(&wins, &pids, 999);
    assert!(kept.is_empty());
}

#[test]
fn window_without_owner_property_never_matches() {
    let wins = vec![10];
    let pids = vec![None];
    assert!(filter_by_pid(&wins, &pids, 0).is_empty());
}

#[test]
fn prefers_the_first_viewable_titled_window() {
    let wins = vec![10, 20, 30];
    let vis = vec![false, true, true];
    let titled = vec![true, true, true];
    assert_eq!(choose_main_window(&wins, &vis, &titled), Some(20));
}

#[test]
fn viewable_but_untitled_is_passed_over() {
    let wins = vec![10, 20];
    let vis = vec![true, true];
    let titled = vec![false, true];
    assert_eq!(choose_main_window(&wins, &vis, &titled), Some(20));
}

#[test]
fn falls_back_to_the_first_window() {
    let wins = vec![10, 20];
    let vis = vec![false, true];
    let titled = vec![true, false];
    assert_eq!(choose_main_window(&wins, &vis, &titled), Some(10));
}

#[test]
fn no_windows_means_no_choice() {
    let wins: Vec<u32> = vec![];
    assert_eq!(choose_main_window(&wins, &vec![], &vec![]), None);
}

#[test]
fn choice_lies_among_the_owners_windows() {
    let wins = vec![11, 22, 33, 44, 55];
    let pids = vec![Some(5), Some(6), Some(5), None, Some(5)];
    let kept = filter_by_pid(&wins, &pids, 5);
    let vis = vec![false, true, true];
    let titled = vec![false, false, true];
    let chosen = choose_main_window(&kept, &vis, &titled).unwrap();
    assert!(kept.contains(&chosen));
    assert_eq!(chosen, 55);
}
