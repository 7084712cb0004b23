//! Picking windows out of an enumeration.
//!
//! The window system hands back a list of top-level windows and, for each,
//! an owner process id where one is set. Everything decided from those
//! values is done here, on plain data, and is verified: keeping the windows
//! one process owns, and choosing a plausible main window among them.

use vstd::prelude::*;

verus! {

/// The windows among `wins` whose queried owner is `target`, in enumeration
/// order. `pids[i]` is the owner read off `wins[i]`, `None` where the
/// window carries no process id.
pub open spec fn matching_windows(wins: Seq<u32>, pids: Seq<Option<u32>>, target: u32) -> Seq<
    u32,
>
    recommends
        wins.len() == pids.len(),
    decreases wins.len(),
{
    if wins.len() == 0 {
        Seq::empty()
    } else if pids.last() == Some(target) {
        matching_windows(wins.drop_last(), pids.drop_last(), target).push(wins.last())
    } else {
        matching_windows(wins.drop_last(), pids.drop_last(), target)
    }
}

/// Keep the windows owned by `target`, in enumeration order.
pub fn filter_by_pid(wins: &Vec<u32>, pids: &Vec<Option<u32>>, target: u32) -> (r: Vec<u32>)
    requires
        wins@.len() == pids@.len(),
    ensures
        r@ == matching_windows(wins@, pids@, target),
{
    let mut kept: Vec<u32> = Vec::new();
    let n = wins.len();
    for i in 0..n
        invariant
            n == wins@.len(),
            wins@.len() == pids@.len(),
            kept@ == matching_windows(
                wins@.subrange(0, i as int),
                pids@.subrange(0, i as int),
                target,
            ),
    {
        let owned = match pids[i] {
            Some(p) => p == target,
            None => false,
        };
        if owned {
            kept.push(wins[i]);
        }
        proof {
            assert(wins@.subrange(0, i + 1).drop_last() =~= wins@.subrange(0, i as int));
            assert(pids@.subrange(0, i + 1).drop_last() =~= pids@.subrange(0, i as int));
        }
    }
    proof {
        assert(wins@.subrange(0, wins@.len() as int) =~= wins@);
        assert(pids@.subrange(0, pids@.len() as int) =~= pids@);
    }
    kept
}

/// A process that owns none of the enumerated windows matches an empty
/// list: no owner anywhere means nothing is kept, rather than a failure.
pub proof fn lemma_no_owner_no_match(wins: Seq<u32>, pids: Seq<Option<u32>>, target: u32)
    requires
        wins.len() == pids.len(),
        forall|i: int| 0 <= i < pids.len() ==> pids[i] != Some(target),
    ensures
        matching_windows(wins, pids, target) == Seq::<u32>::empty(),
    decreases wins.len(),
{
    if wins.len() > 0 {
        lemma_no_owner_no_match(wins.drop_last(), pids.drop_last(), target);
    }
    assert(matching_windows(wins, pids, target) =~= Seq::<u32>::empty());
}

/// Every window the filter keeps was enumerated, and its queried owner was
/// the target process.
pub proof fn lemma_match_is_owned(wins: Seq<u32>, pids: Seq<Option<u32>>, target: u32, k: int)
    requires
        wins.len() == pids.len(),
        0 <= k < matching_windows(wins, pids, target).len(),
    ensures
        exists|i: int|
            0 <= i < wins.len() && wins[i] == matching_windows(wins, pids, target)[k] && pids[i]
                == Some(target),
    decreases wins.len(),
{
    let kept = matching_windows(wins, pids, target);
    if pids.last() == Some(target) && k == kept.len() - 1 {
        assert(wins[wins.len() - 1] == kept[k] && pids[wins.len() - 1] == Some(target));
    } else {
        lemma_match_is_owned(wins.drop_last(), pids.drop_last(), target, k);
        let i = choose|i: int|
            0 <= i < wins.drop_last().len() && wins.drop_last()[i] == matching_windows(
                wins.drop_last(),
                pids.drop_last(),
                target,
            )[k] && pids.drop_last()[i] == Some(target);
        assert(wins[i] == kept[k] && pids[i] == Some(target));
    }
}

/// Every enumerated window whose queried owner is the target process is
/// kept: the filter returns all of a process's windows, not merely some.
pub proof fn lemma_owned_is_kept(wins: Seq<u32>, pids: Seq<Option<u32>>, target: u32, i: int)
    requires
        wins.len() == pids.len(),
        0 <= i < wins.len(),
        pids[i] == Some(target),
    ensures
        matching_windows(wins, pids, target).contains(wins[i]),
    decreases wins.len(),
{
    let kept = matching_windows(wins, pids, target);
    if i == wins.len() - 1 {
        assert(kept[kept.len() - 1] == wins[i]);
    } else {
        lemma_owned_is_kept(wins.drop_last(), pids.drop_last(), target, i);
        let prefix_kept = matching_windows(wins.drop_last(), pids.drop_last(), target);
        let j = choose|j: int|
            0 <= j < prefix_kept.len() && prefix_kept[j] == wins.drop_last()[i];
        assert(kept[j] == wins[i]);
    }
}

/// The first enumerated window that is both viewable and titled, if any.
/// `vis[i]` and `titled[i]` are the two facts queried for `wins[i]`.
pub open spec fn first_preferred(wins: Seq<u32>, vis: Seq<bool>, titled: Seq<bool>) -> Option<
    u32,
>
    recommends
        wins.len() == vis.len(),
        wins.len() == titled.len(),
    decreases wins.len(),
{
    if wins.len() == 0 {
        None
    } else if vis[0] && titled[0] {
        Some(wins[0])
    } else {
        first_preferred(wins.skip(1), vis.skip(1), titled.skip(1))
    }
}

/// The window the main-window policy picks from one process's windows: the
/// first that is both viewable and titled, failing that the first window,
/// and none where the process owns no window at all.
pub open spec fn main_window_choice(wins: Seq<u32>, vis: Seq<bool>, titled: Seq<bool>) -> Option<
    u32,
> {
    match first_preferred(wins, vis, titled) {
        Some(w) => Some(w),
        None => if wins.len() > 0 {
            Some(wins[0])
        } else {
            None
        },
    }
}

/// Apply the main-window policy to one process's windows.
pub fn choose_main_window(wins: &Vec<u32>, vis: &Vec<bool>, titled: &Vec<bool>) -> (r: Option<
    u32,
>)
    requires
        wins@.len() == vis@.len(),
        wins@.len() == titled@.len(),
    ensures
        r == main_window_choice(wins@, vis@, titled@),
{
    let n = wins.len();
    proof {
        assert(wins@.skip(0) =~= wins@);
        assert(vis@.skip(0) =~= vis@);
        assert(titled@.skip(0) =~= titled@);
    }
    for i in 0..n
        invariant
            n == wins@.len(),
            wins@.len() == vis@.len(),
            wins@.len() == titled@.len(),
            first_preferred(wins@, vis@, titled@) == first_preferred(
                wins@.skip(i as int),
                vis@.skip(i as int),
                titled@.skip(i as int),
            ),
    {
        if vis[i] && titled[i] {
            return Some(wins[i]);
        }
        proof {
            assert(wins@.skip(i as int).skip(1) =~= wins@.skip(i + 1));
            assert(vis@.skip(i as int).skip(1) =~= vis@.skip(i + 1));
            assert(titled@.skip(i as int).skip(1) =~= titled@.skip(i + 1));
        }
    }
    if wins.len() > 0 {
        Some(wins[0])
    } else {
        None
    }
}

/// What the preference pass picks is one of the windows it was given.
pub proof fn lemma_preferred_is_among(wins: Seq<u32>, vis: Seq<bool>, titled: Seq<bool>)
    requires
        wins.len() == vis.len(),
        wins.len() == titled.len(),
    ensures
        first_preferred(wins, vis, titled) matches Some(h) ==> wins.contains(h),
    decreases wins.len(),
{
    if wins.len() > 0 && !(vis[0] && titled[0]) {
        lemma_preferred_is_among(wins.skip(1), vis.skip(1), titled.skip(1));
        if first_preferred(wins, vis, titled) is Some {
            let h = first_preferred(wins, vis, titled)->Some_0;
            let j = choose|j: int| 0 <= j < wins.skip(1).len() && wins.skip(1)[j] == h;
            assert(wins[j + 1] == h);
        }
    }
}

/// What the main-window policy picks is always one of the windows it was
/// given to pick from.
pub proof fn lemma_choice_is_among(wins: Seq<u32>, vis: Seq<bool>, titled: Seq<bool>)
    requires
        wins.len() == vis.len(),
        wins.len() == titled.len(),
    ensures
        main_window_choice(wins, vis, titled) matches Some(h) ==> wins.contains(h),
{
    lemma_preferred_is_among(wins, vis, titled);
    if first_preferred(wins, vis, titled) is None && wins.len() > 0 {
        assert(wins.contains(wins[0]));
    }
}

/// A window the single-window search settles on always lies in the list the
/// every-window search yields for the same process: the main-window policy
/// picks among the windows whose owner matched, never outside them.
pub proof fn lemma_found_window_is_a_match(
    wins: Seq<u32>,
    pids: Seq<Option<u32>>,
    vis: Seq<bool>,
    titled: Seq<bool>,
    target: u32,
)
    requires
        wins.len() == pids.len(),
        vis.len() == matching_windows(wins, pids, target).len(),
        titled.len() == matching_windows(wins, pids, target).len(),
    ensures
        main_window_choice(matching_windows(wins, pids, target), vis, titled) matches Some(h)
            ==> matching_windows(wins, pids, target).contains(h),
{
    lemma_choice_is_among(matching_windows(wins, pids, target), vis, titled);
}

} // verus!
