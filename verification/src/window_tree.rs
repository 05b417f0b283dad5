//! Walks through the X window tree, one server query at a time: whether the
//! pointer is over one of this process's windows, and whether one window is
//! an ancestor of another. Each walk is a small state machine; the caller makes
//! the query that the current state asks for and feeds the answer back.
use vstd::prelude::*;

verus! {

/// How many windows a walk up the tree looks at before giving up.
pub const MAX_TREE_STEPS: u32 = 64;

/// The search for this process's window under the pointer.
#[derive(Clone, Copy, Debug, PartialEq, Eq, Structural)]
pub enum OwnWindowSearch {
    /// Going down: ask which child of `window` holds the pointer.
    Descend { window: u64 },
    /// Going up: ask which process owns `window`; `checked` windows were looked at before.
    CheckPid { window: u64, checked: u32 },
    /// Going up: ask for the parent of `window`.
    FindParent { window: u64, checked: u32 },
    /// The answer.
    Done { over_own_window: bool },
}

/// An answer to the query that a search state asks for.
#[derive(Clone, Copy, Debug, PartialEq, Eq, Structural)]
pub enum TreeAnswer {
    /// The child of the window that holds the pointer (`0` for none).
    Child { child: u64 },
    /// The process that owns the window, if known.
    Pid { pid: Option<u32> },
    /// The parent of the window, if the server could tell.
    Parent { parent: Option<u64> },
}

/// The first state: the top-level window under the pointer, if any, is where
/// the walk down starts.
pub fn own_window_search_start(pointer_child: Option<u64>) -> (s: OwnWindowSearch)
    ensures
        s == (match pointer_child {
            Some(w) => OwnWindowSearch::Descend { window: w },
            None => OwnWindowSearch::Done { over_own_window: false },
        }),
{
    match pointer_child {
        Some(w) => OwnWindowSearch::Descend { window: w },
        None => OwnWindowSearch::Done { over_own_window: false },
    }
}

/// One step of the search: go down to the deepest window under the pointer,
/// then check that window and its ancestors, up to `MAX_TREE_STEPS` of them,
/// for one owned by `own_pid`. An answer that does not fit the state ends the
/// search with `false`.
pub open spec fn own_window_next(s: OwnWindowSearch, answer: TreeAnswer, own_pid: u32) -> OwnWindowSearch {
    match (s, answer) {
        (OwnWindowSearch::Descend { window }, TreeAnswer::Child { child }) => if child == 0 || child
            == window {
            OwnWindowSearch::CheckPid { window, checked: 0 }
        } else {
            OwnWindowSearch::Descend { window: child }
        },
        (OwnWindowSearch::CheckPid { window, checked }, TreeAnswer::Pid { pid }) => if pid == Some(
            own_pid,
        ) {
            OwnWindowSearch::Done { over_own_window: true }
        } else {
            OwnWindowSearch::FindParent { window, checked }
        },
        (OwnWindowSearch::FindParent { window, checked }, TreeAnswer::Parent { parent }) => match parent {
            Some(p) => if p == 0 || checked + 1 >= MAX_TREE_STEPS {
                OwnWindowSearch::Done { over_own_window: false }
            } else {
                OwnWindowSearch::CheckPid { window: p, checked: (checked + 1) as u32 }
            },
            None => OwnWindowSearch::Done { over_own_window: false },
        },
        (OwnWindowSearch::Done { over_own_window }, _) => OwnWindowSearch::Done { over_own_window },
        _ => OwnWindowSearch::Done { over_own_window: false },
    }
}

/// The states a search passes through have looked at fewer than
/// `MAX_TREE_STEPS` windows.
pub open spec fn own_window_search_wf(s: OwnWindowSearch) -> bool {
    match s {
        OwnWindowSearch::CheckPid { checked, .. } => checked < MAX_TREE_STEPS,
        OwnWindowSearch::FindParent { checked, .. } => checked < MAX_TREE_STEPS,
        _ => true,
    }
}

/// Advances the search with the answer to the query its state asked for.
pub fn own_window_search_step(s: OwnWindowSearch, answer: TreeAnswer, own_pid: u32) -> (next:
    OwnWindowSearch)
    requires
        own_window_search_wf(s),
    ensures
        next == own_window_next(s, answer, own_pid),
        own_window_search_wf(next),
        next == (OwnWindowSearch::Done { over_own_window: true }) ==> (s == (OwnWindowSearch::Done {
            over_own_window: true,
        }) || (s is CheckPid && answer == (TreeAnswer::Pid { pid: Some(own_pid) }))),
{
    match (s, answer) {
        (OwnWindowSearch::Descend { window }, TreeAnswer::Child { child }) => {
            if child == 0 || child == window {
                OwnWindowSearch::CheckPid { window, checked: 0 }
            } else {
                OwnWindowSearch::Descend { window: child }
            }
        },
        (OwnWindowSearch::CheckPid { window, checked }, TreeAnswer::Pid { pid }) => {
            let owned = match pid {
                Some(p) => p == own_pid,
                None => false,
            };
            if owned {
                OwnWindowSearch::Done { over_own_window: true }
            } else {
                OwnWindowSearch::FindParent { window, checked }
            }
        },
        (OwnWindowSearch::FindParent { window, checked }, TreeAnswer::Parent { parent }) => {
            match parent {
                Some(p) => {
                    if p == 0 || checked + 1 >= MAX_TREE_STEPS {
                        OwnWindowSearch::Done { over_own_window: false }
                    } else {
                        OwnWindowSearch::CheckPid { window: p, checked: checked + 1 }
                    }
                },
                None => OwnWindowSearch::Done { over_own_window: false },
            }
        },
        (OwnWindowSearch::Done { over_own_window }, _) => OwnWindowSearch::Done { over_own_window },
        _ => OwnWindowSearch::Done { over_own_window: false },
    }
}

/// Going up, a search looks at no more than `MAX_TREE_STEPS` windows: after a
/// pid check it ends or asks for the same window's parent, and after a parent
/// query it ends or checks that parent with one more window counted.
pub proof fn lemma_own_window_search_bounded(s: OwnWindowSearch, answer: TreeAnswer, own_pid: u32)
    requires
        own_window_search_wf(s),
    ensures
        s matches OwnWindowSearch::CheckPid { window, checked } ==> (own_window_next(
            s,
            answer,
            own_pid,
        ) is Done || own_window_next(s, answer, own_pid) == (OwnWindowSearch::FindParent {
            window,
            checked,
        })),
        s matches OwnWindowSearch::FindParent { checked, .. } ==> (own_window_next(
            s,
            answer,
            own_pid,
        ) is Done || (answer matches TreeAnswer::Parent { parent: Some(p) } && own_window_next(
            s,
            answer,
            own_pid,
        ) == (OwnWindowSearch::CheckPid { window: p, checked: (checked + 1) as u32 }))),
        own_window_search_wf(own_window_next(s, answer, own_pid)),
{
}

/// The walk up from `target` looking for `window` among its ancestors.
#[derive(Clone, Copy, Debug, PartialEq, Eq, Structural)]
pub enum AncestorSearch {
    /// Ask the server for the root and parent of `current`; `steps` queries were made before.
    Query { current: u64, steps: u32 },
    /// The answer.
    Done { is_ancestor: bool },
}

/// The first state of the walk: no window is an ancestor of, or the same as,
/// the window `0`; a window is the same as itself; without a display
/// connection nothing is known.
pub open spec fn ancestor_search_begin(window: u64, target: u64, connected: bool) -> AncestorSearch {
    if window == 0 || target == 0 {
        AncestorSearch::Done { is_ancestor: false }
    } else if window == target {
        AncestorSearch::Done { is_ancestor: true }
    } else if !connected {
        AncestorSearch::Done { is_ancestor: false }
    } else {
        AncestorSearch::Query { current: target, steps: 0 }
    }
}

pub fn ancestor_search_start(window: u64, target: u64, connected: bool) -> (s: AncestorSearch)
    ensures
        s == ancestor_search_begin(window, target, connected),
{
    if window == 0 || target == 0 {
        AncestorSearch::Done { is_ancestor: false }
    } else if window == target {
        AncestorSearch::Done { is_ancestor: true }
    } else if !connected {
        AncestorSearch::Done { is_ancestor: false }
    } else {
        AncestorSearch::Query { current: target, steps: 0 }
    }
}

/// One step of the walk, given the server's answer for `current` (`None` when
/// the query failed): reaching the root ends it with `false`, a parent equal
/// to `window` ends it with `true`, otherwise the walk goes on from the parent,
/// for at most `MAX_TREE_STEPS` queries.
pub open spec fn ancestor_next(s: AncestorSearch, window: u64, answer: Option<(u64, u64)>) -> AncestorSearch {
    match s {
        AncestorSearch::Query { current, steps } => match answer {
            None => AncestorSearch::Done { is_ancestor: false },
            Some((root, parent)) => if current == root {
                AncestorSearch::Done { is_ancestor: false }
            } else if parent == window {
                AncestorSearch::Done { is_ancestor: true }
            } else if steps + 1 >= MAX_TREE_STEPS {
                AncestorSearch::Done { is_ancestor: false }
            } else {
                AncestorSearch::Query { current: parent, steps: (steps + 1) as u32 }
            },
        },
        AncestorSearch::Done { .. } => s,
    }
}

pub open spec fn ancestor_search_wf(s: AncestorSearch) -> bool {
    s matches AncestorSearch::Query { steps, .. } ==> steps < MAX_TREE_STEPS
}

/// Advances the walk with the root and parent of the current window.
pub fn ancestor_search_step(s: AncestorSearch, window: u64, answer: Option<(u64, u64)>) -> (next:
    AncestorSearch)
    requires
        ancestor_search_wf(s),
    ensures
        next == ancestor_next(s, window, answer),
        ancestor_search_wf(next),
{
    match s {
        AncestorSearch::Query { current, steps } => match answer {
            None => AncestorSearch::Done { is_ancestor: false },
            Some((root, parent)) => {
                if current == root {
                    AncestorSearch::Done { is_ancestor: false }
                } else if parent == window {
                    AncestorSearch::Done { is_ancestor: true }
                } else if steps + 1 >= MAX_TREE_STEPS {
                    AncestorSearch::Done { is_ancestor: false }
                } else {
                    AncestorSearch::Query { current: parent, steps: steps + 1 }
                }
            },
        },
        AncestorSearch::Done { is_ancestor } => AncestorSearch::Done { is_ancestor },
    }
}

/// The answer a window tree gives to the query of a search state, for a tree
/// described by the child under the pointer, the owning process and the parent
/// of each window.
pub open spec fn tree_answer(
    s: OwnWindowSearch,
    child: spec_fn(u64) -> u64,
    pid: spec_fn(u64) -> Option<u32>,
    parent: spec_fn(u64) -> Option<u64>,
) -> TreeAnswer {
    match s {
        OwnWindowSearch::Descend { window } => TreeAnswer::Child { child: child(window) },
        OwnWindowSearch::CheckPid { window, .. } => TreeAnswer::Pid { pid: pid(window) },
        OwnWindowSearch::FindParent { window, .. } => TreeAnswer::Parent { parent: parent(window) },
        OwnWindowSearch::Done { .. } => TreeAnswer::Child { child: 0 },
    }
}

/// The search after at most `fuel` steps against that tree.
pub open spec fn own_window_run(
    s: OwnWindowSearch,
    child: spec_fn(u64) -> u64,
    pid: spec_fn(u64) -> Option<u32>,
    parent: spec_fn(u64) -> Option<u64>,
    own_pid: u32,
    fuel: nat,
) -> OwnWindowSearch
    decreases fuel,
{
    if fuel == 0 || s is Done {
        s
    } else {
        own_window_run(
            own_window_next(s, tree_answer(s, child, pid, parent), own_pid),
            child,
            pid,
            parent,
            own_pid,
            (fuel - 1) as nat,
        )
    }
}

/// The deepest window under the pointer below `window`, if the pointer's
/// chain of children ends within `depth` moves.
pub open spec fn deepest_under_pointer(window: u64, child: spec_fn(u64) -> u64, depth: nat) -> Option<
    u64,
>
    decreases depth,
{
    if child(window) == 0 || child(window) == window {
        Some(window)
    } else if depth == 0 {
        None
    } else {
        deepest_under_pointer(child(window), child, (depth - 1) as nat)
    }
}

/// Whether `window` or one of its ancestors, looking at no more than
/// `MAX_TREE_STEPS` windows in all (`checked` of them already), is owned by
/// `own_pid`; the walk stops at a window whose parent is unknown or `0`.
pub open spec fn owned_on_way_up(
    window: u64,
    checked: u32,
    pid: spec_fn(u64) -> Option<u32>,
    parent: spec_fn(u64) -> Option<u64>,
    own_pid: u32,
) -> bool
    decreases MAX_TREE_STEPS - checked,
{
    if pid(window) == Some(own_pid) {
        true
    } else {
        match parent(window) {
            Some(p) => if p == 0 || checked + 1 >= MAX_TREE_STEPS {
                false
            } else {
                owned_on_way_up(p, (checked + 1) as u32, pid, parent, own_pid)
            },
            None => false,
        }
    }
}

proof fn lemma_own_window_run_done(
    s: OwnWindowSearch,
    child: spec_fn(u64) -> u64,
    pid: spec_fn(u64) -> Option<u32>,
    parent: spec_fn(u64) -> Option<u64>,
    own_pid: u32,
    fuel: nat,
)
    requires
        s is Done,
    ensures
        own_window_run(s, child, pid, parent, own_pid, fuel) == s,
{
}

proof fn lemma_own_window_run_up(
    window: u64,
    checked: u32,
    child: spec_fn(u64) -> u64,
    pid: spec_fn(u64) -> Option<u32>,
    parent: spec_fn(u64) -> Option<u64>,
    own_pid: u32,
    fuel: nat,
)
    requires
        checked < MAX_TREE_STEPS,
        fuel >= 2 * (MAX_TREE_STEPS - checked),
    ensures
        own_window_run(OwnWindowSearch::CheckPid { window, checked }, child, pid, parent, own_pid, fuel)
            == (OwnWindowSearch::Done {
            over_own_window: owned_on_way_up(window, checked, pid, parent, own_pid),
        }),
    decreases MAX_TREE_STEPS - checked,
{
    let s0 = OwnWindowSearch::CheckPid { window, checked };
    let s1 = own_window_next(s0, tree_answer(s0, child, pid, parent), own_pid);
    if pid(window) == Some(own_pid) {
        lemma_own_window_run_done(s1, child, pid, parent, own_pid, (fuel - 1) as nat);
    } else {
        let s2 = own_window_next(s1, tree_answer(s1, child, pid, parent), own_pid);
        assert(s1 == (OwnWindowSearch::FindParent { window, checked }));
        assert(own_window_run(s0, child, pid, parent, own_pid, fuel) == own_window_run(
            s1,
            child,
            pid,
            parent,
            own_pid,
            (fuel - 1) as nat,
        ));
        assert(own_window_run(s1, child, pid, parent, own_pid, (fuel - 1) as nat) == own_window_run(
            s2,
            child,
            pid,
            parent,
            own_pid,
            (fuel - 2) as nat,
        ));
        match parent(window) {
            Some(p) => {
                if p == 0 || checked + 1 >= MAX_TREE_STEPS {
                    lemma_own_window_run_done(s2, child, pid, parent, own_pid, (fuel - 2) as nat);
                } else {
                    lemma_own_window_run_up(
                        p,
                        (checked + 1) as u32,
                        child,
                        pid,
                        parent,
                        own_pid,
                        (fuel - 2) as nat,
                    );
                }
            },
            None => {
                lemma_own_window_run_done(s2, child, pid, parent, own_pid, (fuel - 2) as nat);
            },
        }
    }
}

proof fn lemma_own_window_run_down(
    window: u64,
    child: spec_fn(u64) -> u64,
    pid: spec_fn(u64) -> Option<u32>,
    parent: spec_fn(u64) -> Option<u64>,
    own_pid: u32,
    depth: nat,
    fuel: nat,
)
    requires
        deepest_under_pointer(window, child, depth) is Some,
        fuel >= depth + 1 + 2 * MAX_TREE_STEPS,
    ensures
        own_window_run(OwnWindowSearch::Descend { window }, child, pid, parent, own_pid, fuel) == (
        OwnWindowSearch::Done {
            over_own_window: owned_on_way_up(
                deepest_under_pointer(window, child, depth)->0,
                0,
                pid,
                parent,
                own_pid,
            ),
        }),
    decreases depth,
{
    let s0 = OwnWindowSearch::Descend { window };
    let s1 = own_window_next(s0, tree_answer(s0, child, pid, parent), own_pid);
    assert(own_window_run(s0, child, pid, parent, own_pid, fuel) == own_window_run(
        s1,
        child,
        pid,
        parent,
        own_pid,
        (fuel - 1) as nat,
    ));
    if child(window) == 0 || child(window) == window {
        lemma_own_window_run_up(window, 0, child, pid, parent, own_pid, (fuel - 1) as nat);
    } else {
        lemma_own_window_run_down(child(window), child, pid, parent, own_pid, (depth - 1) as nat, (fuel - 1) as nat);
    }
}

/// The whole search, run against a window tree: when the pointer's chain of
/// children from the top-level window under the pointer ends within `depth`
/// moves, the search answers whether the deepest window under the pointer or
/// one of its ancestors (at most `MAX_TREE_STEPS` windows) belongs to
/// `own_pid`; with no window under the pointer it answers `false`.
pub proof fn lemma_own_window_search_result(
    pointer_child: Option<u64>,
    child: spec_fn(u64) -> u64,
    pid: spec_fn(u64) -> Option<u32>,
    parent: spec_fn(u64) -> Option<u64>,
    own_pid: u32,
    depth: nat,
    fuel: nat,
)
    requires
        pointer_child matches Some(w) ==> deepest_under_pointer(w, child, depth) is Some,
        fuel >= depth + 1 + 2 * MAX_TREE_STEPS,
    ensures
        own_window_run(
            match pointer_child {
                Some(w) => OwnWindowSearch::Descend { window: w },
                None => OwnWindowSearch::Done { over_own_window: false },
            },
            child,
            pid,
            parent,
            own_pid,
            fuel,
        ) == (OwnWindowSearch::Done {
            over_own_window: match pointer_child {
                Some(w) => owned_on_way_up(
                    deepest_under_pointer(w, child, depth)->0,
                    0,
                    pid,
                    parent,
                    own_pid,
                ),
                None => false,
            },
        }),
{
    match pointer_child {
        Some(w) => lemma_own_window_run_down(w, child, pid, parent, own_pid, depth, fuel),
        None => {},
    }
}

/// Whether `window` is found among the ancestors of `current` by following
/// parents (`tree` gives the root and parent of a window, `None` when the query
/// fails), stopping at the root, after a failed query, or after
/// `MAX_TREE_STEPS` queries in all (`steps` of them made already).
pub open spec fn ancestor_found(
    window: u64,
    current: u64,
    steps: u32,
    tree: spec_fn(u64) -> Option<(u64, u64)>,
) -> bool
    decreases MAX_TREE_STEPS - steps,
{
    match tree(current) {
        None => false,
        Some((root, parent)) => if current == root {
            false
        } else if parent == window {
            true
        } else if steps + 1 >= MAX_TREE_STEPS {
            false
        } else {
            ancestor_found(window, parent, (steps + 1) as u32, tree)
        },
    }
}

/// The result of `is_ancestor_or_self`: `false` when either window is `0`,
/// `true` for the same window, `false` without a display connection, and
/// otherwise whether `window` is found among the ancestors of `target`.
pub open spec fn is_ancestor_or_self_result(
    window: u64,
    target: u64,
    connected: bool,
    tree: spec_fn(u64) -> Option<(u64, u64)>,
) -> bool {
    if window == 0 || target == 0 {
        false
    } else if window == target {
        true
    } else if !connected {
        false
    } else {
        ancestor_found(window, target, 0, tree)
    }
}

/// The walk after at most `fuel` queries answered by `tree`.
pub open spec fn ancestor_run(
    s: AncestorSearch,
    window: u64,
    tree: spec_fn(u64) -> Option<(u64, u64)>,
    fuel: nat,
) -> AncestorSearch
    decreases fuel,
{
    match s {
        AncestorSearch::Query { current, .. } => if fuel == 0 {
            s
        } else {
            ancestor_run(ancestor_next(s, window, tree(current)), window, tree, (fuel - 1) as nat)
        },
        AncestorSearch::Done { .. } => s,
    }
}

proof fn lemma_ancestor_run_query(
    window: u64,
    current: u64,
    steps: u32,
    tree: spec_fn(u64) -> Option<(u64, u64)>,
    fuel: nat,
)
    requires
        steps < MAX_TREE_STEPS,
        fuel >= MAX_TREE_STEPS - steps,
    ensures
        ancestor_run(AncestorSearch::Query { current, steps }, window, tree, fuel) == (
        AncestorSearch::Done { is_ancestor: ancestor_found(window, current, steps, tree) }),
    decreases MAX_TREE_STEPS - steps,
{
    let s0 = AncestorSearch::Query { current, steps };
    let s1 = ancestor_next(s0, window, tree(current));
    assert(ancestor_run(s0, window, tree, fuel) == ancestor_run(s1, window, tree, (fuel - 1) as nat));
    match tree(current) {
        Some((root, parent)) => {
            if current != root && parent != window && steps + 1 < MAX_TREE_STEPS {
                lemma_ancestor_run_query(window, parent, (steps + 1) as u32, tree, (fuel - 1) as nat);
            } else {
                assert(s1 is Done);
            }
        },
        None => {},
    }
}

/// The whole ancestor walk, run against a window tree, gives
/// `is_ancestor_or_self_result`, within `MAX_TREE_STEPS` queries.
pub proof fn lemma_ancestor_search_result(
    window: u64,
    target: u64,
    connected: bool,
    tree: spec_fn(u64) -> Option<(u64, u64)>,
    fuel: nat,
)
    requires
        fuel >= MAX_TREE_STEPS,
    ensures
        ancestor_run(ancestor_search_begin(window, target, connected), window, tree, fuel) == (
        AncestorSearch::Done { is_ancestor: is_ancestor_or_self_result(window, target, connected, tree) }),
{
    if !(window == 0 || target == 0 || window == target || !connected) {
        lemma_ancestor_run_query(window, target, 0, tree, fuel);
    }
}


/// The pointer is over this process's window when the window under it is one
/// of this process's, when a child of that window under the pointer is, or
/// when the deepest window under it belongs to another process but its parent
/// is this process's.
pub proof fn lemma_own_window_found(
    w: u64,
    c: u64,
    p: u64,
    child: spec_fn(u64) -> u64,
    pid: spec_fn(u64) -> Option<u32>,
    parent: spec_fn(u64) -> Option<u64>,
    own_pid: u32,
)
    ensures
        child(w) == 0 && pid(w) == Some(own_pid) ==> own_window_run(
            OwnWindowSearch::Descend { window: w },
            child,
            pid,
            parent,
            own_pid,
            3,
        ) == (OwnWindowSearch::Done { over_own_window: true }),
        c != 0 && c != w && child(w) == c && child(c) == 0 && pid(c) == Some(own_pid)
            ==> own_window_run(
            OwnWindowSearch::Descend { window: w },
            child,
            pid,
            parent,
            own_pid,
            3,
        ) == (OwnWindowSearch::Done { over_own_window: true }),
        child(w) == 0 && pid(w) != Some(own_pid) && p != 0 && parent(w) == Some(p) && pid(p)
            == Some(own_pid) ==> own_window_run(
            OwnWindowSearch::Descend { window: w },
            child,
            pid,
            parent,
            own_pid,
            5,
        ) == (OwnWindowSearch::Done { over_own_window: true }),
{
    reveal_with_fuel(own_window_run, 6);
}

/// The pointer is not over this process's window when the deepest window under
/// it belongs to another process and has no parent to look at, or when no
/// window is under it at all.
pub proof fn lemma_other_window_not_own(
    w: u64,
    child: spec_fn(u64) -> u64,
    pid: spec_fn(u64) -> Option<u32>,
    parent: spec_fn(u64) -> Option<u64>,
    own_pid: u32,
    fuel: nat,
)
    requires
        fuel >= 3,
    ensures
        child(w) == 0 && pid(w) != Some(own_pid) && (parent(w) is None || parent(w) == Some(0u64))
            ==> own_window_run(
            OwnWindowSearch::Descend { window: w },
            child,
            pid,
            parent,
            own_pid,
            fuel,
        ) == (OwnWindowSearch::Done { over_own_window: false }),
        own_window_run(
            OwnWindowSearch::Done { over_own_window: false },
            child,
            pid,
            parent,
            own_pid,
            fuel,
        ) == (OwnWindowSearch::Done { over_own_window: false }),
{
    if child(w) == 0 && pid(w) != Some(own_pid) && (parent(w) is None || parent(w) == Some(0u64)) {
        let s0 = OwnWindowSearch::Descend { window: w };
        let s1 = OwnWindowSearch::CheckPid { window: w, checked: 0 };
        let s2 = OwnWindowSearch::FindParent { window: w, checked: 0 };
        let s3 = OwnWindowSearch::Done { over_own_window: false };
        assert(own_window_next(s0, tree_answer(s0, child, pid, parent), own_pid) == s1);
        assert(own_window_next(s1, tree_answer(s1, child, pid, parent), own_pid) == s2);
        assert(own_window_next(s2, tree_answer(s2, child, pid, parent), own_pid) == s3);
        assert(own_window_run(s0, child, pid, parent, own_pid, fuel) == own_window_run(
            s1,
            child,
            pid,
            parent,
            own_pid,
            (fuel - 1) as nat,
        ));
        assert(own_window_run(s1, child, pid, parent, own_pid, (fuel - 1) as nat) == own_window_run(
            s2,
            child,
            pid,
            parent,
            own_pid,
            (fuel - 2) as nat,
        ));
        lemma_own_window_run_done(s3, child, pid, parent, own_pid, (fuel - 3) as nat);
    }
}

/// A window's parent and grandparent are its ancestors; a window is not an
/// ancestor of the root, nor of any window whose parent query fails.
pub proof fn lemma_ancestors_by_parent(
    window: u64,
    target: u64,
    root: u64,
    middle: u64,
    tree: spec_fn(u64) -> Option<(u64, u64)>,
)
    requires
        window != 0,
        target != 0,
        window != target,
    ensures
        target != root && tree(target) == Some((root, window)) ==> is_ancestor_or_self_result(
            window,
            target,
            true,
            tree,
        ),
        target != root && middle != window && middle != root && tree(target) == Some((root, middle))
            && tree(middle) == Some((root, window)) ==> is_ancestor_or_self_result(
            window,
            target,
            true,
            tree,
        ),
        (tree(target) is None || tree(target) == Some((target, middle))) ==> !is_ancestor_or_self_result(
            window,
            target,
            true,
            tree,
        ),
        !is_ancestor_or_self_result(window, target, false, tree),
        is_ancestor_or_self_result(window, window, true, tree),
{
    reveal_with_fuel(ancestor_found, 3);
}

} // verus!
