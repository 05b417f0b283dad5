use blur_auto_clicker::window_tree::{
    ancestor_search_start, ancestor_search_step, own_window_search_start, own_window_search_step,
    AncestorSearch, OwnWindowSearch, TreeAnswer,
};

#[test]
fn own_window_found_on_ancestor() {
    let s = own_window_search_start(Some(100));
    assert_eq!(s, OwnWindowSearch::Descend { window: 100 });
    let s = own_window_search_step(s, TreeAnswer::Child { child: 200 }, 42);
    assert_eq!(s, OwnWindowSearch::Descend { window: 200 });
    let s = own_window_search_step(s, TreeAnswer::Child { child: 0 }, 42);
    assert_eq!(s, OwnWindowSearch::CheckPid { window: 200, checked: 0 });
    let s = own_window_search_step(s, TreeAnswer::Pid { pid: Some(7) }, 42);
    assert_eq!(s, OwnWindowSearch::FindParent { window: 200, checked: 0 });
    let s = own_window_search_step(s, TreeAnswer::Parent { parent: Some(100) }, 42);
    assert_eq!(s, OwnWindowSearch::CheckPid { window: 100, checked: 1 });
    let s = own_window_search_step(s, TreeAnswer::Pid { pid: Some(42) }, 42);
    assert_eq!(s, OwnWindowSearch::Done { over_own_window: true });
}

#[test]
fn own_window_search_gives_up() {
    assert_eq!(own_window_search_start(None), OwnWindowSearch::Done { over_own_window: false });
    let s = OwnWindowSearch::FindParent { window: 5, checked: 0 };
    assert_eq!(
        own_window_search_step(s, TreeAnswer::Parent { parent: Some(0) }, 1),
        OwnWindowSearch::Done { over_own_window: false }
    );
    assert_eq!(
        own_window_search_step(s, TreeAnswer::Parent { parent: None }, 1),
        OwnWindowSearch::Done { over_own_window: false }
    );
    let mut s = OwnWindowSearch::CheckPid { window: 5, checked: 0 };
    let mut pid_checks = 0;
    while let OwnWindowSearch::CheckPid { .. } | OwnWindowSearch::FindParent { .. } = s {
        let answer = match s {
            OwnWindowSearch::CheckPid { .. } => {
                pid_checks += 1;
                TreeAnswer::Pid { pid: None }
            }
            _ => TreeAnswer::Parent { parent: Some(9) },
        };
        s = own_window_search_step(s, answer, 1);
    }
    assert_eq!(pid_checks, 64);
    assert_eq!(s, OwnWindowSearch::Done { over_own_window: false });
}

#[test]
fn ancestor_walk() {
    assert_eq!(ancestor_search_start(0, 5, true), AncestorSearch::Done { is_ancestor: false });
    assert_eq!(ancestor_search_start(5, 5, false), AncestorSearch::Done { is_ancestor: true });
    assert_eq!(ancestor_search_start(4, 5, false), AncestorSearch::Done { is_ancestor: false });
    let s = ancestor_search_start(4, 5, true);
    assert_eq!(s, AncestorSearch::Query { current: 5, steps: 0 });
    let s = ancestor_search_step(s, 4, Some((1, 3)));
    assert_eq!(s, AncestorSearch::Query { current: 3, steps: 1 });
    assert_eq!(ancestor_search_step(s, 4, Some((1, 4))), AncestorSearch::Done { is_ancestor: true });
    assert_eq!(ancestor_search_step(s, 4, Some((3, 4))), AncestorSearch::Done { is_ancestor: false });
    assert_eq!(ancestor_search_step(s, 4, None), AncestorSearch::Done { is_ancestor: false });
}
