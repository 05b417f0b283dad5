use blur_auto_clicker::screen::{monitor_rects, sort_by_position, virtual_screen_rect, XineramaScreenInfo};

fn info(n: i32, x: i32, y: i32, w: i32, h: i32) -> XineramaScreenInfo {
    XineramaScreenInfo { screen_number: n, x_org: x, y_org: y, width: w, height: h }
}

#[test]
fn virtual_screen_needs_area() {
    assert_eq!(virtual_screen_rect(1920, 1080), Some((0, 0, 1920, 1080)));
    assert_eq!(virtual_screen_rect(0, 1080), None);
    assert_eq!(virtual_screen_rect(1920, -1), None);
}

#[test]
fn monitors_sorted_top_then_left() {
    let screens = vec![
        info(0, 1920, 0, 1280, 1024),
        info(1, 0, 200, 1920, 1080),
        info(2, 0, 0, 1920, 1080),
        info(3, 500, 0, 0, 100),
    ];
    assert_eq!(
        monitor_rects(&screens, None),
        Some(vec![(0, 0, 1920, 1080), (1920, 0, 1280, 1024), (0, 200, 1920, 1080)])
    );
}

#[test]
fn monitors_fall_back_to_virtual_screen() {
    assert_eq!(monitor_rects(&vec![], Some((0, 0, 800, 600))), Some(vec![(0, 0, 800, 600)]));
    assert_eq!(monitor_rects(&vec![info(0, 0, 0, 0, 0)], None), None);
}

#[test]
fn sort_is_stable() {
    let rects = vec![(5, 1, 3, 3), (0, 0, 9, 9), (5, 1, 1, 1), (-3, 1, 2, 2)];
    assert_eq!(
        sort_by_position(&rects),
        vec![(0, 0, 9, 9), (-3, 1, 2, 2), (5, 1, 3, 3), (5, 1, 1, 1)]
    );
}
