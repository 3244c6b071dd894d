use window_centerer::center::center_request;
use window_centerer::geometry::{MonitorInfo, Rect};

fn rect(left: i32, top: i32, right: i32, bottom: i32) -> Rect {
    Rect { left, top, right, bottom }
}

fn monitor(monitor: Rect, work: Rect) -> MonitorInfo {
    MonitorInfo { monitor, work }
}

#[test]
fn centers_in_work_area() {
    let mon = monitor(rect(0, 0, 1920, 1080), rect(0, 0, 1920, 1040));
    let win = rect(100, 100, 900, 700);
    let m = center_request(&mon, &win);
    assert_eq!(m.x, (1920 - 800) / 2);
    assert_eq!(m.y, (1040 - 600) / 2);
}

#[test]
fn uses_work_area_not_monitor() {
    // A taskbar along the top shifts the work area down; the centered
    // position follows the work area, not the full monitor rectangle.
    let mon = monitor(rect(0, 0, 1000, 800), rect(0, 40, 1000, 800));
    let win = rect(0, 0, 200, 200);
    let m = center_request(&mon, &win);
    assert_eq!(m.x, 400);
    assert_eq!(m.y, 40 + (760 - 200) / 2);
}

#[test]
fn work_area_offset_left_edge() {
    let mon = monitor(rect(-500, -500, 1500, 700), rect(-500, -500, 1500, 700));
    let win = rect(0, 0, 400, 300);
    let m = center_request(&mon, &win);
    assert_eq!(m.x, -500 + (2000 - 400) / 2);
    assert_eq!(m.y, -500 + (1200 - 300) / 2);
}

#[test]
fn odd_pixel_rounding_stays_in_bounds() {
    let mon = monitor(rect(0, 0, 7, 7), rect(0, 0, 7, 7));
    let win = rect(0, 0, 4, 4);
    let m = center_request(&mon, &win);
    assert_eq!(m.x, 1);
    assert_eq!(m.y, 1);
    assert!(0 <= m.x && m.x + 4 <= 7);
    assert!(0 <= m.y && m.y + 4 <= 7);
}

#[test]
fn oversized_window_truncates_toward_zero() {
    // A window wider than the work area gives a negative offset; the halving
    // truncates toward zero, as the window system's arithmetic does.
    let mon = monitor(rect(0, 0, 99, 99), rect(0, 0, 99, 99));
    let win = rect(0, 0, 200, 200);
    let m = center_request(&mon, &win);
    assert_eq!(m.x, -50); // (99 - 200) / 2 == -101 / 2 == -50, not -51
    assert_eq!(m.y, -50);
}

#[test]
fn centering_is_idempotent() {
    // Centering an already-centered window computes the position it has.
    let mon = monitor(rect(0, 0, 1001, 801), rect(0, 0, 1001, 777));
    let win = rect(3, 7, 258, 212);
    let first = center_request(&mon, &win);
    let moved = rect(
        first.x as i32,
        first.y as i32,
        first.x as i32 + 255,
        first.y as i32 + 205,
    );
    let second = center_request(&mon, &moved);
    assert_eq!(second.x, first.x);
    assert_eq!(second.y, first.y);
}

#[test]
fn request_keeps_size_and_order() {
    // The request carries no size at all, and both suppression flags are set:
    // a reposition can alter neither the window's size nor its stacking order.
    let mon = monitor(rect(0, 0, 640, 480), rect(0, 0, 640, 480));
    let win = rect(10, 20, 310, 220);
    let m = center_request(&mon, &win);
    assert!(m.keep_size);
    assert!(m.keep_order);
}
