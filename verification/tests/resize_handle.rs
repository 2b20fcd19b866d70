use resize_handle::geometry::BoundingBox;
use resize_handle::geometry::intersects_triangle;
use resize_handle::handle::HostRequest;
use resize_handle::handle::HostState;
use resize_handle::handle::PointerEvent;
use resize_handle::handle::ResizeHandle;
use resize_handle::scale::compute_scale_request;
use resize_handle::scale::DEFAULT_MIN_SCALE;
use resize_handle::scale::SCALE_ONE;

/// The box {x=10, y=10, w=10, h=10}, expressed in tenths of a pixel so that
/// the fractional probe points just off the hypotenuse stay representable.
fn tenth_box() -> BoundingBox {
    BoundingBox {
        x: 100,
        y: 100,
        w: 100,
        h: 100,
    }
}

#[test]
fn triangle_intersection() {
    let bbox = tenth_box();

    assert!(!intersects_triangle(bbox, (100, 100)));
    assert!(intersects_triangle(bbox, (200, 100)));
    assert!(intersects_triangle(bbox, (100, 200)));
    assert!(intersects_triangle(bbox, (200, 200)));

    assert!(intersects_triangle(bbox, (150, 150)));
    assert!(!intersects_triangle(bbox, (149, 150)));
    assert!(!intersects_triangle(bbox, (150, 149)));
}

#[test]
fn triangle_degenerate_box() {
    // A zero-area box still classifies: only its corner point lies on the
    // (degenerate) triangle.
    let bbox = BoundingBox {
        x: 50,
        y: 50,
        w: 0,
        h: 0,
    };
    assert!(intersects_triangle(bbox, (50, 50)));
    assert!(intersects_triangle(bbox, (51, 50)));
}

fn host_at(cursor_x: i64, cursor_y: i64, scale_factor: u64, dpi_factor: u64) -> HostState {
    HostState {
        bounds: tenth_box(),
        cursor_x,
        cursor_y,
        scale_factor,
        dpi_factor,
    }
}

fn no_request() -> HostRequest {
    HostRequest {
        capture_pointer: false,
        release_pointer: false,
        set_active: None,
        set_hover: None,
        consume_event: false,
        set_scale_factor: None,
    }
}

#[test]
fn new_starts_idle_with_default_bounds() {
    let handle = ResizeHandle::new();
    assert!(!handle.drag_active);
    assert_eq!(handle.start_scale_factor, SCALE_ONE);
    assert_eq!(handle.start_dpi_factor, SCALE_ONE);
    assert_eq!(handle.min_scale, DEFAULT_MIN_SCALE);
    assert_eq!(handle.max_scale, None);
}

#[test]
fn element_name() {
    let handle = ResizeHandle::new();
    assert_eq!(handle.element(), Some("resize-handle"));
}

#[test]
fn press_on_triangle_starts_drag() {
    let mut handle = ResizeHandle::new();
    let host = host_at(160, 160, 1_500_000, 2_000_000);
    let request = handle.event(&host, &PointerEvent::PrimaryButtonDown);

    assert!(handle.drag_active);
    assert_eq!(handle.start_scale_factor, 1_500_000);
    assert_eq!(handle.start_dpi_factor, 2_000_000);
    assert_eq!(handle.start_cursor_x, 160);
    assert_eq!(handle.start_cursor_y, 160);

    assert!(request.capture_pointer);
    assert!(!request.release_pointer);
    assert_eq!(request.set_active, Some(true));
    assert!(request.consume_event);
    assert_eq!(request.set_scale_factor, None);
}

#[test]
fn press_outside_triangle_never_starts_drag() {
    let mut handle = ResizeHandle::new();
    // (12, 13) in tenths lies inside the box but above the hypotenuse.
    let host = host_at(120, 130, SCALE_ONE, SCALE_ONE);
    let request = handle.event(&host, &PointerEvent::PrimaryButtonDown);

    assert!(!handle.drag_active);
    assert_eq!(request, no_request());
}

#[test]
fn release_while_idle_is_noop() {
    let mut handle = ResizeHandle::new();
    let host = host_at(160, 160, SCALE_ONE, SCALE_ONE);
    let request = handle.event(&host, &PointerEvent::PrimaryButtonUp);

    assert!(!handle.drag_active);
    assert_eq!(request, no_request());
}

#[test]
fn press_release_pair_captures_once_and_requests_nothing() {
    let mut handle = ResizeHandle::new();
    let host = host_at(160, 160, SCALE_ONE, SCALE_ONE);

    let down = handle.event(&host, &PointerEvent::PrimaryButtonDown);
    assert!(handle.drag_active);
    assert!(down.capture_pointer && !down.release_pointer);
    assert_eq!(down.set_scale_factor, None);

    let up = handle.event(&host, &PointerEvent::PrimaryButtonUp);
    assert!(!handle.drag_active);
    assert!(up.release_pointer && !up.capture_pointer);
    assert_eq!(up.set_active, Some(false));
    assert_eq!(up.set_scale_factor, None);
}

#[test]
fn hover_update_is_idempotent() {
    let mut handle = ResizeHandle::new();
    let host = host_at(0, 0, SCALE_ONE, SCALE_ONE);
    let before = handle;

    let first = handle.event(&host, &PointerEvent::PointerMove(160, 160));
    let second = handle.event(&host, &PointerEvent::PointerMove(160, 160));
    let third = handle.event(&host, &PointerEvent::PointerMove(120, 130));

    assert_eq!(first.set_hover, Some(true));
    assert_eq!(second, first);
    assert_eq!(third.set_hover, Some(false));
    assert_eq!(first.set_scale_factor, None);
    assert!(!handle.drag_active);
    assert_eq!(handle, before);
}

#[test]
fn uniform_scaling_is_exact() {
    let mut handle = ResizeHandle::new();
    let host = host_at(160, 160, SCALE_ONE, SCALE_ONE);
    handle.event(&host, &PointerEvent::PrimaryButtonDown);

    // Both ratios are exactly 2, so the request is exactly twice the scale.
    let request = handle.event(&host, &PointerEvent::PointerMove(320, 320));
    assert_eq!(request.set_scale_factor, Some(2_000_000));

    // Both ratios are exactly 1/2.
    let request = handle.event(&host, &PointerEvent::PointerMove(80, 80));
    assert_eq!(request.set_scale_factor, Some(500_000));
}

#[test]
fn dominant_axis_wins() {
    let mut handle = ResizeHandle::new();
    let host = host_at(160, 160, 1_500_000, SCALE_ONE);
    handle.event(&host, &PointerEvent::PrimaryButtonDown);

    // Horizontal ratio 2, vertical ratio 1.25: the horizontal one decides.
    let request = handle.event(&host, &PointerEvent::PointerMove(320, 200));
    assert_eq!(request.set_scale_factor, Some(3_000_000));

    // Vertical ratio 3, horizontal ratio 1: the vertical one decides.
    let request = handle.event(&host, &PointerEvent::PointerMove(160, 480));
    assert_eq!(request.set_scale_factor, Some(4_500_000));
}

#[test]
fn candidate_rounds_down_to_millionths() {
    // Ratio 4/3 of a unit start scale rounds down to 1_333_333 millionths.
    let scale = compute_scale_request(SCALE_ONE, DEFAULT_MIN_SCALE, None, SCALE_ONE, 3, 3, 4, 3);
    assert_eq!(scale, 1_333_333);
}

#[test]
fn clamp_reports_exact_minimum() {
    let mut handle = ResizeHandle::new();
    let host = host_at(160, 160, SCALE_ONE, SCALE_ONE);
    handle.event(&host, &PointerEvent::PrimaryButtonDown);

    // Ratio 1/4 would give 250_000; the lower bound 500_000 is reported.
    let request = handle.event(&host, &PointerEvent::PointerMove(40, 40));
    assert_eq!(request.set_scale_factor, Some(DEFAULT_MIN_SCALE));

    // A pointer dragged past the origin gives a non-positive ratio, which
    // also clamps to the exact minimum.
    let request = handle.event(&host, &PointerEvent::PointerMove(-40, -40));
    assert_eq!(request.set_scale_factor, Some(DEFAULT_MIN_SCALE));
}

#[test]
fn clamp_reports_exact_maximum() {
    let mut handle = ResizeHandle::with_scale_bounds(500_000, Some(4_000_000));
    let host = host_at(160, 160, SCALE_ONE, SCALE_ONE);
    handle.event(&host, &PointerEvent::PrimaryButtonDown);

    // Ratio 8 would give 8_000_000; the upper bound is reported exactly.
    let request = handle.event(&host, &PointerEvent::PointerMove(1280, 1280));
    assert_eq!(request.set_scale_factor, Some(4_000_000));
}

#[test]
fn zero_start_guard_skips_update() {
    // A box around the origin makes the triangle contain (0, 0), so a drag
    // can legitimately start with a zero start coordinate.
    let bounds = BoundingBox {
        x: -100,
        y: -100,
        w: 100,
        h: 100,
    };
    let host = HostState {
        bounds,
        cursor_x: 0,
        cursor_y: 0,
        scale_factor: SCALE_ONE,
        dpi_factor: SCALE_ONE,
    };
    let mut handle = ResizeHandle::new();
    handle.event(&host, &PointerEvent::PrimaryButtonDown);
    assert!(handle.drag_active);

    // The drag is active, but no scale request is emitted for any move.
    let request = handle.event(&host, &PointerEvent::PointerMove(50, 50));
    assert_eq!(request.set_scale_factor, None);
    assert_eq!(request.set_hover, Some(true));
    assert!(handle.drag_active);
}

#[test]
fn frozen_dpi_factor_does_not_change_requests() {
    // The same gesture under two different DPI factors requests the same
    // scale: the frozen factor cancels out of the ratio.
    let mut low_dpi = ResizeHandle::new();
    let mut high_dpi = ResizeHandle::new();
    let host_low = host_at(160, 160, SCALE_ONE, SCALE_ONE);
    let host_high = host_at(160, 160, SCALE_ONE, 3_000_000);

    low_dpi.event(&host_low, &PointerEvent::PrimaryButtonDown);
    high_dpi.event(&host_high, &PointerEvent::PrimaryButtonDown);

    let low = low_dpi.event(&host_low, &PointerEvent::PointerMove(240, 200));
    let high = high_dpi.event(&host_high, &PointerEvent::PointerMove(240, 200));
    assert_eq!(low.set_scale_factor, Some(1_500_000));
    assert_eq!(high.set_scale_factor, low.set_scale_factor);
}

#[test]
fn other_events_are_ignored() {
    let mut handle = ResizeHandle::new();
    let host = host_at(160, 160, SCALE_ONE, SCALE_ONE);
    let request = handle.event(&host, &PointerEvent::Other);
    assert!(!handle.drag_active);
    assert_eq!(request, no_request());
}
