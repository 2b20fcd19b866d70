//! The resize handle's drag state machine.
//!
//! The handle is driven by pointer events that the host GUI toolkit delivers
//! together with a snapshot of the host queries the widget needs (bounding
//! box, cursor position, scale and DPI factors). Each event produces a
//! [`HostRequest`] that names the side effects the host should perform:
//! capturing or releasing the pointer, setting the active and hover flags,
//! consuming the event, and requesting a new scale factor. The widget itself
//! performs no side effect.

use vstd::prelude::*;

use crate::geometry::BoundingBox;
use crate::geometry::coord_in_range;
use crate::geometry::intersects_triangle;
use crate::geometry::triangle_contains;
use crate::scale::DEFAULT_MIN_SCALE;
use crate::scale::SCALE_ONE;
use crate::scale::compute_scale_request;
use crate::scale::dpi_in_range;
use crate::scale::requested_scale;
use crate::scale::scale_in_range;

verus! {

/// A pointer event, already narrowed to what the handle reacts to: the
/// primary button going down or up, the pointer moving to a position in the
/// box's coordinate space, or any other event kind, which the handle ignores.
#[derive(Clone, Copy, Debug, PartialEq, Eq, Structural)]
pub enum PointerEvent {
    PrimaryButtonDown,
    PrimaryButtonUp,
    PointerMove(i64, i64),
    Other,
}

/// A snapshot of the host-context queries the handle reads: its current
/// bounding box, the cursor position, and the window's current scale and DPI
/// factors (both in millionths).
#[derive(Clone, Copy, Debug, PartialEq, Eq, Structural)]
pub struct HostState {
    pub bounds: BoundingBox,
    pub cursor_x: i64,
    pub cursor_y: i64,
    pub scale_factor: u64,
    pub dpi_factor: u64,
}

impl HostState {
    /// The coordinates and factors a well-behaved host hands over: all in the
    /// ranges the fixed-width arithmetic accepts.
    pub open spec fn wf(self) -> bool {
        &&& self.bounds.wf()
        &&& coord_in_range(self.cursor_x as int)
        &&& coord_in_range(self.cursor_y as int)
        &&& scale_in_range(self.scale_factor as int)
        &&& dpi_in_range(self.dpi_factor as int)
    }
}

/// The side effects the handle asks the host to perform in response to one
/// event. A default-constructed value requests nothing.
#[derive(Clone, Copy, Debug, PartialEq, Eq, Structural)]
pub struct HostRequest {
    /// Route all further pointer input to this widget.
    pub capture_pointer: bool,
    /// Stop routing pointer input to this widget.
    pub release_pointer: bool,
    /// Set or clear the widget's active flag.
    pub set_active: Option<bool>,
    /// Set or clear the widget's hover flag.
    pub set_hover: Option<bool>,
    /// Stop the event from propagating further.
    pub consume_event: bool,
    /// Apply this scale factor to the window, in millionths.
    pub set_scale_factor: Option<u64>,
}

impl HostRequest {
    /// The request that asks for nothing.
    pub open spec fn none_spec() -> HostRequest {
        HostRequest {
            capture_pointer: false,
            release_pointer: false,
            set_active: Option::None,
            set_hover: Option::None,
            consume_event: false,
            set_scale_factor: Option::None,
        }
    }

    /// Build the request that asks for nothing.
    pub fn none() -> (r: HostRequest)
        ensures
            r == HostRequest::none_spec(),
    {
        HostRequest {
            capture_pointer: false,
            release_pointer: false,
            set_active: None,
            set_hover: None,
            consume_event: false,
            set_scale_factor: None,
        }
    }
}

/// The resize handle: a drag state machine with two states, idle and
/// dragging. The `start_*` fields are the values captured when the current
/// drag began and are meaningful only while `drag_active` is set.
#[derive(Clone, Copy, Debug, PartialEq, Eq, Structural)]
pub struct ResizeHandle {
    /// Set while a drag is in progress: between a primary-button press on the
    /// triangle and the following release.
    pub drag_active: bool,
    /// The window's scale factor when the drag started, in millionths; kept
    /// so that each move recomputes from the start instead of accumulating
    /// rounding drift.
    pub start_scale_factor: u64,
    /// The DPI factor when the drag started, in millionths; deliberately
    /// frozen for the whole drag so that a mid-drag DPI change cannot warp
    /// the gesture.
    pub start_dpi_factor: u64,
    /// The logical cursor x position when the drag started; the physical
    /// start position is this times the frozen DPI factor.
    pub start_cursor_x: i64,
    /// The logical cursor y position when the drag started.
    pub start_cursor_y: i64,
    /// Lower clamp bound for requested scale factors, in millionths.
    pub min_scale: u64,
    /// Upper clamp bound for requested scale factors, in millionths, or
    /// `None` for no upper bound.
    pub max_scale: Option<u64>,
}

impl ResizeHandle {
    /// The handle's invariant: every stored factor and coordinate is in the
    /// range the fixed-width arithmetic accepts, and the clamp bounds are
    /// ordered.
    pub open spec fn wf(self) -> bool {
        &&& scale_in_range(self.start_scale_factor as int)
        &&& dpi_in_range(self.start_dpi_factor as int)
        &&& coord_in_range(self.start_cursor_x as int)
        &&& coord_in_range(self.start_cursor_y as int)
        &&& scale_in_range(self.min_scale as int)
        &&& match self.max_scale {
            Option::Some(m) => scale_in_range(m as int) && self.min_scale <= m,
            Option::None => true,
        }
    }

    /// The state after one event: a primary-button press on the triangle
    /// starts a drag and captures the start values from the host snapshot; a
    /// release while dragging ends the drag; everything else, pointer moves
    /// included, leaves the state unchanged.
    pub open spec fn step_state(self, host: HostState, event: PointerEvent) -> ResizeHandle {
        match event {
            PointerEvent::PrimaryButtonDown => {
                if triangle_contains(host.bounds, host.cursor_x as int, host.cursor_y as int) {
                    ResizeHandle {
                        drag_active: true,
                        start_scale_factor: host.scale_factor,
                        start_dpi_factor: host.dpi_factor,
                        start_cursor_x: host.cursor_x,
                        start_cursor_y: host.cursor_y,
                        ..self
                    }
                } else {
                    self
                }
            },
            PointerEvent::PrimaryButtonUp => {
                if self.drag_active {
                    ResizeHandle { drag_active: false, ..self }
                } else {
                    self
                }
            },
            PointerEvent::PointerMove(_, _) => self,
            PointerEvent::Other => self,
        }
    }

    /// The scale-change part of the response to a pointer move: a request is
    /// emitted only while a drag is active, and only when both start
    /// coordinates are positive — a zero or negative start coordinate would
    /// put a zero in a denominator, so the update is skipped for that event.
    pub open spec fn move_scale_request(self, x: i64, y: i64) -> Option<u64> {
        if self.drag_active && self.start_cursor_x > 0 && self.start_cursor_y > 0 {
            Option::Some(
                requested_scale(
                    self.start_scale_factor as int,
                    self.min_scale as int,
                    self.max_scale,
                    self.start_cursor_x as int,
                    self.start_cursor_y as int,
                    x as int,
                    y as int,
                ) as u64,
            )
        } else {
            Option::None
        }
    }

    /// The host request produced by one event. A press on the triangle asks
    /// for pointer capture, the active flag, and the event's consumption; a
    /// press elsewhere asks for nothing, so the event can propagate. A
    /// release while dragging undoes capture and the active flag. A pointer
    /// move always refreshes the hover flag from the hit test and, while a
    /// drag is active, carries the recomputed scale factor.
    pub open spec fn step_request(self, host: HostState, event: PointerEvent) -> HostRequest {
        match event {
            PointerEvent::PrimaryButtonDown => {
                if triangle_contains(host.bounds, host.cursor_x as int, host.cursor_y as int) {
                    HostRequest {
                        capture_pointer: true,
                        set_active: Option::Some(true),
                        consume_event: true,
                        ..HostRequest::none_spec()
                    }
                } else {
                    HostRequest::none_spec()
                }
            },
            PointerEvent::PrimaryButtonUp => {
                if self.drag_active {
                    HostRequest {
                        release_pointer: true,
                        set_active: Option::Some(false),
                        ..HostRequest::none_spec()
                    }
                } else {
                    HostRequest::none_spec()
                }
            },
            PointerEvent::PointerMove(x, y) => {
                HostRequest {
                    set_hover: Option::Some(triangle_contains(host.bounds, x as int, y as int)),
                    set_scale_factor: self.move_scale_request(x, y),
                    ..HostRequest::none_spec()
                }
            },
            PointerEvent::Other => HostRequest::none_spec(),
        }
    }

    /// Create a resize handle in the idle state with the observed clamp
    /// convention: a lower bound of half scale and no upper bound.
    pub fn new() -> (r: ResizeHandle)
        ensures
            r.wf(),
            !r.drag_active,
            r.start_scale_factor == SCALE_ONE,
            r.start_dpi_factor == SCALE_ONE,
            r.start_cursor_x == 0,
            r.start_cursor_y == 0,
            r.min_scale == DEFAULT_MIN_SCALE,
            r.max_scale matches Option::None,
    {
        ResizeHandle {
            drag_active: false,
            start_scale_factor: SCALE_ONE,
            start_dpi_factor: SCALE_ONE,
            start_cursor_x: 0,
            start_cursor_y: 0,
            min_scale: DEFAULT_MIN_SCALE,
            max_scale: None,
        }
    }

    /// Create a resize handle in the idle state with the given clamp bounds:
    /// requested scale factors stay at or above `min_scale` and, when
    /// `max_scale` is given, at or below it.
    pub fn with_scale_bounds(min_scale: u64, max_scale: Option<u64>) -> (r: ResizeHandle)
        requires
            scale_in_range(min_scale as int),
            match max_scale {
                Option::Some(m) => scale_in_range(m as int) && min_scale <= m,
                Option::None => true,
            },
        ensures
            r.wf(),
            !r.drag_active,
            r.min_scale == min_scale,
            r.max_scale == max_scale,
    {
        ResizeHandle {
            drag_active: false,
            start_scale_factor: SCALE_ONE,
            start_dpi_factor: SCALE_ONE,
            start_cursor_x: 0,
            start_cursor_y: 0,
            min_scale,
            max_scale,
        }
    }

    /// The style-sheet element name the handle is addressed by.
    pub fn element(&self) -> (r: Option<&'static str>)
        ensures
            r matches Option::Some(name) && name@ == "resize-handle"@,
    {
        Some("resize-handle")
    }

    /// Handle one pointer event: step the drag state machine and return the
    /// side effects the host should perform.
    pub fn event(&mut self, host: &HostState, event: &PointerEvent) -> (r: HostRequest)
        requires
            old(self).wf(),
            host.wf(),
            *event matches PointerEvent::PointerMove(x, y) ==> coord_in_range(x as int)
                && coord_in_range(y as int),
        ensures
            final(self).wf(),
            *final(self) == old(self).step_state(*host, *event),
            r == old(self).step_request(*host, *event),
    {
        match *event {
            PointerEvent::PrimaryButtonDown => {
                // The handle is drawn as a triangle, so it is hit-tested as one.
                if intersects_triangle(host.bounds, (host.cursor_x, host.cursor_y)) {
                    self.drag_active = true;
                    self.start_scale_factor = host.scale_factor;
                    self.start_dpi_factor = host.dpi_factor;
                    self.start_cursor_x = host.cursor_x;
                    self.start_cursor_y = host.cursor_y;
                    HostRequest {
                        capture_pointer: true,
                        set_active: Some(true),
                        consume_event: true,
                        ..HostRequest::none()
                    }
                } else {
                    // A press inside the box but off the triangle is a miss
                    // and is left for whatever is behind the handle.
                    HostRequest::none()
                }
            },
            PointerEvent::PrimaryButtonUp => {
                if self.drag_active {
                    self.drag_active = false;
                    HostRequest {
                        release_pointer: true,
                        set_active: Some(false),
                        ..HostRequest::none()
                    }
                } else {
                    HostRequest::none()
                }
            },
            PointerEvent::PointerMove(x, y) => {
                let hover: bool = intersects_triangle(host.bounds, (x, y));
                let scale: Option<u64> = if self.drag_active && self.start_cursor_x > 0
                    && self.start_cursor_y > 0 {
                    Some(
                        compute_scale_request(
                            self.start_scale_factor,
                            self.min_scale,
                            self.max_scale,
                            self.start_dpi_factor,
                            self.start_cursor_x,
                            self.start_cursor_y,
                            x,
                            y,
                        ),
                    )
                } else {
                    None
                };
                HostRequest {
                    set_hover: Some(hover),
                    set_scale_factor: scale,
                    ..HostRequest::none()
                }
            },
            PointerEvent::Other => HostRequest::none(),
        }
    }
}

/// Idempotence of the hover update: a pointer move never changes the drag
/// state, so repeating the same move event against the same host snapshot
/// produces the same request each time — only the host's hover flag is ever
/// touched.
pub proof fn lemma_hover_update_idempotent(s: ResizeHandle, host: HostState, x: i64, y: i64)
    ensures
        s.step_state(host, PointerEvent::PointerMove(x, y)) == s,
        s.step_state(host, PointerEvent::PointerMove(x, y)).step_request(
            host,
            PointerEvent::PointerMove(x, y),
        ) == s.step_request(host, PointerEvent::PointerMove(x, y)),
{
}

/// Zero-start guard: when either start coordinate is zero or negative at the
/// moment of a move event, no scale-change request is emitted for that event.
pub proof fn lemma_zero_start_guard(s: ResizeHandle, host: HostState, x: i64, y: i64)
    requires
        s.start_cursor_x <= 0 || s.start_cursor_y <= 0,
    ensures
        s.step_request(host, PointerEvent::PointerMove(x, y)).set_scale_factor matches
            Option::None,
{
}

/// Drag lifecycle, first part: a primary-button press outside the triangle
/// never starts a drag — the state is unchanged and the handle asks for no
/// capture, no flag and no consumption, leaving the event to propagate.
pub proof fn lemma_press_outside_starts_nothing(s: ResizeHandle, host: HostState)
    requires
        !triangle_contains(host.bounds, host.cursor_x as int, host.cursor_y as int),
    ensures
        s.step_state(host, PointerEvent::PrimaryButtonDown) == s,
        s.step_request(host, PointerEvent::PrimaryButtonDown) == HostRequest::none_spec(),
{
}

/// Drag lifecycle, second part: a primary-button release while no drag is
/// active is a no-op.
pub proof fn lemma_release_when_idle_is_noop(s: ResizeHandle, host: HostState)
    requires
        !s.drag_active,
    ensures
        s.step_state(host, PointerEvent::PrimaryButtonUp) == s,
        s.step_request(host, PointerEvent::PrimaryButtonUp) == HostRequest::none_spec(),
{
}

/// Drag lifecycle, third part: a press on the triangle followed immediately
/// by a release produces exactly one capture/release pair — the press
/// captures without releasing, the release releases without capturing, the
/// drag is over afterwards, and neither event carries a scale-change request.
pub proof fn lemma_press_release_pair(s: ResizeHandle, down_host: HostState, up_host: HostState)
    requires
        triangle_contains(down_host.bounds, down_host.cursor_x as int, down_host.cursor_y as int),
    ensures
        s.step_state(down_host, PointerEvent::PrimaryButtonDown).drag_active,
        !s.step_state(down_host, PointerEvent::PrimaryButtonDown).step_state(
            up_host,
            PointerEvent::PrimaryButtonUp,
        ).drag_active,
        s.step_request(down_host, PointerEvent::PrimaryButtonDown).capture_pointer,
        !s.step_request(down_host, PointerEvent::PrimaryButtonDown).release_pointer,
        s.step_request(down_host, PointerEvent::PrimaryButtonDown).set_scale_factor matches
            Option::None,
        s.step_state(down_host, PointerEvent::PrimaryButtonDown).step_request(
            up_host,
            PointerEvent::PrimaryButtonUp,
        ).release_pointer,
        !s.step_state(down_host, PointerEvent::PrimaryButtonDown).step_request(
            up_host,
            PointerEvent::PrimaryButtonUp,
        ).capture_pointer,
        s.step_state(down_host, PointerEvent::PrimaryButtonDown).step_request(
            up_host,
            PointerEvent::PrimaryButtonUp,
        ).set_scale_factor matches Option::None,
{
}

} // verus!
