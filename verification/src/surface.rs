//! The state of a bar on one output: what is waiting to be drawn, the
//! geometry that was asked for, and the geometry that was last applied.
//!
//! The display server is not reached from here. A surface is told what
//! happened, and answers what has to be done.

use vstd::prelude::*;
use crate::side::Side;

verus! {

/// A reason to draw a surface again.
#[derive(Copy, Clone, Ord, PartialOrd, Eq, PartialEq, Debug)]
pub enum RenderEvent {
    /// The surface is gone.
    Closed,
    /// The surface has a new size, a new scale, or both.
    Configure { size: Option<(u32, u32)>, scale: Option<i32> },
    /// There is a new charge to show.
    DataChanged,
}

/// What the owner of a surface has to do after the pending event was taken.
#[derive(Copy, Clone, Debug, PartialEq, Eq, Structural)]
pub enum Action {
    /// Nothing was pending.
    Nothing,
    /// Tear the surface down.
    Teardown,
    /// Run the resize step, then paint.
    ResizeAndRepaint,
    /// Paint, with no resize step.
    Repaint,
}

/// What the resize step has to offer to the display server.
#[derive(Copy, Clone, Debug, PartialEq, Eq)]
pub struct ResizeRequest {
    /// The scale to set.
    pub scale: i32,
    /// The size to set, where it has changed.
    pub size: Option<(u32, u32)>,
}

/// What the command line sets.
#[derive(Copy, Clone, Debug, PartialEq, Eq)]
pub struct CliOptions {
    /// The edge to draw the bar on.
    pub border: Side,
    /// How many virtual pixels the bar is deep.
    pub size: u32,
    /// Whether the bar grows from the other end.
    pub reverse: bool,
    /// Whether the charge is made up.
    pub mock_upower: bool,
}

impl Default for CliOptions {
    /// A bar at the bottom, three pixels deep, growing from the left.
    fn default() -> (options: CliOptions)
        ensures
            options == (CliOptions {
                border: Side::Bottom,
                size: 3,
                reverse: false,
                mock_upower: false,
            }),
    {
        CliOptions { border: Side::Bottom, size: 3, reverse: false, mock_upower: false }
    }
}

/// What a new surface is set up with on an output.
#[derive(Copy, Clone, Debug, PartialEq, Eq)]
pub struct OutputLayout {
    /// The bytes of a buffer that covers the strip at the output's scale.
    pub buffer_bytes: usize,
    /// The width of the surface in virtual pixels.
    pub width: u32,
    /// The height of the surface in virtual pixels.
    pub height: u32,
    /// The depth that other windows are kept out of.
    pub exclusive_zone: i32,
}

impl CliOptions {
    /// The layout of a bar on an output of `mode.0` by `mode.1` pixels at
    /// the scale `output_scale`, for a surface at the scale `surface_scale`.
    /// The bar is `size` virtual pixels deep, which is `size` times the
    /// output's scale in pixels of the output, and runs along the whole edge;
    /// the surface's size in virtual pixels is that strip divided by the
    /// surface's scale. There is none where a scale is not positive, the
    /// output has a negative side, or a number does not fit its type.
    pub open spec fn layout(self, output_scale: int, surface_scale: int, mode: (int, int)) -> Option<
        OutputLayout,
    > {
        let depth = self.size * output_scale;
        let strip = self.border.strip(depth, mode);
        if output_scale > 0 && surface_scale > 0 && mode.0 >= 0 && mode.1 >= 0 && depth <= i32::MAX
            && self.size <= i32::MAX && 4 * strip.2 * strip.3 <= usize::MAX {
            Some(
                OutputLayout {
                    buffer_bytes: (4 * strip.2 * strip.3) as usize,
                    width: (strip.2 / surface_scale) as u32,
                    height: (strip.3 / surface_scale) as u32,
                    exclusive_zone: self.size as i32,
                },
            )
        } else {
            None
        }
    }

    /// The layout of a bar on an output in the mode `mode` at the scale
    /// `output_scale`, for a surface at the scale `surface_scale`, if there
    /// is one.
    pub fn output_layout(&self, output_scale: i32, surface_scale: i32, mode: (i32, i32)) -> (r:
        Option<OutputLayout>)
        ensures
            r == self.layout(
                output_scale as int,
                surface_scale as int,
                (mode.0 as int, mode.1 as int),
            ),
    {
        if output_scale <= 0 || surface_scale <= 0 || mode.0 < 0 || mode.1 < 0 || self.size
            > i32::MAX as u32 {
            return None;
        }
        assert(0 <= self.size * output_scale <= 0x7fff_ffff * 0x7fff_ffff) by (nonlinear_arith)
            requires
                0 <= self.size <= 0x7fff_ffff,
                0 < output_scale <= 0x7fff_ffff,
        ;
        let depth: i64 = (self.size as i64) * (output_scale as i64);
        if depth > i32::MAX as i64 {
            return None;
        }
        let (_x, _y, w, h) = self.border.compute_size(depth as i32, mode);
        assert(0 <= w && 0 <= h);
        assert(4 * w * h <= 4 * 0x7fff_ffff * 0x7fff_ffff && 0 <= 4 * w * h) by (nonlinear_arith)
            requires
                0 <= w <= 0x7fff_ffff,
                0 <= h <= 0x7fff_ffff,
        ;
        let bytes: u64 = 4 * (w as u64) * (h as u64);
        if bytes > usize::MAX as u64 {
            return None;
        }
        Some(
            OutputLayout {
                buffer_bytes: bytes as usize,
                width: (w / surface_scale) as u32,
                height: (h / surface_scale) as u32,
                exclusive_zone: self.size as i32,
            },
        )
    }
}

/// The event that is pending once `event` has come in while `pending` was:
/// a close overrides everything and nothing overrides a close; a new
/// geometry overrides a change of data, and of two geometries each field
/// that the later one carries; a change of data overrides nothing.
pub open spec fn merge(pending: Option<RenderEvent>, event: RenderEvent) -> Option<RenderEvent> {
    match (pending, event) {
        (_, RenderEvent::Closed) => Some(RenderEvent::Closed),
        (Some(RenderEvent::Closed), _) => Some(RenderEvent::Closed),
        (
            Some(RenderEvent::Configure { size: old_size, scale: old_scale }),
            RenderEvent::Configure { size, scale },
        ) => Some(
            RenderEvent::Configure {
                size: if size is Some {
                    size
                } else {
                    old_size
                },
                scale: if scale is Some {
                    scale
                } else {
                    old_scale
                },
            },
        ),
        (_, RenderEvent::Configure { .. }) => Some(event),
        (Some(RenderEvent::Configure { .. }), RenderEvent::DataChanged) => pending,
        (_, RenderEvent::DataChanged) => Some(RenderEvent::DataChanged),
    }
}

/// What holds of every merge: something is pending afterwards; a close wins
/// and stays; a geometry that is pending is never given up for a change of
/// data, and where a geometry comes in, a geometry is pending afterwards
/// unless the surface is closed.
pub proof fn lemma_merge(pending: Option<RenderEvent>, event: RenderEvent)
    ensures
        merge(pending, event) is Some,
        event is Closed ==> merge(pending, event) == Some(RenderEvent::Closed),
        pending == Some(RenderEvent::Closed) ==> merge(pending, event) == pending,
        pending is Some && pending->0 is Configure && event is DataChanged ==> merge(pending, event)
            == pending,
        pending != Some(RenderEvent::Closed) && event is Configure ==> merge(pending, event)->0
            is Configure,
        pending is None ==> merge(pending, event) == Some(event),
{
}

/// Two geometries in a row leave one that carries every field that either
/// of them carried, the later one's where both did.
pub proof fn lemma_merge_fields(
    pending: Option<RenderEvent>,
    size: (u32, u32),
    scale: i32,
)
    requires
        pending != Some(RenderEvent::Closed),
    ensures
        merge(
            merge(pending, RenderEvent::Configure { size: Some(size), scale: None }),
            RenderEvent::Configure { size: None, scale: Some(scale) },
        ) == Some(RenderEvent::Configure { size: Some(size), scale: Some(scale) }),
        merge(
            merge(pending, RenderEvent::Configure { size: None, scale: Some(scale) }),
            RenderEvent::Configure { size: Some(size), scale: None },
        ) == Some(RenderEvent::Configure { size: Some(size), scale: Some(scale) }),
{
}

/// Once the pending event is taken nothing is pending, so taking it again
/// changes nothing and asks for nothing; and whatever was pending, taking it
/// leaves the geometry last applied alone.
pub proof fn lemma_drain_settles(surface: BarSurface)
    ensures
        surface.drained().0.next_render_event is None,
        surface.drained().0.drained() == (surface.drained().0, Action::Nothing),
        surface.drained().0.current_dimensions == surface.current_dimensions,
        surface.drained().0.current_scale == surface.current_scale,
        surface.next_render_event is None ==> surface.drained() == (surface, Action::Nothing),
{
}

/// The resize step settles too: run again with nothing new asked for, it
/// has nothing to offer and reports no change.
pub proof fn lemma_resize_settles(surface: BarSurface, first: bool, second: bool)
    ensures
        surface.resized(first).0.request() is None,
        surface.resized(first).0.resized(second) == (surface.resized(first).0, false),
{
}

impl RenderEvent {
    /// The event that is pending once `event` has come in while `pending` was.
    pub fn merge(pending: Option<RenderEvent>, event: RenderEvent) -> (merged: Option<RenderEvent>)
        ensures
            merged == merge(pending, event),
    {
        match (pending, event) {
            (_, RenderEvent::Closed) => Some(RenderEvent::Closed),
            (Some(RenderEvent::Closed), _) => Some(RenderEvent::Closed),
            (
                Some(RenderEvent::Configure { size: old_size, scale: old_scale }),
                RenderEvent::Configure { size, scale },
            ) => Some(
                RenderEvent::Configure {
                    size: match size {
                        Some(_) => size,
                        None => old_size,
                    },
                    scale: match scale {
                        Some(_) => scale,
                        None => old_scale,
                    },
                },
            ),
            (_, RenderEvent::Configure { .. }) => Some(event),
            (Some(RenderEvent::Configure { .. }), RenderEvent::DataChanged) => pending,
            (_, RenderEvent::DataChanged) => Some(RenderEvent::DataChanged),
        }
    }
}

/// The bar of one output.
#[derive(Copy, Clone, Debug, PartialEq, Eq)]
pub struct BarSurface {
    /// The event that is waiting to be handled, if one is.
    pub next_render_event: Option<RenderEvent>,
    /// The edge that the bar is drawn on.
    pub side: Side,
    /// Whether the bar grows from the other end.
    pub reverse: bool,
    /// The scale that was asked for.
    pub scale: i32,
    /// The size that was asked for.
    pub dimensions: (u32, u32),
    /// The size that was last applied.
    pub current_dimensions: (u32, u32),
    /// The scale that was last applied.
    pub current_scale: i32,
}

/// The buffer that a frame is painted into.
#[derive(Copy, Clone, Debug, PartialEq, Eq)]
pub struct FrameSize {
    /// The width in pixels.
    pub width: i32,
    /// The height in pixels.
    pub height: i32,
    /// The bytes from the start of one row to the start of the next.
    pub stride: i32,
    /// The bytes of the whole buffer.
    pub bytes: usize,
}

impl BarSurface {
    /// The surface once the pending event is taken, and what has to be done
    /// then. A geometry is laid over what was asked for before, field by
    /// field; what it does not carry stays.
    pub open spec fn drained(self) -> (BarSurface, Action) {
        let idle = BarSurface { next_render_event: None, ..self };
        match self.next_render_event {
            None => (self, Action::Nothing),
            Some(RenderEvent::Closed) => (idle, Action::Teardown),
            Some(RenderEvent::Configure { size, scale }) => (
                BarSurface {
                    scale: if scale is Some {
                        scale->0
                    } else {
                        self.scale
                    },
                    dimensions: if size is Some {
                        size->0
                    } else {
                        self.dimensions
                    },
                    ..idle
                },
                Action::ResizeAndRepaint,
            ),
            Some(RenderEvent::DataChanged) => (idle, Action::Repaint),
        }
    }

    /// Whether the resize step has anything to do: the surface has a size,
    /// and what was asked for differs from what was last applied.
    pub open spec fn resize_due(self) -> bool {
        &&& self.dimensions != (0u32, 0u32)
        &&& (self.current_dimensions != self.dimensions || self.current_scale != self.scale)
    }

    /// What the resize step offers to the display server, if it has anything
    /// to do.
    pub open spec fn request(self) -> Option<ResizeRequest> {
        if self.resize_due() {
            Some(
                ResizeRequest {
                    scale: self.scale,
                    size: if self.dimensions != self.current_dimensions {
                        Some(self.dimensions)
                    } else {
                        None
                    },
                },
            )
        } else {
            None
        }
    }

    /// The surface after the resize step, and whether anything has changed.
    /// A scale that the display server refused falls back to the one last
    /// applied; the size is taken as applied once it was offered.
    pub open spec fn resized(self, scale_accepted: bool) -> (BarSurface, bool) {
        if self.resize_due() {
            let scale = if scale_accepted {
                self.scale
            } else {
                self.current_scale
            };
            (
                BarSurface {
                    scale,
                    current_scale: scale,
                    current_dimensions: self.dimensions,
                    ..self
                },
                self.current_dimensions != self.dimensions || self.current_scale != scale,
            )
        } else {
            (self, false)
        }
    }

    /// The buffer for the geometry last applied: its size in pixels is the
    /// size times the scale. There is none where a side is nought, the scale
    /// is not positive, or a number does not fit its type.
    pub open spec fn frame(self) -> Option<FrameSize> {
        let width = self.current_dimensions.0 * self.current_scale;
        let height = self.current_dimensions.1 * self.current_scale;
        if self.current_dimensions.0 > 0 && self.current_dimensions.1 > 0 && self.current_scale > 0
            && 4 * width <= i32::MAX && height <= i32::MAX && 4 * width * height <= usize::MAX {
            Some(
                FrameSize {
                    width: width as i32,
                    height: height as i32,
                    stride: (4 * width) as i32,
                    bytes: (4 * width * height) as usize,
                },
            )
        } else {
            None
        }
    }

    /// A surface that has not been given a size yet: nothing is pending, and
    /// the scale is one.
    pub fn new(side: Side, reverse: bool) -> (surface: BarSurface)
        ensures
            surface == (BarSurface {
                next_render_event: None,
                side,
                reverse,
                scale: 1,
                dimensions: (0, 0),
                current_dimensions: (0, 0),
                current_scale: 1,
            }),
    {
        BarSurface {
            next_render_event: None,
            side,
            reverse,
            scale: 1,
            dimensions: (0, 0),
            current_dimensions: (0, 0),
            current_scale: 1,
        }
    }

    /// Takes `event` in: it is merged with the event that is pending.
    pub fn schedule_event(&mut self, event: RenderEvent)
        ensures
            *final(self) == (BarSurface {
                next_render_event: merge(old(self).next_render_event, event),
                ..*old(self)
            }),
    {
        self.next_render_event = RenderEvent::merge(self.next_render_event, event);
    }

    /// Takes the pending event and says what has to be done. With nothing
    /// pending the surface stays as it is and nothing has to be done.
    pub fn handle_events(&mut self) -> (action: Action)
        ensures
            (*final(self), action) == old(self).drained(),
            old(self).next_render_event is None ==> *final(self) == *old(self) && action
                == Action::Nothing,
    {
        let pending = self.next_render_event;
        match pending {
            None => Action::Nothing,
            Some(RenderEvent::Closed) => {
                self.next_render_event = None;
                Action::Teardown
            },
            Some(RenderEvent::Configure { size, scale }) => {
                self.next_render_event = None;
                match scale {
                    Some(scale) => {
                        self.scale = scale;
                    },
                    None => {},
                }
                match size {
                    Some(size) => {
                        self.dimensions = size;
                    },
                    None => {},
                }
                Action::ResizeAndRepaint
            },
            Some(RenderEvent::DataChanged) => {
                self.next_render_event = None;
                Action::Repaint
            },
        }
    }

    /// What the resize step has to offer to the display server, if it has
    /// anything to do.
    pub fn resize_request(&self) -> (request: Option<ResizeRequest>)
        ensures
            request == self.request(),
    {
        let unsized_yet = self.dimensions.0 == 0 && self.dimensions.1 == 0;
        let size_changed = self.current_dimensions.0 != self.dimensions.0
            || self.current_dimensions.1 != self.dimensions.1;
        if unsized_yet || !(size_changed || self.current_scale != self.scale) {
            None
        } else {
            Some(
                ResizeRequest {
                    scale: self.scale,
                    size: if size_changed {
                        Some(self.dimensions)
                    } else {
                        None
                    },
                },
            )
        }
    }

    /// The resize step, once the display server has answered the request:
    /// `scale_accepted` says whether it took the scale. Returns whether
    /// anything has changed.
    pub fn resize(&mut self, scale_accepted: bool) -> (changed: bool)
        ensures
            (*final(self), changed) == old(self).resized(scale_accepted),
    {
        let unsized_yet = self.dimensions.0 == 0 && self.dimensions.1 == 0;
        let size_changed = self.current_dimensions.0 != self.dimensions.0
            || self.current_dimensions.1 != self.dimensions.1;
        if unsized_yet || !(size_changed || self.current_scale != self.scale) {
            return false;
        }
        if !scale_accepted {
            self.scale = self.current_scale;
        }
        let changed = size_changed || self.current_scale != self.scale;
        self.current_scale = self.scale;
        self.current_dimensions = self.dimensions;
        changed
    }

    /// Takes over the scale of the output that the surface is on. A scale
    /// that the display server refused leaves the scale asked for as it was;
    /// either way that scale then counts as applied.
    pub fn set_output_scale(&mut self, scale: i32, accepted: bool)
        ensures
            *final(self) == (BarSurface {
                scale: if accepted {
                    scale
                } else {
                    old(self).scale
                },
                current_scale: if accepted {
                    scale
                } else {
                    old(self).scale
                },
                ..*old(self)
            }),
    {
        if accepted {
            self.scale = scale;
        }
        self.current_scale = self.scale;
    }

    /// The buffer for the geometry last applied, if there is anything to
    /// paint.
    pub fn frame_size(&self) -> (frame: Option<FrameSize>)
        ensures
            frame == self.frame(),
    {
        let (w, h) = self.current_dimensions;
        if w == 0 || h == 0 || self.current_scale <= 0 {
            return None;
        }
        let scale: u64 = self.current_scale as u64;
        assert(w * scale <= 0xffff_ffff * 0x7fff_ffff && h * scale <= 0xffff_ffff * 0x7fff_ffff)
            by (nonlinear_arith)
            requires
                w <= 0xffff_ffff,
                h <= 0xffff_ffff,
                scale <= 0x7fff_ffff,
        ;
        let width: u64 = (w as u64) * scale;
        let height: u64 = (h as u64) * scale;
        if width > (i32::MAX as u64) / 4 || height > i32::MAX as u64 {
            return None;
        }
        let stride: u64 = 4 * width;
        assert(stride * height <= 0x7fff_ffff * 0x7fff_ffff) by (nonlinear_arith)
            requires
                stride <= 0x7fff_ffff,
                height <= 0x7fff_ffff,
        ;
        let bytes: u64 = stride * height;
        assert(bytes == 4 * width * height) by (nonlinear_arith)
            requires
                bytes == stride * height,
                stride == 4 * width,
        ;
        if bytes > usize::MAX as u64 {
            return None;
        }
        Some(
            FrameSize {
                width: width as i32,
                height: height as i32,
                stride: stride as i32,
                bytes: bytes as usize,
            },
        )
    }
}

} // verus!
