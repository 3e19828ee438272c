use wattbar::side::Side;
use wattbar::surface::{
    Action, BarSurface, CliOptions, FrameSize, OutputLayout, RenderEvent, ResizeRequest,
};

const CLOSED: RenderEvent = RenderEvent::Closed;
const DATA: RenderEvent = RenderEvent::DataChanged;

fn configure(size: Option<(u32, u32)>, scale: Option<i32>) -> RenderEvent {
    RenderEvent::Configure { size, scale }
}

fn sized(dimensions: (u32, u32), scale: i32) -> BarSurface {
    let mut surface = BarSurface::new(Side::Bottom, false);
    surface.schedule_event(configure(Some(dimensions), Some(scale)));
    assert_eq!(surface.handle_events(), Action::ResizeAndRepaint);
    assert!(surface.resize(true));
    surface
}

#[test]
fn a_new_surface_has_no_size_and_nothing_pending() {
    let surface = BarSurface::new(Side::Left, true);
    assert_eq!(surface.next_render_event, None);
    assert_eq!(surface.side, Side::Left);
    assert!(surface.reverse);
    assert_eq!(surface.scale, 1);
    assert_eq!(surface.dimensions, (0, 0));
    assert_eq!(surface.current_dimensions, (0, 0));
    assert_eq!(surface.current_scale, 1);
}

#[test]
fn merge_with_nothing_pending() {
    assert_eq!(RenderEvent::merge(None, CLOSED), Some(CLOSED));
    assert_eq!(RenderEvent::merge(None, DATA), Some(DATA));
    let c = configure(Some((1, 2)), None);
    assert_eq!(RenderEvent::merge(None, c), Some(c));
}

#[test]
fn merge_close_wins() {
    assert_eq!(RenderEvent::merge(Some(DATA), CLOSED), Some(CLOSED));
    assert_eq!(RenderEvent::merge(Some(configure(Some((1, 2)), Some(3))), CLOSED), Some(CLOSED));
    assert_eq!(RenderEvent::merge(Some(CLOSED), CLOSED), Some(CLOSED));
}

#[test]
fn merge_closed_stays_closed() {
    assert_eq!(RenderEvent::merge(Some(CLOSED), DATA), Some(CLOSED));
    assert_eq!(RenderEvent::merge(Some(CLOSED), configure(Some((1, 2)), Some(3))), Some(CLOSED));
}

#[test]
fn merge_two_configures_field_by_field() {
    let size_only = configure(Some((10, 10)), None);
    let scale_only = configure(None, Some(2));
    let both = configure(Some((10, 10)), Some(2));
    assert_eq!(RenderEvent::merge(Some(size_only), scale_only), Some(both));
    assert_eq!(RenderEvent::merge(Some(scale_only), size_only), Some(both));
    assert_eq!(
        RenderEvent::merge(Some(both), configure(Some((5, 6)), None)),
        Some(configure(Some((5, 6)), Some(2)))
    );
    assert_eq!(
        RenderEvent::merge(Some(both), configure(None, Some(7))),
        Some(configure(Some((10, 10)), Some(7)))
    );
    assert_eq!(
        RenderEvent::merge(Some(both), configure(Some((5, 6)), Some(7))),
        Some(configure(Some((5, 6)), Some(7)))
    );
    assert_eq!(RenderEvent::merge(Some(both), configure(None, None)), Some(both));
    assert_eq!(
        RenderEvent::merge(Some(configure(None, None)), configure(None, None)),
        Some(configure(None, None))
    );
}

#[test]
fn merge_configure_replaces_data_changed() {
    let c = configure(None, Some(2));
    assert_eq!(RenderEvent::merge(Some(DATA), c), Some(c));
}

#[test]
fn merge_data_changed_does_not_replace_configure() {
    let c = configure(Some((3, 4)), None);
    assert_eq!(RenderEvent::merge(Some(c), DATA), Some(c));
    assert_eq!(RenderEvent::merge(Some(DATA), DATA), Some(DATA));
}

#[test]
fn schedule_event_merges_into_the_pending_event() {
    let mut surface = BarSurface::new(Side::Top, false);
    surface.schedule_event(DATA);
    assert_eq!(surface.next_render_event, Some(DATA));
    surface.schedule_event(configure(Some((4, 5)), None));
    assert_eq!(surface.next_render_event, Some(configure(Some((4, 5)), None)));
    surface.schedule_event(DATA);
    assert_eq!(surface.next_render_event, Some(configure(Some((4, 5)), None)));
    surface.schedule_event(CLOSED);
    assert_eq!(surface.next_render_event, Some(CLOSED));
    surface.schedule_event(configure(None, Some(2)));
    assert_eq!(surface.next_render_event, Some(CLOSED));
    let untouched = BarSurface { next_render_event: None, ..surface };
    assert_eq!(untouched, BarSurface::new(Side::Top, false));
}

#[test]
fn size_then_scale_then_drain_applies_both_at_once() {
    let mut surface = BarSurface::new(Side::Bottom, false);
    surface.schedule_event(configure(Some((10, 10)), None));
    surface.schedule_event(configure(None, Some(2)));
    assert_eq!(surface.handle_events(), Action::ResizeAndRepaint);
    assert_eq!(surface.next_render_event, None);
    assert_eq!(surface.dimensions, (10, 10));
    assert_eq!(surface.scale, 2);
    assert_eq!(surface.current_dimensions, (0, 0));
    assert_eq!(surface.current_scale, 1);
    assert_eq!(surface.resize_request(), Some(ResizeRequest { scale: 2, size: Some((10, 10)) }));
    assert!(surface.resize(true));
    assert_eq!(surface.current_dimensions, (10, 10));
    assert_eq!(surface.current_scale, 2);
    assert_eq!(surface.resize_request(), None);
    assert!(!surface.resize(true));
    assert_eq!(surface.handle_events(), Action::Nothing);
}

#[test]
fn data_changed_then_configure_then_drain_applies_the_configure() {
    let mut surface = BarSurface::new(Side::Bottom, false);
    surface.schedule_event(DATA);
    surface.schedule_event(configure(Some((7, 3)), Some(3)));
    assert_eq!(surface.handle_events(), Action::ResizeAndRepaint);
    assert_eq!(surface.dimensions, (7, 3));
    assert_eq!(surface.scale, 3);
}

#[test]
fn configure_then_closed_then_drain_tears_down() {
    let mut surface = sized((4, 4), 1);
    let before = surface;
    surface.schedule_event(configure(Some((9, 9)), Some(5)));
    surface.schedule_event(CLOSED);
    assert_eq!(surface.handle_events(), Action::Teardown);
    assert_eq!(surface, before);
}

#[test]
fn data_changed_repaints_without_a_resize() {
    let mut surface = sized((4, 4), 1);
    let before = surface;
    surface.schedule_event(DATA);
    assert_eq!(surface.handle_events(), Action::Repaint);
    assert_eq!(surface, before);
}

#[test]
fn draining_with_nothing_pending_changes_nothing() {
    let mut fresh = BarSurface::new(Side::Right, true);
    assert_eq!(fresh.handle_events(), Action::Nothing);
    assert_eq!(fresh, BarSurface::new(Side::Right, true));
    let mut surface = sized((12, 3), 2);
    surface.scale = 4;
    surface.dimensions = (13, 3);
    let before = surface;
    assert_eq!(surface.handle_events(), Action::Nothing);
    assert_eq!(surface, before);
    assert_eq!(surface.handle_events(), Action::Nothing);
    assert_eq!(surface, before);
}

#[test]
fn a_configure_keeps_what_it_does_not_carry() {
    let mut surface = sized((12, 3), 2);
    surface.schedule_event(configure(None, Some(1)));
    assert_eq!(surface.handle_events(), Action::ResizeAndRepaint);
    assert_eq!(surface.dimensions, (12, 3));
    assert_eq!(surface.scale, 1);
    surface.schedule_event(configure(Some((8, 8)), None));
    assert_eq!(surface.handle_events(), Action::ResizeAndRepaint);
    assert_eq!(surface.dimensions, (8, 8));
    assert_eq!(surface.scale, 1);
    surface.schedule_event(configure(None, None));
    assert_eq!(surface.handle_events(), Action::ResizeAndRepaint);
    assert_eq!(surface.dimensions, (8, 8));
    assert_eq!(surface.scale, 1);
}

#[test]
fn resize_without_a_size_does_nothing() {
    let mut surface = BarSurface::new(Side::Bottom, false);
    surface.scale = 2;
    let before = surface;
    assert_eq!(surface.resize_request(), None);
    assert!(!surface.resize(true));
    assert_eq!(surface, before);
    assert!(!surface.resize(false));
    assert_eq!(surface, before);
}

#[test]
fn resize_with_nothing_changed_does_nothing() {
    let mut surface = sized((10, 2), 2);
    let before = surface;
    assert_eq!(surface.resize_request(), None);
    assert!(!surface.resize(true));
    assert!(!surface.resize(false));
    assert_eq!(surface, before);
}

#[test]
fn resize_offers_the_size_only_where_it_changed() {
    let mut surface = sized((10, 2), 2);
    surface.scale = 3;
    assert_eq!(surface.resize_request(), Some(ResizeRequest { scale: 3, size: None }));
    surface.dimensions = (11, 2);
    assert_eq!(surface.resize_request(), Some(ResizeRequest { scale: 3, size: Some((11, 2)) }));
    surface.scale = 2;
    assert_eq!(surface.resize_request(), Some(ResizeRequest { scale: 2, size: Some((11, 2)) }));
}

#[test]
fn a_refused_scale_falls_back_to_the_one_applied() {
    let mut surface = sized((10, 2), 2);
    surface.scale = 3;
    assert!(!surface.resize(false));
    assert_eq!(surface.scale, 2);
    assert_eq!(surface.current_scale, 2);
    assert_eq!(surface.current_dimensions, (10, 2));
}

#[test]
fn a_refused_scale_does_not_keep_the_size_from_being_applied() {
    let mut surface = sized((10, 2), 2);
    surface.scale = 3;
    surface.dimensions = (20, 2);
    assert!(surface.resize(false));
    assert_eq!(surface.scale, 2);
    assert_eq!(surface.current_scale, 2);
    assert_eq!(surface.dimensions, (20, 2));
    assert_eq!(surface.current_dimensions, (20, 2));
}

#[test]
fn resize_applies_a_size_with_one_side_of_nought() {
    let mut surface = BarSurface::new(Side::Bottom, false);
    surface.dimensions = (0, 5);
    assert_eq!(surface.resize_request(), Some(ResizeRequest { scale: 1, size: Some((0, 5)) }));
    assert!(surface.resize(true));
    assert_eq!(surface.current_dimensions, (0, 5));
    assert_eq!(surface.frame_size(), None);
}

#[test]
fn set_output_scale_counts_as_applied() {
    let mut surface = BarSurface::new(Side::Bottom, false);
    surface.set_output_scale(2, true);
    assert_eq!((surface.scale, surface.current_scale), (2, 2));
    surface.set_output_scale(3, false);
    assert_eq!((surface.scale, surface.current_scale), (2, 2));
    surface.scale = 5;
    surface.set_output_scale(3, false);
    assert_eq!((surface.scale, surface.current_scale), (5, 5));
    assert_eq!(surface.dimensions, (0, 0));
    assert_eq!(surface.next_render_event, None);
}

#[test]
fn frame_size_is_the_size_times_the_scale() {
    let surface = sized((10, 10), 2);
    assert_eq!(
        surface.frame_size(),
        Some(FrameSize { width: 20, height: 20, stride: 80, bytes: 1600 })
    );
    let thin = sized((1920, 3), 1);
    assert_eq!(
        thin.frame_size(),
        Some(FrameSize { width: 1920, height: 3, stride: 7680, bytes: 23040 })
    );
}

#[test]
fn frame_size_needs_something_to_paint() {
    assert_eq!(BarSurface::new(Side::Bottom, false).frame_size(), None);
    let mut surface = sized((10, 10), 2);
    surface.current_scale = 0;
    assert_eq!(surface.frame_size(), None);
    surface.current_scale = -1;
    assert_eq!(surface.frame_size(), None);
    surface.current_scale = 1;
    surface.current_dimensions = (0, 10);
    assert_eq!(surface.frame_size(), None);
    surface.current_dimensions = (10, 0);
    assert_eq!(surface.frame_size(), None);
}

#[test]
fn frame_size_needs_numbers_that_fit() {
    let mut surface = sized((10, 10), 1);
    surface.current_dimensions = (536_870_911, 1);
    assert_eq!(
        surface.frame_size(),
        Some(FrameSize { width: 536_870_911, height: 1, stride: 2_147_483_644, bytes: 2_147_483_644 })
    );
    surface.current_dimensions = (536_870_912, 1);
    assert_eq!(surface.frame_size(), None);
    surface.current_dimensions = (1, u32::MAX);
    assert_eq!(surface.frame_size(), None);
    surface.current_dimensions = (u32::MAX, u32::MAX);
    surface.current_scale = i32::MAX;
    assert_eq!(surface.frame_size(), None);
}

#[test]
fn the_default_options() {
    let options = CliOptions::default();
    assert_eq!(options.border, Side::Bottom);
    assert_eq!(options.size, 3);
    assert!(!options.reverse);
    assert!(!options.mock_upower);
}

#[test]
fn output_layout_along_each_edge() {
    let mut options = CliOptions::default();
    assert_eq!(
        options.output_layout(1, 1, (1920, 1080)),
        Some(OutputLayout { buffer_bytes: 1920 * 3 * 4, width: 1920, height: 3, exclusive_zone: 3 })
    );
    assert_eq!(
        options.output_layout(2, 2, (3840, 2160)),
        Some(OutputLayout { buffer_bytes: 3840 * 6 * 4, width: 1920, height: 3, exclusive_zone: 3 })
    );
    options.border = Side::Left;
    options.size = 5;
    assert_eq!(
        options.output_layout(2, 2, (3840, 2161)),
        Some(OutputLayout { buffer_bytes: 10 * 2161 * 4, width: 5, height: 1080, exclusive_zone: 5 })
    );
    options.border = Side::Right;
    assert_eq!(
        options.output_layout(3, 3, (100, 50)),
        Some(OutputLayout { buffer_bytes: 15 * 50 * 4, width: 5, height: 16, exclusive_zone: 5 })
    );
    options.border = Side::Top;
    assert_eq!(
        options.output_layout(1, 1, (0, 0)),
        Some(OutputLayout { buffer_bytes: 0, width: 0, height: 5, exclusive_zone: 5 })
    );
}

#[test]
fn output_layout_divides_by_the_scale_of_the_surface() {
    let options = CliOptions::default();
    // the output went to scale 2, the surface stayed at 1
    assert_eq!(
        options.output_layout(2, 1, (3840, 2160)),
        Some(OutputLayout { buffer_bytes: 3840 * 6 * 4, width: 3840, height: 6, exclusive_zone: 3 })
    );
    assert_eq!(
        options.output_layout(1, 2, (1920, 1080)),
        Some(OutputLayout { buffer_bytes: 1920 * 3 * 4, width: 960, height: 1, exclusive_zone: 3 })
    );
    assert_eq!(options.output_layout(1, 0, (1920, 1080)), None);
    assert_eq!(options.output_layout(1, -2, (1920, 1080)), None);
}

#[test]
fn output_layout_needs_numbers_that_make_sense() {
    let mut options = CliOptions::default();
    assert_eq!(options.output_layout(0, 1, (1920, 1080)), None);
    assert_eq!(options.output_layout(-1, 1, (1920, 1080)), None);
    assert_eq!(options.output_layout(1, 1, (-1, 1080)), None);
    assert_eq!(options.output_layout(1, 1, (1920, -1)), None);
    assert_eq!(options.output_layout(i32::MAX, 1, (1920, 1080)), None);
    options.size = u32::MAX;
    assert_eq!(options.output_layout(1, 1, (1920, 1080)), None);
    options.size = i32::MAX as u32;
    assert!(options.output_layout(1, 1, (1, 1080)).is_some());
    assert_eq!(options.output_layout(2, 1, (1, 1080)), None);
}
