use wattbar::color::{Color, UNIT};
use wattbar::gradient::{colors_between, sort_by_level, GradientStop};
use wattbar::level::Level;
use wattbar::theme::{ChargeState, Theme, ThemeError};

fn level(millionths: u32) -> Level {
    Level::new(millionths).unwrap()
}

fn grey(l: i32) -> Color {
    Color::new(l, 0, 0, UNIT)
}

fn stop(millionths: u32, l: i32) -> GradientStop {
    GradientStop::new(level(millionths), grey(l), Some(grey(-l)))
}

fn levels(stops: &Vec<GradientStop>) -> Vec<u32> {
    stops.iter().map(|s| s.level().millionths()).collect()
}

fn theme_of(discharging: Vec<GradientStop>) -> Theme {
    Theme::from_sections(vec![stop(0, 1)], vec![stop(0, 2)], discharging).unwrap()
}

#[test]
fn a_stop_without_background_gets_the_darkened_foreground() {
    let fg = Color::new(800_000, 10, -20, 600_000);
    let s = GradientStop::new(level(250_000), fg, None);
    assert_eq!(s.level(), level(250_000));
    assert_eq!(s.fg(), fg);
    assert_eq!(s.bg(), Color::new(400_000, 10, -20, 600_000));
    assert_eq!(s.bg(), fg.darken());
}

#[test]
fn a_stop_keeps_the_background_it_is_given() {
    let s = GradientStop::new(level(1), grey(5), Some(grey(9)));
    assert_eq!(s.fg(), grey(5));
    assert_eq!(s.bg(), grey(9));
}

#[test]
fn sorting_orders_by_level() {
    let sorted = sort_by_level(&vec![stop(900_000, 1), stop(100_000, 2), stop(500_000, 3)]);
    assert_eq!(levels(&sorted), vec![100_000, 500_000, 900_000]);
    assert_eq!(sorted[0].fg(), grey(2));
    assert_eq!(sorted[1].fg(), grey(3));
    assert_eq!(sorted[2].fg(), grey(1));
}

#[test]
fn sorting_is_stable() {
    let sorted = sort_by_level(&vec![
        stop(500_000, 1),
        stop(100_000, 2),
        stop(500_000, 3),
        stop(100_000, 4),
        stop(500_000, 5),
    ]);
    assert_eq!(levels(&sorted), vec![100_000, 100_000, 500_000, 500_000, 500_000]);
    let lights: Vec<i32> = sorted.iter().map(|s| s.fg().lightness()).collect();
    assert_eq!(lights, vec![2, 4, 1, 3, 5]);
}

#[test]
fn sorting_nothing_gives_nothing() {
    assert!(sort_by_level(&vec![]).is_empty());
}

#[test]
fn a_theme_needs_a_stop_for_every_state() {
    let some = vec![stop(0, 1)];
    assert_eq!(
        Theme::from_sections(vec![], some.clone(), some.clone()).unwrap_err(),
        ThemeError::EmptySection { state: ChargeState::Charging }
    );
    assert_eq!(
        Theme::from_sections(some.clone(), vec![], some.clone()).unwrap_err(),
        ThemeError::EmptySection { state: ChargeState::NoCharge }
    );
    assert_eq!(
        Theme::from_sections(some.clone(), some.clone(), vec![]).unwrap_err(),
        ThemeError::EmptySection { state: ChargeState::Discharging }
    );
    assert_eq!(
        Theme::from_sections(vec![], vec![], vec![]).unwrap_err(),
        ThemeError::EmptySection { state: ChargeState::Charging }
    );
    assert_eq!(
        Theme::from_sections(some, vec![], vec![]).unwrap_err(),
        ThemeError::EmptySection { state: ChargeState::NoCharge }
    );
}

#[test]
fn a_theme_keeps_its_sections_apart_and_sorted() {
    let theme = Theme::from_sections(
        vec![stop(700_000, 1), stop(200_000, 2)],
        vec![stop(0, 3)],
        vec![stop(1_000_000, 4), stop(0, 5), stop(500_000, 6)],
    )
    .unwrap();
    assert_eq!(levels(theme.section_by_name(ChargeState::Charging)), vec![200_000, 700_000]);
    assert_eq!(levels(theme.section_by_name(ChargeState::NoCharge)), vec![0]);
    assert_eq!(
        levels(theme.section_by_name(ChargeState::Discharging)),
        vec![0, 500_000, 1_000_000]
    );
    assert_eq!(theme.section_by_name(ChargeState::Discharging)[1].fg(), grey(6));
    let copy = theme.clone();
    assert_eq!(
        copy.section_by_name(ChargeState::Discharging),
        theme.section_by_name(ChargeState::Discharging)
    );
}

#[test]
fn colors_at_empty_are_those_of_the_first_stop() {
    let theme = theme_of(vec![stop(0, 100), stop(1_000_000, 900)]);
    assert_eq!(theme.colors_at(ChargeState::Discharging, Level::empty()), (grey(100), grey(-100)));
    let late = theme_of(vec![stop(200_000, 100), stop(1_000_000, 900)]);
    assert_eq!(late.colors_at(ChargeState::Discharging, Level::empty()), (grey(100), grey(-100)));
    assert_eq!(late.colors_at(ChargeState::Discharging, level(199_999)), (grey(100), grey(-100)));
}

#[test]
fn colors_at_full_are_those_of_the_last_stop() {
    let theme = theme_of(vec![stop(0, 100), stop(1_000_000, 900)]);
    assert_eq!(theme.colors_at(ChargeState::Discharging, Level::full()), (grey(900), grey(-900)));
    let early = theme_of(vec![stop(0, 100), stop(600_000, 900)]);
    assert_eq!(early.colors_at(ChargeState::Discharging, level(600_000)), (grey(900), grey(-900)));
    assert_eq!(early.colors_at(ChargeState::Discharging, level(600_001)), (grey(900), grey(-900)));
    assert_eq!(early.colors_at(ChargeState::Discharging, Level::full()), (grey(900), grey(-900)));
}

#[test]
fn colors_at_a_stop_are_those_of_the_stop() {
    let theme = theme_of(vec![stop(0, 100), stop(333_333, 777), stop(1_000_000, 900)]);
    assert_eq!(theme.colors_at(ChargeState::Discharging, level(333_333)), (grey(777), grey(-777)));
}

#[test]
fn colors_at_with_a_single_stop_never_change() {
    let theme = theme_of(vec![stop(400_000, 5)]);
    for at in [0, 1, 399_999, 400_000, 400_001, 1_000_000] {
        assert_eq!(theme.colors_at(ChargeState::Discharging, level(at)), (grey(5), grey(-5)));
    }
}

#[test]
fn colors_at_the_middle_are_the_midpoint() {
    let c0 = Color::new(200_000, -100_000, 40_000, 0);
    let c1 = Color::new(800_000, 300_000, -60_000, UNIT);
    let b0 = Color::new(0, 0, 0, UNIT);
    let b1 = Color::new(100_000, 2, 4, UNIT);
    let theme = theme_of(vec![
        GradientStop::new(level(200_000), c0, Some(b0)),
        GradientStop::new(level(600_000), c1, Some(b1)),
    ]);
    let (fg, bg) = theme.colors_at(ChargeState::Discharging, level(400_000));
    assert_eq!(fg, Color::new(500_000, 100_000, -10_000, 500_000));
    assert_eq!(bg, Color::new(50_000, 1, 2, UNIT));
}

#[test]
fn colors_between_stops_are_interpolated() {
    let theme = theme_of(vec![stop(0, 0), stop(1_000_000, 1_000_000)]);
    assert_eq!(theme.colors_at(ChargeState::Discharging, level(250_000)).0, grey(250_000));
    assert_eq!(theme.colors_at(ChargeState::Discharging, level(999_999)).0, grey(999_999));
    assert_eq!(theme.colors_at(ChargeState::Discharging, level(1)).1, grey(-1));
    let narrow = theme_of(vec![stop(100_000, 0), stop(400_000, 900), stop(500_000, 1_000)]);
    // a third of the way from the first stop to the second
    assert_eq!(narrow.colors_at(ChargeState::Discharging, level(200_000)).0, grey(300));
    assert_eq!(narrow.colors_at(ChargeState::Discharging, level(450_000)).0, grey(950));
}

#[test]
fn colors_between_stops_lie_within_a_millionth_of_the_straight_line() {
    let theme = theme_of(vec![stop(0, 0), stop(700_000, 999_999)]);
    // 999_999 / 700_000 is 1.43 millionths
    assert_eq!(theme.colors_at(ChargeState::Discharging, level(1)).0, grey(1));
    assert_eq!(theme.colors_at(ChargeState::Discharging, level(1)).1, grey(-2));
    assert_eq!(theme.colors_at(ChargeState::Discharging, level(350_000)).0, grey(499_999));
    assert_eq!(theme.colors_at(ChargeState::Discharging, level(699_999)).0, grey(999_997));
    let thirds = theme_of(vec![stop(0, 0), stop(3, 1_000_000)]);
    assert_eq!(thirds.colors_at(ChargeState::Discharging, level(1)).0, grey(333_333));
    assert_eq!(thirds.colors_at(ChargeState::Discharging, level(2)).0, grey(666_666));
    assert_eq!(thirds.colors_at(ChargeState::Discharging, level(2)).1, grey(-666_667));
}

#[test]
fn of_stops_at_one_level_the_last_one_counts_from_there_on() {
    let theme = theme_of(vec![stop(0, 0), stop(500_000, 100), stop(500_000, 900), stop(1_000_000, 1_000)]);
    assert_eq!(theme.colors_at(ChargeState::Discharging, level(250_000)).0, grey(50));
    assert_eq!(theme.colors_at(ChargeState::Discharging, level(500_000)).0, grey(900));
    assert_eq!(theme.colors_at(ChargeState::Discharging, level(750_000)).0, grey(950));
}

#[test]
fn colors_at_looks_at_the_state_asked_for() {
    let theme = Theme::from_sections(vec![stop(0, 1)], vec![stop(0, 2)], vec![stop(0, 3)]).unwrap();
    assert_eq!(theme.colors_at(ChargeState::Charging, Level::half()).0, grey(1));
    assert_eq!(theme.colors_at(ChargeState::NoCharge, Level::half()).0, grey(2));
    assert_eq!(theme.colors_at(ChargeState::Discharging, Level::half()).0, grey(3));
}

#[test]
fn colors_between_works_on_any_list_of_stops() {
    let stops = vec![stop(100_000, 10), stop(300_000, 30)];
    assert_eq!(colors_between(&stops, level(200_000)).0, grey(20));
    assert_eq!(colors_between(&stops, level(0)).0, grey(10));
    assert_eq!(colors_between(&stops, level(300_000)).0, grey(30));
}
