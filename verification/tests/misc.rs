use ember::experimental::Antistatic;
use ember::logging::{Color, ConsoleLogger, Level, LevelFilter, DBG_REPORT, DBG_UTILS};
use ember::windows::{WCAData, WCAttribute, WCA_ACCENT_POLICY_ID};

#[test]
fn cell_keeps_its_first_value() {
    let mut cell: Antistatic<u32> = Antistatic::new();
    assert!(!cell.is_set());
    assert_eq!(cell.get(), None);
    cell.set(7);
    assert!(cell.is_set());
    assert_eq!(cell.get(), Some(&7));
    cell.set(9);
    assert_eq!(cell.get(), Some(&7));
}

#[test]
fn accent_policy_data() {
    let blur = WCAttribute::blur();
    assert_eq!(blur, WCAttribute::WCA_ACCENT_POLICY { state: 3, flags: 480, gradient: 0, animation: 0 });
    let data = WCAData::new(&blur);
    assert_eq!(data.attrib, 19);
    assert_eq!(data.attrib, WCA_ACCENT_POLICY_ID);
    assert_eq!(data.cb_data, 16);
    assert_eq!(blur.words(), [3, 480, 0, 0]);
}

#[test]
fn levels_let_through() {
    let l = ConsoleLogger;
    assert!(l.enabled(Level::Error, LevelFilter::Trace));
    assert!(l.enabled(Level::Trace, LevelFilter::Trace));
    assert!(l.enabled(Level::Warn, LevelFilter::Warn));
    assert!(!l.enabled(Level::Info, LevelFilter::Warn));
    assert!(!l.enabled(Level::Error, LevelFilter::Off));
    assert!(l.enabled(Level::Debug, LevelFilter::Debug));
    assert!(!l.enabled(Level::Trace, LevelFilter::Debug));
}

#[test]
fn dress_of_a_line() {
    let l = ConsoleLogger;
    let e = l.style(Level::Error, false);
    assert_eq!(e.background, Color::TrueColor { r: 165, g: 0, b: 0 });
    assert_eq!(e.target_fg, Color::TrueColor { r: 255, g: 55, b: 95 });
    assert_eq!(e.flavor_fg, Color::BrightRed);
    assert_eq!(e.level_fg, Color::BrightWhite);
    assert_eq!(e.args_fg, None);
    assert_eq!(e.gap, 2);
    assert_eq!(l.style(Level::Error, true).gap, 1);
    let w = l.style(Level::Warn, false);
    assert_eq!(w.background, Color::TrueColor { r: 205, g: 125, b: 0 });
    assert_eq!(w.target_fg, Color::TrueColor { r: 255, g: 255, b: 0 });
    assert_eq!(w.flavor_fg, Color::BrightYellow);
    assert_eq!(w.gap, 3);
    assert_eq!(l.style(Level::Warn, true).gap, 2);
    let i = l.style(Level::Info, true);
    assert_eq!(i.background, Color::TrueColor { r: 0, g: 165, b: 0 });
    assert_eq!(i.target_fg, Color::TrueColor { r: 35, g: 255, b: 75 });
    assert_eq!(i.flavor_fg, Color::BrightGreen);
    assert_eq!(i.gap, 2);
    let d = l.style(Level::Debug, false);
    assert_eq!(d.background, Color::TrueColor { r: 0, g: 165, b: 165 });
    assert_eq!(d.target_fg, Color::TrueColor { r: 95, g: 255, b: 235 });
    assert_eq!(d.args_fg, Some(Color::BrightWhite));
    assert_eq!(d.flavor_fg, Color::BrightCyan);
    assert_eq!(d.gap, 2);
    let t = l.style(Level::Trace, false);
    assert_eq!(t.background, Color::TrueColor { r: 65, g: 65, b: 65 });
    assert_eq!(t.target_fg, Color::BrightWhite);
    assert_eq!(t.flavor_fg, Color::TrueColor { r: 205, g: 205, b: 205 });
    assert_eq!(t.gap, 2);
}

#[test]
fn subsystem_names() {
    let l = ConsoleLogger;
    assert_eq!(l.subsystem(Some(DBG_UTILS)), "UTILS ");
    assert_eq!(l.subsystem(Some(DBG_REPORT)), "REPORT");
    assert_eq!(l.subsystem(Some(3)), "      ");
    assert_eq!(l.subsystem(None), "      ");
}
