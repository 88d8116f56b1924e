use wolle::window::{
    best_fit, clamp_position, is_light_theme, resolve_bg, start_entry_set, start_entry_value,
    Rgba, WorkArea, EDGE_MARGIN,
};

const AREA: WorkArea = WorkArea { x: 0, y: 0, width: 1920, height: 1080 };

#[test]
fn position_inside_the_area_is_kept() {
    assert_eq!(clamp_position(500, 300, Some(AREA)), (500, 300));
    assert_eq!(clamp_position(0, 0, Some(AREA)), (0, 0));
    assert_eq!(clamp_position(1820, 980, Some(AREA)), (1820, 980));
}

#[test]
fn position_outside_the_area_is_pulled_in() {
    assert_eq!(EDGE_MARGIN, 100);
    assert_eq!(clamp_position(-40, 5000, Some(AREA)), (0, 980));
    assert_eq!(clamp_position(1821, -1, Some(AREA)), (1820, 0));
    let second = WorkArea { x: -1280, y: 200, width: 1280, height: 720 };
    assert_eq!(clamp_position(0, 0, Some(second)), (-100, 200));
    assert_eq!(clamp_position(-2000, 900, Some(second)), (-1280, 820));
}

#[test]
fn unknown_monitor_leaves_the_position() {
    assert_eq!(clamp_position(-7, 99999, None), (-7, 99999));
}

#[test]
fn narrow_area_leaves_its_origin() {
    let narrow = WorkArea { x: 10, y: 20, width: 50, height: 99 };
    assert_eq!(clamp_position(30, 30, Some(narrow)), (10, 20));
}

#[test]
fn extreme_areas_do_not_overflow() {
    let far = WorkArea { x: i32::MAX, y: i32::MIN, width: u32::MAX, height: u32::MAX };
    assert_eq!(clamp_position(0, 0, Some(far)), (i32::MAX, 0));
    assert_eq!(clamp_position(i32::MIN, i32::MAX, Some(far)), (i32::MAX, i32::MAX - 100));
}

#[test]
fn best_fit_takes_the_nearest_size() {
    let sizes = vec![(256, 256), (48, 48), (32, 32), (16, 16)];
    assert_eq!(best_fit(&sizes, 16), Some(3));
    assert_eq!(best_fit(&sizes, 40), Some(1));
    assert_eq!(best_fit(&sizes, 1000), Some(0));
    assert_eq!(best_fit(&sizes, 0), Some(3));
}

#[test]
fn best_fit_takes_the_first_of_equals_and_the_larger_side() {
    assert_eq!(best_fit(&vec![(24, 8), (8, 24), (40, 1)], 32), Some(0));
    assert_eq!(best_fit(&vec![(16, 64), (20, 20)], 16), Some(1));
    assert_eq!(best_fit(&vec![], 16), None);
    assert_eq!(best_fit(&vec![(u32::MAX, 0)], 0), Some(0));
}

#[test]
fn theme_and_background() {
    assert!(is_light_theme(None));
    assert!(is_light_theme(Some(1)));
    assert!(!is_light_theme(Some(0)));
    assert_eq!(resolve_bg(true), Rgba(255, 255, 255, 255));
    assert_eq!(resolve_bg(false), Rgba(0x11, 0x11, 0x11, 255));
}

#[test]
fn start_entry() {
    assert!(start_entry_set("\"C:\\Program Files\\Wolle\\wolle.exe\""));
    assert!(!start_entry_set(""));
    assert!(!start_entry_set(" \t\r\n"));
    assert_eq!(start_entry_value("C:\\w.exe"), "\"C:\\w.exe\"");
}
