use polishd::editable::{
    ax_verdict, focus_gained, init, inspect, is_focus_gain, is_focused_editable, probe, record,
    uia_verdict, AxElement, FocusCache, UiaElement, UIA_DOCUMENT_CONTROL_TYPE, UIA_EDIT_CONTROL_TYPE,
};
use polishd::force_focus::{activate_by_title, find_window_by_title, NOT_LISTED};
use polishd::monitor::{active_monitor, monitor_at, monitor_contains, MonitorArea};
use polishd::shape::{apply_rounded_shape, ceil_sqrt_of, Rect};

fn rect(x: i32, y: i32, width: i32, height: i32) -> Rect {
    Rect { x, y, width, height }
}

#[test]
fn ceil_sqrt_values() {
    assert_eq!(ceil_sqrt_of(0), 0);
    assert_eq!(ceil_sqrt_of(1), 1);
    assert_eq!(ceil_sqrt_of(5), 3);
    assert_eq!(ceil_sqrt_of(16), 4);
    assert_eq!(ceil_sqrt_of(17), 5);
    assert_eq!(ceil_sqrt_of(i32::MAX), 46341);
    for n in [2, 3, 8, 15, 99, 1000, 123456] {
        assert_eq!(ceil_sqrt_of(n), (n as f64).sqrt().ceil() as i32);
    }
}

#[test]
fn shape_is_plain_without_radius_or_room() {
    assert_eq!(apply_rounded_shape(720, 107, 0), None);
    assert_eq!(apply_rounded_shape(160, 44, 0), None);
    assert_eq!(apply_rounded_shape(10, 10, -2), None);
    assert_eq!(apply_rounded_shape(5, 10, 3), None);
    assert_eq!(apply_rounded_shape(10, 5, 3), None);
}

#[test]
fn shape_of_a_small_rounded_window() {
    assert_eq!(
        apply_rounded_shape(6, 6, 3),
        Some(vec![rect(0, 1, 6, 1), rect(0, 2, 6, 1), rect(0, 3, 6, 1), rect(0, 4, 6, 1)])
    );
    assert_eq!(
        apply_rounded_shape(20, 12, 4),
        Some(vec![
            rect(4, 0, 12, 1),
            rect(1, 1, 18, 1),
            rect(0, 2, 20, 1),
            rect(0, 3, 20, 1),
            rect(0, 4, 20, 4),
            rect(0, 8, 20, 1),
            rect(0, 9, 20, 1),
            rect(1, 10, 18, 1),
            rect(4, 11, 12, 1),
        ])
    );
}

#[test]
fn shape_stays_inside_and_mirrors() {
    let (w, h, r) = (120, 44, 12);
    let region = apply_rounded_shape(w, h, r).unwrap();
    for rc in &region {
        assert!(rc.x >= 0 && rc.width > 0 && rc.x + rc.width <= w);
        assert_eq!(rc.x + rc.width, w - rc.x);
        assert!(rc.y >= 0 && rc.height > 0 && rc.y + rc.height <= h);
        if rc.y < r {
            assert!(region.contains(&Rect { y: h - 1 - rc.y, ..*rc }));
        }
    }
}

#[test]
fn monitor_under_the_cursor() {
    let left = MonitorArea { x: 0, y: 0, width: 1920, height: 1080 };
    let right = MonitorArea { x: 1920, y: 0, width: 2560, height: 1440 };
    let monitors = vec![left, right];
    assert!(monitor_contains(&left, 0, 0));
    assert!(!monitor_contains(&left, 1920, 10));
    assert_eq!(monitor_at(&monitors, 1920, 10), Some(1));
    assert_eq!(monitor_at(&monitors, 100, 100), Some(0));
    assert_eq!(monitor_at(&monitors, 100, 1200), None);
    assert_eq!(active_monitor(&monitors, None), None);
    assert_eq!(active_monitor(&monitors, Some((3000, 1439))), Some(1));
    let overlapping = vec![right, MonitorArea { x: 1920, y: 0, width: 100, height: 100 }];
    assert_eq!(monitor_at(&overlapping, 1950, 50), Some(0));
}

#[test]
fn focus_cache_expires_after_ten_seconds() {
    let c = init();
    assert_eq!(c, FocusCache { verdict: None, recorded_at: 0 });
    assert_eq!(probe(&c, 0), None);
    let c = record(Some(true), 1_000);
    assert_eq!(probe(&c, 1_000), Some(true));
    assert_eq!(probe(&c, 10_000_001_000), Some(true));
    assert_eq!(probe(&c, 10_000_001_001), None);
    assert_eq!(probe(&c, 5), Some(true));
    assert_eq!(probe(&record(Some(false), 0), 3), Some(false));
}

#[test]
fn probe_timeout_means_unknown() {
    assert_eq!(is_focused_editable(None), None);
    assert_eq!(is_focused_editable(Some(None)), None);
    assert_eq!(is_focused_editable(Some(Some(false))), Some(false));
}

#[test]
fn focus_events() {
    assert!(is_focus_gain(1, "focused"));
    assert!(!is_focus_gain(0, "focused"));
    assert!(!is_focus_gain(1, "Focused"));
    assert!(focus_gained(1, "Focused"));
    assert!(focus_gained(1, "FOCUSED"));
    assert!(!focus_gained(1, "Focusable"));
    assert!(!focus_gained(0, "Focused"));
}

#[test]
fn editable_elements_by_accessibility() {
    assert!(inspect(true, &None));
    assert!(inspect(false, &Some(vec![false, true])));
    assert!(!inspect(false, &Some(vec![false, false])));
    assert!(!inspect(false, &None));

    let edit = UiaElement { enabled: true, control_type: UIA_EDIT_CONTROL_TYPE, value_read_only: None, has_text_pattern: false };
    assert_eq!(uia_verdict(&edit), Some(true));
    assert_eq!(uia_verdict(&UiaElement { value_read_only: Some(true), ..edit }), Some(false));
    assert_eq!(uia_verdict(&UiaElement { enabled: false, ..edit }), Some(false));
    let doc = UiaElement { control_type: UIA_DOCUMENT_CONTROL_TYPE, ..edit };
    assert_eq!(uia_verdict(&doc), Some(true));
    let other = UiaElement { enabled: true, control_type: 50000, value_read_only: None, has_text_pattern: true };
    assert_eq!(uia_verdict(&other), Some(false));
    assert_eq!(uia_verdict(&UiaElement { has_text_pattern: false, ..other }), None);
    assert_eq!(uia_verdict(&UiaElement { value_read_only: Some(false), ..other }), Some(true));

    let el = |enabled: Option<bool>, role: Option<&str>, sel: bool| AxElement {
        enabled,
        role: role.map(|r| r.to_string()),
        has_selected_text: sel,
    };
    assert_eq!(ax_verdict(false, &Some(el(None, Some("AXTextField"), false))), None);
    assert_eq!(ax_verdict(true, &None), None);
    assert_eq!(ax_verdict(true, &Some(el(Some(false), Some("AXTextField"), true))), Some(false));
    assert_eq!(ax_verdict(true, &Some(el(Some(true), Some("AXTextArea"), false))), Some(true));
    assert_eq!(ax_verdict(true, &Some(el(None, Some("AXComboBox"), false))), Some(true));
    assert_eq!(ax_verdict(true, &Some(el(None, Some("AXHeading"), true))), Some(false));
    assert_eq!(ax_verdict(true, &Some(el(None, Some("AXWebArea"), true))), Some(true));
    assert_eq!(ax_verdict(true, &Some(el(None, Some("AXWebArea"), false))), None);
    assert_eq!(ax_verdict(true, &Some(el(None, None, true))), None);
}

#[test]
fn window_lookup_by_title() {
    let names = vec![
        Some("polishd — transform".to_string()),
        None,
        Some("editor".to_string()),
        Some("polishd — transform".to_string()),
        Some("terminal".to_string()),
    ];
    assert_eq!(find_window_by_title(&names, "polishd — transform"), Some(3));
    assert_eq!(find_window_by_title(&names, "editor"), Some(2));
    assert_eq!(find_window_by_title(&names, "absent"), None);
    let windows = vec![11, 12, 13, 14, 15];
    assert_eq!(activate_by_title(&windows, &names, "polishd — transform"), Ok(14));
    assert_eq!(activate_by_title(&windows, &names, "absent"), Err(NOT_LISTED.to_string()));
    assert_eq!(NOT_LISTED, "transform window not in _NET_CLIENT_LIST");
}

fn float_shape(w: i32, h: i32, r: i32) -> Option<Vec<Rect>> {
    if r <= 0 || w < 2 * r || h < 2 * r {
        return None;
    }
    let mut out = Vec::new();
    for y in 0..r {
        let dy = (r - y) as f64;
        let dx = ((r * r) as f64 - dy * dy).max(0.0).sqrt().ceil() as i32;
        let x_start = r - dx;
        let strip_w = w - 2 * x_start;
        if strip_w > 0 {
            out.push(rect(x_start, y, strip_w, 1));
        }
    }
    if h - 2 * r > 0 {
        out.push(rect(0, r, w, h - 2 * r));
    }
    for y in 0..r {
        let dy = (y + 1) as f64;
        let dx = ((r * r) as f64 - dy * dy).max(0.0).sqrt().ceil() as i32;
        let x_start = r - dx;
        let strip_w = w - 2 * x_start;
        if strip_w > 0 {
            out.push(rect(x_start, h - r + y, strip_w, 1));
        }
    }
    Some(out)
}

#[test]
fn integer_shape_matches_the_floating_point_construction() {
    for r in -1..40 {
        for (w, h) in [(80, 80), (2 * r.max(0), 2 * r.max(0)), (720, 107), (160, 44), (50, 90)] {
            assert_eq!(apply_rounded_shape(w, h, r), float_shape(w, h, r), "w={w} h={h} r={r}");
        }
    }
    assert_eq!(apply_rounded_shape(3000, 3000, 1000), float_shape(3000, 3000, 1000));
    for n in 0..200_000 {
        assert_eq!(ceil_sqrt_of(n), (n as f64).sqrt().ceil() as i32);
    }
}

#[test]
fn unrelated_windows_do_not_change_the_lookup() {
    let title = "polishd — transform";
    let names = vec![Some(title.to_string()), Some("editor".to_string())];
    let windows = vec![7, 8];
    let more_names = vec![
        None,
        Some(title.to_string()),
        Some("shell".to_string()),
        None,
        Some("editor".to_string()),
        Some("browser".to_string()),
    ];
    let more_windows = vec![1, 7, 2, 3, 8, 4];
    assert_eq!(activate_by_title(&windows, &names, title), Ok(7));
    assert_eq!(activate_by_title(&more_windows, &more_names, title), Ok(7));
}
