use window_state::binary64::Binary64;
use window_state::lifecycle::{
    failure_diagnostic, load_diagnostics, on_window_event, Diagnostic, LifecycleAction, StoreLoad,
    WindowEventKind,
};
use window_state::restore::{startup_plan, StoredState, WindowOp, WindowState};
use window_state::{MAIN_WINDOW_LABEL, SETTINGS_STORE_NAME, WINDOW_STATE_KEY};

fn num(v: f64) -> Binary64 {
    Binary64 { bits: v.to_bits() }
}

fn state(
    width: Option<f64>,
    height: Option<f64>,
    x: Option<f64>,
    y: Option<f64>,
    maximized: Option<bool>,
) -> WindowState {
    WindowState {
        width: width.map(num),
        height: height.map(num),
        x: x.map(num),
        y: y.map(num),
        maximized,
    }
}

fn ops_of(s: WindowState) -> Vec<WindowOp> {
    startup_plan(StoreLoad::Loaded, StoredState::Record(s)).ops
}

const SAMPLES: [f64; 24] = [
    0.0, -0.0, 0.3, 0.5, -0.5, 0.49999999999999994, 1.5, 2.5, -2.5, 3.49, -10.5, 100.0, 1024.0,
    -1e-320, 5e-324, 4503599627370497.0, 9007199254740993.0, 2147483647.4, 2147483647.6,
    -2147483648.4, -2147483648.6, 4294967295.4, 4294967295.6, 1e300,
];

#[test]
fn scenario_full_record_resizes_and_repositions() {
    let plan = startup_plan(
        StoreLoad::Loaded,
        StoredState::Record(state(Some(1024.0), Some(768.0), Some(100.0), Some(50.0), Some(false))),
    );
    assert!(plan.diagnostics.is_empty());
    assert_eq!(
        plan.ops,
        vec![
            WindowOp::Resize { width: 1024, height: 768 },
            WindowOp::Reposition { x: 100, y: 50 },
            WindowOp::Show,
            WindowOp::Focus,
        ]
    );
}

#[test]
fn scenario_negative_width_no_resize_no_reposition() {
    let ops = ops_of(state(Some(-5.0), Some(768.0), None, None, None));
    assert_eq!(ops, vec![WindowOp::Show, WindowOp::Focus]);
}

#[test]
fn scenario_missing_store_file_is_silent() {
    assert!(load_diagnostics(StoreLoad::NotFound).is_empty());
    let plan = startup_plan(StoreLoad::NotFound, StoredState::Absent);
    assert!(plan.diagnostics.is_empty());
    assert_eq!(plan.ops, vec![WindowOp::Show, WindowOp::Focus]);
}

#[test]
fn scenario_maximized_only() {
    let ops = ops_of(state(None, None, None, None, Some(true)));
    assert_eq!(ops, vec![WindowOp::Maximize, WindowOp::Show, WindowOp::Focus]);
}

#[test]
fn scenario_close_request_exits_process() {
    assert_eq!(
        on_window_event(WindowEventKind::CloseRequested),
        LifecycleAction::ExitProcess(0)
    );
    assert_eq!(on_window_event(WindowEventKind::Other), LifecycleAction::Continue);
}

#[test]
fn missing_width_and_height_never_resize() {
    let ops = ops_of(state(None, None, Some(10.0), Some(20.0), Some(false)));
    assert_eq!(
        ops,
        vec![WindowOp::Reposition { x: 10, y: 20 }, WindowOp::Show, WindowOp::Focus]
    );
    let ops = ops_of(state(Some(800.0), None, None, None, None));
    assert!(!ops.iter().any(|op| matches!(op, WindowOp::Resize { .. })));
    let ops = ops_of(state(None, Some(600.0), None, None, None));
    assert!(!ops.iter().any(|op| matches!(op, WindowOp::Resize { .. })));
}

#[test]
fn bad_extents_never_resize() {
    let bad = [f64::NAN, f64::INFINITY, f64::NEG_INFINITY, 0.0, -0.0, -1.0, -1e-320];
    for b in bad {
        let ops = ops_of(state(Some(b), Some(600.0), Some(1.0), Some(2.0), None));
        assert!(!ops.iter().any(|op| matches!(op, WindowOp::Resize { .. })), "width {b}");
        let ops = ops_of(state(Some(800.0), Some(b), Some(1.0), Some(2.0), None));
        assert!(!ops.iter().any(|op| matches!(op, WindowOp::Resize { .. })), "height {b}");
    }
}

#[test]
fn small_positive_extent_is_still_applied() {
    let ops = ops_of(state(Some(0.3), Some(5e-324), None, None, None));
    assert_eq!(ops[0], WindowOp::Resize { width: 0, height: 0 });
}

#[test]
fn finite_position_is_rounded() {
    let ops = ops_of(state(None, None, Some(-10.5), Some(3.49), None));
    assert_eq!(ops[0], WindowOp::Reposition { x: -11, y: 3 });
    let ops = ops_of(state(None, None, Some(-0.4), Some(2.5), None));
    assert_eq!(ops[0], WindowOp::Reposition { x: 0, y: 3 });
    let ops = ops_of(state(None, None, Some(-1e300), Some(1e300), None));
    assert_eq!(ops[0], WindowOp::Reposition { x: i32::MIN, y: i32::MAX });
}

#[test]
fn non_finite_position_is_not_applied() {
    for b in [f64::NAN, f64::INFINITY, f64::NEG_INFINITY] {
        let ops = ops_of(state(None, None, Some(b), Some(1.0), None));
        assert_eq!(ops, vec![WindowOp::Show, WindowOp::Focus]);
        let ops = ops_of(state(None, None, Some(1.0), Some(b), None));
        assert_eq!(ops, vec![WindowOp::Show, WindowOp::Focus]);
    }
}

#[test]
fn maximize_comes_after_resize_and_reposition() {
    let ops = ops_of(state(Some(640.0), Some(480.0), Some(-20.0), Some(30.0), Some(true)));
    assert_eq!(
        ops,
        vec![
            WindowOp::Resize { width: 640, height: 480 },
            WindowOp::Reposition { x: -20, y: 30 },
            WindowOp::Maximize,
            WindowOp::Show,
            WindowOp::Focus,
        ]
    );
}

#[test]
fn malformed_value_reports_once_and_applies_nothing() {
    let plan = startup_plan(StoreLoad::Loaded, StoredState::Malformed);
    assert_eq!(plan.diagnostics.len(), 1);
    assert!(matches!(plan.diagnostics[0], Diagnostic::InvalidWindowState));
    assert_eq!(plan.ops, vec![WindowOp::Show, WindowOp::Focus]);
}

#[test]
fn absent_value_reports_nothing() {
    let plan = startup_plan(StoreLoad::Loaded, StoredState::Absent);
    assert!(plan.diagnostics.is_empty());
    assert_eq!(plan.ops, vec![WindowOp::Show, WindowOp::Focus]);
}

#[test]
fn failed_store_load_is_reported_and_startup_goes_on() {
    let plan = startup_plan(
        StoreLoad::Failed("expected value at line 1".to_string()),
        StoredState::Malformed,
    );
    assert_eq!(plan.diagnostics.len(), 2);
    assert!(matches!(&plan.diagnostics[0],
        Diagnostic::StoreLoadFailed(d) if d == "expected value at line 1"));
    assert!(matches!(plan.diagnostics[1], Diagnostic::InvalidWindowState));
    assert_eq!(plan.ops, vec![WindowOp::Show, WindowOp::Focus]);
    assert!(load_diagnostics(StoreLoad::Loaded).is_empty());
}

#[test]
fn only_show_and_focus_failures_are_reported() {
    let d = failure_diagnostic(WindowOp::Show, "no display".to_string());
    assert!(matches!(d, Some(Diagnostic::ShowFailed(ref s)) if s == "no display"));
    let d = failure_diagnostic(WindowOp::Focus, "denied".to_string());
    assert!(matches!(d, Some(Diagnostic::FocusFailed(ref s)) if s == "denied"));
    assert!(failure_diagnostic(WindowOp::Maximize, "x".to_string()).is_none());
    assert!(failure_diagnostic(WindowOp::Resize { width: 1, height: 1 }, "x".to_string()).is_none());
    assert!(failure_diagnostic(WindowOp::Reposition { x: 1, y: 1 }, "x".to_string()).is_none());
}

#[test]
fn rounding_exact_values() {
    assert_eq!(num(0.5).round_to_i32(), 1);
    assert_eq!(num(-0.5).round_to_i32(), -1);
    assert_eq!(num(1.5).round_to_u32(), 2);
    assert_eq!(num(2.5).round_to_u32(), 3);
    assert_eq!(num(0.49999999999999994).round_to_u32(), 0);
    assert_eq!(num(-2.5).round_to_u32(), 0);
    assert_eq!(num(4294967295.6).round_to_u32(), u32::MAX);
    assert_eq!(num(2147483647.6).round_to_i32(), i32::MAX);
    assert_eq!(num(-2147483648.6).round_to_i32(), i32::MIN);
    assert_eq!(num(9007199254740993.0).round_to_u32(), u32::MAX);
}

#[test]
fn rounding_matches_native_conversion() {
    for v in SAMPLES {
        assert_eq!(num(v).round_to_i32(), v.round() as i32, "i32 of {v}");
        assert_eq!(num(v).round_to_u32(), v.round() as u32, "u32 of {v}");
    }
}

#[test]
fn finiteness_and_sign_match_native() {
    let mut all = SAMPLES.to_vec();
    all.extend([f64::NAN, -f64::NAN, f64::INFINITY, f64::NEG_INFINITY, f64::MAX, f64::MIN]);
    for v in all {
        assert_eq!(num(v).is_finite(), v.is_finite(), "finite {v}");
        assert_eq!(num(v).is_positive(), v > 0.0, "positive {v}");
    }
}

#[test]
fn store_names() {
    assert_eq!(SETTINGS_STORE_NAME, "settings.store");
    assert_eq!(WINDOW_STATE_KEY, "windowState");
    assert_eq!(MAIN_WINDOW_LABEL, "main");
}
