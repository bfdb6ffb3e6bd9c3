use color_picker::color::Color;
use color_picker::error::PickError;
use color_picker::picker::{
    after, cancel_picker, capture_color_and_close, enter_picker_mode, picker_overlay, start,
    Desktop, Focus, Overlay, Plan, Progress, WindowAction,
};

fn idle() -> Desktop {
    Desktop { main_open: true, main_visible: true, pickers: 0, focus: Focus::Main }
}

fn empty() -> Desktop {
    Desktop { main_open: false, main_visible: false, pickers: 0, focus: Focus::Nothing }
}

#[test]
fn enter_from_idle_hides_main_and_opens_overlay() {
    let mut d = idle();
    let p = enter_picker_mode(&d);
    assert_eq!(p.actions, vec![WindowAction::HideMain, WindowAction::OpenPicker]);
    assert_eq!(p.outcome, Ok(()));
    d.apply_all(&p.actions);
    assert_eq!(d.pickers, 1);
    assert!(!d.main_visible);
    assert_eq!(d.focus, Focus::Picker);
}

#[test]
fn enter_twice_keeps_one_overlay() {
    let mut d = idle();
    let p1 = enter_picker_mode(&d);
    d.apply_all(&p1.actions);
    let after_first = d;
    let p2 = enter_picker_mode(&d);
    assert_eq!(p2.actions, vec![WindowAction::FocusPicker]);
    assert_eq!(p2.outcome, Ok(()));
    d.apply_all(&p2.actions);
    assert_eq!(d.pickers, 1);
    assert_eq!(d, after_first);
}

#[test]
fn enter_without_main_window_fails() {
    let p = enter_picker_mode(&empty());
    assert!(p.actions.is_empty());
    assert_eq!(p.outcome, Err(PickError::WindowNotFound));
}

#[test]
fn cancel_without_windows_succeeds() {
    let mut d = empty();
    let p = cancel_picker(&d);
    assert!(p.actions.is_empty());
    assert_eq!(p.outcome, Ok(()));
    d.apply_all(&p.actions);
    assert_eq!(d, empty());
}

#[test]
fn cancel_while_picking_restores_main() {
    let mut d = idle();
    d.apply_all(&enter_picker_mode(&d).actions);
    let p = cancel_picker(&d);
    assert_eq!(
        p.actions,
        vec![WindowAction::ClosePicker, WindowAction::ShowMain, WindowAction::FocusMain]
    );
    assert_eq!(p.outcome, Ok(()));
    d.apply_all(&p.actions);
    assert_eq!(d, idle());
}

#[test]
fn cancel_overlay_without_main_window() {
    let d = Desktop { main_open: false, main_visible: false, pickers: 1, focus: Focus::Picker };
    let p = cancel_picker(&d);
    assert_eq!(p.actions, vec![WindowAction::ClosePicker]);
    assert_eq!(p.outcome, Ok(()));
}

#[test]
fn enter_then_capture_reports_color_and_is_idle() {
    let mut d = idle();
    d.apply_all(&enter_picker_mode(&d).actions);
    let p = capture_color_and_close(&d, Ok(vec![0xFF, 0x00, 0x80, 0xFF]));
    let color = Color { red: 0xFF, green: 0x00, blue: 0x80 };
    assert_eq!(
        p.actions,
        vec![
            WindowAction::ClosePicker,
            WindowAction::ShowMain,
            WindowAction::FocusMain,
            WindowAction::EmitColorPicked(color),
        ]
    );
    assert_eq!(p.outcome, Ok(()));
    assert_eq!(color.to_hex(), "#FF0080");
    d.apply_all(&p.actions);
    assert_eq!(d.pickers, 0);
    assert!(d.main_visible);
    assert_eq!(d.focus, Focus::Main);
}

#[test]
fn enter_then_failed_capture_is_idle() {
    for capture in [
        Ok(vec![0x01, 0x02]),
        Err(PickError::ScreenNotFound("no screen at point".to_string())),
        Err(PickError::CaptureError("backend failed".to_string())),
    ] {
        let mut d = idle();
        d.apply_all(&enter_picker_mode(&d).actions);
        let expected = match &capture {
            Ok(_) => Ok(()),
            Err(e) => Err(e.clone()),
        };
        let p = capture_color_and_close(&d, capture);
        assert_eq!(
            p.actions,
            vec![
                WindowAction::ClosePicker,
                WindowAction::ShowMain,
                WindowAction::FocusMain,
                WindowAction::EmitColorPickFailed,
            ]
        );
        assert_eq!(p.outcome, expected);
        d.apply_all(&p.actions);
        assert_eq!(d.pickers, 0);
        assert!(d.main_visible);
        assert_eq!(d.focus, Focus::Main);
    }
}

#[test]
fn capture_without_overlay_still_restores_main() {
    let p = capture_color_and_close(&idle(), Ok(vec![1, 2, 3]));
    assert_eq!(
        p.actions,
        vec![
            WindowAction::ShowMain,
            WindowAction::FocusMain,
            WindowAction::EmitColorPicked(Color { red: 1, green: 2, blue: 3 }),
        ]
    );
    assert_eq!(p.outcome, Ok(()));
}

#[test]
fn capture_without_main_window() {
    let d = Desktop { main_open: false, main_visible: false, pickers: 1, focus: Focus::Picker };
    let p = capture_color_and_close(&d, Ok(vec![1, 2, 3]));
    assert!(p.actions.is_empty());
    assert_eq!(p.outcome, Err(PickError::WindowNotFound));
    let p = capture_color_and_close(&d, Err(PickError::CaptureError("x".to_string())));
    assert!(p.actions.is_empty());
    assert_eq!(p.outcome, Err(PickError::CaptureError("x".to_string())));
}

#[test]
fn overlay_layout() {
    assert_eq!(
        picker_overlay(),
        Overlay { fullscreen: true, transparent: true, decorations: false, always_on_top: true }
    );
}

#[test]
fn short_buffer_reports_failure_but_succeeds() {
    let mut d = idle();
    d.apply_all(&enter_picker_mode(&d).actions);
    let p = capture_color_and_close(&d, Ok(vec![0x01, 0x02]));
    assert_eq!(p.actions.last(), Some(&WindowAction::EmitColorPickFailed));
    assert!(!p.actions.iter().any(|a| matches!(a, WindowAction::EmitColorPicked(_))));
    assert_eq!(p.outcome, Ok(()));
}

#[test]
fn empty_plan_finishes_with_its_outcome() {
    let p = enter_picker_mode(&empty());
    assert_eq!(start(&p), Progress::Finish(Err(PickError::WindowNotFound)));
    assert_eq!(start(&cancel_picker(&empty())), Progress::Finish(Ok(())));
}

#[test]
fn plan_steps_through_actions_then_outcome() {
    let p = capture_color_and_close(&idle(), Err(PickError::CaptureError("gone".to_string())));
    assert_eq!(start(&p), Progress::Perform(0));
    assert_eq!(after(&p, 0, Ok(())), Progress::Perform(1));
    assert_eq!(after(&p, 1, Ok(())), Progress::Perform(2));
    assert_eq!(
        after(&p, 2, Ok(())),
        Progress::Finish(Err(PickError::CaptureError("gone".to_string())))
    );
}

#[test]
fn toolkit_failure_stops_plan() {
    let p = Plan { actions: vec![WindowAction::HideMain, WindowAction::OpenPicker], outcome: Ok(()) };
    let failure = PickError::FocusError("cannot hide".to_string());
    assert_eq!(after(&p, 0, Err(failure.clone())), Progress::Finish(Err(failure)));
}
