use lightctl::controls::{App, ControlTarget, Focus, InputMode};
use lightctl::protocol::{ModeType, State};

fn blank() -> State {
    State { mode: None, dim: None, ct: None, gm: None, hue: None, sat: None }
}

#[test]
fn control_ranges() {
    assert_eq!(ControlTarget::Dim.range(), (0, 100));
    assert_eq!(ControlTarget::CT.range(), (2700, 7500));
    assert_eq!(ControlTarget::GM.range(), (-100, 100));
    assert_eq!(ControlTarget::Hue.range(), (0, 360));
    assert_eq!(ControlTarget::Sat.range(), (0, 100));
    assert_eq!(ControlTarget::Int.range(), (0, 100));
}

#[test]
fn new_app_defaults() {
    let app = App::new();
    assert!(app.first_connect);
    assert!(app.lights.is_empty());
    assert!(app.selected_indices.is_empty());
    assert!(matches!(app.current_mode, ModeType::CCT));
    assert!(matches!(app.input_mode, InputMode::Navigation));
    assert!(matches!(app.focus, Focus::LightList));
    assert_eq!((app.dim, app.ct, app.gm, app.hue, app.sat), (0, 2700, 0, 0, 0));
    assert_eq!(app.list_cursor, 0);
}

#[test]
fn cursor_moves_clamp_to_list_ends() {
    let mut app = App::new();
    app.lights = vec![blank(), blank(), blank()];
    app.move_focus(1);
    assert_eq!(app.list_cursor, 1);
    app.move_focus(10);
    assert_eq!(app.list_cursor, 2);
    app.move_focus(-100);
    assert_eq!(app.list_cursor, 0);
}

#[test]
fn cursor_sync_pulls_known_fields() {
    let mut app = App::new();
    let mut light = blank();
    light.mode = Some(ModeType::HSI);
    light.hue = Some(123);
    light.dim = Some(44);
    app.lights = vec![blank(), light];
    app.move_focus(1);
    assert!(matches!(app.current_mode, ModeType::HSI));
    assert_eq!(app.hue, 123);
    assert_eq!(app.dim, 44);
    assert_eq!(app.ct, 2700);
}

#[test]
fn focus_switches_between_list_and_controls() {
    let mut app = App::new();
    app.switch_focus(true);
    assert!(matches!(app.focus, Focus::Control(ControlTarget::Dim)));
    app.move_focus(1);
    assert!(matches!(app.focus, Focus::Control(ControlTarget::CT)));
    app.move_focus(5);
    assert!(matches!(app.focus, Focus::Control(ControlTarget::GM)));
    app.switch_focus(false);
    assert!(matches!(app.focus, Focus::LightList));
}

#[test]
fn toggle_selection_flips_only_the_cursor() {
    let mut app = App::new();
    app.lights = vec![blank(), blank()];
    app.toggle_selection();
    assert!(app.is_selected(0));
    assert!(!app.is_selected(1));
    app.move_focus(1);
    app.toggle_selection();
    assert!(app.is_selected(0));
    assert!(app.is_selected(1));
    app.toggle_selection();
    assert!(app.is_selected(0));
    assert!(!app.is_selected(1));
}

#[test]
fn toggle_mode_flips_and_resets_control_focus() {
    let mut app = App::new();
    app.switch_focus(true);
    app.toggle_mode();
    assert!(matches!(app.current_mode, ModeType::HSI));
    assert!(matches!(app.focus, Focus::Control(ControlTarget::Hue)));
    app.toggle_mode();
    assert!(matches!(app.current_mode, ModeType::CCT));
    assert!(matches!(app.focus, Focus::Control(ControlTarget::Dim)));
}

#[test]
fn toggle_edit_mode_only_in_controls() {
    let mut app = App::new();
    app.toggle_edit_mode();
    assert!(matches!(app.input_mode, InputMode::Navigation));
    app.switch_focus(true);
    app.toggle_edit_mode();
    assert!(matches!(app.input_mode, InputMode::Editing));
    app.toggle_edit_mode();
    assert!(matches!(app.input_mode, InputMode::Navigation));
}

#[test]
fn adjust_value_clamps_to_the_control_range() {
    let mut app = App::new();
    app.switch_focus(true);
    app.adjust_value(10);
    assert_eq!(app.dim, 10);
    app.adjust_value(1000);
    assert_eq!(app.dim, 100);
    app.adjust_value(-1);
    assert_eq!(app.dim, 99);
    app.move_focus(1);
    // Coarse deltas move the colour temperature by tens, fine ones by fifties.
    app.adjust_value(10);
    assert_eq!(app.ct, 2800);
    app.adjust_value(1);
    assert_eq!(app.ct, 2850);
    app.adjust_value(-100);
    assert_eq!(app.ct, 2700);
}

#[test]
fn update_selected_lights_applies_controls() {
    let mut app = App::new();
    app.lights = vec![blank(), blank()];
    app.toggle_selection();
    app.switch_focus(true);
    app.adjust_value(40);
    assert_eq!(app.lights[0].dim, Some(40));
    assert!(matches!(app.lights[0].mode, Some(ModeType::CCT)));
    assert_eq!(app.lights[0].ct, Some(2700));
    assert_eq!(app.lights[0].gm, Some(0));
    assert_eq!(app.lights[1].dim, None);
    assert_eq!(app.lights[0].hue, None);
}
