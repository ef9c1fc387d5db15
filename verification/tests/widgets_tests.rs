use play_ui::app::{InputEvent, KeyCode};
use play_ui::widgets::{clamp_slider, WidgetsInput, CONTROL_ROW_VISIBLE, SLIDER_MAX, WORKER_STEPS};
use play_ui::worker::ProgressTicker;
use play_ui::{widgets_window, MyApp, MyEnum, PlotPanel};

fn no_input() -> WidgetsInput {
    WidgetsInput {
        show_clicked: false,
        radio_clicked: None,
        slider_moved: None,
        drag_moved: None,
        start_clicked: false,
        reset_clicked: false,
    }
}

#[test]
fn main_window_initial_state() {
    let app = MyApp::new();
    assert!(!app.show_window);
    assert_eq!(app.slider_value, 70);
    assert_eq!(app.radio_value, MyEnum::Happy);
    assert_eq!(app.process_data, 0);
    assert_eq!(app.open_plot, PlotPanel::Lines);
}

#[test]
fn quiet_frame_changes_nothing() {
    let mut app = MyApp::new();
    app.process_data = 4;
    let out = widgets_window(&mut app, &no_input());
    assert!(!app.show_window);
    assert_eq!(app.slider_value, 70);
    assert_eq!(app.radio_value, MyEnum::Happy);
    assert_eq!(app.process_data, 4);
    assert_eq!(out.start_worker, None);
    assert!(!out.reset_progress);
    assert_eq!(out.progress_percent, 40);
}

#[test]
fn button_opens_window_and_keeps_it_open() {
    let mut app = MyApp::new();
    let mut input = no_input();
    input.show_clicked = true;
    widgets_window(&mut app, &input);
    assert!(app.show_window);
    widgets_window(&mut app, &no_input());
    assert!(app.show_window);
}

#[test]
fn radio_selects_choice() {
    let mut app = MyApp::new();
    let mut input = no_input();
    input.radio_clicked = Some(MyEnum::Excited);
    widgets_window(&mut app, &input);
    assert_eq!(app.radio_value, MyEnum::Excited);
    input.radio_clicked = Some(MyEnum::Sad);
    widgets_window(&mut app, &input);
    assert_eq!(app.radio_value, MyEnum::Sad);
}

#[test]
fn slider_and_drag_stay_in_range() {
    assert_eq!(clamp_slider(0), 0);
    assert_eq!(clamp_slider(100), 100);
    assert_eq!(clamp_slider(101), SLIDER_MAX);
    let mut app = MyApp::new();
    let mut input = no_input();
    input.slider_moved = Some(250);
    widgets_window(&mut app, &input);
    assert_eq!(app.slider_value, 100);
    input.slider_moved = Some(30);
    input.drag_moved = Some(55);
    widgets_window(&mut app, &input);
    assert_eq!(app.slider_value, 55);
    input.slider_moved = None;
    input.drag_moved = Some(u32::MAX);
    widgets_window(&mut app, &input);
    assert_eq!(app.slider_value, 100);
}

#[test]
fn hidden_start_button_starts_nothing() {
    assert!(!CONTROL_ROW_VISIBLE);
    let mut app = MyApp::new();
    let mut input = no_input();
    input.start_clicked = true;
    let out = widgets_window(&mut app, &input);
    assert_eq!(out.start_worker, None);
    assert_eq!(WORKER_STEPS, 10);
}

#[test]
fn hidden_reset_button_resets_nothing() {
    let mut app = MyApp::new();
    app.process_data = 7;
    let mut input = no_input();
    input.reset_clicked = true;
    let out = widgets_window(&mut app, &input);
    assert!(!out.reset_progress);
    assert_eq!(app.process_data, 7);
    assert_eq!(out.progress_percent, 70);
}

#[test]
fn progress_stays_empty_from_start() {
    let mut app = MyApp::new();
    let inputs = [
        WidgetsInput { show_clicked: true, radio_clicked: Some(MyEnum::Sad), slider_moved: Some(3), drag_moved: None, start_clicked: true, reset_clicked: false },
        WidgetsInput { show_clicked: false, radio_clicked: None, slider_moved: None, drag_moved: Some(400), start_clicked: true, reset_clicked: true },
        no_input(),
    ];
    for input in inputs.iter() {
        let out = widgets_window(&mut app, input);
        assert_eq!(out.start_worker, None);
        assert!(!out.reset_progress);
        assert_eq!(out.progress_percent, 0);
        assert_eq!(app.process_data, 0);
    }
    assert!(app.show_window);
    assert_eq!(app.radio_value, MyEnum::Sad);
    assert_eq!(app.slider_value, 100);
}

#[test]
fn worker_run_fills_the_bar() {
    let mut app = MyApp::new();
    let mut ticker = ProgressTicker::new(WORKER_STEPS);
    let mut percents = Vec::new();
    while let Some(v) = ticker.next_value() {
        app.process_data = v;
        percents.push(widgets_window(&mut app, &no_input()).progress_percent);
    }
    assert_eq!(percents, vec![10, 20, 30, 40, 50, 60, 70, 80, 90, 100]);
}

#[test]
fn ctrl_w_closes() {
    let app = MyApp::new();
    let ctrl_w = InputEvent::Key { key: KeyCode::W, pressed: true, ctrl: true };
    let ctrl_w_up = InputEvent::Key { key: KeyCode::W, pressed: false, ctrl: true };
    let plain_w = InputEvent::Key { key: KeyCode::W, pressed: true, ctrl: false };
    let ctrl_other = InputEvent::Key { key: KeyCode::Other, pressed: true, ctrl: true };
    assert!(!app.update(&vec![]));
    assert!(!app.update(&vec![plain_w, ctrl_other, InputEvent::Other]));
    assert!(app.update(&vec![InputEvent::Other, ctrl_w]));
    assert!(app.update(&vec![ctrl_w_up]));
}
