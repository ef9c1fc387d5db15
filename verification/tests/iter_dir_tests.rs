use play_ui::iter_dir::{select_subdirs, DirEntryInfo, DirFrameInput, DirListing, MyApp};
use play_ui::worker::ProgressTicker;

fn entry(path: &str, is_dir: bool) -> DirEntryInfo {
    DirEntryInfo { path: path.to_string(), is_dir }
}

fn listing() -> Vec<DirEntryInfo> {
    vec![
        entry("/p/a", true),
        entry("/p/notes.txt", false),
        entry("/p/b", true),
        entry("/p/c.png", false),
        entry("/p/d", true),
    ]
}

#[test]
fn keeps_directories_in_order() {
    assert_eq!(select_subdirs(&listing()), vec!["/p/a", "/p/b", "/p/d"]);
    assert_eq!(select_subdirs(&vec![]), Vec::<String>::new());
    assert_eq!(select_subdirs(&vec![entry("/x", false)]), Vec::<String>::new());
}

#[test]
fn walker_initial_state() {
    let app = MyApp::new();
    assert_eq!(app.slider_value, 70);
    assert_eq!(app.picked_dir, None);
    assert!(app.sub_dirs.is_empty());
}

#[test]
fn opening_a_folder() {
    let mut app = MyApp::new();
    app.open_dir("/p".to_string(), &listing());
    assert_eq!(app.picked_dir, Some("/p".to_string()));
    assert_eq!(app.sub_dirs, vec!["/p/a", "/p/b", "/p/d"]);
    assert_eq!(app.slider_value, 70);
}

#[test]
fn slider_stays_in_range() {
    let mut app = MyApp::new();
    app.set_slider(12);
    assert_eq!(app.slider_value, 12);
    app.set_slider(1000);
    assert_eq!(app.slider_value, 100);
}

#[test]
fn progress_before_a_folder_is_picked() {
    let app = MyApp::new();
    let v = app.progress_view(0);
    assert_eq!(v.shown, 0);
    assert_eq!(v.total, 0);
    assert!(!v.bar_visible);
    assert!(!v.start_enabled);
    assert!(!app.start(0, true));
}

#[test]
fn progress_during_and_after_a_run() {
    let mut app = MyApp::new();
    app.open_dir("/p".to_string(), &listing());
    let idle = app.progress_view(0);
    assert!(idle.start_enabled && !idle.bar_visible);
    assert!(app.start(0, true));
    assert!(!app.start(0, false));
    let mut ticker = ProgressTicker::for_items(app.sub_dirs.len());
    let mut reports = Vec::new();
    while let Some(v) = ticker.next_value() {
        reports.push(v);
        let view = app.progress_view(v);
        if v < 3 {
            assert_eq!(view.shown, v);
            assert!(view.bar_visible);
            assert!(!view.start_enabled);
            assert!(!app.start(v, true));
        } else {
            assert_eq!(view.shown, 0);
            assert!(!view.bar_visible);
            assert!(view.start_enabled);
        }
        assert_eq!(view.total, 3);
        assert!(!(view.start_enabled && view.bar_visible));
    }
    assert_eq!(reports, vec![1, 2, 3]);
}

#[test]
fn frame_update_opens_moves_and_starts() {
    let mut app = MyApp::new();
    let out = app.update(DirFrameInput { opened: None, slider_moved: Some(500), data: 0, start_clicked: true });
    assert_eq!(app.slider_value, 100);
    assert!(!out.start);
    assert!(!out.view.start_enabled);
    let out = app.update(DirFrameInput {
        opened: Some(DirListing { picked: "/p".to_string(), entries: listing() }),
        slider_moved: None,
        data: 0,
        start_clicked: true,
    });
    assert_eq!(app.picked_dir, Some("/p".to_string()));
    assert_eq!(app.sub_dirs, vec!["/p/a", "/p/b", "/p/d"]);
    assert!(out.start);
    assert_eq!(out.view.total, 3);
    let out = app.update(DirFrameInput { opened: None, slider_moved: Some(20), data: 2, start_clicked: true });
    assert_eq!(app.slider_value, 20);
    assert!(!out.start);
    assert!(out.view.bar_visible);
    assert_eq!(out.view.shown, 2);
    let out = app.update(DirFrameInput { opened: None, slider_moved: None, data: 3, start_clicked: false });
    assert!(!out.start);
    assert!(out.view.start_enabled);
    assert_eq!(out.view.shown, 0);
}
