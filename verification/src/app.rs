//! The state of the main window and what a frame's keyboard input asks of it.

use vstd::prelude::*;
use crate::plots::PlotPanel;
use crate::widgets::{MyEnum, SLIDER_MAX};

verus! {

/// The keys the program tells apart.
#[derive(PartialEq, Eq, Structural, Clone, Copy, Debug)]
pub enum KeyCode {
    W,
    Other,
}

/// One input event of a frame.
#[derive(PartialEq, Eq, Structural, Clone, Copy, Debug)]
pub enum InputEvent {
    /// A key went down (`pressed`) or up, with or without Ctrl held.
    Key { key: KeyCode, pressed: bool, ctrl: bool },
    /// Anything else: pointer moves, text, scrolling.
    Other,
}

/// Ctrl+W, pressed or released, closes the program.
pub open spec fn is_close_shortcut(e: InputEvent) -> bool {
    e matches InputEvent::Key { key: KeyCode::W, ctrl: true, .. }
}

/// Ctrl+W closes the program whether the key goes down or up; no other
/// key, no key without Ctrl held, and no other event does.
pub proof fn lemma_close_shortcut_is_ctrl_w(key: KeyCode, pressed: bool, ctrl: bool)
    ensures
        is_close_shortcut(InputEvent::Key { key, pressed, ctrl }) == (ctrl && key == KeyCode::W),
        !ctrl ==> !is_close_shortcut(InputEvent::Key { key, pressed, ctrl }),
        key != KeyCode::W ==> !is_close_shortcut(InputEvent::Key { key, pressed, ctrl }),
        is_close_shortcut(InputEvent::Key { key: KeyCode::W, pressed, ctrl: true }),
        !is_close_shortcut(InputEvent::Other),
{
}

/// The state of the main window, as plain values. The latest progress
/// value reported by the worker is mirrored in `process_data`.
pub struct MyApp {
    /// Whether the "new window" is open.
    pub show_window: bool,
    /// The value shared by the slider and the drag value, in `0..=100`.
    pub slider_value: u32,
    /// The selected radio button.
    pub radio_value: MyEnum,
    /// The latest value the worker reported (0 after a reset).
    pub process_data: i32,
    /// The plot that the plot window shows.
    pub open_plot: PlotPanel,
}

impl MyApp {
    /// The slider value never leaves the slider's range.
    pub open spec fn wf(&self) -> bool {
        self.slider_value <= SLIDER_MAX
    }

    /// The state when the program starts.
    pub fn new() -> (app: MyApp)
        ensures
            app.wf(),
            app.show_window == false,
            app.slider_value == 70,
            app.radio_value == MyEnum::Happy,
            app.process_data == 0,
            app.open_plot == PlotPanel::Lines,
    {
        MyApp {
            show_window: false,
            slider_value: 70,
            radio_value: MyEnum::Happy,
            process_data: 0,
            open_plot: PlotPanel::Lines,
        }
    }

    /// Goes through the frame's input events and says whether the program
    /// is to close: it is, exactly when one of them is Ctrl+W.
    pub fn update(&self, events: &Vec<InputEvent>) -> (close: bool)
        ensures
            close == exists|i: int| 0 <= i < events@.len() && is_close_shortcut(#[trigger] events@[i]),
            close == exists|i: int|
                0 <= i < events@.len() && (#[trigger] events@[i] matches InputEvent::Key {
                    key: KeyCode::W,
                    ctrl: true,
                    ..
                }),
    {
        let mut close = false;
        let mut i: usize = 0;
        while i < events.len()
            invariant
                i <= events@.len(),
                close == exists|j: int| 0 <= j < i && is_close_shortcut(#[trigger] events@[j]),
            decreases events@.len() - i,
        {
            match events[i] {
                InputEvent::Key { key, pressed: _, ctrl } => {
                    if ctrl == true {
                        match key {
                            KeyCode::W => {
                                close = true;
                            },
                            _ => {},
                        }
                    }
                },
                _ => {},
            }
            i = i + 1;
        }
        close
    }
}

} // verus!
