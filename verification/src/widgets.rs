//! The widgets window: a button that opens the "new window", three radio
//! buttons, a slider and a drag value that share one number, hidden
//! start/reset buttons for the worker, and a progress bar.

use vstd::prelude::*;
use crate::app::MyApp;

verus! {

/// The three choices of the radio buttons.
#[derive(PartialEq, Eq, Structural, Clone, Copy, Debug)]
pub enum MyEnum {
    Happy,
    Sad,
    Excited,
}

/// The largest value of the slider (its range is `0..=SLIDER_MAX`).
pub const SLIDER_MAX: u32 = 100;

/// How many values a worker started from the widgets window reports.
pub const WORKER_STEPS: i32 = 10;

/// Whether the row with the "start" and "reset" buttons is shown. It is
/// hidden, and a hidden row is disabled: its buttons take no clicks.
pub const CONTROL_ROW_VISIBLE: bool = false;

/// A requested slider value, brought into the slider's range.
pub open spec fn clamp_spec(v: u32) -> u32 {
    if v <= SLIDER_MAX {
        v
    } else {
        SLIDER_MAX
    }
}

/// The slider value after the slider and then the drag value had their say.
pub open spec fn slider_after(current: u32, slider: Option<u32>, drag: Option<u32>) -> u32 {
    let after_slider = match slider {
        Some(v) => clamp_spec(v),
        None => current,
    };
    match drag {
        Some(v) => clamp_spec(v),
        None => after_slider,
    }
}

/// The slider's range is `0..=100`: a value in it is kept as it is, a
/// larger one becomes 100. In a frame, a moved drag value wins over a moved
/// slider, and with neither moved the value stays.
pub proof fn lemma_slider_range(v: u32, w: u32, current: u32)
    ensures
        SLIDER_MAX == 100,
        v <= 100 ==> clamp_spec(v) == v,
        v > 100 ==> clamp_spec(v) == 100,
        v <= 100 ==> slider_after(current, Some(v), None) == v,
        w <= 100 ==> slider_after(current, Some(v), Some(w)) == w,
        w <= 100 ==> slider_after(current, None, Some(w)) == w,
        slider_after(current, None, None) == current,
{
}

/// How full the progress bar is, in percent, for a reported value: each of
/// the worker's steps is a tenth of the bar.
pub open spec fn progress_percent(data: int) -> int {
    data * 10
}

/// Brings a requested slider value into `0..=SLIDER_MAX`.
pub fn clamp_slider(v: u32) -> (r: u32)
    ensures
        r == clamp_spec(v),
        v <= 100 ==> r == v,
        v > 100 ==> r == 100,
{
    if v <= SLIDER_MAX {
        v
    } else {
        SLIDER_MAX
    }
}

/// What the user did in the widgets window during one frame.
pub struct WidgetsInput {
    /// "click button" was clicked.
    pub show_clicked: bool,
    /// A radio button was clicked.
    pub radio_clicked: Option<MyEnum>,
    /// The slider was moved to this value.
    pub slider_moved: Option<u32>,
    /// The drag value was dragged to this value.
    pub drag_moved: Option<u32>,
    /// "start" was clicked.
    pub start_clicked: bool,
    /// "reset" was clicked.
    pub reset_clicked: bool,
}

/// What the widgets window asks the caller to do after one frame.
pub struct WidgetsOutput {
    /// Start a worker that reports this many values.
    pub start_worker: Option<i32>,
    /// Set the value shared with the worker back to 0.
    pub reset_progress: bool,
    /// How full the progress bar is drawn, in percent.
    pub progress_percent: i64,
}

/// The state after one frame of the widgets window.
pub open spec fn widgets_next(app: MyApp, input: WidgetsInput) -> MyApp {
    MyApp {
        show_window: app.show_window || input.show_clicked,
        slider_value: slider_after(app.slider_value, input.slider_moved, input.drag_moved),
        radio_value: match input.radio_clicked {
            Some(r) => r,
            None => app.radio_value,
        },
        process_data: if input.reset_clicked && CONTROL_ROW_VISIBLE {
            0
        } else {
            app.process_data
        },
        open_plot: app.open_plot,
    }
}

/// What one frame of the widgets window asks of the caller.
pub open spec fn widgets_out(app: MyApp, input: WidgetsInput) -> WidgetsOutput {
    WidgetsOutput {
        start_worker: if input.start_clicked && CONTROL_ROW_VISIBLE {
            Some(WORKER_STEPS)
        } else {
            None
        },
        reset_progress: input.reset_clicked && CONTROL_ROW_VISIBLE,
        progress_percent: (widgets_next(app, input).process_data * 10) as i64,
    }
}

/// Applies one frame of the widgets window to `app`, in the order the
/// widgets are laid out, and says what the caller has to do.
pub fn widgets_window(app: &mut MyApp, input: &WidgetsInput) -> (out: WidgetsOutput)
    requires
        old(app).wf(),
    ensures
        final(app).wf(),
        final(app).show_window == (old(app).show_window || input.show_clicked),
        final(app).radio_value == (match input.radio_clicked {
            Some(r) => r,
            None => old(app).radio_value,
        }),
        final(app).slider_value == slider_after(old(app).slider_value, input.slider_moved, input.drag_moved),
        final(app).process_data == (if input.reset_clicked && CONTROL_ROW_VISIBLE {
            0
        } else {
            old(app).process_data
        }),
        final(app).open_plot == old(app).open_plot,
        out.start_worker == (if input.start_clicked && CONTROL_ROW_VISIBLE {
            Some(WORKER_STEPS)
        } else {
            None
        }),
        out.reset_progress == (input.reset_clicked && CONTROL_ROW_VISIBLE),
        out.progress_percent == progress_percent(final(app).process_data as int),
        *final(app) == widgets_next(*old(app), *input),
        out == widgets_out(*old(app), *input),
{
    if input.show_clicked {
        app.show_window = true;
    }
    match input.radio_clicked {
        Some(r) => {
            app.radio_value = r;
        },
        None => {},
    }
    match input.slider_moved {
        Some(v) => {
            app.slider_value = clamp_slider(v);
        },
        None => {},
    }
    match input.drag_moved {
        Some(v) => {
            app.slider_value = clamp_slider(v);
        },
        None => {},
    }
    let start_worker = if input.start_clicked && CONTROL_ROW_VISIBLE {
        Some(WORKER_STEPS)
    } else {
        None
    };
    let reset = input.reset_clicked && CONTROL_ROW_VISIBLE;
    if reset {
        app.process_data = 0;
    }
    let percent: i64 = app.process_data as i64 * 10;
    WidgetsOutput { start_worker, reset_progress: reset, progress_percent: percent }
}

} // verus!

verus! {

/// The worker started from the widgets window reports `1, ..., 10`; each
/// report fills the bar by a further tenth, and the last one fills it.
pub proof fn lemma_worker_run_fills_bar()
    ensures
        forall|i: int|
            0 <= i < WORKER_STEPS ==> #[trigger] crate::worker::emitted(0, WORKER_STEPS as int, WORKER_STEPS as nat)[i]
                == Some(i + 1) && progress_percent(i + 1) == 10 * (i + 1),
        crate::worker::emitted(0, WORKER_STEPS as int, WORKER_STEPS as nat)[WORKER_STEPS - 1] == Some(WORKER_STEPS as int),
        progress_percent(WORKER_STEPS as int) == 100,
{
    crate::worker::lemma_counter_reports_one_to_length(WORKER_STEPS as int, WORKER_STEPS as nat);
}

} // verus!

verus! {

/// The state after a sequence of frames of the widgets window, and what
/// each frame asked of the caller.
pub open spec fn widgets_run(app: MyApp, inputs: Seq<WidgetsInput>) -> (MyApp, Seq<WidgetsOutput>)
    decreases inputs.len(),
{
    if inputs.len() == 0 {
        (app, Seq::empty())
    } else {
        let rest = widgets_run(widgets_next(app, inputs[0]), inputs.drop_first());
        (rest.0, seq![widgets_out(app, inputs[0])] + rest.1)
    }
}

/// The start/reset row is hidden, so its buttons take no clicks: from a
/// state whose progress value is 0 (the start state is one), whatever the
/// user does in the widgets window, no worker is ever started, nothing is
/// reset, the progress value stays 0 and the bar stays empty.
pub proof fn lemma_progress_stays_empty(app: MyApp, inputs: Seq<WidgetsInput>)
    requires
        app.process_data == 0,
    ensures
        widgets_run(app, inputs).0.process_data == 0,
        widgets_run(app, inputs).1.len() == inputs.len(),
        forall|i: int|
            0 <= i < inputs.len() ==> {
                &&& (#[trigger] widgets_run(app, inputs).1[i]).start_worker is None
                &&& !widgets_run(app, inputs).1[i].reset_progress
                &&& widgets_run(app, inputs).1[i].progress_percent == 0
            },
    decreases inputs.len(),
{
    if inputs.len() > 0 {
        let next = widgets_next(app, inputs[0]);
        lemma_progress_stays_empty(next, inputs.drop_first());
        let rest = widgets_run(next, inputs.drop_first()).1;
        let all = widgets_run(app, inputs).1;
        assert(all == seq![widgets_out(app, inputs[0])] + rest);
        assert forall|i: int| 0 <= i < inputs.len() implies {
            &&& (#[trigger] all[i]).start_worker is None
            &&& !all[i].reset_progress
            &&& all[i].progress_percent == 0
        } by {
            if i > 0 {
                assert(all[i] == rest[i - 1]);
            }
        }
    }
}

} // verus!
