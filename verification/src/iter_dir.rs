//! The directory walker: pick a folder, list its subdirectories, and run a
//! worker over them while a progress bar follows it.

use vstd::prelude::*;
use crate::widgets::{clamp_slider, SLIDER_MAX};

verus! {

/// One entry of a directory listing, as plain values.
pub struct DirEntryInfo {
    /// The entry's full path.
    pub path: String,
    /// Whether the entry is a directory.
    pub is_dir: bool,
}

/// The paths of the entries that are directories, in listing order.
pub open spec fn dir_paths(entries: Seq<DirEntryInfo>) -> Seq<Seq<char>>
    decreases entries.len(),
{
    if entries.len() == 0 {
        Seq::empty()
    } else {
        let rest = dir_paths(entries.drop_last());
        if entries.last().is_dir {
            rest.push(entries.last().path@)
        } else {
            rest
        }
    }
}

/// The contents of a list of strings.
pub open spec fn string_views(v: Seq<String>) -> Seq<Seq<char>> {
    v.map_values(|s: String| s@)
}

/// Keeps the directories of a listing, in order, and returns their paths.
pub fn select_subdirs(entries: &Vec<DirEntryInfo>) -> (dirs: Vec<String>)
    ensures
        string_views(dirs@) == dir_paths(entries@),
        string_views(dirs@) == entries@.filter(|e: DirEntryInfo| e.is_dir).map_values(
            |e: DirEntryInfo| e.path@,
        ),
        forall|j: int|
            0 <= j < entries@.len() && entries@[j].is_dir ==> string_views(dirs@).contains(
                #[trigger] entries@[j].path@,
            ),
{
    let mut dirs: Vec<String> = Vec::new();
    let mut i: usize = 0;
    while i < entries.len()
        invariant
            i <= entries@.len(),
            string_views(dirs@) == dir_paths(entries@.take(i as int)),
        decreases entries@.len() - i,
    {
        let ghost before = dirs@;
        assert(entries@.take(i + 1).drop_last() =~= entries@.take(i as int));
        if entries[i].is_dir {
            let path = entries[i].path.clone();
            dirs.push(path);
            assert(string_views(dirs@) =~= string_views(before).push(entries@[i as int].path@));
        }
        i = i + 1;
    }
    assert(entries@.take(entries@.len() as int) =~= entries@);
    proof {
        lemma_dir_paths_are_the_directories(entries@);
    }
    dirs
}

/// The kept paths are exactly those of the directory entries, in listing
/// order, with nothing dropped: filtering the listing down to its
/// directories and taking their paths gives the same list, so there are as
/// many kept paths as directory entries, and every directory's path is kept.
pub proof fn lemma_dir_paths_are_the_directories(entries: Seq<DirEntryInfo>)
    ensures
        dir_paths(entries) == entries.filter(|e: DirEntryInfo| e.is_dir).map_values(
            |e: DirEntryInfo| e.path@,
        ),
        dir_paths(entries).len() == entries.filter(|e: DirEntryInfo| e.is_dir).len(),
        forall|j: int|
            0 <= j < entries.len() && entries[j].is_dir ==> dir_paths(entries).contains(
                #[trigger] entries[j].path@,
            ),
    decreases entries.len(),
{
    reveal(Seq::filter);
    let pred = |e: DirEntryInfo| e.is_dir;
    let path = |e: DirEntryInfo| e.path@;
    if entries.len() == 0 {
        assert(entries.filter(pred) =~= Seq::<DirEntryInfo>::empty());
        assert(dir_paths(entries) =~= entries.filter(pred).map_values(path));
    } else {
        let prefix = entries.drop_last();
        lemma_dir_paths_are_the_directories(prefix);
        let kept = prefix.filter(pred);
        let last = entries.last();
        if last.is_dir {
            assert(entries.filter(pred) == kept.push(last));
            assert(kept.push(last).map_values(path) =~= kept.map_values(path).push(last.path@));
        } else {
            assert(entries.filter(pred) == kept);
        }
        assert forall|j: int| 0 <= j < entries.len() && entries[j].is_dir implies dir_paths(
            entries,
        ).contains(#[trigger] entries[j].path@) by {
            let out = dir_paths(entries);
            if j < entries.len() - 1 {
                assert(prefix[j] == entries[j]);
                assert(dir_paths(prefix).contains(prefix[j].path@));
                let k = choose|k: int| 0 <= k < dir_paths(prefix).len() && dir_paths(prefix)[k] == prefix[j].path@;
                assert(out[k] == dir_paths(prefix)[k]);
            } else {
                assert(entries[j] == last);
                assert(out[out.len() - 1] == last.path@);
            }
        }
    }
}

/// Whether `path` is the path of a directory entry of `entries`.
pub open spec fn is_listed_dir(entries: Seq<DirEntryInfo>, path: Seq<char>) -> bool {
    exists|j: int| 0 <= j < entries.len() && entries[j].is_dir && #[trigger] entries[j].path@ == path
}

/// The directories kept are never more than the entries listed, and each
/// of them is the path of a directory entry of the listing.
pub proof fn lemma_dir_paths_come_from_dirs(entries: Seq<DirEntryInfo>)
    ensures
        dir_paths(entries).len() <= entries.len(),
        forall|k: int|
            0 <= k < dir_paths(entries).len() ==> is_listed_dir(entries, #[trigger] dir_paths(entries)[k]),
    decreases entries.len(),
{
    if entries.len() > 0 {
        let prefix = entries.drop_last();
        lemma_dir_paths_come_from_dirs(prefix);
        let out = dir_paths(entries);
        assert forall|k: int| 0 <= k < out.len() implies is_listed_dir(entries, #[trigger] out[k]) by {
            if k < dir_paths(prefix).len() {
                assert(is_listed_dir(prefix, dir_paths(prefix)[k]));
                let j = choose|j: int|
                    0 <= j < prefix.len() && prefix[j].is_dir && #[trigger] prefix[j].path@ == dir_paths(
                        prefix,
                    )[k];
                assert(entries[j] == prefix[j]);
                assert(out[k] == dir_paths(prefix)[k]);
            } else {
                let j = entries.len() - 1;
                assert(entries[j] == entries.last());
                assert(entries[j].path@ == out[k]);
            }
        }
    }
}

/// What the progress part of the window shows for a reported value.
pub struct ProgressView {
    /// The reported value, or 0 once it has reached the number of directories.
    pub shown: i32,
    /// The number of directories the bar is measured against.
    pub total: usize,
    /// Whether the progress bar is drawn.
    pub bar_visible: bool,
    /// Whether the "Start" button can be clicked.
    pub start_enabled: bool,
}

/// A value equal to the number of directories means the run is over and
/// counts as 0; the bar shows while the value is not 0, and a new run can
/// start when it is 0 and a folder has been picked.
pub open spec fn progress_view_spec(data: i32, total: usize, picked: bool) -> ProgressView {
    let shown = if data == total as i32 {
        0i32
    } else {
        data
    };
    ProgressView { shown, total, bar_visible: shown != 0, start_enabled: shown == 0 && picked }
}

/// The state of the directory walker's window, as plain values.
pub struct MyApp {
    /// The slider's value, in `0..=100`.
    pub slider_value: u32,
    /// The folder picked last, as shown on screen.
    pub picked_dir: Option<String>,
    /// The subdirectories of that folder.
    pub sub_dirs: Vec<String>,
}

impl MyApp {
    /// The slider value never leaves the slider's range.
    pub open spec fn wf(&self) -> bool {
        self.slider_value <= SLIDER_MAX
    }

    /// The state when the program starts: no folder, slider at 70.
    pub fn new() -> (app: MyApp)
        ensures
            app.wf(),
            app.slider_value == 70,
            app.picked_dir is None,
            app.sub_dirs@.len() == 0,
    {
        MyApp { slider_value: 70, picked_dir: None, sub_dirs: Vec::new() }
    }

    /// A folder was picked: remember it and keep its subdirectories.
    pub fn open_dir(&mut self, picked: String, entries: &Vec<DirEntryInfo>)
        requires
            old(self).wf(),
        ensures
            final(self).wf(),
            final(self).picked_dir == Some(picked),
            string_views(final(self).sub_dirs@) == dir_paths(entries@),
            final(self).slider_value == old(self).slider_value,
    {
        self.picked_dir = Some(picked);
        self.sub_dirs = select_subdirs(entries);
    }

    /// The slider was moved to `v`.
    pub fn set_slider(&mut self, v: u32)
        requires
            old(self).wf(),
        ensures
            final(self).wf(),
            final(self).slider_value == crate::widgets::clamp_spec(v),
            final(self).picked_dir == old(self).picked_dir,
            final(self).sub_dirs == old(self).sub_dirs,
    {
        self.slider_value = clamp_slider(v);
    }

    /// What the progress part shows when the worker last reported `data`.
    pub fn progress_view(&self, data: i32) -> (view: ProgressView)
        ensures
            view == progress_view_spec(data, self.sub_dirs@.len() as usize, self.picked_dir is Some),
            view.total == self.sub_dirs@.len(),
            (data == 0 || data == self.sub_dirs@.len() as i32) ==> {
                &&& view.shown == 0
                &&& !view.bar_visible
                &&& view.start_enabled == (self.picked_dir is Some)
            },
            (data != 0 && data != self.sub_dirs@.len() as i32) ==> {
                &&& view.shown == data
                &&& view.bar_visible
                &&& !view.start_enabled
            },
    {
        let total = self.sub_dirs.len();
        let mut shown = data;
        if shown == total as i32 {
            shown = 0;
        }
        ProgressView {
            shown,
            total,
            bar_visible: shown != 0,
            start_enabled: shown == 0 && self.picked_dir.is_some(),
        }
    }

    /// Whether a click on "Start" starts a run over `sub_dirs`: only when
    /// the button is enabled.
    pub fn start(&self, data: i32, clicked: bool) -> (go: bool)
        ensures
            go == (clicked && progress_view_spec(
                data,
                self.sub_dirs@.len() as usize,
                self.picked_dir is Some,
            ).start_enabled),
    {
        let view = self.progress_view(data);
        clicked && view.start_enabled
    }
}

/// A folder picked in the file dialog, with its listing.
pub struct DirListing {
    /// The folder, as shown on screen.
    pub picked: String,
    /// Its entries.
    pub entries: Vec<DirEntryInfo>,
}

/// What the user did in the walker's window during one frame, and the
/// value the worker reported last.
pub struct DirFrameInput {
    /// "Open Dir…" was clicked and a folder was picked.
    pub opened: Option<DirListing>,
    /// The slider was moved to this value.
    pub slider_moved: Option<u32>,
    /// The value the worker reported last (0 before any run).
    pub data: i32,
    /// " Start " was clicked.
    pub start_clicked: bool,
}

/// What the walker's window shows after one frame, and whether to start a
/// run over `sub_dirs`.
pub struct DirFrameOutput {
    pub view: ProgressView,
    pub start: bool,
}

impl MyApp {
    /// One frame of the walker's window, in the order its widgets are laid
    /// out: the folder picker, the slider, then the progress bar and the
    /// " Start " button.
    pub fn update(&mut self, input: DirFrameInput) -> (out: DirFrameOutput)
        requires
            old(self).wf(),
        ensures
            final(self).wf(),
            (match input.opened {
                Some(o) => {
                    &&& final(self).picked_dir == Some(o.picked)
                    &&& string_views(final(self).sub_dirs@) == dir_paths(o.entries@)
                },
                None => {
                    &&& final(self).picked_dir == old(self).picked_dir
                    &&& final(self).sub_dirs == old(self).sub_dirs
                },
            }),
            final(self).slider_value == (match input.slider_moved {
                Some(v) => crate::widgets::clamp_spec(v),
                None => old(self).slider_value,
            }),
            out.view == progress_view_spec(
                input.data,
                final(self).sub_dirs@.len() as usize,
                final(self).picked_dir is Some,
            ),
            out.start == (input.start_clicked && out.view.start_enabled),
    {
        match input.opened {
            Some(o) => {
                self.open_dir(o.picked, &o.entries);
            },
            None => {},
        }
        match input.slider_moved {
            Some(v) => {
                self.set_slider(v);
            },
            None => {},
        }
        let view = self.progress_view(input.data);
        let start = input.start_clicked && view.start_enabled;
        DirFrameOutput { view, start }
    }
}

/// What the progress part shows, for every reported value, number of
/// directories and picked folder: when no run is going (the value is 0) or
/// the last run is over (the value is the number of directories), the bar
/// is hidden and " Start " is enabled exactly when a folder is picked;
/// otherwise the bar shows the value and " Start " is disabled.
pub proof fn lemma_progress_view_meaning(data: i32, total: usize, picked: bool)
    ensures
        progress_view_spec(data, total, picked).total == total,
        (data == 0 || data == total as i32) ==> {
            &&& progress_view_spec(data, total, picked).shown == 0
            &&& !progress_view_spec(data, total, picked).bar_visible
            &&& progress_view_spec(data, total, picked).start_enabled == picked
        },
        (data != 0 && data != total as i32) ==> {
            &&& progress_view_spec(data, total, picked).shown == data
            &&& progress_view_spec(data, total, picked).bar_visible
            &&& !progress_view_spec(data, total, picked).start_enabled
        },
{
}

/// A run cannot be started while a progress bar is shown.
pub proof fn lemma_start_excludes_bar(data: i32, total: usize, picked: bool)
    ensures
        progress_view_spec(data, total, picked).start_enabled ==> !progress_view_spec(
            data,
            total,
            picked,
        ).bar_visible,
{
}

} // verus!

verus! {

/// A run over `n` directories reports `1, ..., n`. While it runs (every
/// report but the last) the bar is shown and "Start" is disabled; its last
/// report hides the bar and enables "Start" again when a folder is picked.
pub proof fn lemma_run_over_dirs(n: usize, picked: bool)
    requires
        n <= i32::MAX,
    ensures
        forall|i: int|
            0 <= i < n ==> #[trigger] crate::worker::emitted(0, n as int, n as nat)[i] == Some(i + 1),
        forall|v: i32|
            1 <= v < n ==> {
                &&& (#[trigger] progress_view_spec(v, n, picked)).bar_visible
                &&& !progress_view_spec(v, n, picked).start_enabled
            },
        !progress_view_spec(n as i32, n, picked).bar_visible,
        progress_view_spec(n as i32, n, picked).start_enabled == picked,
{
    crate::worker::lemma_counter_reports_one_to_length(n as int, n as nat);
}

} // verus!
