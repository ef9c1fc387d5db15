# play_ui

A small egui playground and directory walker, split in two:

- `src/` is the verified library (Verus). It holds the state of both
  windows as plain values and decides, frame by frame, what they show and
  what the program does next: the widgets window (`widgets.rs`), the plot
  tabs and the data each one draws (`plots.rs`), the scroll area and its
  row labels (`scroll.rs`, `decimal.rs`), the keyboard shortcut of the main
  window (`app.rs`), the directory walker (`iter_dir.rs`) and the counter
  that a worker thread runs to report progress (`worker.rs`).
- `app/` is the program around it: eframe/egui drawing, the file dialog,
  directory listing, threads and channels. Its `main` starts the
  playground, or the directory walker when given the argument `iter-dir`.
