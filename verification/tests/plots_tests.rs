use play_ui::plots::{bar_chart, box_plot_series, line_fill_points, PlotData, BIN_SIZE, NUM_BARS};
use play_ui::{plots_window, MyApp, PlotPanel};

#[test]
fn tabs_switch_and_stay() {
    let mut app = MyApp::new();
    assert!(matches!(plots_window(&mut app, None), PlotData::Lines));
    assert!(matches!(plots_window(&mut app, Some(PlotPanel::Bars)), PlotData::Bars(_)));
    assert_eq!(app.open_plot, PlotPanel::Bars);
    assert!(matches!(plots_window(&mut app, None), PlotData::Bars(_)));
    assert!(matches!(plots_window(&mut app, Some(PlotPanel::BoxPlot)), PlotData::BoxPlot(_)));
    assert!(matches!(plots_window(&mut app, Some(PlotPanel::LineFill)), PlotData::LineFill(_)));
    assert!(matches!(plots_window(&mut app, Some(PlotPanel::Lines)), PlotData::Lines));
    assert_eq!(app.slider_value, 70);
}

#[test]
fn bars_tab_draws_the_bar_chart() {
    let mut app = MyApp::new();
    app.open_plot = PlotPanel::Bars;
    match plots_window(&mut app, None) {
        PlotData::Bars(bars) => {
            assert_eq!(bars.len(), 10);
            assert!(bars[5].highlighted);
            assert_eq!(bars[5].position, 25);
        }
        _ => panic!("the Bars tab draws bars"),
    }
}

#[test]
fn line_fill_tab_draws_the_points() {
    let mut app = MyApp::new();
    match plots_window(&mut app, Some(PlotPanel::LineFill)) {
        PlotData::LineFill(points) => {
            assert_eq!(points, vec![(0, 1), (1, 2), (2, 5), (3, 4), (4, 1), (5, 2)]);
        }
        _ => panic!("the LineFill tab draws its line"),
    }
}

#[test]
fn box_tab_draws_the_series() {
    let mut app = MyApp::new();
    match plots_window(&mut app, Some(PlotPanel::BoxPlot)) {
        PlotData::BoxPlot(series) => {
            assert_eq!(series.len(), 2);
            assert_eq!(series[0].name, "Experiment A");
            assert_eq!(series[1].boxes[0].median, 10);
        }
        _ => panic!("the BoxPlot tab draws boxes"),
    }
}

#[test]
fn bars() {
    let bars = bar_chart();
    assert_eq!(bars.len(), NUM_BARS as usize);
    for (x, bar) in bars.iter().enumerate() {
        assert_eq!(bar.position, x as u32 * 5);
        assert_eq!(bar.height, x as u32);
        assert_eq!(bar.width, BIN_SIZE);
        assert_eq!(bar.highlighted, x == 5);
    }
    assert_eq!(bars[9].position, 45);
}

#[test]
fn fill_line() {
    assert_eq!(line_fill_points(), vec![(0, 1), (1, 2), (2, 5), (3, 4), (4, 1), (5, 2)]);
}

#[test]
fn boxes() {
    let series = box_plot_series();
    assert_eq!(series.len(), 2);
    assert_eq!(series[0].name, "Experiment A");
    assert_eq!(series[1].name, "Experiment B");
    let names: Vec<&str> = series[0].boxes.iter().map(|b| b.name.as_str()).collect();
    assert_eq!(names, vec!["Day 1", "Day 2", "Day 3"]);
    let b = &series[0].boxes[1];
    assert_eq!((b.argument, b.lower_whisker, b.quartile1, b.median, b.quartile3, b.upper_whisker), (25, 4, 10, 11, 14, 21));
    let c = &series[1].boxes[0];
    assert_eq!(c.name, "Day 2");
    assert_eq!((c.argument, c.lower_whisker, c.quartile1, c.median, c.quartile3, c.upper_whisker), (10, 2, 5, 10, 20, 27));
    for s in &series {
        for b in &s.boxes {
            assert!(b.lower_whisker <= b.quartile1 && b.quartile1 <= b.median);
            assert!(b.median <= b.quartile3 && b.quartile3 <= b.upper_whisker);
        }
    }
}
