//! The plot window: four tabs, and the data drawn in the three tabs whose
//! plots are made of whole numbers.

use vstd::prelude::*;
use crate::app::MyApp;
use vstd::string::*;

verus! {

/// The four tabs of the plot window.
#[derive(PartialEq, Eq, Structural, Clone, Copy, Debug)]
pub enum PlotPanel {
    Lines,
    LineFill,
    Bars,
    BoxPlot,
}

} // verus!

verus! {

/// How many bars the bar chart has.
pub const NUM_BARS: u32 = 10;

/// The width of a bar and the distance between two bars.
pub const BIN_SIZE: u32 = 5;

/// The bar drawn in the highlight colour.
pub const HIGHLIGHTED_BAR: u32 = 5;

/// One bar of the bar chart.
pub struct BarSpec {
    /// Where the bar stands on the x axis.
    pub position: u32,
    /// How high it is.
    pub height: u32,
    /// How wide it is.
    pub width: u32,
    /// Whether it is filled with the highlight colour.
    pub highlighted: bool,
}

/// The bars of the "Bars" tab: bar `x` (from 0) stands at `x * BIN_SIZE`,
/// is `x` high and `BIN_SIZE` wide; bar `HIGHLIGHTED_BAR` is highlighted.
pub fn bar_chart() -> (bars: Vec<BarSpec>)
    ensures
        is_bar_chart(bars@),
{
    let mut bars: Vec<BarSpec> = Vec::new();
    let mut x: u32 = 0;
    while x < NUM_BARS
        invariant
            x <= NUM_BARS,
            bars@.len() == x,
            forall|i: int|
                0 <= i < x ==> {
                    &&& (#[trigger] bars@[i]).position == i * BIN_SIZE
                    &&& bars@[i].height == i
                    &&& bars@[i].width == BIN_SIZE
                    &&& bars@[i].highlighted == (i == HIGHLIGHTED_BAR)
                },
        decreases NUM_BARS - x,
    {
        let bar = BarSpec {
            position: x * BIN_SIZE,
            height: x,
            width: BIN_SIZE,
            highlighted: x == HIGHLIGHTED_BAR,
        };
        bars.push(bar);
        x = x + 1;
    }
    bars
}

/// The points of the filled line of the "LineFill" tab, left to right.
pub fn line_fill_points() -> (points: Vec<(i32, i32)>)
    ensures
        is_line_fill(points@),
{
    let points: Vec<(i32, i32)> = vec![(0, 1), (1, 2), (2, 5), (3, 4), (4, 1), (5, 2)];
    points
}

/// One box of the box plot; every number is in tenths.
pub struct BoxSpec {
    pub name: String,
    /// Where the box stands on the x axis.
    pub argument: u32,
    pub lower_whisker: u32,
    pub quartile1: u32,
    pub median: u32,
    pub quartile3: u32,
    pub upper_whisker: u32,
}

/// The numbers of a box, in tenths: argument, then the five values of its
/// spread from the lower whisker up.
pub open spec fn box_numbers(b: BoxSpec) -> (int, int, int, int, int, int) {
    (
        b.argument as int,
        b.lower_whisker as int,
        b.quartile1 as int,
        b.median as int,
        b.quartile3 as int,
        b.upper_whisker as int,
    )
}

/// A box whose whiskers and quartiles come in increasing order.
pub open spec fn box_in_order(b: BoxSpec) -> bool {
    b.lower_whisker <= b.quartile1 <= b.median <= b.quartile3 <= b.upper_whisker
}

/// A named series of boxes.
pub struct BoxSeries {
    pub name: String,
    pub boxes: Vec<BoxSpec>,
}

fn make_box(name: &str, argument: u32, spread: (u32, u32, u32, u32, u32)) -> (b: BoxSpec)
    ensures
        b.name@ == name@,
        box_numbers(b) == (argument as int, spread.0 as int, spread.1 as int, spread.2 as int, spread.3 as int, spread.4 as int),
{
    BoxSpec {
        name: String::from_str(name),
        argument,
        lower_whisker: spread.0,
        quartile1: spread.1,
        median: spread.2,
        quartile3: spread.3,
        upper_whisker: spread.4,
    }
}

/// The two series of the "BoxPlot" tab, in tenths. Every box has its
/// whiskers and quartiles in increasing order.
pub fn box_plot_series() -> (series: Vec<BoxSeries>)
    ensures
        is_box_plot(series@),
{
    let mut first: Vec<BoxSpec> = Vec::new();
    first.push(make_box("Day 1", 5, (15, 22, 25, 26, 31)));
    first.push(make_box("Day 2", 25, (4, 10, 11, 14, 21)));
    first.push(make_box("Day 3", 45, (17, 20, 22, 25, 29)));
    let mut second: Vec<BoxSpec> = Vec::new();
    second.push(make_box("Day 2", 10, (2, 5, 10, 20, 27)));
    let mut series: Vec<BoxSeries> = Vec::new();
    series.push(BoxSeries { name: String::from_str("Experiment A"), boxes: first });
    series.push(BoxSeries { name: String::from_str("Experiment B"), boxes: second });
    series
}

} // verus!

verus! {

/// The bars of the "Bars" tab: bar `x` (from 0) stands at `x * BIN_SIZE`,
/// is `x` high and `BIN_SIZE` wide; bar `HIGHLIGHTED_BAR` is highlighted.
pub open spec fn is_bar_chart(bars: Seq<BarSpec>) -> bool {
    &&& bars.len() == NUM_BARS
    &&& forall|x: int|
        0 <= x < NUM_BARS ==> {
            &&& (#[trigger] bars[x]).position == x * BIN_SIZE
            &&& bars[x].height == x
            &&& bars[x].width == BIN_SIZE
            &&& bars[x].highlighted == (x == HIGHLIGHTED_BAR)
        }
}

/// The six points of the filled line of the "LineFill" tab, left to right.
pub open spec fn is_line_fill(points: Seq<(i32, i32)>) -> bool {
    points == seq![(0i32, 1i32), (1i32, 2i32), (2i32, 5i32), (3i32, 4i32), (4i32, 1i32), (5i32, 2i32)]
}

/// The two box series of the "BoxPlot" tab, in tenths, with their names;
/// every box has its whiskers and quartiles in increasing order.
pub open spec fn is_box_plot(series: Seq<BoxSeries>) -> bool {
    &&& series.len() == 2
    &&& series[0].name@ == "Experiment A"@
    &&& series[0].boxes@.len() == 3
    &&& series[0].boxes@[0].name@ == "Day 1"@
    &&& box_numbers(series[0].boxes@[0]) == (5int, 15int, 22int, 25int, 26int, 31int)
    &&& series[0].boxes@[1].name@ == "Day 2"@
    &&& box_numbers(series[0].boxes@[1]) == (25int, 4int, 10int, 11int, 14int, 21int)
    &&& series[0].boxes@[2].name@ == "Day 3"@
    &&& box_numbers(series[0].boxes@[2]) == (45int, 17int, 20int, 22int, 25int, 29int)
    &&& series[1].name@ == "Experiment B"@
    &&& series[1].boxes@.len() == 1
    &&& series[1].boxes@[0].name@ == "Day 2"@
    &&& box_numbers(series[1].boxes@[0]) == (10int, 2int, 5int, 10int, 20int, 27int)
    &&& forall|s: int, b: int|
        0 <= s < series.len() && 0 <= b < series[s].boxes@.len() ==> box_in_order(
            #[trigger] series[s].boxes@[b],
        )
}

/// What the plot window draws: the "Lines" tab is drawn from floating
/// point curves by the caller; the other tabs carry their data.
pub enum PlotData {
    Lines,
    LineFill(Vec<(i32, i32)>),
    Bars(Vec<BarSpec>),
    BoxPlot(Vec<BoxSeries>),
}

/// The tab that some plot data belongs to.
pub open spec fn panel_of(data: PlotData) -> PlotPanel {
    match data {
        PlotData::Lines => PlotPanel::Lines,
        PlotData::LineFill(_) => PlotPanel::LineFill,
        PlotData::Bars(_) => PlotPanel::Bars,
        PlotData::BoxPlot(_) => PlotPanel::BoxPlot,
    }
}

/// The data is the one its tab draws.
pub open spec fn is_tab_data(data: PlotData) -> bool {
    match data {
        PlotData::Lines => true,
        PlotData::LineFill(points) => is_line_fill(points@),
        PlotData::Bars(bars) => is_bar_chart(bars@),
        PlotData::BoxPlot(series) => is_box_plot(series@),
    }
}

/// Switches to the tab that was clicked, if any, and returns what the
/// shown tab draws.
pub fn plots_window(app: &mut MyApp, clicked: Option<PlotPanel>) -> (data: PlotData)
    ensures
        final(app).open_plot == (match clicked {
            Some(p) => p,
            None => old(app).open_plot,
        }),
        panel_of(data) == final(app).open_plot,
        is_tab_data(data),
        final(app).show_window == old(app).show_window,
        final(app).slider_value == old(app).slider_value,
        final(app).radio_value == old(app).radio_value,
        final(app).process_data == old(app).process_data,
{
    match clicked {
        Some(p) => {
            app.open_plot = p;
        },
        None => {},
    }
    match app.open_plot {
        PlotPanel::Lines => PlotData::Lines,
        PlotPanel::LineFill => PlotData::LineFill(line_fill_points()),
        PlotPanel::Bars => PlotData::Bars(bar_chart()),
        PlotPanel::BoxPlot => PlotData::BoxPlot(box_plot_series()),
    }
}

} // verus!

verus! {

/// The numbers the box plot tab draws, in tenths, are those of the demo:
/// "Experiment A" has "Day 1" at 0.5 spreading 1.5, 2.2, 2.5, 2.6, 3.1,
/// "Day 2" at 2.5 spreading 0.4, 1.0, 1.1, 1.4, 2.1 and "Day 3" at 4.5
/// spreading 1.7, 2.0, 2.2, 2.5, 2.9; "Experiment B" has "Day 2" at 1.0
/// spreading 0.2, 0.5, 1.0, 2.0, 2.7. No spread value goes above 3.1.
pub proof fn lemma_box_plot_demo_values(series: Seq<BoxSeries>)
    requires
        is_box_plot(series),
    ensures
        series.len() == 2,
        series[0].boxes@.len() == 3,
        series[1].boxes@.len() == 1,
        series[0].boxes@[0].argument == 5 && series[0].boxes@[0].lower_whisker == 15
            && series[0].boxes@[0].quartile1 == 22 && series[0].boxes@[0].median == 25
            && series[0].boxes@[0].quartile3 == 26 && series[0].boxes@[0].upper_whisker == 31,
        series[0].boxes@[1].argument == 25 && series[0].boxes@[1].lower_whisker == 4
            && series[0].boxes@[1].quartile1 == 10 && series[0].boxes@[1].median == 11
            && series[0].boxes@[1].quartile3 == 14 && series[0].boxes@[1].upper_whisker == 21,
        series[0].boxes@[2].argument == 45 && series[0].boxes@[2].lower_whisker == 17
            && series[0].boxes@[2].quartile1 == 20 && series[0].boxes@[2].median == 22
            && series[0].boxes@[2].quartile3 == 25 && series[0].boxes@[2].upper_whisker == 29,
        series[1].boxes@[0].argument == 10 && series[1].boxes@[0].lower_whisker == 2
            && series[1].boxes@[0].quartile1 == 5 && series[1].boxes@[0].median == 10
            && series[1].boxes@[0].quartile3 == 20 && series[1].boxes@[0].upper_whisker == 27,
        forall|s: int, b: int|
            0 <= s < series.len() && 0 <= b < series[s].boxes@.len() ==> (#[trigger] series[s].boxes@[b]).upper_whisker
                <= 31,
{
    assert forall|s: int, b: int|
        0 <= s < series.len() && 0 <= b < series[s].boxes@.len() implies (#[trigger] series[s].boxes@[b]).upper_whisker
        <= 31 by {
        if s == 0 {
            assert(b == 0 || b == 1 || b == 2);
        }
    }
}

/// The bar chart has ten bars; bar `k` stands at `5 * k`, is `k` high and
/// 5 wide, and only bar 5 (at 25) is highlighted.
pub proof fn lemma_bar_chart_demo_values(bars: Seq<BarSpec>)
    requires
        is_bar_chart(bars),
    ensures
        bars.len() == 10,
        forall|k: int|
            0 <= k < 10 ==> {
                &&& (#[trigger] bars[k]).position == 5 * k
                &&& bars[k].height == k
                &&& bars[k].width == 5
                &&& bars[k].highlighted <==> k == 5
            },
        bars[5].position == 25,
{
    assert(bars[5].position == 5 * 5);
}

/// The filled line goes through six points whose x are 0, 1, ..., 5 in
/// order, with y = 1, 2, 5, 4, 1, 2.
pub proof fn lemma_line_fill_demo_values(points: Seq<(i32, i32)>)
    requires
        is_line_fill(points),
    ensures
        points.len() == 6,
        forall|i: int| 0 <= i < 6 ==> (#[trigger] points[i]).0 == i,
        points[0].1 == 1 && points[1].1 == 2 && points[2].1 == 5,
        points[3].1 == 4 && points[4].1 == 1 && points[5].1 == 2,
{
}

} // verus!
