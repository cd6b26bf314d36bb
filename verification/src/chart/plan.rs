//! What is drawn of a chart: its title, its axes and its series.

use vstd::prelude::*;

use crate::chart::color;
use crate::chart::color::{series_color, series_color_for, Rgb};
use crate::chart::labels;
use crate::chart::labels::{
    auto_tick_count, bar_series_name, horizontal_category_tick_count, strip_shared_tz_suffix,
};
use crate::chart::options;
use crate::chart::options::{
    chart_title, check_chart, histogram_column, require_column, BarOrientation, ChartOptions,
    ChartPresentation, ChartRequest, ExplicitRange,
};
use crate::chart::range;
use crate::chart::range::{bin_count, line_order};
use crate::chart::series;
use crate::chart::series::{
    column_there, detect_line_x_mode, group_chart_series, histogram_values, line_keys, line_x_mode, ChartColumns,
    ChartMeasureValue, ChartRow, ChartSeries, XMode,
};
use crate::chart::temporal;
use crate::chart::ChartType;
use crate::error::{ErrorCode, McpError};
use crate::text;

verus! {

/// How a series is drawn.
#[derive(Debug)]
pub struct SeriesPlan {
    /// Its place among the series.
    pub place: usize,
    /// Its name in the legend and at its points.
    pub name: String,
    /// Its color.
    pub color: Rgb,
    /// The places of its points in the order in which they are drawn.
    pub order: Vec<usize>,
}

/// Whether `p` is how the series that is drawn at `i` is drawn: a line joins its points
/// by their places on the x axis, else they are drawn as they came.
pub open spec fn is_series_plan(
    p: SeriesPlan,
    s: ChartSeries,
    i: int,
    y_col: Seq<char>,
    colors: Seq<(String, Rgb)>,
    joined: bool,
) -> bool {
    let group = s.groups@[s.order@[i] as int];
    &&& p.place == s.order@[i]
    &&& p.name@ == (if group.key@.len() == 0 {
        y_col
    } else {
        group.key@
    })
    &&& p.color == (match color::mapped(colors, group.key@) {
        Some(c) => c,
        None => color::palette(i as nat),
    })
    &&& p.order@.len() == group.points@.len()
    &&& if joined {
        exists|keys: Seq<i64>|
            keys_of(keys, group.points@) && range::is_order(
                keys,
                p.order@,
                0,
                group.points@.len() as int,
            )
    } else {
        forall|k: int| 0 <= k < p.order@.len() ==> #[trigger] p.order@[k] == k
    }
}

/// Whether `keys` tell where points stand on the x axis.
pub open spec fn keys_of(keys: Seq<i64>, points: Seq<series::ChartPoint>) -> bool {
    &&& keys.len() == points.len()
    &&& forall|k: int| 0 <= k < keys.len() ==> #[trigger] keys[k] == series::line_key(points[k].x)
}

fn as_they_came(n: usize) -> (r: Vec<usize>)
    ensures
        r@.len() == n,
        forall|k: int| 0 <= k < n ==> #[trigger] r@[k] == k,
{
    let mut out: Vec<usize> = Vec::new();
    let mut i: usize = 0;
    while i < n
        invariant
            i <= n,
            out@.len() == i,
            forall|k: int| 0 <= k < i ==> #[trigger] out@[k] == k,
        decreases n - i,
    {
        out.push(i);
        i = i + 1;
    }
    out
}

/// How the series of a chart are drawn, in order.
pub fn plan_series(s: &ChartSeries, y_col: &str, colors: &Vec<(String, Rgb)>, joined: bool) -> (r: Vec<
    SeriesPlan,
>)
    requires
        forall|i: int| 0 <= i < s.order@.len() ==> #[trigger] s.order@[i] < s.groups@.len(),
    ensures
        r@.len() == s.order@.len(),
        forall|i: int|
            0 <= i < r@.len() ==> is_series_plan(
                #[trigger] r@[i],
                *s,
                i,
                y_col@,
                colors@,
                joined,
            ),
{
    let mut out: Vec<SeriesPlan> = Vec::new();
    let mut i: usize = 0;
    while i < s.order.len()
        invariant
            i <= s.order@.len(),
            forall|k: int| 0 <= k < s.order@.len() ==> #[trigger] s.order@[k] < s.groups@.len(),
            out@.len() == i,
            forall|k: int|
                0 <= k < i ==> is_series_plan(
                    #[trigger] out@[k],
                    *s,
                    k,
                    y_col@,
                    colors@,
                    joined,
                ),
        decreases s.order@.len() - i,
    {
        let place = s.order[i];
        let group = &s.groups[place];
        let order = if joined {
            let keys = line_keys(&group.points);
            let order = line_order(&keys);
            assert(keys_of(keys@, group.points@));
            order
        } else {
            as_they_came(group.points.len())
        };
        out.push(
            SeriesPlan {
                place,
                name: bar_series_name(group.key.as_str(), y_col),
                color: series_color_for(group.key.as_str(), i, colors),
                order,
            },
        );
        i = i + 1;
    }
    out
}

/// How a chart with series is drawn.
#[derive(Debug)]
pub struct ChartPlan {
    /// The series.
    pub series: ChartSeries,
    /// How they are drawn, in order.
    pub drawn: Vec<SeriesPlan>,
    /// The title.
    pub title: String,
    /// What stands at the axis of the x values.
    pub x_col: String,
    /// What stands at the axis of the measure.
    pub y_col: String,
    /// How the x values are taken.
    pub x_mode: XMode,
    /// The labels of the categories.
    pub labels: Vec<String>,
    /// How many of them are drawn.
    pub tick_count: usize,
    /// How many pixels the labels below the chart take.
    pub x_label_area: u32,
    /// How many pixels the labels beside the chart take.
    pub y_label_area: u32,
    /// Whether there is a legend.
    pub legend: bool,
    /// Whether bars are labeled with their values.
    pub label_values: bool,
    /// Whether points are labeled with their series.
    pub label_points: bool,
}

/// The columns of a chart, where the caller names those that it needs.
pub open spec fn columns_named(opts: ChartOptions) -> Result<(Seq<char>, Seq<char>), Seq<char>> {
    match (opts.x_column, opts.y_column) {
        (None, _) => Err("x"@),
        (Some(_), None) => Err("y"@),
        (Some(x), Some(y)) => Ok((x@, y@)),
    }
}

fn columns_of(opts: &ChartOptions) -> (r: Result<ChartColumns, McpError>)
    ensures
        match columns_named(*opts) {
            Err(role) => r matches Err(e) && e.says(
                ErrorCode::SchemaMismatch,
                "The '"@ + role + "' column name is required for this chart type"@,
            ),
            Ok(p) => r matches Ok(c) && are_columns(c, *opts),
        },
{
    let x = match require_column(&opts.x_column, "x") {
        Ok(x) => x.to_owned(),
        Err(e) => {
            return Err(e);
        },
    };
    let y = match require_column(&opts.y_column, "y") {
        Ok(y) => y.to_owned(),
        Err(e) => {
            return Err(e);
        },
    };
    Ok(ChartColumns { x, y, series: opts.series_column.clone() })
}

/// Whether `c` are the columns that the caller names.
pub open spec fn are_columns(c: ChartColumns, opts: ChartOptions) -> bool {
    &&& columns_named(opts) == Ok::<(Seq<char>, Seq<char>), Seq<char>>((c.x@, c.y@))
    &&& text::opt_text(c.series) == text::opt_text(opts.series_column)
}

/// What is read from the rows by the columns `c`.
pub open spec fn read_by(
    rows: Seq<ChartRow>,
    mode: XMode,
    measures: Option<Seq<ChartMeasureValue>>,
    c: ChartColumns,
) -> Result<series::ReadState, series::Complaint> {
    series::read_rows(rows, c, mode, measures, series::times_of(rows, c.x@, mode), rows.len())
}

/// Whether `s` are the series of the rows by the columns `c` that the caller names.
pub open spec fn grouped_by(
    s: ChartSeries,
    rows: Seq<ChartRow>,
    opts: ChartOptions,
    mode: XMode,
    measures: Option<Seq<ChartMeasureValue>>,
    c: ChartColumns,
) -> bool {
    &&& are_columns(c, opts)
    &&& series::is_grouping(Ok(s), read_by(rows, mode, measures, c))
    &&& mode == XMode::Categorical ==> series::has_column(rows, c.x@)
}

/// The colors that a caller gives to series: they count only where a column tells the
/// series apart.
pub open spec fn colors_given(opts: ChartOptions) -> Seq<(String, Rgb)> {
    if opts.series_column is Some {
        opts.color_map@
    } else {
        Seq::empty()
    }
}

/// How the series are drawn, in the colors that the caller gives to them.
fn plan_in_colors(s: &ChartSeries, y_col: &str, opts: &ChartOptions, joined: bool) -> (r: Vec<
    SeriesPlan,
>)
    requires
        forall|i: int| 0 <= i < s.order@.len() ==> #[trigger] s.order@[i] < s.groups@.len(),
    ensures
        r@.len() == s.order@.len(),
        forall|i: int|
            0 <= i < r@.len() ==> is_series_plan(
                #[trigger] r@[i],
                *s,
                i,
                y_col@,
                colors_given(*opts),
                joined,
            ),
{
    match &opts.series_column {
        Some(_) => plan_series(s, y_col, &opts.color_map, joined),
        None => {
            let none: Vec<(String, Rgb)> = Vec::new();
            plan_series(s, y_col, &none, joined)
        },
    }
}

/// What rows without points amount to: an axis of categories without a category does not
/// suit the chart, and else there is nothing to draw.
pub open spec fn code_without_points(rows: nat, mode: XMode) -> ErrorCode {
    if mode == XMode::Categorical && rows > 0 {
        ErrorCode::SchemaMismatch
    } else {
        ErrorCode::EmptyData
    }
}

/// Whether `e` is why there are no series of the rows by the columns `c` that the caller
/// names.
pub open spec fn not_grouped_by(
    e: McpError,
    rows: Seq<ChartRow>,
    opts: ChartOptions,
    mode: XMode,
    measures: Option<Seq<ChartMeasureValue>>,
    c: ChartColumns,
) -> bool {
    are_columns(c, opts) && match read_by(rows, mode, measures, c) {
        Err(w) => e.says(w.0, w.1),
        Ok(state) => if state.points.len() == 0 {
            e.says(
                code_without_points(rows.len(), mode),
                "No valid data points after filtering"@,
            )
        } else {
            mode == XMode::Categorical && !series::has_column(rows, c.x@) && e.says(
                ErrorCode::SchemaMismatch,
                "Column '"@ + c.x@ + "' is missing in every row"@,
            )
        },
    }
}

/// The series of the rows by the columns that the caller names.
fn series_of(
    rows: &Vec<ChartRow>,
    opts: &ChartOptions,
    mode: XMode,
    measures: Option<&Vec<ChartMeasureValue>>,
    columns: &ChartColumns,
) -> (r: Result<ChartSeries, McpError>)
    requires
        are_columns(*columns, *opts),
    ensures
        match r {
            Ok(s) => {
                &&& grouped_by(s, rows@, *opts, mode, series::measures_view(measures), *columns)
                &&& series::point_count(s.groups@, s.groups@.len()) <= rows@.len()
            },
            Err(e) => not_grouped_by(
                e,
                rows@,
                *opts,
                mode,
                series::measures_view(measures),
                *columns,
            ),
        },
{
    let by_category = match mode {
        XMode::Categorical => true,
        _ => false,
    };
    match group_chart_series(rows, columns, mode, measures) {
        Ok(s) => {
            if by_category && !column_there(rows, columns.x.as_str()) {
                let message = text::cat3(
                    "Column '",
                    columns.x.as_str(),
                    "' is missing in every row",
                );
                Err(McpError::new(ErrorCode::SchemaMismatch, message.as_str()))
            } else {
                Ok(s)
            }
        },
        Err(e) => {
            proof {
                series::lemma_complaints_are_of_rows(
                    rows@,
                    *columns,
                    mode,
                    series::measures_view(measures),
                    series::times_of(rows@, columns.x@, mode),
                    rows@.len(),
                );
            }
            if by_category && rows.len() > 0 && e.code == ErrorCode::EmptyData {
                Err(
                    McpError::new(
                        ErrorCode::SchemaMismatch,
                        "No valid data points after filtering",
                    ),
                )
            } else {
                Err(e)
            }
        },
    }
}

/// Whether `p` draws the series of what was read from the rows.
pub open spec fn draws(
    p: ChartPlan,
    rows: Seq<ChartRow>,
    opts: ChartOptions,
    measures: Option<Seq<ChartMeasureValue>>,
    joined: bool,
) -> bool {
    &&& columns_named(opts) == Ok::<(Seq<char>, Seq<char>), Seq<char>>((p.x_col@, p.y_col@))
    &&& exists|c: ChartColumns| grouped_by(p.series, rows, opts, p.x_mode, measures, c)
    &&& series::point_count(p.series.groups@, p.series.groups@.len()) <= rows.len()
    &&& p.drawn@.len() == p.series.groups@.len()
    &&& forall|i: int|
        0 <= i < p.drawn@.len() ==> is_series_plan(
            #[trigger] p.drawn@[i],
            p.series,
            i,
            p.y_col@,
            colors_given(opts),
            joined,
        )
    &&& text::texts(p.labels@) == labels::stripped_labels(text::texts(p.series.categories@))
}

/// Whether `e` is why the series of a chart cannot be drawn.
pub open spec fn complains(
    e: McpError,
    rows: Seq<ChartRow>,
    opts: ChartOptions,
    mode: XMode,
    measures: Option<Seq<ChartMeasureValue>>,
) -> bool {
    match columns_named(opts) {
        Err(role) => e.says(
            ErrorCode::SchemaMismatch,
            "The '"@ + role + "' column name is required for this chart type"@,
        ),
        Ok(_) => exists|c: ChartColumns| not_grouped_by(e, rows, opts, mode, measures, c),
    }
}

/// Whether `r` is how a bar chart is drawn.
pub open spec fn is_bar_plan(
    r: Result<ChartPlan, McpError>,
    rows: Seq<ChartRow>,
    opts: ChartOptions,
    presentation: ChartPresentation,
    measures: Option<Seq<ChartMeasureValue>>,
) -> bool {
    match r {
        Err(e) => complains(e, rows, opts, XMode::Categorical, measures),
        Ok(p) => {
            &&& draws(p, rows, opts, measures, false)
            &&& p.x_mode == XMode::Categorical
            &&& p.title@ == (match opts.title {
                Some(t) => t@,
                None => p.y_col@ + " by "@ + p.x_col@,
            })
            &&& p.legend == presentation.show_legend
            &&& p.label_values == presentation.label_values
            &&& !p.label_points
            &&& match presentation.bar_orientation {
                BarOrientation::Vertical => p.tick_count == labels::tick_count(
                    text::texts(p.labels@),
                    opts.width as nat,
                ) && p.x_label_area == 60 && p.y_label_area == 70,
                BarOrientation::Horizontal => p.tick_count == labels::horizontal_ticks(
                    p.labels@.len(),
                    opts.height as nat,
                ) && p.x_label_area == 70 && p.y_label_area == 160,
            }
        },
    }
}

/// How a bar chart is drawn: over categories, whatever their values are.
pub fn draw_bar(
    rows: &Vec<ChartRow>,
    opts: &ChartOptions,
    presentation: ChartPresentation,
    measures: Option<&Vec<ChartMeasureValue>>,
) -> (r: Result<ChartPlan, McpError>)
    ensures
        is_bar_plan(r, rows@, *opts, presentation, series::measures_view(measures)),
{
    let columns = match columns_of(opts) {
        Ok(c) => c,
        Err(e) => {
            return Err(e);
        },
    };
    let series = match series_of(rows, opts, XMode::Categorical, measures, &columns) {
        Ok(s) => s,
        Err(e) => {
            assert(not_grouped_by(
                e,
                rows@,
                *opts,
                XMode::Categorical,
                series::measures_view(measures),
                columns,
            ));
            return Err(e);
        },
    };
    let drawn = plan_in_colors(&series, columns.y.as_str(), opts, false);
    let names = strip_shared_tz_suffix(&series.categories);
    let title = chart_title(&opts.title, ChartType::Bar, columns.x.as_str(), columns.y.as_str());
    let upright = match presentation.bar_orientation {
        BarOrientation::Vertical => true,
        BarOrientation::Horizontal => false,
    };
    let tick_count: usize = if upright {
        auto_tick_count(&names, opts.width)
    } else {
        horizontal_category_tick_count(names.len(), opts.height)
    };
    let x_label_area: u32 = if upright {
        60
    } else {
        70
    };
    let y_label_area: u32 = if upright {
        70
    } else {
        160
    };
    let x_col = columns.x.clone();
    let y_col = columns.y.clone();
    let plan = ChartPlan {
        series,
        drawn,
        title,
        x_col,
        y_col,
        x_mode: XMode::Categorical,
        labels: names,
        tick_count,
        x_label_area,
        y_label_area,
        legend: presentation.show_legend,
        label_values: presentation.label_values,
        label_points: false,
    };
    assert(grouped_by(
        plan.series,
        rows@,
        *opts,
        plan.x_mode,
        series::measures_view(measures),
        columns,
    ));
    Ok(plan)
}

/// How the x values of a line or of points are taken.
pub open spec fn x_mode_asked(rows: Seq<ChartRow>, opts: ChartOptions, x_col: Seq<char>) -> XMode {
    match opts.x_as_category {
        Some(true) => XMode::Categorical,
        Some(false) => XMode::Numeric,
        None => series::detected_mode(
            series::first_cell(rows, x_col),
            match series::first_cell(rows, x_col) {
                Some(series::ChartCell::Text(s)) => temporal::temporal(s@),
                _ => None,
            },
        ),
    }
}

/// Whether `r` is how a line, or points that are not joined, are drawn.
pub open spec fn is_line_plan(
    r: Result<ChartPlan, McpError>,
    rows: Seq<ChartRow>,
    opts: ChartOptions,
    connect_points: bool,
    presentation: ChartPresentation,
    measures: Option<Seq<ChartMeasureValue>>,
) -> bool {
    match r {
        Err(e) => complains(
            e,
            rows,
            opts,
            match columns_named(opts) {
                Ok(p) => x_mode_asked(rows, opts, p.0),
                Err(_) => XMode::Categorical,
            },
            measures,
        ),
        Ok(p) => {
            &&& draws(p, rows, opts, measures, connect_points)
            &&& p.x_mode == x_mode_asked(rows, opts, p.x_col@)
            &&& p.title@ == (match opts.title {
                Some(t) => t@,
                None => if connect_points {
                    "Line chart"@
                } else {
                    "Scatter plot"@
                },
            })
            &&& p.legend == (presentation.show_legend && !opts.label_points)
            &&& p.label_points == opts.label_points
            &&& !p.label_values
            &&& p.tick_count == labels::tick_count(text::texts(p.labels@), opts.width as nat)
            &&& p.x_label_area == (if p.x_mode == XMode::Numeric {
                50u32
            } else {
                60u32
            })
            &&& p.y_label_area == 70
        },
    }
}

/// How a line, or points that are not joined, are drawn. Labels at the points take the
/// place of the legend.
pub fn line_or_scatter(
    rows: &Vec<ChartRow>,
    opts: &ChartOptions,
    connect_points: bool,
    presentation: ChartPresentation,
    measures: Option<&Vec<ChartMeasureValue>>,
) -> (r: Result<ChartPlan, McpError>)
    ensures
        is_line_plan(
            r,
            rows@,
            *opts,
            connect_points,
            presentation,
            series::measures_view(measures),
        ),
{
    let columns = match columns_of(opts) {
        Ok(c) => c,
        Err(e) => {
            return Err(e);
        },
    };
    let x_mode = match opts.x_as_category {
        Some(_) => line_x_mode(opts.x_as_category, XMode::Categorical),
        None => detect_line_x_mode(rows, columns.x.as_str()),
    };
    let series = match series_of(rows, opts, x_mode, measures, &columns) {
        Ok(s) => s,
        Err(e) => {
            assert(not_grouped_by(
                e,
                rows@,
                *opts,
                x_mode,
                series::measures_view(measures),
                columns,
            ));
            return Err(e);
        },
    };
    let drawn = plan_in_colors(&series, columns.y.as_str(), opts, connect_points);
    let names = strip_shared_tz_suffix(&series.categories);
    let kind = if connect_points {
        ChartType::Line
    } else {
        ChartType::Scatter
    };
    let title = chart_title(&opts.title, kind, columns.x.as_str(), columns.y.as_str());
    let tick_count = auto_tick_count(&names, opts.width);
    let x_label_area: u32 = match x_mode {
        XMode::Numeric => 50,
        XMode::Categorical => 60,
        XMode::Temporal(_) => 60,
    };
    let x_col = columns.x.clone();
    let y_col = columns.y.clone();
    let plan = ChartPlan {
        series,
        drawn,
        title,
        x_col,
        y_col,
        x_mode,
        labels: names,
        tick_count,
        x_label_area,
        y_label_area: 70,
        legend: presentation.show_legend && !opts.label_points,
        label_values: false,
        label_points: opts.label_points,
    };
    assert(grouped_by(
        plan.series,
        rows@,
        *opts,
        plan.x_mode,
        series::measures_view(measures),
        columns,
    ));
    Ok(plan)
}

/// How a histogram is drawn.
#[derive(Debug)]
pub struct HistogramPlan {
    /// The column.
    pub column: String,
    /// The bits of its values.
    pub values: Vec<u64>,
    /// How many bins there are.
    pub bins: usize,
    /// The title.
    pub title: String,
    /// The color.
    pub color: Rgb,
}

/// Whether `r` is how a histogram is drawn.
pub open spec fn is_histogram_plan(
    r: Result<HistogramPlan, McpError>,
    rows: Seq<ChartRow>,
    opts: ChartOptions,
    measures: Option<Seq<ChartMeasureValue>>,
) -> bool {
    let column = match (opts.x_column, opts.y_column) {
        (Some(x), _) => Some(x@),
        (None, Some(y)) => Some(y@),
        (None, None) => None,
    };
    match column {
        None => r matches Err(e) && e.says(
            ErrorCode::SchemaMismatch,
            "Histogram requires an 'x' or 'y' column name"@,
        ),
        Some(c) => match series::histogram_rows(rows, c, measures, rows.len()) {
            Err(w) => r matches Err(e) && e.says(w.0, w.1),
            Ok(values) => if values.len() == 0 {
                r matches Err(e) && e.says(
                    ErrorCode::SchemaMismatch,
                    "Column '"@ + c + "' has no numeric values to histogram"@,
                )
            } else {
                &&& r matches Ok(p)
                &&& p.column@ == c
                &&& p.values@ == values
                &&& p.bins == (if opts.bins == 0 {
                    1
                } else {
                    opts.bins as usize
                })
                &&& p.title@ == (match opts.title {
                    Some(t) => t@,
                    None => "Distribution of "@ + c,
                })
                &&& p.color == color::palette(0)
            },
        },
    }
}

/// How a histogram is drawn: of the column of the x values, else of that of the y
/// values.
pub fn draw_histogram(
    rows: &Vec<ChartRow>,
    opts: &ChartOptions,
    measures: Option<&Vec<ChartMeasureValue>>,
) -> (r: Result<HistogramPlan, McpError>)
    ensures
        is_histogram_plan(r, rows@, *opts, series::measures_view(measures)),
{
    let column = match histogram_column(&opts.x_column, &opts.y_column) {
        Ok(c) => c,
        Err(e) => {
            return Err(e);
        },
    };
    let values = match histogram_values(rows, column, measures) {
        Ok(v) => v,
        Err(e) => {
            return Err(e);
        },
    };
    Ok(
        HistogramPlan {
            column: column.to_owned(),
            values,
            bins: bin_count(opts.bins),
            title: chart_title(&opts.title, ChartType::Histogram, column, ""),
            color: series_color(0),
        },
    )
}

/// How a chart is drawn.
#[derive(Debug)]
pub enum Drawing {
    /// With series.
    Series(ChartPlan),
    /// As a histogram.
    Histogram(HistogramPlan),
}

/// Whether the lengths of the ranges that a caller gives are finite.
#[derive(Debug, Clone, Copy, PartialEq, Eq, Structural)]
pub struct RangeSpans {
    /// That of the x axis.
    pub x_finite: bool,
    /// That of the measure's axis.
    pub y_finite: bool,
}

/// A range that a caller gives, with whether its length is finite.
pub open spec fn with_span(range: Option<(u64, u64)>, span_finite: bool) -> Option<ExplicitRange> {
    match range {
        Some((lo, hi)) => Some(ExplicitRange { lo, hi, span_finite }),
        None => None,
    }
}

fn spanned(range: Option<(u64, u64)>, span_finite: bool) -> (r: Option<ExplicitRange>)
    ensures
        r == with_span(range, span_finite),
{
    match range {
        Some((lo, hi)) => Some(ExplicitRange { lo, hi, span_finite }),
        None => None,
    }
}

/// Whether `q` is what is asked, before the rows are read.
pub open spec fn is_request(
    q: ChartRequest,
    rows: Seq<ChartRow>,
    opts: ChartOptions,
    presentation: ChartPresentation,
    measures: Option<Seq<ChartMeasureValue>>,
    spans: RangeSpans,
) -> bool {
    &&& q.rows == rows.len()
    &&& q.measures is Some <==> measures is Some
    &&& q.measures is Some ==> q.measures->0 == measures->0.len()
    &&& q.x_range == with_span(opts.x_range, spans.x_finite)
    &&& q.y_range == with_span(opts.y_range, spans.y_finite)
    &&& q.chart_type == opts.chart_type
    &&& q.presentation == presentation
}

/// Whether `r` is how a chart is drawn, where nothing speaks against it but its rows.
pub open spec fn is_plan(
    r: Result<Drawing, McpError>,
    rows: Seq<ChartRow>,
    opts: ChartOptions,
    presentation: ChartPresentation,
    measures: Option<Seq<ChartMeasureValue>>,
) -> bool {
    match (opts.chart_type, r) {
        (ChartType::Histogram, Ok(Drawing::Histogram(p))) => is_histogram_plan(
            Ok(p),
            rows,
            opts,
            measures,
        ),
        (ChartType::Histogram, Err(e)) => is_histogram_plan(Err(e), rows, opts, measures),
        (ChartType::Bar, Ok(Drawing::Series(p))) => is_bar_plan(
            Ok(p),
            rows,
            opts,
            presentation,
            measures,
        ),
        (ChartType::Bar, Err(e)) => is_bar_plan(Err(e), rows, opts, presentation, measures),
        (ChartType::Line, Ok(Drawing::Series(p))) => is_line_plan(
            Ok(p),
            rows,
            opts,
            true,
            presentation,
            measures,
        ),
        (ChartType::Line, Err(e)) => is_line_plan(Err(e), rows, opts, true, presentation, measures),
        (ChartType::Scatter, Ok(Drawing::Series(p))) => is_line_plan(
            Ok(p),
            rows,
            opts,
            false,
            presentation,
            measures,
        ),
        (ChartType::Scatter, Err(e)) => is_line_plan(
            Err(e),
            rows,
            opts,
            false,
            presentation,
            measures,
        ),
        _ => false,
    }
}

/// Whether `r` is how a chart is drawn: what is asked is looked at first, then the rows.
pub open spec fn is_drawing(
    r: Result<Drawing, McpError>,
    rows: Seq<ChartRow>,
    opts: ChartOptions,
    presentation: ChartPresentation,
    measures: Option<Seq<ChartMeasureValue>>,
    spans: RangeSpans,
) -> bool {
    exists|q: ChartRequest|
        #![trigger is_request(q, rows, opts, presentation, measures, spans)]
        is_request(q, rows, opts, presentation, measures, spans) && if options::is_verdict(
            Ok(()),
            q,
        ) {
            is_plan(r, rows, opts, presentation, measures)
        } else {
            r matches Err(e) && options::is_verdict(Err(e), q)
        }
}

/// How a chart is drawn in a look of the caller's; `measures` are the typed measures of
/// the rows, where they are known.
pub fn render_chart_with_presentation(
    rows: &Vec<ChartRow>,
    opts: &ChartOptions,
    presentation: ChartPresentation,
    measures: Option<&Vec<ChartMeasureValue>>,
    spans: RangeSpans,
) -> (r: Result<Drawing, McpError>)
    ensures
        is_drawing(
            r,
            rows@,
            *opts,
            presentation,
            series::measures_view(measures),
            spans,
        ),
{
    let q = ChartRequest {
        rows: rows.len(),
        measures: match measures {
            Some(m) => Some(m.len()),
            None => None,
        },
        x_range: spanned(opts.x_range, spans.x_finite),
        y_range: spanned(opts.y_range, spans.y_finite),
        chart_type: opts.chart_type,
        presentation,
    };
    assert(is_request(
        q,
        rows@,
        *opts,
        presentation,
        series::measures_view(measures),
        spans,
    ));
    if let Err(e) = check_chart(q) {
        return Err(e);
    }
    match opts.chart_type {
        ChartType::Bar => match draw_bar(rows, opts, presentation, measures) {
            Ok(p) => Ok(Drawing::Series(p)),
            Err(e) => Err(e),
        },
        ChartType::Line => match line_or_scatter(rows, opts, true, presentation, measures) {
            Ok(p) => Ok(Drawing::Series(p)),
            Err(e) => Err(e),
        },
        ChartType::Scatter => match line_or_scatter(rows, opts, false, presentation, measures) {
            Ok(p) => Ok(Drawing::Series(p)),
            Err(e) => Err(e),
        },
        ChartType::Histogram => match draw_histogram(rows, opts, measures) {
            Ok(p) => Ok(Drawing::Histogram(p)),
            Err(e) => Err(e),
        },
    }
}

/// How a chart is drawn in its plain look.
pub fn render_chart(rows: &Vec<ChartRow>, opts: &ChartOptions, spans: RangeSpans) -> (r: Result<
    Drawing,
    McpError,
>)
    ensures
        is_drawing(r, rows@, *opts, options::plain_presentation(), None, spans),
{
    render_chart_with_presentation(rows, opts, ChartPresentation::default(), None, spans)
}

/// A bar chart is empty only where there are no rows: rows of which none is an object give
/// no category, and that is told as a mismatch of the columns.
pub proof fn law_bars_without_categories_mismatch(
    r: Result<Drawing, McpError>,
    rows: Seq<ChartRow>,
    opts: ChartOptions,
    presentation: ChartPresentation,
    measures: Option<Seq<ChartMeasureValue>>,
    spans: RangeSpans,
)
    requires
        is_drawing(r, rows, opts, presentation, measures, spans),
        opts.chart_type == ChartType::Bar,
    ensures
        (r matches Err(e) && e.code == ErrorCode::EmptyData) <==> rows.len() == 0,
        rows.len() > 0 && (forall|i: int| 0 <= i < rows.len() ==> #[trigger] rows[i]
            == ChartRow::Other) ==> r is Err,
        is_plan(r, rows, opts, presentation, measures) && rows.len() > 0 && (forall|i: int|
            0 <= i < rows.len() ==> #[trigger] rows[i] == ChartRow::Other) ==> (r matches Err(e)
            && e.code == ErrorCode::SchemaMismatch),
{
    if let Err(e) = r {
        if is_plan(r, rows, opts, presentation, measures) && columns_named(opts) is Ok {
            let c = choose|c: ChartColumns|
                not_grouped_by(e, rows, opts, XMode::Categorical, measures, c);
            lemma_reading(rows, XMode::Categorical, measures, c);
        }
    }
    if let Ok(Drawing::Series(p)) = r {
        let c = choose|c: ChartColumns|
            grouped_by(p.series, rows, opts, p.x_mode, measures, c);
        lemma_reading(rows, p.x_mode, measures, c);
    }
}

proof fn lemma_reading(
    rows: Seq<ChartRow>,
    mode: XMode,
    measures: Option<Seq<ChartMeasureValue>>,
    c: ChartColumns,
)
    ensures
        read_by(rows, mode, measures, c) matches Err(w) ==> w.0 != ErrorCode::EmptyData,
        (forall|i: int| 0 <= i < rows.len() ==> #[trigger] rows[i] == ChartRow::Other)
            ==> read_by(rows, mode, measures, c) is Ok && read_by(
            rows,
            mode,
            measures,
            c,
        )->Ok_0.points.len() == 0,
        rows.len() == 0 ==> read_by(rows, mode, measures, c) is Ok,
{
    let times = series::times_of(rows, c.x@, mode);
    series::lemma_complaints_are_of_rows(rows, c, mode, measures, times, rows.len());
    if forall|i: int| 0 <= i < rows.len() ==> #[trigger] rows[i] == ChartRow::Other {
        series::law_rows_without_cells_are_passed_over(
            rows,
            c,
            mode,
            measures,
            times,
            rows.len(),
        );
    }
}

/// How a series is drawn: under its own key, or under the name of the measure where it has
/// none; in the color that was given for its key, or in that of its place; its points joined
/// in the order of their places, or else as they came.
pub proof fn law_plan_of_a_series(
    p: SeriesPlan,
    s: ChartSeries,
    i: int,
    y_col: Seq<char>,
    colors: Seq<(String, Rgb)>,
    joined: bool,
    k: int,
)
    requires
        is_series_plan(p, s, i, y_col, colors, joined),
    ensures
        ({
            let group = s.groups@[s.order@[i] as int];
            &&& p.place == s.order@[i]
            &&& group.key@.len() == 0 ==> p.name@ == y_col
            &&& group.key@.len() > 0 ==> p.name@ == group.key@
            &&& color::mapped(colors, group.key@) matches Some(c) ==> p.color == c
            &&& color::mapped(colors, group.key@) is None ==> p.color == color::palette(i as nat)
            &&& p.order@.len() == group.points@.len()
            &&& !joined && 0 <= k < p.order@.len() ==> p.order@[k] == k
            &&& joined && 0 <= k < p.order@.len() - 1 ==> p.order@[k] < group.points@.len()
                && p.order@[k + 1] < group.points@.len() && series::line_key(
                group.points@[p.order@[k] as int].x,
            ) <= series::line_key(group.points@[p.order@[k + 1] as int].x)
        }),
{
    let group = s.groups@[s.order@[i] as int];
    if joined && 0 <= k < p.order@.len() - 1 {
        let keys = choose|keys: Seq<i64>|
            keys_of(keys, group.points@) && range::is_order(
                keys,
                p.order@,
                0,
                group.points@.len() as int,
            );
        let a = p.order@[k];
        let b = p.order@[k + 1];
        assert(range::comes_before(keys, a, b));
        assert(keys[a as int] == series::line_key(group.points@[a as int].x));
        assert(keys[b as int] == series::line_key(group.points@[b as int].x));
    }
}

/// A chart of series needs both of its columns; the first that is missing is asked for.
pub proof fn law_columns_that_are_needed(opts: ChartOptions, c: ChartColumns)
    ensures
        opts.x_column is None ==> columns_named(opts) == Err::<(Seq<char>, Seq<char>), Seq<char>>(
            "x"@,
        ),
        opts.x_column is Some && opts.y_column is None ==> columns_named(opts) == Err::<
            (Seq<char>, Seq<char>),
            Seq<char>,
        >("y"@),
        opts.x_column is Some && opts.y_column is Some ==> columns_named(opts) == Ok::<
            (Seq<char>, Seq<char>),
            Seq<char>,
        >((opts.x_column->0@, opts.y_column->0@)),
        are_columns(c, opts) ==> opts.x_column is Some && c.x@ == opts.x_column->0@
            && opts.y_column is Some && c.y@ == opts.y_column->0@ && text::opt_text(c.series)
            == text::opt_text(opts.series_column),
        opts.series_column is Some ==> colors_given(opts) == opts.color_map@,
        opts.series_column is None ==> colors_given(opts).len() == 0,
{
}

/// How the places are read: as categories or as numbers where that is asked for, and else as
/// the first of them asks for.
pub proof fn law_places_as_asked(rows: Seq<ChartRow>, opts: ChartOptions, x_col: Seq<char>)
    ensures
        opts.x_as_category == Some(true) ==> x_mode_asked(rows, opts, x_col) == XMode::Categorical,
        opts.x_as_category == Some(false) ==> x_mode_asked(rows, opts, x_col) == XMode::Numeric,
        opts.x_as_category is None ==> {
            let first = series::first_cell(rows, x_col);
            &&& first is None ==> x_mode_asked(rows, opts, x_col) == XMode::Categorical
            &&& first matches Some(series::ChartCell::Number { .. }) ==> x_mode_asked(
                rows,
                opts,
                x_col,
            ) == XMode::Numeric
            &&& first matches Some(series::ChartCell::Text(s)) ==> match temporal::temporal(s@) {
                Some(read) => x_mode_asked(rows, opts, x_col) == XMode::Temporal(read.0),
                None => x_mode_asked(rows, opts, x_col) == XMode::Categorical,
            }
        },
{
}

/// What is drawn is what the rows hold: the columns that were asked for, one plan for each
/// series, and the labels of the categories without an offset that all of them share.
pub proof fn law_drawn_from_the_rows(
    p: ChartPlan,
    rows: Seq<ChartRow>,
    opts: ChartOptions,
    measures: Option<Seq<ChartMeasureValue>>,
    joined: bool,
    i: int,
)
    requires
        draws(p, rows, opts, measures, joined),
    ensures
        opts.x_column matches Some(x) && p.x_col@ == x@,
        opts.y_column matches Some(y) && p.y_col@ == y@,
        exists|c: ChartColumns|
            c.x@ == p.x_col@ && c.y@ == p.y_col@ && text::opt_text(c.series) == text::opt_text(
                opts.series_column,
            ) && #[trigger] series::is_grouping(
                Ok(p.series),
                series::read_rows(
                    rows,
                    c,
                    p.x_mode,
                    measures,
                    series::times_of(rows, c.x@, p.x_mode),
                    rows.len(),
                ),
            ),
        p.drawn@.len() == p.series.groups@.len(),
        0 <= i < p.drawn@.len() ==> is_series_plan(
            p.drawn@[i],
            p.series,
            i,
            p.y_col@,
            if opts.series_column is Some {
                opts.color_map@
            } else {
                Seq::empty()
            },
            joined,
        ),
        text::texts(p.labels@) == labels::stripped_labels(text::texts(p.series.categories@)),
{
    let c = choose|c: ChartColumns| grouped_by(p.series, rows, opts, p.x_mode, measures, c);
    assert(c.x@ == p.x_col@ && c.y@ == p.y_col@);
    assert(series::is_grouping(Ok(p.series), read_by(rows, p.x_mode, measures, c)));
}

/// The looks of a bar chart: its places are categories, its title is the one given or names
/// both columns, and it has a legend and labeled values as asked. The room for labels and
/// their number go by whether the bars stand or lie.
pub proof fn law_looks_of_bars(
    p: ChartPlan,
    rows: Seq<ChartRow>,
    opts: ChartOptions,
    presentation: ChartPresentation,
    measures: Option<Seq<ChartMeasureValue>>,
)
    requires
        is_bar_plan(Ok(p), rows, opts, presentation, measures),
    ensures
        draws(p, rows, opts, measures, false),
        p.x_mode == XMode::Categorical,
        opts.title matches Some(t) ==> p.title@ == t@,
        opts.title is None ==> p.title@ == p.y_col@ + " by "@ + p.x_col@,
        p.legend == presentation.show_legend,
        p.label_values == presentation.label_values,
        !p.label_points,
        presentation.bar_orientation is Vertical ==> p.x_label_area == 60 && p.y_label_area == 70
            && p.tick_count == labels::tick_count(text::texts(p.labels@), opts.width as nat),
        presentation.bar_orientation is Horizontal ==> p.x_label_area == 70 && p.y_label_area
            == 160 && p.tick_count == labels::horizontal_ticks(
            p.labels@.len(),
            opts.height as nat,
        ),
{
}

/// The looks of a line chart and of a scatter plot: points are joined in the one and stand as
/// they came in the other, labeled points take the place of the legend, and values are never
/// labeled.
pub proof fn law_looks_of_lines(
    p: ChartPlan,
    rows: Seq<ChartRow>,
    opts: ChartOptions,
    connect_points: bool,
    presentation: ChartPresentation,
    measures: Option<Seq<ChartMeasureValue>>,
)
    requires
        is_line_plan(Ok(p), rows, opts, connect_points, presentation, measures),
    ensures
        draws(p, rows, opts, measures, connect_points),
        p.x_mode == x_mode_asked(rows, opts, p.x_col@),
        opts.title matches Some(t) ==> p.title@ == t@,
        opts.title is None && connect_points ==> p.title@ == "Line chart"@,
        opts.title is None && !connect_points ==> p.title@ == "Scatter plot"@,
        p.legend <==> presentation.show_legend && !opts.label_points,
        p.label_points == opts.label_points,
        !p.label_values,
        p.x_mode is Numeric ==> p.x_label_area == 50,
        !(p.x_mode is Numeric) ==> p.x_label_area == 60,
        p.y_label_area == 70,
        p.tick_count == labels::tick_count(text::texts(p.labels@), opts.width as nat),
{
}

/// What is told where nothing can be drawn: the column that was not named, what is wrong with
/// the rows, that no point is left, or that no row has the column of the categories.
pub proof fn law_why_nothing_is_drawn(
    e: McpError,
    rows: Seq<ChartRow>,
    opts: ChartOptions,
    mode: XMode,
    measures: Option<Seq<ChartMeasureValue>>,
)
    requires
        complains(e, rows, opts, mode, measures),
    ensures
        opts.x_column is None ==> e.code == ErrorCode::SchemaMismatch && e.message@ == "The '"@
            + "x"@ + "' column name is required for this chart type"@,
        opts.x_column is Some && opts.y_column is None ==> e.code == ErrorCode::SchemaMismatch
            && e.message@ == "The '"@ + "y"@
            + "' column name is required for this chart type"@,
        opts.x_column is Some && opts.y_column is Some ==> exists|c: ChartColumns|
            {
                &&& c.x@ == opts.x_column->0@
                &&& c.y@ == opts.y_column->0@
                &&& #[trigger] read_by(rows, mode, measures, c) matches Err(w) ==> e.code == w.0
                    && e.message@ == w.1
                &&& read_by(rows, mode, measures, c) matches Ok(state) ==> {
                    &&& state.points.len() == 0 ==> e.message@
                        == "No valid data points after filtering"@ && e.code == (if mode
                        is Categorical && rows.len() > 0 {
                        ErrorCode::SchemaMismatch
                    } else {
                        ErrorCode::EmptyData
                    })
                    &&& state.points.len() > 0 ==> mode is Categorical && !series::has_column(
                        rows,
                        c.x@,
                    ) && e.code == ErrorCode::SchemaMismatch && e.message@ == "Column '"@ + c.x@
                        + "' is missing in every row"@
                }
            },
{
    if opts.x_column is Some && opts.y_column is Some {
        let c = choose|c: ChartColumns| not_grouped_by(e, rows, opts, mode, measures, c);
        assert(not_grouped_by(e, rows, opts, mode, measures, c));
        assert(c.x@ == opts.x_column->0@ && c.y@ == opts.y_column->0@);
        match read_by(rows, mode, measures, c) {
            Err(w) => {},
            Ok(state) => {},
        }
    }
}

/// A histogram counts the values of the column of the places, or of that of the measure where
/// there is none, in at least one bin.
pub proof fn law_histogram_as_asked(
    p: HistogramPlan,
    rows: Seq<ChartRow>,
    opts: ChartOptions,
    measures: Option<Seq<ChartMeasureValue>>,
)
    requires
        is_histogram_plan(Ok(p), rows, opts, measures),
    ensures
        opts.x_column matches Some(x) ==> p.column@ == x@,
        opts.x_column is None ==> (opts.y_column matches Some(y) && p.column@ == y@),
        series::histogram_rows(rows, p.column@, measures, rows.len()) == Ok::<
            Seq<u64>,
            series::Complaint,
        >(p.values@),
        p.values@.len() > 0,
        opts.bins == 0 ==> p.bins == 1,
        opts.bins > 0 ==> p.bins == opts.bins,
        opts.title matches Some(t) ==> p.title@ == t@,
        opts.title is None ==> p.title@ == "Distribution of "@ + p.column@,
        p.color == color::palette(0),
{
}

/// What is told where no histogram can be drawn.
pub proof fn law_why_no_histogram_is_drawn(
    e: McpError,
    rows: Seq<ChartRow>,
    opts: ChartOptions,
    measures: Option<Seq<ChartMeasureValue>>,
)
    requires
        is_histogram_plan(Err(e), rows, opts, measures),
    ensures
        opts.x_column is None && opts.y_column is None ==> e.code == ErrorCode::SchemaMismatch
            && e.message@ == "Histogram requires an 'x' or 'y' column name"@,
        opts.x_column is Some || opts.y_column is Some ==> {
            let column = if opts.x_column is Some {
                opts.x_column->0@
            } else {
                opts.y_column->0@
            };
            let read = series::histogram_rows(rows, column, measures, rows.len());
            &&& read matches Err(w) ==> e.code == w.0 && e.message@ == w.1
            &&& read matches Ok(values) ==> values.len() == 0 && e.code == ErrorCode::SchemaMismatch
                && e.message@ == "Column '"@ + column + "' has no numeric values to histogram"@
        },
{
}

/// Each type of chart is drawn as what it is: a histogram as a histogram, bars as bars, lines
/// with their points joined and scatter plots without. Where it is not drawn, its own type
/// tells why.
pub proof fn law_drawings_by_type(
    r: Result<Drawing, McpError>,
    rows: Seq<ChartRow>,
    opts: ChartOptions,
    presentation: ChartPresentation,
    measures: Option<Seq<ChartMeasureValue>>,
)
    requires
        is_plan(r, rows, opts, presentation, measures),
    ensures
        r matches Ok(Drawing::Histogram(p)) ==> opts.chart_type is Histogram && is_histogram_plan(
            Ok(p),
            rows,
            opts,
            measures,
        ),
        r matches Ok(Drawing::Series(p)) ==> {
            &&& !(opts.chart_type is Histogram)
            &&& opts.chart_type is Bar ==> is_bar_plan(Ok(p), rows, opts, presentation, measures)
            &&& opts.chart_type is Line ==> is_line_plan(
                Ok(p),
                rows,
                opts,
                true,
                presentation,
                measures,
            )
            &&& opts.chart_type is Scatter ==> is_line_plan(
                Ok(p),
                rows,
                opts,
                false,
                presentation,
                measures,
            )
        },
        r matches Err(e) ==> {
            &&& opts.chart_type is Histogram ==> is_histogram_plan(Err(e), rows, opts, measures)
            &&& opts.chart_type is Bar ==> complains(e, rows, opts, XMode::Categorical, measures)
            &&& (opts.chart_type is Line || opts.chart_type is Scatter) && opts.x_column is Some
                && opts.y_column is Some ==> complains(
                e,
                rows,
                opts,
                x_mode_asked(rows, opts, opts.x_column->0@),
                measures,
            )
        },
{
}

/// A chart is drawn only from one to fifty thousand rows, with as many measures as rows where
/// there are any, within ranges that are ranges, and in looks that suit its type.
pub proof fn law_drawn_only_if_sound(
    r: Result<Drawing, McpError>,
    rows: Seq<ChartRow>,
    opts: ChartOptions,
    presentation: ChartPresentation,
    measures: Option<Seq<ChartMeasureValue>>,
    spans: RangeSpans,
)
    requires
        is_drawing(r, rows, opts, presentation, measures, spans),
    ensures
        ({
            let in_range = |range: Option<(u64, u64)>, finite: bool|
                match range {
                    Some((lo, hi)) => options::is_linear_range(lo, hi, finite),
                    None => true,
                };
            let sound = 0 < rows.len() <= 50000 && (measures is Some ==> measures->0.len()
                == rows.len()) && in_range(opts.x_range, spans.x_finite) && in_range(
                opts.y_range,
                spans.y_finite,
            ) && options::unsuited(presentation, opts.chart_type) is None;
            &&& sound ==> is_plan(r, rows, opts, presentation, measures)
            &&& !sound ==> r is Err
            &&& rows.len() == 0 ==> (r matches Err(e) && e.code == ErrorCode::EmptyData)
            &&& rows.len() > 50000 ==> (r matches Err(e) && e.code == ErrorCode::InvalidArgument)
        }),
{
}

/// Bars are drawn only where a row has the column of the categories.
pub proof fn law_categories_need_a_column(
    p: ChartPlan,
    rows: Seq<ChartRow>,
    opts: ChartOptions,
    measures: Option<Seq<ChartMeasureValue>>,
    joined: bool,
)
    requires
        draws(p, rows, opts, measures, joined),
        p.x_mode is Categorical,
    ensures
        series::has_column(rows, p.x_col@),
        series::point_count(p.series.groups@, p.series.groups@.len()) <= rows.len(),
{
    let c = choose|c: ChartColumns| grouped_by(p.series, rows, opts, p.x_mode, measures, c);
    assert(c.x@ == p.x_col@);
}

} // verus!
