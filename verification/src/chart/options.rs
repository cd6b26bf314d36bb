//! What a caller asks of a chart, and whether it can be had.

use vstd::prelude::*;

use crate::chart::color::Rgb;
use crate::chart::number;
use crate::chart::number::rank_of;
use crate::chart::{ChartFormat, ChartType};
use crate::engine::cells;
use crate::engine::cells::finite_bits;
use crate::error::{ErrorCode, McpError};
use crate::text;

verus! {

/// The most rows that are drawn.
pub const MAX_CHART_ROWS: usize = 50000;

/// What a caller asks of a chart.
#[derive(Debug)]
pub struct ChartOptions {
    /// The kind of chart.
    pub chart_type: ChartType,
    /// The column of the x values.
    pub x_column: Option<String>,
    /// The column of the y values.
    pub y_column: Option<String>,
    /// The column that tells the series apart.
    pub series_column: Option<String>,
    /// The title.
    pub title: Option<String>,
    /// The encoding of the image.
    pub format: ChartFormat,
    /// The width of the image in pixels.
    pub width: u32,
    /// The height of the image in pixels.
    pub height: u32,
    /// How many bins a histogram has.
    pub bins: u32,
    /// Whether the x values are taken for categories; nothing where they decide
    /// themselves.
    pub x_as_category: Option<bool>,
    /// The range of the x axis.
    pub x_range: Option<(u64, u64)>,
    /// The range of the measure's axis.
    pub y_range: Option<(u64, u64)>,
    /// The colors of series.
    pub color_map: Vec<(String, Rgb)>,
    /// Whether the points are labeled with their series.
    pub label_points: bool,
}

impl Default for ChartOptions {
    fn default() -> (r: ChartOptions)
        ensures
            r.chart_type == ChartType::Bar,
            r.x_column is None,
            r.y_column is None,
            r.series_column is None,
            r.title is None,
            r.format == ChartFormat::Png,
            r.width == 800,
            r.height == 480,
            r.bins == 20,
            r.x_as_category is None,
            r.x_range is None,
            r.y_range is None,
            r.color_map@.len() == 0,
            !r.label_points,
    {
        ChartOptions {
            chart_type: ChartType::Bar,
            x_column: None,
            y_column: None,
            series_column: None,
            title: None,
            format: ChartFormat::Png,
            width: 800,
            height: 480,
            bins: 20,
            x_as_category: None,
            x_range: None,
            y_range: None,
            color_map: Vec::new(),
            label_points: false,
        }
    }
}

/// A chart that was drawn.
#[derive(Debug)]
pub struct ChartResult {
    /// The image.
    pub bytes: Vec<u8>,
    /// Its media type.
    pub mime_type: &'static str,
    /// How many rows are in it.
    pub rows_plotted: usize,
}

/// Which way bars go.
#[derive(Debug, Clone, Copy, PartialEq, Eq, Structural)]
pub enum BarOrientation {
    /// Upwards.
    Vertical,
    /// To the right.
    Horizontal,
}

/// How the measure is scaled.
#[derive(Debug, Clone, Copy, PartialEq, Eq, Structural)]
pub enum MeasureScale {
    /// As it is.
    Linear,
    /// By its logarithm.
    Log,
}

/// How a chart looks.
#[derive(Debug, Clone, Copy, PartialEq, Eq, Structural)]
pub struct ChartPresentation {
    /// Which way bars go.
    pub bar_orientation: BarOrientation,
    /// Whether bars are labeled with their values.
    pub label_values: bool,
    /// Whether there is a legend.
    pub show_legend: bool,
    /// How the measure is scaled.
    pub y_scale: MeasureScale,
}

/// The plain look of a chart: upright bars without their values, on a linear axis, with a
/// legend.
pub open spec fn plain_presentation() -> ChartPresentation {
    ChartPresentation {
        bar_orientation: BarOrientation::Vertical,
        label_values: false,
        show_legend: true,
        y_scale: MeasureScale::Linear,
    }
}

impl Default for ChartPresentation {
    fn default() -> (r: ChartPresentation)
        ensures
            r == plain_presentation(),
    {
        ChartPresentation {
            bar_orientation: BarOrientation::Vertical,
            label_values: false,
            show_legend: true,
            y_scale: MeasureScale::Linear,
        }
    }
}

/// The orientation that a name means, in any case.
pub open spec fn orientation_named(name: Seq<char>) -> Option<BarOrientation> {
    if text::same_ignoring_case(name, "vertical"@) {
        Some(BarOrientation::Vertical)
    } else if text::same_ignoring_case(name, "horizontal"@) {
        Some(BarOrientation::Horizontal)
    } else {
        None
    }
}

/// The scale that a name means, in any case.
pub open spec fn scale_named(name: Seq<char>) -> Option<MeasureScale> {
    if text::same_ignoring_case(name, "linear"@) {
        Some(MeasureScale::Linear)
    } else if text::same_ignoring_case(name, "log"@) {
        Some(MeasureScale::Log)
    } else {
        None
    }
}

/// Why a look does not suit a kind of chart.
pub open spec fn unsuited(p: ChartPresentation, chart_type: ChartType) -> Option<Seq<char>> {
    if p.label_values && chart_type != ChartType::Bar {
        Some("label_values=true is only valid for bar charts"@)
    } else if p.bar_orientation == BarOrientation::Horizontal && chart_type != ChartType::Bar {
        Some("horizontal bar_orientation is only valid for bar charts"@)
    } else if p.y_scale == MeasureScale::Log && chart_type == ChartType::Histogram {
        Some("y_scale=log is not supported for histograms"@)
    } else {
        None
    }
}

/// The look that a caller asks for, or why there is none.
pub open spec fn presentation_asked(
    chart_type: ChartType,
    bar_orientation: Option<Seq<char>>,
    label_values: Option<bool>,
    show_legend: Option<bool>,
    y_scale: Option<Seq<char>>,
) -> Result<ChartPresentation, Seq<char>> {
    let orientation = match bar_orientation {
        None => Some(BarOrientation::Vertical),
        Some(name) => orientation_named(name),
    };
    let scale = match y_scale {
        None => Some(MeasureScale::Linear),
        Some(name) => scale_named(name),
    };
    if bar_orientation is Some && chart_type != ChartType::Bar {
        Err("bar_orientation is only valid for bar charts"@)
    } else if label_values == Some(true) && chart_type != ChartType::Bar {
        Err("label_values=true is only valid for bar charts"@)
    } else if orientation is None {
        Err(
            "Unknown bar_orientation '"@ + bar_orientation->0
                + "'. Expected 'vertical' or 'horizontal'"@,
        )
    } else if scale is None {
        Err("Unknown y_scale '"@ + y_scale->0 + "'. Expected 'linear' or 'log'"@)
    } else {
        let p = ChartPresentation {
            bar_orientation: orientation->0,
            label_values: label_values == Some(true),
            show_legend: show_legend != Some(false),
            y_scale: scale->0,
        };
        match unsuited(p, chart_type) {
            Some(why) => Err(why),
            None => Ok(p),
        }
    }
}

fn refused(message: &str) -> (r: McpError)
    ensures
        r.says(ErrorCode::InvalidArgument, message@),
{
    McpError::new(ErrorCode::InvalidArgument, message)
}

impl ChartPresentation {
    /// The look that a caller asks for.
    pub fn from_mcp(
        chart_type: ChartType,
        bar_orientation: Option<&str>,
        label_values: Option<bool>,
        show_legend: Option<bool>,
        y_scale: Option<&str>,
    ) -> (r: Result<ChartPresentation, McpError>)
        ensures
            match presentation_asked(
                chart_type,
                match bar_orientation {
                    Some(s) => Some(s@),
                    None => None,
                },
                label_values,
                show_legend,
                match y_scale {
                    Some(s) => Some(s@),
                    None => None,
                },
            ) {
                Ok(p) => r == Ok::<ChartPresentation, McpError>(p),
                Err(why) => r matches Err(e) && e.says(ErrorCode::InvalidArgument, why),
            },
    {
        if bar_orientation.is_some() && chart_type != ChartType::Bar {
            return Err(refused("bar_orientation is only valid for bar charts"));
        }
        let labels = match label_values {
            Some(b) => b,
            None => false,
        };
        if labels && chart_type != ChartType::Bar {
            return Err(refused("label_values=true is only valid for bar charts"));
        }
        let orientation = match bar_orientation {
            None => BarOrientation::Vertical,
            Some(name) => {
                if text::same_text_ignoring_case(name, "vertical") {
                    BarOrientation::Vertical
                } else if text::same_text_ignoring_case(name, "horizontal") {
                    BarOrientation::Horizontal
                } else {
                    let message = text::cat3(
                        "Unknown bar_orientation '",
                        name,
                        "'. Expected 'vertical' or 'horizontal'",
                    );
                    return Err(refused(message.as_str()));
                }
            },
        };
        let scale = match y_scale {
            None => MeasureScale::Linear,
            Some(name) => {
                if text::same_text_ignoring_case(name, "linear") {
                    MeasureScale::Linear
                } else if text::same_text_ignoring_case(name, "log") {
                    MeasureScale::Log
                } else {
                    let message = text::cat3(
                        "Unknown y_scale '",
                        name,
                        "'. Expected 'linear' or 'log'",
                    );
                    return Err(refused(message.as_str()));
                }
            },
        };
        let p = ChartPresentation {
            bar_orientation: orientation,
            label_values: labels,
            show_legend: match show_legend {
                Some(b) => b,
                None => true,
            },
            y_scale: scale,
        };
        match p.validate(chart_type) {
            Ok(_) => Ok(p),
            Err(e) => Err(e),
        }
    }

    /// Whether this look suits a kind of chart.
    pub fn validate(self, chart_type: ChartType) -> (r: Result<(), McpError>)
        ensures
            match unsuited(self, chart_type) {
                Some(why) => r matches Err(e) && e.says(ErrorCode::InvalidArgument, why),
                None => r is Ok,
            },
    {
        if self.label_values && chart_type != ChartType::Bar {
            return Err(refused("label_values=true is only valid for bar charts"));
        }
        if self.bar_orientation == BarOrientation::Horizontal && chart_type != ChartType::Bar {
            return Err(refused("horizontal bar_orientation is only valid for bar charts"));
        }
        if self.y_scale == MeasureScale::Log && chart_type == ChartType::Histogram {
            return Err(refused("y_scale=log is not supported for histograms"));
        }
        Ok(())
    }
}

/// Every look that a caller can ask for suits the kind of chart.
pub proof fn law_asked_looks_suit(
    chart_type: ChartType,
    bar_orientation: Option<Seq<char>>,
    label_values: Option<bool>,
    show_legend: Option<bool>,
    y_scale: Option<Seq<char>>,
)
    ensures
        presentation_asked(chart_type, bar_orientation, label_values, show_legend, y_scale) matches Ok(
            p,
        ) ==> unsuited(p, chart_type) is None,
{
}

/// Whether a range can be drawn to: finite and increasing; `span_finite` says whether
/// its length is finite.
pub open spec fn is_linear_range(lo: u64, hi: u64, span_finite: bool) -> bool {
    cells::is_finite_bits(lo) && cells::is_finite_bits(hi) && number::rank(lo) < number::rank(hi)
        && span_finite
}

/// The words for a range that cannot be drawn to.
pub open spec fn range_words(name: Seq<char>) -> Seq<char> {
    name
        + " must contain two finite values in strictly increasing order with a finite span"@
}

/// Whether a range can be drawn to; `span_finite` says whether its length is finite.
pub fn validate_effective_linear_range(name: &str, lo: u64, hi: u64, span_finite: bool) -> (r:
    Result<(u64, u64), McpError>)
    ensures
        if is_linear_range(lo, hi, span_finite) {
            r == Ok::<(u64, u64), McpError>((lo, hi))
        } else {
            r matches Err(e) && e.says(ErrorCode::InvalidArgument, range_words(name@))
        },
{
    if finite_bits(lo) && finite_bits(hi) && rank_of(lo) < rank_of(hi) && span_finite {
        Ok((lo, hi))
    } else {
        let message = text::cat2(
            name,
            " must contain two finite values in strictly increasing order with a finite span",
        );
        Err(refused(message.as_str()))
    }
}

/// A range that a caller gives, and whether its length is finite.
#[derive(Debug, Clone, Copy, PartialEq, Eq, Structural)]
pub struct ExplicitRange {
    /// The lower end.
    pub lo: u64,
    /// The upper end.
    pub hi: u64,
    /// Whether the length is finite.
    pub span_finite: bool,
}

/// Whether a range that a caller gives, if any, can be drawn to.
pub open spec fn is_range_or_none(range: Option<ExplicitRange>) -> bool {
    match range {
        Some(g) => is_linear_range(g.lo, g.hi, g.span_finite),
        None => true,
    }
}

/// Whether a range that a caller gives, if any, can be drawn to.
pub fn validate_explicit_range(name: &str, range: Option<ExplicitRange>) -> (r: Result<(), McpError>)
    ensures
        if is_range_or_none(range) {
            r is Ok
        } else {
            r matches Err(e) && e.says(ErrorCode::InvalidArgument, range_words(name@))
        },
{
    match range {
        Some(g) => match validate_effective_linear_range(name, g.lo, g.hi, g.span_finite) {
            Ok(_) => Ok(()),
            Err(e) => Err(e),
        },
        None => Ok(()),
    }
}

/// The words for too many rows.
pub open spec fn too_many_words(rows: nat) -> Seq<char> {
    "Chart data has "@ + text::decimal(rows)
        + " rows, exceeding the 50000-row limit. Add a LIMIT clause or aggregate your data to reduce row count."@
}

/// What to do about too many rows.
pub const TOO_MANY_ROWS_ADVICE: &'static str = "Add `LIMIT 50000` to your query, or use GROUP BY to aggregate.";

/// What is drawn, and how.
#[derive(Debug, Clone, Copy, PartialEq, Eq, Structural)]
pub struct ChartRequest {
    /// How many rows there are.
    pub rows: usize,
    /// How many typed measures there are, where there are any.
    pub measures: Option<usize>,
    /// The range of the x axis.
    pub x_range: Option<ExplicitRange>,
    /// The range of the measure's axis.
    pub y_range: Option<ExplicitRange>,
    /// The kind of chart.
    pub chart_type: ChartType,
    /// The look.
    pub presentation: ChartPresentation,
}

/// Whether `r` says whether a chart can be drawn, before its rows are read.
pub open spec fn is_verdict(r: Result<(), McpError>, q: ChartRequest) -> bool {
    if q.rows == 0 {
        r matches Err(e) && e.says(
            ErrorCode::EmptyData,
            "No rows returned from SQL query — nothing to chart"@,
        )
    } else if q.rows > MAX_CHART_ROWS {
        r matches Err(e) && e.says_with_hint(
            ErrorCode::InvalidArgument,
            too_many_words(q.rows as nat),
            TOO_MANY_ROWS_ADVICE@,
        )
    } else if q.measures is Some && q.measures->0 != q.rows {
        r matches Err(e) && e.says(
            ErrorCode::InternalError,
            "Chart measure metadata is not aligned with the query rows"@,
        )
    } else if !is_range_or_none(q.x_range) {
        r matches Err(e) && e.says(ErrorCode::InvalidArgument, range_words("x_range"@))
    } else if !is_range_or_none(q.y_range) {
        r matches Err(e) && e.says(ErrorCode::InvalidArgument, range_words("y_range"@))
    } else {
        match unsuited(q.presentation, q.chart_type) {
            Some(why) => r matches Err(e) && e.says(ErrorCode::InvalidArgument, why),
            None => r is Ok,
        }
    }
}

/// Whether a chart can be drawn, before its rows are read.
pub fn check_chart(q: ChartRequest) -> (r: Result<(), McpError>)
    ensures
        is_verdict(r, q),
{
    if q.rows == 0 {
        return Err(
            McpError::new(
                ErrorCode::EmptyData,
                "No rows returned from SQL query — nothing to chart",
            ),
        );
    }
    if q.rows > MAX_CHART_ROWS {
        let count = text::decimal_text(q.rows as u64);
        let message = text::cat3(
            "Chart data has ",
            count.as_str(),
            " rows, exceeding the 50000-row limit. Add a LIMIT clause or aggregate your data to reduce row count.",
        );
        let e = McpError::new(ErrorCode::InvalidArgument, message.as_str());
        return Err(e.with_suggestion(TOO_MANY_ROWS_ADVICE));
    }
    if let Some(n) = q.measures {
        if n != q.rows {
            return Err(
                McpError::new(
                    ErrorCode::InternalError,
                    "Chart measure metadata is not aligned with the query rows",
                ),
            );
        }
    }
    if let Err(e) = validate_explicit_range("x_range", q.x_range) {
        return Err(e);
    }
    if let Err(e) = validate_explicit_range("y_range", q.y_range) {
        return Err(e);
    }
    q.presentation.validate(q.chart_type)
}

/// The name of a column that a chart needs.
pub fn require_column<'a>(col: &'a Option<String>, role: &str) -> (r: Result<&'a str, McpError>)
    ensures
        match *col {
            Some(name) => r matches Ok(s) && s@ == name@,
            None => r matches Err(e) && e.says(
                ErrorCode::SchemaMismatch,
                "The '"@ + role@ + "' column name is required for this chart type"@,
            ),
        },
{
    match col {
        Some(name) => Ok(name.as_str()),
        None => {
            let message = text::cat3(
                "The '",
                role,
                "' column name is required for this chart type",
            );
            Err(McpError::new(ErrorCode::SchemaMismatch, message.as_str()))
        },
    }
}

/// The column of a histogram: that of the x values, else that of the y values.
pub fn histogram_column<'a>(x_column: &'a Option<String>, y_column: &'a Option<String>) -> (r: Result<
    &'a str,
    McpError,
>)
    ensures
        match (*x_column, *y_column) {
            (Some(x), _) => r matches Ok(s) && s@ == x@,
            (None, Some(y)) => r matches Ok(s) && s@ == y@,
            (None, None) => r matches Err(e) && e.says(
                ErrorCode::SchemaMismatch,
                "Histogram requires an 'x' or 'y' column name"@,
            ),
        },
{
    match x_column {
        Some(x) => Ok(x.as_str()),
        None => match y_column {
            Some(y) => Ok(y.as_str()),
            None => Err(
                McpError::new(
                    ErrorCode::SchemaMismatch,
                    "Histogram requires an 'x' or 'y' column name",
                ),
            ),
        },
    }
}

/// The title of a chart: the caller's, or one that tells what is drawn.
pub fn chart_title(title: &Option<String>, chart_type: ChartType, x_col: &str, y_col: &str) -> (r:
    String)
    ensures
        match *title {
            Some(t) => r@ == t@,
            None => r@ == (match chart_type {
                ChartType::Bar => y_col@ + " by "@ + x_col@,
                ChartType::Line => "Line chart"@,
                ChartType::Scatter => "Scatter plot"@,
                ChartType::Histogram => "Distribution of "@ + x_col@,
            }),
        },
{
    match title {
        Some(t) => t.clone(),
        None => match chart_type {
            ChartType::Bar => text::cat3(y_col, " by ", x_col),
            ChartType::Line => "Line chart".to_owned(),
            ChartType::Scatter => "Scatter plot".to_owned(),
            ChartType::Histogram => text::cat2("Distribution of ", x_col),
        },
    }
}

/// The names of the orientations of bars and of the scales of measures, in any case.
pub proof fn law_names_of_looks(name: Seq<char>)
    ensures
        text::lower(name) == "vertical"@ ==> orientation_named(name) == Some(
            BarOrientation::Vertical,
        ),
        text::lower(name) == "horizontal"@ ==> orientation_named(name) == Some(
            BarOrientation::Horizontal,
        ),
        text::lower(name) != "vertical"@ && text::lower(name) != "horizontal"@
            ==> orientation_named(name) is None,
        text::lower(name) == "linear"@ ==> scale_named(name) == Some(MeasureScale::Linear),
        text::lower(name) == "log"@ ==> scale_named(name) == Some(MeasureScale::Log),
        text::lower(name) != "linear"@ && text::lower(name) != "log"@ ==> scale_named(name) is None,
{
    reveal_strlit("vertical");
    reveal_strlit("horizontal");
    reveal_strlit("linear");
    reveal_strlit("log");
    assert(text::lower("vertical"@) =~= "vertical"@);
    assert(text::lower("horizontal"@) =~= "horizontal"@);
    assert(text::lower("linear"@) =~= "linear"@);
    assert(text::lower("log"@) =~= "log"@);
    assert("vertical"@.len() == 8 && "horizontal"@.len() == 10 && "linear"@.len() == 6
        && "log"@.len() == 3);
}

/// Which looks do not suit a chart: labeled values and lying bars suit bars alone, and a
/// logarithmic measure does not suit a histogram. All others do.
pub proof fn law_looks_that_suit(p: ChartPresentation, chart_type: ChartType)
    ensures
        p.label_values && !(chart_type is Bar) ==> unsuited(p, chart_type) == Some(
            "label_values=true is only valid for bar charts"@,
        ),
        !p.label_values && p.bar_orientation is Horizontal && !(chart_type is Bar) ==> unsuited(
            p,
            chart_type,
        ) == Some("horizontal bar_orientation is only valid for bar charts"@),
        !p.label_values && !(p.bar_orientation is Horizontal) && p.y_scale is Log && chart_type
            is Histogram ==> unsuited(p, chart_type) == Some(
            "y_scale=log is not supported for histograms"@,
        ),
        chart_type is Bar ==> unsuited(p, chart_type) is None,
        !p.label_values && !(p.bar_orientation is Horizontal) && (!(p.y_scale is Log) || !(
        chart_type is Histogram)) ==> unsuited(p, chart_type) is None,
        plain_presentation() == (ChartPresentation {
            bar_orientation: BarOrientation::Vertical,
            label_values: false,
            show_legend: true,
            y_scale: MeasureScale::Linear,
        }),
{
}

/// What is asked for is taken as it is asked, and what is not asked for is as charts are by
/// default: upright bars without values, a legend, a linear measure.
pub proof fn law_looks_as_asked(
    chart_type: ChartType,
    bar_orientation: Option<Seq<char>>,
    label_values: Option<bool>,
    show_legend: Option<bool>,
    y_scale: Option<Seq<char>>,
)
    ensures
        presentation_asked(
            chart_type,
            bar_orientation,
            label_values,
            show_legend,
            y_scale,
        ) matches Ok(p) ==> {
            &&& p.label_values == (label_values == Some(true))
            &&& p.show_legend == (show_legend != Some(false))
            &&& bar_orientation is None ==> p.bar_orientation is Vertical
            &&& bar_orientation matches Some(name) ==> orientation_named(name) == Some(
                p.bar_orientation,
            ) && chart_type is Bar
            &&& y_scale is None ==> p.y_scale is Linear
            &&& y_scale matches Some(name) ==> scale_named(name) == Some(p.y_scale)
        },
        chart_type is Bar && (bar_orientation matches Some(name) ==> orientation_named(name)
            is Some) && (y_scale matches Some(name) ==> scale_named(name) is Some)
            ==> presentation_asked(chart_type, bar_orientation, label_values, show_legend, y_scale)
            is Ok,
        !(chart_type is Bar) && bar_orientation is None && label_values != Some(true) && (
        y_scale matches Some(name) ==> scale_named(name) == Some(MeasureScale::Linear) || (
        scale_named(name) == Some(MeasureScale::Log) && !(chart_type is Histogram)))
            ==> presentation_asked(chart_type, bar_orientation, label_values, show_legend, y_scale)
            is Ok,
{
}

/// What is refused of what is asked for, in this order: an orientation and labeled values of
/// anything but bars, an orientation and a scale that have no such name, and a logarithmic
/// measure of a histogram.
pub proof fn law_refused_looks(
    chart_type: ChartType,
    bar_orientation: Option<Seq<char>>,
    label_values: Option<bool>,
    show_legend: Option<bool>,
    y_scale: Option<Seq<char>>,
)
    ensures
        ({
            let r = presentation_asked(
                chart_type,
                bar_orientation,
                label_values,
                show_legend,
                y_scale,
            );
            let a = bar_orientation is Some && !(chart_type is Bar);
            let b = label_values == Some(true) && !(chart_type is Bar);
            let c = bar_orientation is Some && orientation_named(bar_orientation->0) is None;
            let d = y_scale is Some && scale_named(y_scale->0) is None;
            &&& a ==> r == Err::<ChartPresentation, Seq<char>>(
                "bar_orientation is only valid for bar charts"@,
            )
            &&& !a && b ==> r == Err::<ChartPresentation, Seq<char>>(
                "label_values=true is only valid for bar charts"@,
            )
            &&& !a && !b && c ==> r == Err::<ChartPresentation, Seq<char>>(
                "Unknown bar_orientation '"@ + bar_orientation->0
                    + "'. Expected 'vertical' or 'horizontal'"@,
            )
            &&& !a && !b && !c && d ==> r == Err::<ChartPresentation, Seq<char>>(
                "Unknown y_scale '"@ + y_scale->0 + "'. Expected 'linear' or 'log'"@,
            )
            &&& !a && !b && !c && !d && chart_type is Histogram && y_scale is Some && scale_named(
                y_scale->0,
            ) == Some(MeasureScale::Log) ==> r == Err::<ChartPresentation, Seq<char>>(
                "y_scale=log is not supported for histograms"@,
            )
        }),
{
}

/// A range is two finite numbers, the lower first, with a finite span; every other is refused
/// in words that name it.
pub proof fn law_linear_ranges(lo: u64, hi: u64, span_finite: bool, name: Seq<char>)
    ensures
        is_linear_range(lo, hi, span_finite) <==> cells::is_finite_bits(lo)
            && cells::is_finite_bits(hi) && number::rank(lo) < number::rank(hi) && span_finite,
        is_range_or_none(None),
        is_range_or_none(Some(ExplicitRange { lo, hi, span_finite })) <==> is_linear_range(
            lo,
            hi,
            span_finite,
        ),
        range_words(name) == name
            + " must contain two finite values in strictly increasing order with a finite span"@,
{
}

/// Why a chart is refused before it is drawn, in this order: no rows, more than fifty thousand
/// rows, measures that do not go with the rows, a range that is none, and looks that do not
/// suit. Nothing else is refused.
pub proof fn law_verdicts(r: Result<(), McpError>, q: ChartRequest)
    requires
        is_verdict(r, q),
    ensures
        q.rows == 0 ==> (r matches Err(e) && e.code == ErrorCode::EmptyData && e.message@
            == "No rows returned from SQL query — nothing to chart"@),
        q.rows > 50000 ==> (r matches Err(e) && e.code == ErrorCode::InvalidArgument && e.message@
            == "Chart data has "@ + text::decimal(q.rows as nat)
            + " rows, exceeding the 50000-row limit. Add a LIMIT clause or aggregate your data to reduce row count."@
            && (e.suggestion matches Some(t) && t@
            == "Add `LIMIT 50000` to your query, or use GROUP BY to aggregate."@)),
        0 < q.rows <= 50000 ==> {
            &&& q.measures is Some && q.measures->0 != q.rows ==> (r matches Err(e) && e.code
                == ErrorCode::InternalError && e.message@
                == "Chart measure metadata is not aligned with the query rows"@)
            &&& (q.measures is None || q.measures->0 == q.rows) ==> {
                &&& !is_range_or_none(q.x_range) ==> (r matches Err(e) && e.code
                    == ErrorCode::InvalidArgument && e.message@ == range_words("x_range"@))
                &&& is_range_or_none(q.x_range) && !is_range_or_none(q.y_range) ==> (r matches Err(
                    e,
                ) && e.code == ErrorCode::InvalidArgument && e.message@ == range_words("y_range"@))
                &&& is_range_or_none(q.x_range) && is_range_or_none(q.y_range) ==> {
                    &&& unsuited(q.presentation, q.chart_type) matches Some(why) ==> (r matches Err(
                        e,
                    ) && e.code == ErrorCode::InvalidArgument && e.message@ == why)
                    &&& unsuited(q.presentation, q.chart_type) is None ==> r is Ok
                }
            }
        },
{
}

} // verus!
