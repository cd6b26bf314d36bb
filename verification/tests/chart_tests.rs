use hyperdb_mcp::chart::color::{parse_hex_color, series_color, series_color_for, Rgb};
use hyperdb_mcp::chart::labels::{
    auto_tick_count, bar_series_name, category_label, horizontal_category_tick_count,
    point_label_offset, shared_tz_suffix, strip_shared_tz_suffix, tick_count_for_label_width,
};
use hyperdb_mcp::chart::number::{extremes, next_positive_down, next_positive_up, rank_of};
use hyperdb_mcp::chart::options::{
    check_chart, require_column, validate_effective_linear_range, BarOrientation, ChartOptions,
    ChartPresentation, ChartRequest, ExplicitRange, MeasureScale,
};
use hyperdb_mcp::chart::plan::{
    draw_bar, draw_histogram, line_or_scatter, render_chart, render_chart_with_presentation,
    ChartPlan, Drawing, RangeSpans,
};
use hyperdb_mcp::chart::range::{
    automatic_log_range, bounded_log_key_points, check_histogram_span, explicit_log_range,
    fill_bins, line_order, linear_bar_baseline, log_extremes, validate_log_coordinate_range,
    LogRangeDraft,
};
use hyperdb_mcp::chart::series::{
    detect_line_x_mode, group_chart_series, group_chart_series_with, histogram_values, line_x_mode,
    ChartCell, ChartColumns, ChartMeasureValue, ChartRow, ChartSeries, XMode, XPos,
};
use hyperdb_mcp::chart::temporal::{
    format_temporal_tick, parse_temporal, temporal_label_chars, temporal_of, TemporalKind,
};
use hyperdb_mcp::chart::text_index::{standing, Standing};
use hyperdb_mcp::chart::{
    auto_generated_chart_path, chart_dir_failed, chart_write_failed, resolve_chart_disposition,
    resolve_chart_format, write_chart_to_disk, ChartDisposition, ChartFileFacts, ChartFormat,
    ChartType, ChartWrite,
};
use hyperdb_mcp::error::{ErrorCode, McpError};
use hyperdb_mcp::paths::directory_of;

fn s(strs: &[&str]) -> Vec<String> {
    strs.iter().map(|s| (*s).to_string()).collect()
}

fn number(v: f64) -> ChartCell {
    ChartCell::Number {
        bits: v.to_bits(),
        shown: format!("{v}"),
    }
}

fn words(t: &str) -> ChartCell {
    ChartCell::Text(t.to_string())
}

fn row(cells: Vec<(&str, ChartCell)>) -> ChartRow {
    ChartRow::Object(cells.into_iter().map(|(n, c)| (n.to_string(), c)).collect())
}

fn columns(x: &str, y: &str, series: Option<&str>) -> ChartColumns {
    ChartColumns {
        x: x.to_string(),
        y: y.to_string(),
        series: series.map(str::to_string),
    }
}

fn options(x: &str, y: &str, series: Option<&str>) -> ChartOptions {
    ChartOptions {
        x_column: Some(x.to_string()),
        y_column: Some(y.to_string()),
        series_column: series.map(str::to_string),
        ..ChartOptions::default()
    }
}

fn drawn_keys(series: &ChartSeries) -> Vec<&str> {
    series
        .order
        .iter()
        .map(|i| series.groups[*i].key.as_str())
        .collect()
}

fn log_measure_range(values: &[f64], explicit: Option<[f64; 2]>) -> Result<(f64, f64), McpError> {
    let bits: Vec<u64> = values.iter().map(|v| v.to_bits()).collect();
    let (least, greatest) = log_extremes(&bits)?;
    let increase = |lo: f64, hi: f64| {
        lo.ln().is_finite() && hi.ln().is_finite() && lo.ln() < hi.ln()
    };
    if let Some([lo, hi]) = explicit {
        let (lo, hi) =
            explicit_log_range(least, greatest, lo.to_bits(), hi.to_bits(), increase(lo, hi))?;
        return Ok((f64::from_bits(lo), f64::from_bits(hi)));
    }
    let floor = f64::from_bits(1).ln();
    let ceiling = f64::MAX.ln();
    let log_min = f64::from_bits(least).ln();
    let log_max = f64::from_bits(greatest).ln();
    let pad = if log_max <= log_min {
        0.05 * std::f64::consts::LN_10
    } else {
        0.05 * (log_max - log_min)
    };
    let low = (log_min - pad).max(floor);
    let high = (log_max + pad).min(ceiling);
    let draft = LogRangeDraft {
        least,
        greatest,
        lo: if low <= floor { 1 } else { low.exp().to_bits() },
        hi: if high >= ceiling {
            f64::MAX.to_bits()
        } else {
            high.exp().to_bits()
        },
        pads_below: low < log_min,
        pads_above: high > log_max,
    };
    let (lo, hi) = automatic_log_range(draft);
    let (lo, hi) = validate_log_coordinate_range(
        "automatic logarithmic y range",
        lo,
        hi,
        increase(f64::from_bits(lo), f64::from_bits(hi)),
    )?;
    Ok((f64::from_bits(lo), f64::from_bits(hi)))
}

#[test]
fn strip_shared_tz_suffix_drops_uniform_offset() {
    let labels = s(&[
        "2026-05-01 08:00:00+00:00",
        "2026-05-02 06:15:00+00:00",
        "2026-05-03 18:30:00+00:00",
    ]);
    let stripped = strip_shared_tz_suffix(&labels);
    assert_eq!(
        stripped,
        s(&[
            "2026-05-01 08:00:00",
            "2026-05-02 06:15:00",
            "2026-05-03 18:30:00",
        ])
    );
}

#[test]
fn strip_shared_tz_suffix_handles_non_utc_offset() {
    let labels = s(&["2026-05-01 08:00:00+05:30", "2026-05-02 06:15:00+05:30"]);
    let stripped = strip_shared_tz_suffix(&labels);
    assert_eq!(
        stripped,
        s(&["2026-05-01 08:00:00", "2026-05-02 06:15:00",])
    );
}

#[test]
fn strip_shared_tz_suffix_preserves_when_offsets_differ() {
    let labels = s(&["2026-05-01 08:00:00+00:00", "2026-05-02 06:15:00+05:30"]);
    let stripped = strip_shared_tz_suffix(&labels);
    assert_eq!(stripped, labels, "differing offsets must not be stripped");
}

#[test]
fn strip_shared_tz_suffix_preserves_plain_dates() {
    let labels = s(&["2026-05-01", "2026-05-02", "2026-05-03"]);
    let stripped = strip_shared_tz_suffix(&labels);
    assert_eq!(stripped, labels, "DATE strings have no suffix to strip");
}

#[test]
fn strip_shared_tz_suffix_passes_through_one_or_zero() {
    assert_eq!(strip_shared_tz_suffix(&Vec::new()), Vec::<String>::new());
    let one = s(&["2026-05-01 08:00:00+00:00"]);
    assert_eq!(strip_shared_tz_suffix(&one), one);
}

#[test]
fn auto_tick_count_returns_all_when_labels_fit() {
    let labels = s(&["A", "B", "C", "D", "E"]);
    assert_eq!(auto_tick_count(&labels, 800), 5);
}

#[test]
fn auto_tick_count_thins_long_timestamp_series() {
    let labels: Vec<String> = (0..90)
        .map(|i| format!("2026-01-{:02} {:02}:00:00", (i / 24) + 1, i % 24))
        .collect();
    let count = auto_tick_count(&labels, 800);
    assert!(
        (4..=8).contains(&count),
        "expected 4..=8 ticks for 90 long labels at 800px, got {count}"
    );
    assert!(count >= 2, "must always show at least 2 ticks");
    assert!(count <= labels.len(), "must never exceed label count");
}

#[test]
fn auto_tick_count_clamps_to_at_least_two() {
    let labels = s(&[
        "x".repeat(200).as_str(),
        "y".repeat(200).as_str(),
        "z".repeat(200).as_str(),
    ]);
    assert!(auto_tick_count(&labels, 100) >= 2);
}

#[test]
fn auto_tick_count_handles_one_or_zero_labels() {
    assert_eq!(auto_tick_count(&Vec::new(), 800), 0);
    let one = s(&["only"]);
    assert_eq!(auto_tick_count(&one, 800), 1);
}

#[test]
fn auto_tick_count_caps_at_label_count() {
    let labels = s(&["A", "B", "C"]);
    assert_eq!(auto_tick_count(&labels, 10_000), 3);
}

#[test]
fn tick_count_for_label_width_does_not_clamp_to_label_count() {
    assert_eq!(tick_count_for_label_width(19, 800), 5);
    assert_eq!(tick_count_for_label_width(19, 1400), 9);
    assert_eq!(tick_count_for_label_width(10, 800), 10);
}

#[test]
fn tick_count_for_label_width_clamps_to_at_least_two() {
    assert_eq!(tick_count_for_label_width(200, 100), 2);
}

#[test]
fn parse_temporal_recognizes_date() {
    let (kind, secs) = parse_temporal("2026-05-01").expect("DATE should parse");
    assert_eq!(kind, TemporalKind::Date);
    assert!(secs as f64 > 1.7e9);
}

#[test]
fn parse_temporal_recognizes_timestamp() {
    let (kind, secs1) = parse_temporal("2026-05-01 08:00:00").expect("TIMESTAMP should parse");
    assert_eq!(kind, TemporalKind::DateTime);
    let (_, secs2) = parse_temporal("2026-05-01 12:30:00").expect("TIMESTAMP should parse");
    let delta = (secs2 - secs1) as f64;
    assert!(
        (delta - 16_200.0).abs() < 1.0,
        "expected 16200s gap, got {delta}"
    );
}

#[test]
fn parse_temporal_recognizes_timestamptz_and_captures_offset() {
    let (kind, _) = parse_temporal("2026-05-01 08:00:00+05:30").expect("TIMESTAMPTZ should parse");
    match kind {
        TemporalKind::DateTimeTz(off) => assert_eq!(off, 5 * 3600 + 30 * 60),
        other => panic!("expected DateTimeTz, got {other:?}"),
    }
}

#[test]
fn parse_temporal_recognizes_t_separator() {
    let (kind, _) = parse_temporal("2026-05-01T08:00:00+00:00").expect("ISO T-form should parse");
    assert!(matches!(kind, TemporalKind::DateTimeTz(0)));
}

#[test]
fn parse_temporal_rejects_non_temporal_strings() {
    assert!(parse_temporal("alpha").is_none());
    assert!(parse_temporal("").is_none());
    assert!(parse_temporal("2026").is_none());
    assert!(parse_temporal("42").is_none());
}

#[test]
fn format_temporal_tick_round_trips_date() {
    let (_, secs) = parse_temporal("2026-05-01").unwrap();
    assert_eq!(format_temporal_tick(Some(secs), TemporalKind::Date), "2026-05-01");
}

#[test]
fn format_temporal_tick_round_trips_timestamp() {
    let (_, secs) = parse_temporal("2026-05-01 08:30:00").unwrap();
    assert_eq!(
        format_temporal_tick(Some(secs), TemporalKind::DateTime),
        "2026-05-01 08:30:00"
    );
}

#[test]
fn format_temporal_tick_preserves_offset_for_timestamptz() {
    let (kind, secs) = parse_temporal("2026-05-01 08:30:00+05:30").unwrap();
    assert_eq!(
        format_temporal_tick(Some(secs), kind),
        "2026-05-01 08:30:00+05:30"
    );
}

#[test]
fn format_temporal_tick_handles_nan() {
    let seconds = |v: f64| {
        if v.is_finite() {
            Some(v.round() as i64)
        } else {
            None
        }
    };
    assert_eq!(format_temporal_tick(seconds(f64::NAN), TemporalKind::Date), "");
    assert_eq!(
        format_temporal_tick(seconds(f64::INFINITY), TemporalKind::DateTime),
        ""
    );
}

#[test]
fn detect_line_x_mode_picks_temporal_for_dates() {
    let rows = vec![row(vec![("ts", words("2026-05-01"))])];
    let mode = detect_line_x_mode(&rows, "ts");
    assert!(matches!(mode, XMode::Temporal(TemporalKind::Date)));
}

#[test]
fn detect_line_x_mode_picks_temporal_for_timestamps() {
    let rows = vec![row(vec![("ts", words("2026-05-01 08:00:00"))])];
    let mode = detect_line_x_mode(&rows, "ts");
    assert!(matches!(mode, XMode::Temporal(TemporalKind::DateTime)));
}

#[test]
fn detect_line_x_mode_picks_temporal_for_timestamptz() {
    let rows = vec![row(vec![("ts", words("2026-05-01 08:00:00+00:00"))])];
    let mode = detect_line_x_mode(&rows, "ts");
    assert!(matches!(mode, XMode::Temporal(TemporalKind::DateTimeTz(0))));
}

#[test]
fn detect_line_x_mode_falls_back_to_categorical_for_text() {
    let rows = vec![row(vec![("x", words("alpha"))])];
    let mode = detect_line_x_mode(&rows, "x");
    assert!(matches!(mode, XMode::Categorical));
}

#[test]
fn detect_line_x_mode_picks_numeric_for_numbers() {
    let rows = vec![row(vec![("x", number(42.0))])];
    let mode = detect_line_x_mode(&rows, "x");
    assert!(matches!(mode, XMode::Numeric));
}

fn close_enough(actual: f64, expected: f64) -> bool {
    let scale = expected.abs().max(1.0);
    (actual - expected).abs() <= scale * 1e-12
}

#[test]
fn log_range_handles_finite_extremes() {
    let (lo, hi) = log_measure_range(&[1.0, 100.0], None).unwrap();
    assert!(close_enough(lo, 0.794_328_234_724_281_5), "{lo}");
    assert!(close_enough(hi, 125.892_541_179_416_75), "{hi}");

    let (lo, hi) = log_measure_range(&[10.0, 10.0], None).unwrap();
    assert!(close_enough(lo, 8.912_509_381_337_454), "{lo}");
    assert!(close_enough(hi, 11.220_184_543_019_634), "{hi}");

    let smallest = f64::from_bits(1);
    let (lo, hi) = log_measure_range(&[smallest], None).unwrap();
    assert_eq!(lo.to_bits(), smallest.to_bits());
    assert!(hi.is_finite() && hi.is_sign_positive() && hi.to_bits() > smallest.to_bits());

    let (lo, hi) = log_measure_range(&[f64::MAX], None).unwrap();
    assert_eq!(hi.to_bits(), f64::MAX.to_bits());
    assert!(lo.is_finite() && lo > 0.0 && lo < hi);

    let (lo, hi) = log_measure_range(&[smallest, f64::MAX], None).unwrap();
    assert_eq!(lo.to_bits(), smallest.to_bits());
    assert_eq!(hi.to_bits(), f64::MAX.to_bits());
    assert!(lo < hi);

    let (lo, hi) = log_measure_range(&[10.0, 100.0], Some([1.0, 1000.0])).unwrap();
    assert_eq!(lo.to_bits(), 1.0_f64.to_bits());
    assert_eq!(hi.to_bits(), 1000.0_f64.to_bits());

    for (case, values, explicit) in [
        ("zero", vec![0.0], None),
        ("negative", vec![-1.0], None),
        ("mixed sign", vec![-1.0, 1.0], None),
        ("NaN", vec![f64::NAN], None),
        ("infinity", vec![f64::INFINITY], None),
        ("reversed explicit", vec![10.0], Some([100.0, 1.0])),
        ("equal explicit", vec![10.0], Some([10.0, 10.0])),
        ("zero explicit", vec![10.0], Some([0.0, 100.0])),
        (
            "non-finite explicit",
            vec![10.0],
            Some([1.0, f64::INFINITY]),
        ),
        (
            "explicit excludes low value",
            vec![10.0, 100.0],
            Some([20.0, 200.0]),
        ),
        (
            "explicit excludes high value",
            vec![10.0, 100.0],
            Some([1.0, 50.0]),
        ),
    ] {
        match log_measure_range(&values, explicit) {
            Err(error) => assert_eq!(error.code, ErrorCode::InvalidArgument, "{case}"),
            Ok(range) => panic!("{case}: invalid log domain was accepted as {range:?}"),
        }
    }
}

#[test]
fn offsets_are_recognized_by_their_shape() {
    assert_eq!(
        shared_tz_suffix(&s(&["2026-05-01 08:00:00-05:30", "2026-05-02 08:00:00-05:30"])).as_deref(),
        Some("-05:30")
    );
    assert_eq!(shared_tz_suffix(&s(&["a+bcdef", "x+bcdef"])), None);
    assert_eq!(shared_tz_suffix(&Vec::new()), None);
}

#[test]
fn categories_beside_bars_are_bounded_by_the_height() {
    assert_eq!(horizontal_category_tick_count(256, 360), 21);
    assert_eq!(horizontal_category_tick_count(1, 10), 1);
    assert_eq!(horizontal_category_tick_count(5, 10), 2);
}

#[test]
fn labels_of_points_stand_right_of_them_and_above() {
    assert_eq!(point_label_offset(), (6, -4));
}

#[test]
fn labels_and_names_of_categories_and_series() {
    let labels = s(&["a", "b"]);
    assert_eq!(category_label(Some(1), &labels), "b");
    assert_eq!(category_label(Some(2), &labels), "");
    assert_eq!(category_label(None, &labels), "");
    assert_eq!(bar_series_name("", "value"), "value");
    assert_eq!(bar_series_name("north", "value"), "north");
}

#[test]
fn chart_types_and_formats_are_read_in_any_case() {
    assert!(matches!(ChartType::parse("BAR"), Ok(ChartType::Bar)));
    assert!(matches!(ChartType::parse("Hist"), Ok(ChartType::Histogram)));
    let err = ChartType::parse("PIE").unwrap_err();
    assert_eq!(err.code, ErrorCode::SchemaMismatch);
    assert_eq!(
        err.message,
        "Unknown chart type 'pie'. Expected one of: bar, line, scatter, histogram"
    );
    assert!(matches!(ChartFormat::parse("Svg"), Ok(ChartFormat::Svg)));
    let err = ChartFormat::parse("gif").unwrap_err();
    assert_eq!(err.code, ErrorCode::UnsupportedFormat);
    assert_eq!(ChartFormat::Svg.mime_type(), "image/svg+xml");
    assert_eq!(ChartFormat::Png.extension(), "png");
}

#[test]
fn formats_and_paths_must_agree() {
    assert!(matches!(resolve_chart_format(None, None), Ok(ChartFormat::Png)));
    assert!(matches!(
        resolve_chart_format(None, Some("/tmp/a.SVG")),
        Ok(ChartFormat::Svg)
    ));
    assert!(matches!(
        resolve_chart_format(Some("svg"), Some("/tmp/a.svg")),
        Ok(ChartFormat::Svg)
    ));
    assert!(matches!(
        resolve_chart_format(Some("svg"), Some("/tmp/plain")),
        Ok(ChartFormat::Svg)
    ));
    let err = resolve_chart_format(Some("PNG"), Some("/tmp/a.svg")).unwrap_err();
    assert_eq!(err.code, ErrorCode::InvalidArgument);
    assert_eq!(
        err.message,
        "chart: format=\"PNG\" conflicts with output_path extension \".svg\" — remove one or make them agree"
    );
    let err = resolve_chart_format(None, Some("/tmp/a.gif")).unwrap_err();
    assert_eq!(err.code, ErrorCode::InvalidArgument);
    let err = resolve_chart_format(Some("gif"), Some("/tmp/a.gif")).unwrap_err();
    assert_eq!(err.code, ErrorCode::UnsupportedFormat);
}

#[test]
fn images_are_written_or_returned() {
    assert!(matches!(
        resolve_chart_disposition(true, None, "/tmp/auto.png"),
        ChartDisposition::InlineOnly
    ));
    let both = resolve_chart_disposition(true, Some("/tmp/a.png"), "/tmp/auto.png");
    assert!(both.wants_inline());
    assert_eq!(both.path(), Some("/tmp/a.png"));
    let auto = resolve_chart_disposition(false, None, "/tmp/auto.png");
    assert!(!auto.wants_inline());
    assert_eq!(auto.path(), Some("/tmp/auto.png"));
    let (dir, name) = auto_generated_chart_path(ChartFormat::Svg, 12, 34, 56);
    assert_eq!(dir, "hyperdb-charts");
    assert_eq!(name, "chart-12-34-56.svg");
    let (_, other) = auto_generated_chart_path(ChartFormat::Svg, 12, 34, 57);
    assert_ne!(name, other);
}

#[test]
fn files_are_kept_unless_asked_otherwise() {
    let facts = ChartFileFacts {
        leads_upwards: false,
        found: true,
        has_parent: true,
    };
    let err = write_chart_to_disk("/tmp/a.png", facts, false).unwrap_err();
    assert_eq!(err.code, ErrorCode::PermissionDenied);
    assert!(matches!(
        write_chart_to_disk("/tmp/a.png", facts, true),
        Ok(ChartWrite::MakeDirAndWrite)
    ));
    let bare = ChartFileFacts {
        leads_upwards: false,
        found: false,
        has_parent: false,
    };
    assert!(matches!(
        write_chart_to_disk("a.png", bare, false),
        Ok(ChartWrite::Write)
    ));
    let upwards = ChartFileFacts {
        leads_upwards: true,
        found: false,
        has_parent: true,
    };
    let err = write_chart_to_disk("../a.png", upwards, true).unwrap_err();
    assert_eq!(err.code, ErrorCode::InvalidArgument);
    for path in ["../a.png", "a/../b.png", "/tmp/..", ".."] {
        let err = write_chart_to_disk(path, bare, true).unwrap_err();
        assert_eq!(err.code, ErrorCode::InvalidArgument, "{path}");
        assert_eq!(
            err.message,
            format!("Chart output path '{path}' may not contain '..' components")
        );
    }
    assert!(write_chart_to_disk("//a/../b.png", bare, true).is_ok());
    assert!(write_chart_to_disk("//a/../b.png", upwards, true).is_err());
    for path in ["a..b/c.png", "..a/b.png", "a/.../b.png", "./a.png", ""] {
        assert!(write_chart_to_disk(path, bare, true).is_ok(), "{path}");
    }
    assert_eq!(
        chart_write_failed("a.png", "disk full").message,
        "Failed to write chart to 'a.png': disk full"
    );
    assert_eq!(
        chart_dir_failed("x/a.png", "denied").message,
        "Failed to create parent directory for chart 'x/a.png': denied"
    );
}

#[test]
fn looks_must_suit_the_chart() {
    let bar = ChartPresentation::from_mcp(
        ChartType::Bar,
        Some("Horizontal"),
        Some(true),
        Some(false),
        Some("LOG"),
    )
    .unwrap();
    assert_eq!(
        bar,
        ChartPresentation {
            bar_orientation: BarOrientation::Horizontal,
            label_values: true,
            show_legend: false,
            y_scale: MeasureScale::Log,
        }
    );
    for (case, r) in [
        (
            "bar_orientation is only valid for bar charts",
            ChartPresentation::from_mcp(ChartType::Line, Some("vertical"), None, None, None),
        ),
        (
            "label_values=true is only valid for bar charts",
            ChartPresentation::from_mcp(ChartType::Line, None, Some(true), None, None),
        ),
        (
            "Unknown bar_orientation 'up'. Expected 'vertical' or 'horizontal'",
            ChartPresentation::from_mcp(ChartType::Bar, Some("up"), None, None, None),
        ),
        (
            "Unknown y_scale 'sqrt'. Expected 'linear' or 'log'",
            ChartPresentation::from_mcp(ChartType::Bar, None, None, None, Some("sqrt")),
        ),
        (
            "y_scale=log is not supported for histograms",
            ChartPresentation::from_mcp(ChartType::Histogram, None, None, None, Some("log")),
        ),
    ] {
        let err = r.unwrap_err();
        assert_eq!(err.code, ErrorCode::InvalidArgument);
        assert_eq!(err.message, case);
    }
}

fn asked() -> ChartRequest {
    ChartRequest {
        rows: 10,
        measures: None,
        x_range: None,
        y_range: None,
        chart_type: ChartType::Bar,
        presentation: ChartPresentation::default(),
    }
}

#[test]
fn charts_are_checked_before_they_are_drawn() {
    assert!(check_chart(asked()).is_ok());
    assert_eq!(
        check_chart(ChartRequest { rows: 0, ..asked() }).unwrap_err().code,
        ErrorCode::EmptyData
    );
    let many = check_chart(ChartRequest {
        rows: 50_001,
        ..asked()
    })
    .unwrap_err();
    assert_eq!(many.code, ErrorCode::InvalidArgument);
    assert!(many.message.starts_with("Chart data has 50001 rows, exceeding the 50000-row limit."));
    assert_eq!(
        many.suggestion.as_deref(),
        Some("Add `LIMIT 50000` to your query, or use GROUP BY to aggregate.")
    );
    assert!(check_chart(ChartRequest {
        rows: 50_000,
        ..asked()
    })
    .is_ok());
    assert_eq!(
        check_chart(ChartRequest {
            measures: Some(9),
            ..asked()
        })
        .unwrap_err()
        .code,
        ErrorCode::InternalError
    );
    let reversed = ExplicitRange {
        lo: 2.0_f64.to_bits(),
        hi: 1.0_f64.to_bits(),
        span_finite: true,
    };
    assert!(check_chart(ChartRequest {
        y_range: Some(reversed),
        ..asked()
    })
    .unwrap_err()
    .message
    .starts_with("y_range must contain two finite values"));
}

#[test]
fn ranges_are_ordered_by_their_numbers() {
    let ok = |lo: f64, hi: f64| {
        validate_effective_linear_range("r", lo.to_bits(), hi.to_bits(), (hi - lo).is_finite()).is_ok()
    };
    assert!(ok(-2.0, -1.0));
    assert!(ok(-1.0, 1.0));
    assert!(!ok(-1.0, -2.0));
    assert!(!ok(0.0, -0.0));
    assert!(!ok(f64::NEG_INFINITY, 0.0));
    assert!(!ok(f64::MIN, f64::MAX));
    assert!(!ok(f64::NAN, 1.0));
    assert_eq!(rank_of((-0.0_f64).to_bits()), rank_of(0.0_f64.to_bits()));
    assert!(rank_of((-1.5_f64).to_bits()) < rank_of((-1.0_f64).to_bits()));
}

#[test]
fn extremes_and_neighbors_of_numbers() {
    let values: Vec<u64> = [3.0_f64, -7.5, 0.0].iter().map(|v| v.to_bits()).collect();
    assert_eq!(extremes(&values), ((-7.5_f64).to_bits(), 3.0_f64.to_bits()));
    assert_eq!(next_positive_down(1), None);
    assert_eq!(next_positive_up(f64::MAX.to_bits()), None);
    assert_eq!(next_positive_up(1.0_f64.to_bits()), Some(1.0_f64.to_bits() + 1));
}

#[test]
fn bars_begin_at_zero_where_it_is_on_the_axis() {
    let base = |lo: f64, hi: f64| f64::from_bits(linear_bar_baseline(lo.to_bits(), hi.to_bits()));
    assert_eq!(base(-1.0, 4.0), 0.0);
    assert_eq!(base(2.0, 4.0), 2.0);
    assert_eq!(base(-4.0, -2.0), -2.0);
}

#[test]
fn ticks_of_a_logarithmic_axis_increase() {
    let candidates: Vec<u64> = [1.0_f64, 10.0, 10.0, 5.0, 200.0, 100.0]
        .iter()
        .map(|v| v.to_bits())
        .collect();
    let ticks = bounded_log_key_points(&candidates, 1.0_f64.to_bits(), 100.0_f64.to_bits());
    let shown: Vec<f64> = ticks.into_iter().map(f64::from_bits).collect();
    assert_eq!(shown, vec![1.0, 10.0, 100.0]);
}

#[test]
fn bins_count_every_value() {
    assert_eq!(fill_bins(&vec![-3, 0, 1, 1, 2, 9], 3), vec![2, 2, 2]);
    assert_eq!(fill_bins(&vec![], 2), vec![0, 0]);
    assert!(check_histogram_span(true, 0.5_f64.to_bits()).is_ok());
    assert!(check_histogram_span(false, 0.5_f64.to_bits()).is_err());
    assert!(check_histogram_span(true, 0.0_f64.to_bits()).is_err());
}

#[test]
fn lines_join_points_by_place_and_keep_ties_in_order() {
    assert_eq!(line_order(&vec![5, 1, 5, 1, 3]), vec![1, 3, 4, 0, 2]);
    assert_eq!(line_order(&vec![]), Vec::<usize>::new());
    let keys: Vec<i64> = (0..1000).map(|i| (i * 7919) % 101).collect();
    let order = line_order(&keys);
    let mut expected: Vec<usize> = (0..1000).collect();
    expected.sort_by_key(|i| keys[*i]);
    assert_eq!(order, expected);
}

#[test]
fn colors_are_read_and_come_again() {
    assert_eq!(
        parse_hex_color("#1F77b4"),
        Some(Rgb { red: 31, green: 119, blue: 180 })
    );
    assert_eq!(
        parse_hex_color("ff0001"),
        Some(Rgb { red: 255, green: 0, blue: 1 })
    );
    assert_eq!(parse_hex_color("#12345"), None);
    assert_eq!(parse_hex_color("1é234"), None);
    assert_eq!(parse_hex_color("#gg0000"), None);
    assert_eq!(parse_hex_color("##12345"), None);
    assert_eq!(series_color(0), series_color(8));
    assert_ne!(series_color(0), series_color(1));
    let red = Rgb { red: 255, green: 0, blue: 0 };
    let map = vec![("north".to_string(), red)];
    assert_eq!(series_color_for("north", 3, &map), red);
    assert_eq!(series_color_for("south", 3, &map), series_color(3));
}

fn layout_rows(first: &str) -> Vec<ChartRow> {
    vec![
        row(vec![("category", words(first)), ("value", number(10.0)), ("series", words("B"))]),
        row(vec![("category", words(first)), ("value", number(20.0)), ("series", words("A"))]),
        row(vec![("category", words(first)), ("value", number(25.0)), ("series", words("A"))]),
        row(vec![
            ("category", words("Second category")),
            ("value", number(30.0)),
            ("series", words("A")),
        ]),
    ]
}

#[test]
fn series_keep_rows_and_categories_in_order() {
    let rows = layout_rows("First 東京");
    let series = group_chart_series(
        &rows,
        &columns("category", "value", Some("series")),
        XMode::Categorical,
        None,
    )
    .expect("grouped");
    assert_eq!(drawn_keys(&series), ["A", "B"]);
    let a = &series.groups[series.order[0]];
    let points: Vec<(XPos, f64, &str)> = a
        .points
        .iter()
        .map(|p| (p.x, f64::from_bits(p.y), p.x_label.as_str()))
        .collect();
    assert_eq!(
        points,
        [
            (XPos::Index(0), 20.0, "First 東京"),
            (XPos::Index(0), 25.0, "First 東京"),
            (XPos::Index(1), 30.0, "Second category"),
        ]
    );
    assert_eq!(series.groups[series.order[1]].points.len(), 1);
    assert_eq!(series.categories, s(&["First 東京", "Second category"]));
    assert_eq!(series.rows_plotted(), 4);
    let mut values: Vec<f64> = series.measure_values().into_iter().map(f64::from_bits).collect();
    values.sort_by(|a, b| a.partial_cmp(b).unwrap());
    assert_eq!(values, vec![10.0, 20.0, 25.0, 30.0]);
}

const FINITE: RangeSpans = RangeSpans {
    x_finite: true,
    y_finite: true,
};

fn chart_plan_with_presentation(
    rows: &Vec<ChartRow>,
    chart_type: ChartType,
    series_column: Option<&str>,
    label_points: bool,
    y_range: Option<[f64; 2]>,
    presentation: ChartPresentation,
) -> Result<ChartPlan, McpError> {
    let opts = ChartOptions {
        chart_type,
        format: ChartFormat::Svg,
        width: 520,
        height: 360,
        label_points,
        y_range: y_range.map(|[lo, hi]| (lo.to_bits(), hi.to_bits())),
        ..options("category", "value", series_column)
    };
    match render_chart_with_presentation(rows, &opts, presentation, None, FINITE)? {
        Drawing::Series(plan) => Ok(plan),
        Drawing::Histogram(plan) => panic!("not a chart with series: {plan:?}"),
    }
}

fn numbered(category: ChartCell, value: f64, series: &str) -> ChartRow {
    row(vec![
        ("category", category),
        ("value", number(value)),
        ("series", words(series)),
    ])
}

#[test]
fn horizontal_bar_layout_contract() {
    let long_first = format!(
        "First SQL category — 東京 — {}",
        "wide ".repeat(14).trim_end()
    );
    let rows = layout_rows(&long_first);
    let groups = group_chart_series(
        &rows,
        &columns("category", "value", Some("series")),
        XMode::Categorical,
        None,
    )
    .expect("category grouping must succeed");
    assert_eq!(drawn_keys(&groups), ["A", "B"]);
    let a_points = &groups.groups[groups.order[0]].points;
    assert_eq!(
        a_points
            .iter()
            .map(|p| (p.x, f64::from_bits(p.y), p.x_label.as_str()))
            .collect::<Vec<_>>(),
        [
            (XPos::Index(0), 20.0, long_first.as_str()),
            (XPos::Index(0), 25.0, long_first.as_str()),
            (XPos::Index(1), 30.0, "Second category"),
        ],
        "duplicate category+series rows must remain in input order"
    );
    assert_eq!(
        groups.groups[groups.order[1]].points.len(),
        1,
        "missing B/second cell must remain a gap"
    );
    assert_eq!(
        groups.categories,
        [long_first.clone(), "Second category".to_string()],
        "categories must retain first-seen SQL order"
    );
    assert_eq!(
        series_color(0),
        series_color(8),
        "the eight-color palette must cycle"
    );
    assert_ne!(series_color(0), series_color(1));

    let horizontal = ChartPresentation {
        bar_orientation: BarOrientation::Horizontal,
        show_legend: false,
        ..ChartPresentation::default()
    };
    let plan = chart_plan_with_presentation(
        &rows,
        ChartType::Bar,
        Some("series"),
        false,
        None,
        horizontal,
    )
    .expect("horizontal bars must be planned");
    assert_eq!(
        plan.labels,
        [long_first, "Second category".to_string()],
        "full labels, the first SQL category first"
    );
    assert_eq!(plan.tick_count, 2);
    assert_eq!((plan.x_col.as_str(), plan.y_col.as_str()), ("category", "value"));
    assert_eq!((plan.x_label_area, plan.y_label_area), (70, 160));
    assert!(!plan.legend);
    assert_eq!(
        plan.series.rows_plotted(),
        4,
        "four marks with the missing B/second cell left empty"
    );
    assert_eq!(plan.drawn[0].order, [0, 1, 2], "marks keep the order of the rows");

    let one_row = vec![row(vec![("category", words("Only")), ("value", number(7.0))])];
    let plan =
        chart_plan_with_presentation(&one_row, ChartType::Bar, None, false, None, horizontal)
            .expect("one category must be planned");
    assert_eq!(plan.series.rows_plotted(), 1, "exactly one mark");
    assert_eq!(plan.tick_count, 1);
}

#[test]
fn horizontal_bar_category_labels_are_pixel_bounded() {
    const CATEGORY_COUNT: usize = 256;
    const SVG_HEIGHT_PX: usize = 360;
    const MIN_LABEL_PITCH_PX: usize = 12;
    const LABEL_LIMIT: usize = SVG_HEIGHT_PX / MIN_LABEL_PITCH_PX + 2;

    let rows: Vec<ChartRow> = (0..CATEGORY_COUNT)
        .map(|index| {
            let name = format!("category-{index:03} — 東京 — {}", "wide".repeat(8));
            row(vec![
                ("category", words(&name)),
                ("value", number((index + 1) as f64)),
            ])
        })
        .collect();
    let horizontal = ChartPresentation {
        bar_orientation: BarOrientation::Horizontal,
        show_legend: false,
        ..ChartPresentation::default()
    };
    let plan = chart_plan_with_presentation(&rows, ChartType::Bar, None, false, None, horizontal)
        .expect("many-category horizontal bars must be planned");
    assert_eq!(plan.labels.len(), CATEGORY_COUNT);
    assert!(plan.tick_count >= 1);
    assert!(
        plan.tick_count <= LABEL_LIMIT,
        "{} labels for {CATEGORY_COUNT} rows; upper bound is {LABEL_LIMIT}",
        plan.tick_count
    );
}

#[test]
fn legend_and_value_label_contract() {
    let rows = vec![
        numbered(words("北"), 12345.0, "Series α"),
        numbered(words("南"), -678.0, "Series β"),
    ];
    let range = Some([-1000.0, 20_000.0]);
    let names = |plan: &ChartPlan| -> Vec<String> {
        plan.drawn.iter().map(|drawn| drawn.name.clone()).collect()
    };

    let plan = chart_plan_with_presentation(
        &rows,
        ChartType::Bar,
        Some("series"),
        false,
        range,
        ChartPresentation::default(),
    )
    .expect("default bars must be planned");
    assert!(plan.legend, "the default look must keep its legend");
    assert_eq!(names(&plan), s(&["Series α", "Series β"]));

    let labels_without_legend = ChartPresentation {
        label_values: true,
        show_legend: false,
        ..ChartPresentation::default()
    };
    let plan = chart_plan_with_presentation(
        &rows,
        ChartType::Bar,
        Some("series"),
        false,
        range,
        labels_without_legend,
    )
    .expect("labeled bars must be planned");
    assert!(plan.label_values);
    assert!(!plan.legend, "show_legend:false must suppress the bar legend");
    assert_eq!(plan.labels, s(&["北", "南"]));
    let shown: Vec<&str> = plan
        .drawn
        .iter()
        .map(|drawn| plan.series.groups[drawn.place].points[0].y_label.as_str())
        .collect();
    assert_eq!(shown, ["12345", "-678"], "scalars must survive unchanged");

    for chart_type in [ChartType::Line, ChartType::Scatter] {
        let numeric_rows = vec![
            numbered(number(1.0), 2.0, "Hidden α"),
            numbered(number(2.0), 3.0, "Hidden β"),
        ];
        let presentation = ChartPresentation {
            show_legend: false,
            ..ChartPresentation::default()
        };
        let plan = chart_plan_with_presentation(
            &numeric_rows,
            chart_type,
            Some("series"),
            false,
            None,
            presentation,
        )
        .expect("lines and points must be planned");
        assert!(!plan.legend, "show_legend:false must suppress the {chart_type:?} legend");
        assert!(!plan.label_points);
    }

    let point_label_rows = vec![
        numbered(number(1.0), 2.0, "Point α"),
        numbered(number(2.0), 3.0, "Point β"),
    ];
    let plan = chart_plan_with_presentation(
        &point_label_rows,
        ChartType::Line,
        Some("series"),
        true,
        None,
        ChartPresentation::default(),
    )
    .expect("labeled points must be planned");
    assert!(!plan.legend, "label_points:true must suppress the line legend");
    assert!(plan.label_points);

    let png_opts = ChartOptions {
        format: ChartFormat::Png,
        width: 360,
        height: 260,
        y_range: Some(((-1000.0_f64).to_bits(), 20_000.0_f64.to_bits())),
        ..options("category", "value", Some("series"))
    };
    let horizontal_png = ChartPresentation {
        bar_orientation: BarOrientation::Horizontal,
        label_values: true,
        show_legend: false,
        y_scale: MeasureScale::Linear,
    };
    assert_eq!(png_opts.format.mime_type(), "image/png");
    assert!(matches!(
        render_chart_with_presentation(&rows, &png_opts, horizontal_png, None, FINITE),
        Ok(Drawing::Series(plan)) if plan.label_values && !plan.legend
    ));
}

#[test]
fn charts_without_a_category_do_not_suit_their_columns() {
    let nothing = vec![ChartRow::Other];
    let opts = options("c", "v", None);
    let err = render_chart(&nothing, &opts, FINITE).unwrap_err();
    assert_eq!(err.code, ErrorCode::SchemaMismatch);
    assert_eq!(err.message, "No valid data points after filtering");
    let err = render_chart(&Vec::new(), &opts, FINITE).unwrap_err();
    assert_eq!(err.code, ErrorCode::EmptyData);
    let lines = ChartOptions {
        chart_type: ChartType::Line,
        ..options("c", "v", None)
    };
    let err = render_chart(&nothing, &lines, FINITE).unwrap_err();
    assert_eq!(err.code, ErrorCode::SchemaMismatch);
    let numeric = ChartOptions {
        x_as_category: Some(false),
        ..lines
    };
    let err = render_chart(&nothing, &numeric, FINITE).unwrap_err();
    assert_eq!(err.code, ErrorCode::EmptyData);
}

#[test]
fn columns_that_no_row_has_do_not_suit() {
    let rows = vec![
        row(vec![("v", number(1.0))]),
        row(vec![("c", words("a")), ("v", number(2.0))]),
    ];
    let opts = options("nowhere", "v", None);
    let err = render_chart(&rows, &opts, FINITE).unwrap_err();
    assert_eq!(err.code, ErrorCode::SchemaMismatch);
    assert_eq!(err.message, "Column 'nowhere' is missing in every row");
    assert!(matches!(
        render_chart(&rows, &options("c", "v", None), FINITE),
        Ok(Drawing::Series(plan)) if plan.labels == s(&["", "a"])
    ));
}

#[test]
fn colors_count_only_with_a_series_column() {
    let red = Rgb {
        red: 255,
        green: 0,
        blue: 0,
    };
    let rows = vec![row(vec![("c", words("a")), ("v", number(3.0))])];
    let color_of = |series: Option<&str>| {
        let opts = ChartOptions {
            color_map: vec![(String::new(), red)],
            ..options("c", "v", series)
        };
        match render_chart(&rows, &opts, FINITE) {
            Ok(Drawing::Series(plan)) => plan.drawn[0].color,
            other => panic!("{other:?}"),
        }
    };
    assert_eq!(color_of(None), series_color(0));
    assert_eq!(color_of(Some("group")), red);
}

#[test]
fn truth_values_are_measures_and_categories() {
    let rows = vec![
        row(vec![("x", ChartCell::Bool(true)), ("y", ChartCell::Bool(true))]),
        row(vec![("x", ChartCell::Bool(false)), ("y", number(3.0))]),
    ];
    assert_eq!(detect_line_x_mode(&rows, "x"), XMode::Categorical);
    let cols = columns("x", "y", None);
    let series = group_chart_series(&rows, &cols, XMode::Categorical, None).unwrap();
    assert_eq!(series.categories, s(&["true", "false"]));
    assert_eq!(f64::from_bits(series.groups[0].points[0].y), 1.0);
    let err = group_chart_series(&rows, &cols, XMode::Numeric, None).unwrap_err();
    assert_eq!(err.message, "Column 'x' is missing or not numeric in at least one row");
}

#[test]
fn whole_charts_are_planned() {
    let rows = vec![row(vec![("c", words("a")), ("v", number(3.0))])];
    assert!(matches!(
        render_chart(&rows, &options("c", "v", None), FINITE),
        Ok(Drawing::Series(plan)) if plan.title == "v by c" && plan.legend
    ));
    let histogram = ChartOptions {
        chart_type: ChartType::Histogram,
        ..options("v", "v", None)
    };
    assert!(matches!(
        render_chart(&rows, &histogram, FINITE),
        Ok(Drawing::Histogram(plan)) if plan.column == "v" && plan.bins == 20
    ));
    let endless = ChartOptions {
        y_range: Some((f64::MIN.to_bits(), f64::MAX.to_bits())),
        ..options("c", "v", None)
    };
    let spans = RangeSpans {
        x_finite: true,
        y_finite: false,
    };
    let err = render_chart(&rows, &endless, spans).unwrap_err();
    assert_eq!(err.code, ErrorCode::InvalidArgument);
}

#[test]
fn rows_that_cannot_be_drawn_are_told() {
    let cols = columns("x", "y", None);
    let bad = vec![row(vec![("x", number(1.0)), ("y", words("high"))])];
    let err = group_chart_series(&bad, &cols, XMode::Numeric, None).unwrap_err();
    assert_eq!(err.code, ErrorCode::SchemaMismatch);
    assert_eq!(err.message, "Column 'y' is missing or not numeric in at least one row");
    let no_x = vec![row(vec![("y", number(1.0))])];
    let err = group_chart_series(&no_x, &cols, XMode::Numeric, None).unwrap_err();
    assert_eq!(err.message, "Column 'x' is missing or not numeric in at least one row");
    let not_time = vec![row(vec![("x", words("soon")), ("y", number(1.0))])];
    let err = group_chart_series(&not_time, &cols, XMode::Temporal(TemporalKind::Date), None)
        .unwrap_err();
    assert_eq!(
        err.message,
        "Column 'x' value 'soon' is not a recognized DATE / TIMESTAMP / TIMESTAMPTZ form"
    );
    let nothing = vec![ChartRow::Other];
    let err = group_chart_series(&nothing, &cols, XMode::Numeric, None).unwrap_err();
    assert_eq!(err.code, ErrorCode::EmptyData);
}

#[test]
fn typed_measures_count_more_than_cells() {
    let cols = columns("x", "y", None);
    let rows = vec![row(vec![("x", number(1.0)), ("y", number(2.0))])];
    let exact = vec![ChartMeasureValue::Finite {
        coordinate: 3.0_f64.to_bits(),
        display: "3.000".to_string(),
    }];
    let series = group_chart_series_with(&rows, &cols, XMode::Numeric, Some(&exact), &vec![None])
        .expect("grouped");
    let point = &series.groups[0].points[0];
    assert_eq!(f64::from_bits(point.y), 3.0);
    assert_eq!(point.y_label, "3.000");
    let err = group_chart_series(
        &rows,
        &cols,
        XMode::Numeric,
        Some(&vec![ChartMeasureValue::NonFinite]),
    )
    .unwrap_err();
    assert_eq!(err.code, ErrorCode::InvalidArgument);
    let err = group_chart_series(&rows, &cols, XMode::Numeric, Some(&vec![ChartMeasureValue::Null]))
        .unwrap_err();
    assert_eq!(err.code, ErrorCode::SchemaMismatch);
}

#[test]
fn points_in_time_stand_at_their_seconds() {
    let rows = vec![
        row(vec![("ts", words("1970-01-02")), ("v", number(1.0))]),
        row(vec![("ts", words("1970-01-01")), ("v", ChartCell::Bool(true))]),
    ];
    let opts = ChartOptions {
        chart_type: ChartType::Line,
        ..options("ts", "v", None)
    };
    let plan = line_or_scatter(&rows, &opts, true, ChartPresentation::default(), None).unwrap();
    assert_eq!(plan.x_mode, XMode::Temporal(TemporalKind::Date));
    let group = &plan.series.groups[0];
    assert_eq!(group.points[0].x, XPos::Time(86_400));
    assert_eq!(group.points[1].x, XPos::Time(0));
    assert_eq!(f64::from_bits(group.points[1].y), 1.0);
    assert_eq!(plan.drawn[0].order, vec![1, 0]);
    assert_eq!(plan.drawn[0].name, "v");
    assert_eq!(plan.title, "Line chart");
    assert_eq!((plan.x_label_area, plan.y_label_area), (60, 70));
    assert!(plan.legend);
}

#[test]
fn bars_are_planned_over_categories() {
    let rows = layout_rows("First");
    let opts = options("category", "value", Some("series"));
    let plan = draw_bar(&rows, &opts, ChartPresentation::default(), None).unwrap();
    assert_eq!(plan.title, "value by category");
    assert_eq!(plan.labels, s(&["First", "Second category"]));
    assert_eq!(plan.tick_count, 2);
    assert_eq!((plan.x_label_area, plan.y_label_area), (60, 70));
    let names: Vec<&str> = plan.drawn.iter().map(|d| d.name.as_str()).collect();
    assert_eq!(names, ["A", "B"]);
    assert_eq!(plan.drawn[0].color, series_color(0));
    assert_eq!(plan.drawn[1].color, series_color(1));
    let horizontal = ChartPresentation {
        bar_orientation: BarOrientation::Horizontal,
        label_values: true,
        show_legend: false,
        ..ChartPresentation::default()
    };
    let plan = draw_bar(&rows, &opts, horizontal, None).unwrap();
    assert_eq!((plan.x_label_area, plan.y_label_area), (70, 160));
    assert!(plan.label_values);
    assert!(!plan.legend);
    let err = draw_bar(&rows, &ChartOptions::default(), horizontal, None).unwrap_err();
    assert_eq!(err.message, "The 'x' column name is required for this chart type");
}

#[test]
fn numbers_are_categories_in_bar_charts() {
    let rows = vec![
        row(vec![("category", number(10.0)), ("value", number(1.0))]),
        row(vec![("category", number(5.0)), ("value", number(2.0))]),
    ];
    let opts = ChartOptions {
        x_as_category: Some(false),
        ..options("category", "value", None)
    };
    let plan = draw_bar(&rows, &opts, ChartPresentation::default(), None).unwrap();
    assert_eq!(plan.labels, s(&["10", "5"]));
}

#[test]
fn labels_at_points_take_the_place_of_the_legend() {
    let rows = vec![row(vec![("category", number(1.0)), ("value", number(2.0))])];
    let opts = ChartOptions {
        chart_type: ChartType::Scatter,
        label_points: true,
        ..options("category", "value", None)
    };
    let plan = line_or_scatter(&rows, &opts, false, ChartPresentation::default(), None).unwrap();
    assert!(!plan.legend);
    assert!(plan.label_points);
    assert_eq!(plan.title, "Scatter plot");
    assert_eq!(plan.x_label_area, 50);
}

#[test]
fn callers_decide_how_x_values_are_taken() {
    assert_eq!(line_x_mode(Some(true), XMode::Numeric), XMode::Categorical);
    assert_eq!(line_x_mode(Some(false), XMode::Categorical), XMode::Numeric);
    assert_eq!(line_x_mode(None, XMode::Numeric), XMode::Numeric);
}

#[test]
fn histograms_pass_over_what_is_no_number() {
    let rows = vec![
        row(vec![("v", number(1.0))]),
        row(vec![("v", words("x"))]),
        ChartRow::Other,
        row(vec![("v", number(4.0))]),
    ];
    assert_eq!(
        histogram_values(&rows, "v", None).unwrap(),
        vec![1.0_f64.to_bits(), 4.0_f64.to_bits()]
    );
    let err = histogram_values(&rows, "w", None).unwrap_err();
    assert_eq!(err.message, "Column 'w' has no numeric values to histogram");
    let opts = ChartOptions {
        y_column: Some("v".to_string()),
        bins: 0,
        ..ChartOptions::default()
    };
    let plan = draw_histogram(&rows, &opts, None).unwrap();
    assert_eq!(plan.title, "Distribution of v");
    assert_eq!(plan.bins, 1);
    let err = draw_histogram(&rows, &ChartOptions::default(), None).unwrap_err();
    assert_eq!(err.message, "Histogram requires an 'x' or 'y' column name");
}

#[test]
fn the_most_specific_reading_counts() {
    assert_eq!(
        temporal_of(&vec![None, Some((3600, 5))], &vec![Some(6)], Some(7)),
        Some((TemporalKind::DateTimeTz(3600), 5))
    );
    assert_eq!(
        temporal_of(&vec![None], &vec![None, Some(6)], Some(7)),
        Some((TemporalKind::DateTime, 6))
    );
    assert_eq!(
        temporal_of(&vec![], &vec![], Some(7)),
        Some((TemporalKind::Date, 7))
    );
    assert_eq!(parse_temporal("1970-01-01 00:00:01.5"), Some((TemporalKind::DateTime, 1)));
    assert_eq!(parse_temporal("1970-01-01 00:02"), Some((TemporalKind::DateTime, 120)));
    assert_eq!(temporal_label_chars("2026"), 10);
    assert_eq!(temporal_label_chars("2026-05-01 08:30:00"), 19);
}

#[test]
fn texts_are_ordered_as_in_a_dictionary() {
    assert_eq!(standing("a", "b"), Standing::Before);
    assert_eq!(standing("ab", "a"), Standing::Behind);
    assert_eq!(standing("é", "é"), Standing::Same);
    assert_eq!(standing("Z", "a"), Standing::Before);
    assert_eq!(require_column(&Some("x".to_string()), "x").unwrap(), "x");
}

#[test]
fn labels_of_points_in_time_read_back() {
    for secs in [-1, 0, 86_399, 1_777_624_200, 253_402_214_399, -62_135_510_400] {
        for kind in [
            TemporalKind::DateTime,
            TemporalKind::DateTimeTz(0),
            TemporalKind::DateTimeTz(19_800),
            TemporalKind::DateTimeTz(-86_340),
            TemporalKind::DateTimeTz(86_340),
        ] {
            let label = format_temporal_tick(Some(secs), kind);
            assert_eq!(parse_temporal(&label), Some((kind, secs)), "{label}");
        }
        let label = format_temporal_tick(Some(secs), TemporalKind::Date);
        let day = secs - secs.rem_euclid(86_400);
        assert_eq!(parse_temporal(&label), Some((TemporalKind::Date, day)), "{label}");
    }
    assert_eq!(format_temporal_tick(Some(i64::MAX), TemporalKind::Date), "");
    assert_eq!(format_temporal_tick(Some(0), TemporalKind::DateTimeTz(86_400)), "");
}

#[test]
fn suffixes_of_paths_decide() {
    assert!(matches!(
        resolve_chart_format(None, Some("/tmp.d/chart")),
        Ok(ChartFormat::Png)
    ));
    assert!(matches!(
        resolve_chart_format(None, Some("a.tar.svg")),
        Ok(ChartFormat::Svg)
    ));
    assert!(matches!(resolve_chart_format(None, Some(".svg")), Ok(ChartFormat::Png)));
    for path in ["C:\\out\\chart.svg", "out/chart.svg/", "a//b.svg", "chart..svg", "..svg", "a.svg/."] {
        assert!(
            matches!(resolve_chart_format(None, Some(path)), Ok(ChartFormat::Svg)),
            "{path}"
        );
        assert_eq!(
            resolve_chart_format(Some("png"), Some(path)).unwrap_err().code,
            ErrorCode::InvalidArgument
        );
    }
    for path in ["/home/jo.doe/chart", "out.svg/chart", "a.svg/..", ".", "/", "a.d/.svg", "x/.svg/"] {
        assert!(
            matches!(resolve_chart_format(None, Some(path)), Ok(ChartFormat::Png)),
            "{path}"
        );
        assert!(matches!(resolve_chart_format(Some("svg"), Some(path)), Ok(ChartFormat::Svg)));
    }
    let err = resolve_chart_format(None, Some("chart.")).unwrap_err();
    assert!(err.message.starts_with("chart: unsupported output_path extension \".\""));
}

#[test]
fn facts_of_files_are_read_from_their_paths() {
    let up = ChartFileFacts::of("a/../b.png", false);
    assert!(up.leads_upwards);
    assert!(up.has_parent);
    let here = ChartFileFacts::of("b.png", true);
    assert!(!here.leads_upwards && !here.has_parent && here.found);
    assert!(ChartFileFacts::of("/b.png", false).has_parent);
    assert!(!ChartFileFacts::of("a..b/c.png", false).leads_upwards);
    assert_eq!(directory_of("/a/b.png").as_deref(), Some("/a"));
    assert_eq!(directory_of("/"), None);
}
