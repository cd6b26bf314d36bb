//! Charts of query results: what is to be drawn, and what becomes of the image.
//!
//! A floating-point number is held as the 64 bits of its IEEE 754 form.

use vstd::prelude::*;

pub mod color;
pub mod labels;
pub mod number;
pub mod options;
pub mod plan;
pub mod range;
pub mod series;
pub mod temporal;
pub mod text_index;

use crate::error::{ErrorCode, McpError};
use crate::paths;
use crate::text;

verus! {

/// What kind of chart is drawn.
#[derive(Debug, Clone, Copy, PartialEq, Eq, Structural)]
pub enum ChartType {
    /// Bars over categories.
    Bar,
    /// Points that are joined by lines.
    Line,
    /// Points.
    Scatter,
    /// How often values occur.
    Histogram,
}

/// The kind of chart that a name in lower case means.
pub open spec fn chart_type_named(lower: Seq<char>) -> Option<ChartType> {
    if lower == "bar"@ {
        Some(ChartType::Bar)
    } else if lower == "line"@ {
        Some(ChartType::Line)
    } else if lower == "scatter"@ {
        Some(ChartType::Scatter)
    } else if lower == "histogram"@ || lower == "hist"@ {
        Some(ChartType::Histogram)
    } else {
        None
    }
}

/// The words for a name that means no kind of chart.
pub open spec fn unknown_type_words(lower: Seq<char>) -> Seq<char> {
    "Unknown chart type '"@ + lower
        + "'. Expected one of: bar, line, scatter, histogram"@
}

impl ChartType {
    /// Whether `r` is what the name `lower`, in lower case, means.
    pub open spec fn means(r: Result<ChartType, McpError>, lower: Seq<char>) -> bool {
        match chart_type_named(lower) {
            Some(t) => r == Ok::<ChartType, McpError>(t),
            None => r matches Err(e) && e.says(
                ErrorCode::SchemaMismatch,
                unknown_type_words(lower),
            ),
        }
    }

    /// The kind of chart that a name in lower case means.
    pub fn parse_lower(lower: &str) -> (r: Result<ChartType, McpError>)
        ensures
            ChartType::means(r, lower@),
    {
        if text::same_text(lower, "bar") {
            Ok(ChartType::Bar)
        } else if text::same_text(lower, "line") {
            Ok(ChartType::Line)
        } else if text::same_text(lower, "scatter") {
            Ok(ChartType::Scatter)
        } else if text::same_text(lower, "histogram") || text::same_text(lower, "hist") {
            Ok(ChartType::Histogram)
        } else {
            let message = text::cat3(
                "Unknown chart type '",
                lower,
                "'. Expected one of: bar, line, scatter, histogram",
            );
            Err(McpError::new(ErrorCode::SchemaMismatch, message.as_str()))
        }
    }

    /// The kind of chart that a name means, whatever case it is written in.
    pub fn parse(s: &str) -> (r: Result<ChartType, McpError>)
        ensures
            ChartType::means(r, text::unicode_lowercase(s@)),
            vstd::utf8::is_ascii_chars(s@) ==> ChartType::means(r, text::lower(s@)),
    {
        let lower = s.to_lowercase();
        ChartType::parse_lower(lower.as_str())
    }
}

/// How the image is encoded.
#[derive(Debug, Clone, Copy, PartialEq, Eq, Structural)]
pub enum ChartFormat {
    /// As PNG.
    Png,
    /// As SVG.
    Svg,
}

/// The encoding that a name in lower case means.
pub open spec fn chart_format_named(lower: Seq<char>) -> Option<ChartFormat> {
    if lower == "png"@ {
        Some(ChartFormat::Png)
    } else if lower == "svg"@ {
        Some(ChartFormat::Svg)
    } else {
        None
    }
}

impl ChartFormat {
    /// Whether `r` is what the name `lower`, in lower case, means.
    pub open spec fn means(r: Result<ChartFormat, McpError>, lower: Seq<char>) -> bool {
        match chart_format_named(lower) {
            Some(f) => r == Ok::<ChartFormat, McpError>(f),
            None => r matches Err(e) && e.says(
                ErrorCode::UnsupportedFormat,
                "Unknown chart format '"@ + lower + "'. Expected 'png' or 'svg'"@,
            ),
        }
    }

    /// The encoding that a name in lower case means.
    pub fn parse_lower(lower: &str) -> (r: Result<ChartFormat, McpError>)
        ensures
            ChartFormat::means(r, lower@),
    {
        if text::same_text(lower, "png") {
            Ok(ChartFormat::Png)
        } else if text::same_text(lower, "svg") {
            Ok(ChartFormat::Svg)
        } else {
            let message = text::cat3(
                "Unknown chart format '",
                lower,
                "'. Expected 'png' or 'svg'",
            );
            Err(McpError::new(ErrorCode::UnsupportedFormat, message.as_str()))
        }
    }

    /// The encoding that a name means, whatever case it is written in.
    pub fn parse(s: &str) -> (r: Result<ChartFormat, McpError>)
        ensures
            ChartFormat::means(r, text::unicode_lowercase(s@)),
            vstd::utf8::is_ascii_chars(s@) ==> ChartFormat::means(r, text::lower(s@)),
    {
        let lower = s.to_lowercase();
        ChartFormat::parse_lower(lower.as_str())
    }

    /// The media type of the image.
    pub fn mime_type(&self) -> (r: &'static str)
        ensures
            r@ == (match *self {
                ChartFormat::Png => "image/png"@,
                ChartFormat::Svg => "image/svg+xml"@,
            }),
    {
        match self {
            ChartFormat::Png => "image/png",
            ChartFormat::Svg => "image/svg+xml",
        }
    }

    /// The suffix of the names of such files.
    pub open spec fn suffix(self) -> Seq<char> {
        match self {
            ChartFormat::Png => "png"@,
            ChartFormat::Svg => "svg"@,
        }
    }

    /// The suffix of the names of such files.
    pub fn extension(&self) -> (r: &'static str)
        ensures
            r@ == self.suffix(),
    {
        match self {
            ChartFormat::Png => "png",
            ChartFormat::Svg => "svg",
        }
    }
}

/// Whether `r` is the encoding that a file's suffix `ext`, in lower case, means.
pub open spec fn suffix_means(r: Result<ChartFormat, McpError>, ext: Seq<char>) -> bool {
    match chart_format_named(ext) {
        Some(f) => r == Ok::<ChartFormat, McpError>(f),
        None => r matches Err(e) && e.says(
            ErrorCode::InvalidArgument,
            "chart: unsupported output_path extension \"."@ + ext
                + "\" (use .png or .svg, or omit output_path to auto-generate one)"@,
        ),
    }
}

fn format_from_extension(ext: &str) -> (r: Result<ChartFormat, McpError>)
    ensures
        suffix_means(r, ext@),
{
    if text::same_text(ext, "png") {
        Ok(ChartFormat::Png)
    } else if text::same_text(ext, "svg") {
        Ok(ChartFormat::Svg)
    } else {
        let message = text::cat3(
            "chart: unsupported output_path extension \".",
            ext,
            "\" (use .png or .svg, or omit output_path to auto-generate one)",
        );
        Err(McpError::new(ErrorCode::InvalidArgument, message.as_str()))
    }
}

/// Whether `r` is the encoding that a name and a file's suffix ask for together; the
/// name is given as it is and in lower case, and the suffix in lower case.
pub open spec fn format_resolved(
    r: Result<ChartFormat, McpError>,
    explicit: Option<(Seq<char>, Seq<char>)>,
    ext: Option<Seq<char>>,
) -> bool {
    match explicit {
        None => match ext {
            None => r == Ok::<ChartFormat, McpError>(ChartFormat::Png),
            Some(e) => suffix_means(r, e),
        },
        Some((name, lower)) => match (chart_format_named(lower), ext) {
            (Some(f), Some(e)) => match chart_format_named(e) {
                Some(g) => if f == g {
                    r == Ok::<ChartFormat, McpError>(f)
                } else {
                    r matches Err(m) && m.says(
                        ErrorCode::InvalidArgument,
                        "chart: format=\""@ + name
                            + "\" conflicts with output_path extension \"."@ + e
                            + "\" — remove one or make them agree"@,
                    )
                },
                None => suffix_means(r, e),
            },
            _ => ChartFormat::means(r, lower),
        },
    }
}

/// The encoding that a name, given as it is and in lower case, and a file's suffix in
/// lower case ask for together: they must agree.
pub fn resolve_format(explicit: Option<(&str, &str)>, ext: Option<&str>) -> (r: Result<
    ChartFormat,
    McpError,
>)
    ensures
        format_resolved(
            r,
            match explicit {
                Some((name, lower)) => Some((name@, lower@)),
                None => None,
            },
            match ext {
                Some(e) => Some(e@),
                None => None,
            },
        ),
{
    match explicit {
        None => match ext {
            None => Ok(ChartFormat::Png),
            Some(e) => format_from_extension(e),
        },
        Some((name, lower)) => {
            let from_format = match ChartFormat::parse_lower(lower) {
                Ok(f) => f,
                Err(e) => {
                    return Err(e);
                },
            };
            match ext {
                None => Ok(from_format),
                Some(ext) => {
                    let from_ext = match format_from_extension(ext) {
                        Ok(f) => f,
                        Err(e) => {
                            return Err(e);
                        },
                    };
                    if from_format == from_ext {
                        Ok(from_format)
                    } else {
                        let message = text::cat5(
                            "chart: format=\"",
                            name,
                            "\" conflicts with output_path extension \".",
                            ext,
                            "\" — remove one or make them agree",
                        );
                        Err(McpError::new(ErrorCode::InvalidArgument, message.as_str()))
                    }
                },
            }
        },
    }
}

/// A name as it is and in lower case.
pub open spec fn with_lower(name: Option<&str>) -> Option<(Seq<char>, Seq<char>)> {
    match name {
        Some(name) => Some((name@, text::unicode_lowercase(name@))),
        None => None,
    }
}

/// Whether `ext` stands in `path` behind a point, and `r` is the encoding that a name
/// and that suffix ask for together.
pub open spec fn resolved_with(
    r: Result<ChartFormat, McpError>,
    explicit: Option<(Seq<char>, Seq<char>)>,
    path: Seq<char>,
    ext: Seq<char>,
) -> bool {
    text::has_part(path, "."@ + ext) && format_resolved(r, explicit, Some(text::lower(ext)))
}

/// The encoding that a name and a path ask for together: they must agree, and where
/// there is neither it is PNG. What the path's last name ends in counts, as std reads it;
/// left open is only what one platform alone reads in a path: a backslash in its end, a
/// colon before the point, and two separators at its beginning.
pub fn resolve_chart_format(explicit_format: Option<&str>, output_path: Option<&str>) -> (r: Result<
    ChartFormat,
    McpError,
>)
    ensures
        match output_path {
            None => format_resolved(r, with_lower(explicit_format), None),
            Some(path) => format_resolved(r, with_lower(explicit_format), None)
                || exists|ext: Seq<char>|
                resolved_with(r, with_lower(explicit_format), path@, ext),
        },
        output_path matches Some(path) ==> (!path@.contains('.') || paths::names_no_file(path@))
            ==> format_resolved(r, with_lower(explicit_format), None),
        output_path matches Some(path) ==> forall|
            front: Seq<char>,
            ext: Seq<char>,
            tail: Seq<char>,
        | #[trigger]
            paths::ends_in_suffix(path@, front, ext, tail) ==> format_resolved(
                r,
                with_lower(explicit_format),
                Some(text::lower(ext)),
            ),
        output_path matches Some(path) ==> forall|
            front: Seq<char>,
            name: Seq<char>,
            tail: Seq<char>,
        | #[trigger]
            paths::ends_without_suffix(path@, front, name, tail) ==> format_resolved(
                r,
                with_lower(explicit_format),
                None,
            ),
{
    let ext = match output_path {
        Some(path) => paths::path_extension(path),
        None => None,
    };
    let lowered = match explicit_format {
        Some(name) => name.to_lowercase(),
        None => String::new(),
    };
    let explicit = match explicit_format {
        Some(name) => Some((name, lowered.as_str())),
        None => None,
    };
    match ext {
        Some(e) => {
            let lower = text::to_lower(e.as_str());
            let r = resolve_format(explicit, Some(lower.as_str()));
            assert(resolved_with(r, with_lower(explicit_format), output_path->0@, e@));
            r
        },
        None => resolve_format(explicit, None),
    }
}

/// What becomes of the image.
#[derive(Debug)]
pub enum ChartDisposition {
    /// It is written to a file.
    WriteOnly {
        /// The path of the file.
        path: String,
    },
    /// It is returned.
    InlineOnly,
    /// It is written to a file and returned.
    WriteAndInline {
        /// The path of the file.
        path: String,
    },
}

impl ChartDisposition {
    /// The path of the file, where there is one.
    pub open spec fn target(self) -> Option<Seq<char>> {
        match self {
            ChartDisposition::WriteOnly { path } => Some(path@),
            ChartDisposition::InlineOnly => None,
            ChartDisposition::WriteAndInline { path } => Some(path@),
        }
    }

    /// The path of the file, where there is one.
    pub fn path(&self) -> (r: Option<&str>)
        ensures
            match r {
                Some(p) => self.target() == Some(p@),
                None => self.target() is None,
            },
    {
        match self {
            ChartDisposition::WriteOnly { path } => Some(path.as_str()),
            ChartDisposition::InlineOnly => None,
            ChartDisposition::WriteAndInline { path } => Some(path.as_str()),
        }
    }

    /// Whether the image is returned.
    pub fn wants_inline(&self) -> (r: bool)
        ensures
            r == !(self is WriteOnly),
    {
        match self {
            ChartDisposition::WriteOnly { .. } => false,
            ChartDisposition::InlineOnly => true,
            ChartDisposition::WriteAndInline { .. } => true,
        }
    }
}

/// What becomes of the image: it is always written or returned, and `generated` is the
/// path to write it to where the caller names none.
pub fn resolve_chart_disposition(inline: bool, output_path: Option<&str>, generated: &str) -> (r:
    ChartDisposition)
    ensures
        (r is InlineOnly) == (inline && output_path is None),
        (r is WriteAndInline) == (inline && output_path is Some),
        (r is WriteOnly) == !inline,
        r.target() == (match output_path {
            Some(p) => Some(p@),
            None => if inline {
                None
            } else {
                Some(generated@)
            },
        }),
{
    match output_path {
        Some(p) => {
            if inline {
                ChartDisposition::WriteAndInline { path: p.to_owned() }
            } else {
                ChartDisposition::WriteOnly { path: p.to_owned() }
            }
        },
        None => {
            if inline {
                ChartDisposition::InlineOnly
            } else {
                ChartDisposition::WriteOnly { path: generated.to_owned() }
            }
        },
    }
}

/// The directory of generated files, below that of temporary files.
pub const CHART_DIR: &'static str = "hyperdb-charts";

/// The name of a generated file.
pub open spec fn generated_name(format: ChartFormat, nanos: nat, pid: nat, counter: nat) -> Seq<char> {
    "chart-"@ + text::decimal(nanos) + "-"@ + text::decimal(pid) + "-"@ + text::decimal(counter)
        + "."@ + format.suffix()
}

/// The directory and the name of a generated file, below the directory of temporary
/// files: `nanos` is the time, `pid` the process, and `counter` never comes twice in a
/// process.
pub fn auto_generated_chart_path(format: ChartFormat, nanos: u64, pid: u32, counter: u64) -> (r: (
    &'static str,
    String,
))
    ensures
        r.0@ == CHART_DIR@,
        r.1@ == generated_name(format, nanos as nat, pid as nat, counter as nat),
{
    let time = text::decimal_text(nanos);
    let process = text::decimal_text(pid as u64);
    let count = text::decimal_text(counter);
    let name = text::cat8(
        "chart-",
        time.as_str(),
        "-",
        process.as_str(),
        "-",
        count.as_str(),
        ".",
        format.extension(),
    );
    (CHART_DIR, name)
}

/// No two generated files have the same name, unless the time, the process and the
/// counter are all the same.
pub proof fn law_generated_names_differ(
    format: ChartFormat,
    a: (nat, nat, nat),
    b: (nat, nat, nat),
)
    ensures
        generated_name(format, a.0, a.1, a.2) == generated_name(format, b.0, b.1, b.2) <==> a == b,
{
    if generated_name(format, a.0, a.1, a.2) == generated_name(format, b.0, b.1, b.2) {
        reveal_strlit("chart-");
        reveal_strlit("-");
        reveal_strlit(".");
        let head = "chart-"@;
        let end = "."@ + format.suffix();
        let a3 = text::decimal(a.2) + end;
        let b3 = text::decimal(b.2) + end;
        let a2 = text::decimal(a.1) + ("-"@ + a3);
        let b2 = text::decimal(b.1) + ("-"@ + b3);
        let a1 = text::decimal(a.0) + ("-"@ + a2);
        let b1 = text::decimal(b.0) + ("-"@ + b2);
        assert("-"@.len() == 1 && "-"@[0] == '-' && "."@.len() == 1 && "."@[0] == '.');
        assert(generated_name(format, a.0, a.1, a.2) =~= head + a1);
        assert(generated_name(format, b.0, b.1, b.2) =~= head + b1);
        assert((head + a1).skip(head.len() as int) =~= a1);
        assert((head + b1).skip(head.len() as int) =~= b1);
        text::law_decimal_reads_back(a.0);
        text::law_decimal_reads_back(a.1);
        text::law_decimal_reads_back(a.2);
        text::law_decimal_reads_back(b.0);
        text::law_decimal_reads_back(b.1);
        text::law_decimal_reads_back(b.2);
        text::lemma_digits_part(text::decimal(a.0), "-"@ + a2, text::decimal(b.0), "-"@ + b2);
        assert(("-"@ + a2).skip(1) =~= a2);
        assert(("-"@ + b2).skip(1) =~= b2);
        text::lemma_digits_part(text::decimal(a.1), "-"@ + a3, text::decimal(b.1), "-"@ + b3);
        assert(("-"@ + a3).skip(1) =~= a3);
        assert(("-"@ + b3).skip(1) =~= b3);
        text::lemma_digits_part(text::decimal(a.2), end, text::decimal(b.2), end);
    }
}

fn has_backslash(path: &[char]) -> (r: bool)
    ensures
        r == path@.contains('\\'),
{
    let mut i: usize = 0;
    while i < path.len()
        invariant
            i <= path@.len(),
            forall|k: int| 0 <= k < i ==> #[trigger] path@[k] != '\\',
        decreases path@.len() - i,
    {
        if path[i] == '\\' {
            assert(path@[i as int] == '\\');
            return true;
        }
        i = i + 1;
    }
    false
}

fn has_upward_part(path: &[char]) -> (r: bool)
    ensures
        r == exists|at: int| paths::upward_part_at(path@, at),
{
    let n: usize = path.len();
    let mut i: usize = 0;
    while i < n && n - i >= 2
        invariant
            n == path@.len(),
            i <= n,
            forall|k: int| 0 <= k < i ==> !paths::upward_part_at(path@, k),
        decreases n - i,
    {
        if path[i] == '.' && path[i + 1] == '.' && (i == 0 || path[i - 1] == '/') && (n - i == 2
            || path[i + 2] == '/') {
            assert(paths::upward_part_at(path@, i as int));
            return true;
        }
        i = i + 1;
    }
    false
}

/// Whether a path leads upwards on every platform, as its text alone tells.
pub fn leads_upwards(path: &str) -> (r: bool)
    ensures
        r == paths::text_leads_upwards(path@),
{
    let chars = text::chars_of(path);
    let at_server = chars.len() > 1 && (chars[0] == '/' || chars[0] == '\\') && (chars[1] == '/'
        || chars[1] == '\\');
    !at_server && !has_backslash(chars.as_slice()) && has_upward_part(chars.as_slice())
}

/// What is known of the file to write.
#[derive(Debug, Clone, Copy, PartialEq, Eq, Structural)]
pub struct ChartFileFacts {
    /// Whether its path has a part that leads upwards, as the platform reads it.
    pub leads_upwards: bool,
    /// Whether it is there.
    pub found: bool,
    /// Whether its path names a directory.
    pub has_parent: bool,
}

impl ChartFileFacts {
    /// What is known of the file at `path`, where `found` says whether it is there: whether
    /// the path has a step upwards, and a directory that is written out.
    pub fn of(path: &str, found: bool) -> (r: ChartFileFacts)
        ensures
            paths::upward_fits(path@, r.leads_upwards),
            r.found == found,
            exists|dir: Option<Seq<char>>| #[trigger]
                paths::parent_fits(path@, dir) && r.has_parent == (dir is Some && dir->0.len() > 0),
    {
        let dir = paths::directory_of(path);
        let has_parent = match &dir {
            Some(d) => !d.as_str().is_empty(),
            None => false,
        };
        assert(paths::parent_fits(path@, text::opt_text(dir)));
        ChartFileFacts { leads_upwards: paths::has_parent_step(path), found, has_parent }
    }
}

/// What is to be done to write the image.
#[derive(Debug, Clone, Copy, PartialEq, Eq, Structural)]
pub enum ChartWrite {
    /// Make the directory, and those above it, and write.
    MakeDirAndWrite,
    /// Write.
    Write,
}

/// Whether the image may be written to `path`, and what is to be done for it: no path
/// may lead upwards, by its text or as the platform reads it, and a file that is there is kept unless the caller asks otherwise.
pub fn write_chart_to_disk(path: &str, facts: ChartFileFacts, overwrite: bool) -> (r: Result<
    ChartWrite,
    McpError,
>)
    ensures
        if facts.leads_upwards || paths::text_leads_upwards(path@) {
            r matches Err(e) && e.says(
                ErrorCode::InvalidArgument,
                "Chart output path '"@ + path@ + "' may not contain '..' components"@,
            )
        } else if !overwrite && facts.found {
            r matches Err(e) && e.says(
                ErrorCode::PermissionDenied,
                "Refusing to overwrite existing chart: "@ + path@
                    + " (pass overwrite=true to replace it)"@,
            )
        } else {
            r == Ok::<ChartWrite, McpError>(
                if facts.has_parent {
                    ChartWrite::MakeDirAndWrite
                } else {
                    ChartWrite::Write
                },
            )
        },
{
    if facts.leads_upwards || leads_upwards(path) {
        let message = text::cat3(
            "Chart output path '",
            path,
            "' may not contain '..' components",
        );
        return Err(McpError::new(ErrorCode::InvalidArgument, message.as_str()));
    }
    if !overwrite && facts.found {
        let message = text::cat3(
            "Refusing to overwrite existing chart: ",
            path,
            " (pass overwrite=true to replace it)",
        );
        return Err(McpError::new(ErrorCode::PermissionDenied, message.as_str()));
    }
    if facts.has_parent {
        Ok(ChartWrite::MakeDirAndWrite)
    } else {
        Ok(ChartWrite::Write)
    }
}

/// The error for a directory that could not be made.
pub fn chart_dir_failed(path: &str, reason: &str) -> (r: McpError)
    ensures
        r.says(
            ErrorCode::InternalError,
            "Failed to create parent directory for chart '"@ + path@ + "': "@ + reason@,
        ),
{
    let message = text::cat4(
        "Failed to create parent directory for chart '",
        path,
        "': ",
        reason,
    );
    McpError::new(ErrorCode::InternalError, message.as_str())
}

/// The error for an image that could not be written.
pub fn chart_write_failed(path: &str, reason: &str) -> (r: McpError)
    ensures
        r.says(
            ErrorCode::InternalError,
            "Failed to write chart to '"@ + path@ + "': "@ + reason@,
        ),
{
    let message = text::cat4("Failed to write chart to '", path, "': ", reason);
    McpError::new(ErrorCode::InternalError, message.as_str())
}

/// The error for an image that could not be drawn.
pub fn chart_drawing_failed(reason: &str) -> (r: McpError)
    ensures
        r.says(ErrorCode::InternalError, "Chart rendering error: "@ + reason@),
{
    let message = text::cat2("Chart rendering error: ", reason);
    McpError::new(ErrorCode::InternalError, message.as_str())
}

/// The names of the chart types; any other name is refused, and told in its lower case.
pub proof fn law_chart_types(r: Result<ChartType, McpError>, lower: Seq<char>)
    requires
        ChartType::means(r, lower),
    ensures
        lower == "bar"@ ==> r == Ok::<ChartType, McpError>(ChartType::Bar),
        lower == "line"@ ==> r == Ok::<ChartType, McpError>(ChartType::Line),
        lower == "scatter"@ ==> r == Ok::<ChartType, McpError>(ChartType::Scatter),
        lower == "histogram"@ || lower == "hist"@ ==> r == Ok::<ChartType, McpError>(
            ChartType::Histogram,
        ),
        lower != "bar"@ && lower != "line"@ && lower != "scatter"@ && lower != "histogram"@ && lower
            != "hist"@ ==> (r matches Err(e) && e.code == ErrorCode::SchemaMismatch && e.message@
            == "Unknown chart type '"@ + lower
            + "'. Expected one of: bar, line, scatter, histogram"@),
{
    reveal_strlit("bar");
    reveal_strlit("line");
    reveal_strlit("scatter");
    reveal_strlit("histogram");
    reveal_strlit("hist");
    assert("bar"@.len() == 3 && "line"@.len() == 4 && "scatter"@.len() == 7 && "histogram"@.len()
        == 9 && "hist"@.len() == 4);
    assert("line"@[0] == 'l' && "hist"@[0] == 'h');
}

/// The names of the chart formats; any other name is refused, and told in its lower case.
pub proof fn law_chart_formats(r: Result<ChartFormat, McpError>, lower: Seq<char>)
    requires
        ChartFormat::means(r, lower),
    ensures
        lower == "png"@ ==> r == Ok::<ChartFormat, McpError>(ChartFormat::Png),
        lower == "svg"@ ==> r == Ok::<ChartFormat, McpError>(ChartFormat::Svg),
        lower != "png"@ && lower != "svg"@ ==> (r matches Err(e) && e.code
            == ErrorCode::UnsupportedFormat && e.message@ == "Unknown chart format '"@ + lower
            + "'. Expected 'png' or 'svg'"@),
        ChartFormat::Png.suffix() == "png"@,
        ChartFormat::Svg.suffix() == "svg"@,
{
    reveal_strlit("png");
    reveal_strlit("svg");
    assert("png"@[0] == 'p' && "svg"@[0] == 's');
}

/// Which format a chart has. Without a name the suffix of its path decides, and without that
/// it is PNG; a name and a suffix have to agree, and a suffix that is none is refused even
/// where a name is given, unless the name is refused first.
pub proof fn law_resolved_formats(
    r: Result<ChartFormat, McpError>,
    name: Seq<char>,
    lower: Seq<char>,
    ext: Seq<char>,
)
    ensures
        format_resolved(r, None, None) ==> r == Ok::<ChartFormat, McpError>(ChartFormat::Png),
        format_resolved(r, None, Some(ext)) ==> {
            &&& ext == "png"@ ==> r == Ok::<ChartFormat, McpError>(ChartFormat::Png)
            &&& ext == "svg"@ ==> r == Ok::<ChartFormat, McpError>(ChartFormat::Svg)
            &&& ext != "png"@ && ext != "svg"@ ==> (r matches Err(e) && e.code
                == ErrorCode::InvalidArgument && e.message@
                == "chart: unsupported output_path extension \"."@ + ext
                + "\" (use .png or .svg, or omit output_path to auto-generate one)"@)
        },
        format_resolved(r, Some((name, lower)), None) ==> ChartFormat::means(r, lower),
        format_resolved(r, Some((name, lower)), Some(ext)) ==> {
            &&& lower != "png"@ && lower != "svg"@ ==> (r matches Err(e) && e.code
                == ErrorCode::UnsupportedFormat)
            &&& lower == ext && lower == "png"@ ==> r == Ok::<ChartFormat, McpError>(
                ChartFormat::Png,
            )
            &&& lower == ext && lower == "svg"@ ==> r == Ok::<ChartFormat, McpError>(
                ChartFormat::Svg,
            )
            &&& (lower == "png"@ && ext == "svg"@) || (lower == "svg"@ && ext == "png"@) ==> (
            r matches Err(e) && e.code == ErrorCode::InvalidArgument && e.message@
                == "chart: format=\""@ + name + "\" conflicts with output_path extension \"."@
                + ext + "\" — remove one or make them agree"@)
            &&& (lower == "png"@ || lower == "svg"@) && ext != "png"@ && ext != "svg"@ ==> (
            r matches Err(e) && e.code == ErrorCode::InvalidArgument && e.message@
                == "chart: unsupported output_path extension \"."@ + ext
                + "\" (use .png or .svg, or omit output_path to auto-generate one)"@)
        },
{
    reveal_strlit("png");
    reveal_strlit("svg");
    assert("png"@[0] == 'p' && "svg"@[0] == 's');
}

/// Generated names tell the time, the process and the count, and have the suffix of the
/// format.
pub proof fn law_generated_names(nanos: nat, pid: nat, counter: nat)
    ensures
        generated_name(ChartFormat::Png, nanos, pid, counter) == "chart-"@ + text::decimal(nanos)
            + "-"@ + text::decimal(pid) + "-"@ + text::decimal(counter) + "."@ + "png"@,
        generated_name(ChartFormat::Svg, nanos, pid, counter) == "chart-"@ + text::decimal(nanos)
            + "-"@ + text::decimal(pid) + "-"@ + text::decimal(counter) + "."@ + "svg"@,
        CHART_DIR@ == "hyperdb-charts"@,
{
}

/// A chart is written to the path that its disposition tells, and nowhere where it is only
/// shown.
pub proof fn law_dispositions(path: String)
    ensures
        (ChartDisposition::WriteOnly { path }).target() == Some(path@),
        (ChartDisposition::WriteAndInline { path }).target() == Some(path@),
        ChartDisposition::InlineOnly.target() is None,
{
}

/// A format that is named is looked up by its name in lower case and told by the name as it
/// was given.
pub proof fn law_named_formats(
    r: Result<ChartFormat, McpError>,
    name: &str,
    explicit: Option<(Seq<char>, Seq<char>)>,
    path: Seq<char>,
    ext: Seq<char>,
)
    ensures
        with_lower(Some(name)) == Some((name@, text::unicode_lowercase(name@))),
        with_lower(None) is None,
        resolved_with(r, explicit, path, ext) ==> text::has_part(path, "."@ + ext)
            && format_resolved(r, explicit, Some(text::lower(ext))),
{
}

} // verus!
