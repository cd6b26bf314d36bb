//! The points of a chart, from the rows of a query's result.

use vstd::prelude::*;

use crate::chart::number;
use crate::chart::number::{rank_of, ONE_BITS, ZERO_BITS};
use crate::chart::temporal;
use crate::chart::temporal::{parse_temporal, TemporalKind};
use crate::chart::text_index;
use crate::chart::text_index::TextIndex;
use crate::error::{ErrorCode, McpError};
use crate::text;

verus! {

/// A cell of a row.
#[derive(Debug)]
pub enum ChartCell {
    /// No value.
    Null,
    /// A truth value.
    Bool(bool),
    /// A number.
    Number {
        /// Its bits.
        bits: u64,
        /// Its text.
        shown: String,
    },
    /// A text.
    Text(String),
    /// Anything else.
    Other {
        /// Its text.
        shown: String,
    },
}

impl ChartCell {
    /// The number that a cell stands for: truth values count as one and zero.
    pub open spec fn spec_number(self) -> Option<u64> {
        match self {
            ChartCell::Number { bits, .. } => Some(bits),
            ChartCell::Bool(b) => Some(
                if b {
                    ONE_BITS
                } else {
                    ZERO_BITS
                },
            ),
            _ => None,
        }
    }

    /// The text that a cell is shown as.
    pub open spec fn spec_text(self) -> Seq<char> {
        match self {
            ChartCell::Null => Seq::empty(),
            ChartCell::Bool(b) => text::bool_word(b),
            ChartCell::Number { shown, .. } => shown@,
            ChartCell::Text(s) => s@,
            ChartCell::Other { shown } => shown@,
        }
    }

    /// The number that this cell is.
    pub open spec fn spec_plain_number(self) -> Option<u64> {
        match self {
            ChartCell::Number { bits, .. } => Some(bits),
            _ => None,
        }
    }

    /// The number that this cell is.
    pub fn plain_number(&self) -> (r: Option<u64>)
        ensures
            r == self.spec_plain_number(),
    {
        match self {
            ChartCell::Number { bits, .. } => Some(*bits),
            _ => None,
        }
    }

    /// The number that this cell stands for.
    pub fn as_number(&self) -> (r: Option<u64>)
        ensures
            r == self.spec_number(),
    {
        match self {
            ChartCell::Number { bits, .. } => Some(*bits),
            ChartCell::Bool(b) => {
                if *b {
                    Some(ONE_BITS)
                } else {
                    Some(ZERO_BITS)
                }
            },
            _ => None,
        }
    }

    /// The text that this cell is shown as.
    pub fn as_string(&self) -> (r: String)
        ensures
            r@ == self.spec_text(),
    {
        match self {
            ChartCell::Null => {
                let empty = String::new();
                assert(empty@ =~= Seq::empty());
                empty
            },
            ChartCell::Bool(b) => text::bool_text(*b).to_owned(),
            ChartCell::Number { shown, .. } => shown.clone(),
            ChartCell::Text(s) => s.clone(),
            ChartCell::Other { shown } => shown.clone(),
        }
    }
}

/// A row.
#[derive(Debug)]
pub enum ChartRow {
    /// Cells by their columns.
    Object(Vec<(String, ChartCell)>),
    /// Anything else: it is passed over.
    Other,
}

/// The cell of a column.
pub open spec fn cell_named(cells: Seq<(String, ChartCell)>, name: Seq<char>) -> Option<ChartCell>
    decreases cells.len(),
{
    if cells.len() == 0 {
        None
    } else if cells.last().0@ == name {
        Some(cells.last().1)
    } else {
        cell_named(cells.drop_last(), name)
    }
}

fn find_cell<'a>(cells: &'a Vec<(String, ChartCell)>, name: &str) -> (r: Option<&'a ChartCell>)
    ensures
        match r {
            Some(c) => cell_named(cells@, name@) == Some(*c),
            None => cell_named(cells@, name@) is None,
        },
{
    let mut i: usize = cells.len();
    assert(cells@.take(i as int) =~= cells@);
    while i > 0
        invariant
            i <= cells@.len(),
            cell_named(cells@, name@) == cell_named(cells@.take(i as int), name@),
        decreases i,
    {
        proof {
            assert(cells@.take(i as int).drop_last() =~= cells@.take(i - 1));
        }
        if text::same_text(cells[i - 1].0.as_str(), name) {
            return Some(&cells[i - 1].1);
        }
        i = i - 1;
    }
    None
}

/// A measure with its type, as the database tells it.
#[derive(Debug)]
pub enum ChartMeasureValue {
    /// A finite number.
    Finite {
        /// Its bits.
        coordinate: u64,
        /// Its exact text.
        display: String,
    },
    /// A number that is not finite.
    NonFinite,
    /// No value.
    Null,
    /// No number.
    NonNumeric,
}

/// An error, as plain values.
pub type Complaint = (ErrorCode, Seq<char>);

/// The complaint about a column without numbers.
pub open spec fn non_numeric(column: Seq<char>) -> Complaint {
    (
        ErrorCode::SchemaMismatch,
        "Column '"@ + column + "' is missing or not numeric in at least one row"@,
    )
}

/// The complaint about a column with a number that is not finite.
pub open spec fn non_finite(column: Seq<char>) -> Complaint {
    (ErrorCode::InvalidArgument, "Column '"@ + column + "' contains a non-finite numeric value"@)
}

/// The measure of a row: what its type tells counts more than what the cell tells.
pub open spec fn measure_of(
    measure: Option<ChartMeasureValue>,
    cell: ChartCell,
    column: Seq<char>,
) -> Result<(u64, Seq<char>), Complaint> {
    match measure {
        Some(ChartMeasureValue::Finite { coordinate, display }) => Ok((coordinate, display@)),
        Some(ChartMeasureValue::NonFinite) => Err(non_finite(column)),
        Some(ChartMeasureValue::Null) => Err(non_numeric(column)),
        Some(ChartMeasureValue::NonNumeric) => Err(non_numeric(column)),
        None => match cell.spec_number() {
            Some(bits) => Ok((bits, cell.spec_text())),
            None => Err(non_numeric(column)),
        },
    }
}

fn non_numeric_measure_error(column: &str) -> (r: McpError)
    ensures
        r.says(non_numeric(column@).0, non_numeric(column@).1),
{
    let message = text::cat3(
        "Column '",
        column,
        "' is missing or not numeric in at least one row",
    );
    McpError::new(ErrorCode::SchemaMismatch, message.as_str())
}

fn non_finite_measure_error(column: &str) -> (r: McpError)
    ensures
        r.says(non_finite(column@).0, non_finite(column@).1),
{
    let message = text::cat3("Column '", column, "' contains a non-finite numeric value");
    McpError::new(ErrorCode::InvalidArgument, message.as_str())
}

/// The measure of a row, and its text.
pub fn chart_measure_coordinate_and_label(
    measure: Option<&ChartMeasureValue>,
    cell: &ChartCell,
    column: &str,
) -> (r: Result<(u64, String), McpError>)
    ensures
        match measure_of(
            match measure {
                Some(m) => Some(*m),
                None => None,
            },
            *cell,
            column@,
        ) {
            Ok(p) => r matches Ok(q) && q.0 == p.0 && q.1@ == p.1,
            Err(c) => r matches Err(e) && e.says(c.0, c.1),
        },
{
    match measure {
        Some(ChartMeasureValue::Finite { coordinate, display }) => Ok(
            (*coordinate, display.clone()),
        ),
        Some(ChartMeasureValue::NonFinite) => Err(non_finite_measure_error(column)),
        Some(ChartMeasureValue::Null) => Err(non_numeric_measure_error(column)),
        Some(ChartMeasureValue::NonNumeric) => Err(non_numeric_measure_error(column)),
        None => match cell.as_number() {
            Some(bits) => Ok((bits, cell.as_string())),
            None => Err(non_numeric_measure_error(column)),
        },
    }
}

/// How the x values are taken.
#[derive(Debug, Clone, Copy, PartialEq, Eq, Structural)]
pub enum XMode {
    /// As numbers.
    Numeric,
    /// As categories, in the order in which they are first seen.
    Categorical,
    /// As points in time.
    Temporal(TemporalKind),
}

/// How the x values are taken, where the caller does not say: as the first of them asks
/// for, whose text reads as the point in time `time`.
pub open spec fn detected_mode(cell: Option<ChartCell>, time: Option<(TemporalKind, i64)>) -> XMode {
    match cell {
        None => XMode::Categorical,
        Some(c) => if c.spec_plain_number() is Some {
            XMode::Numeric
        } else {
            match (c, time) {
                (ChartCell::Text(_), Some((kind, _))) => XMode::Temporal(kind),
                _ => XMode::Categorical,
            }
        },
    }
}

/// How the x values are taken, where the first of them is `cell` and its text reads as
/// the point in time `time`.
pub fn x_mode_of(cell: Option<&ChartCell>, time: Option<(TemporalKind, i64)>) -> (r: XMode)
    ensures
        r == detected_mode(
            match cell {
                Some(c) => Some(*c),
                None => None,
            },
            time,
        ),
{
    match cell {
        None => XMode::Categorical,
        Some(c) => {
            if c.plain_number().is_some() {
                return XMode::Numeric;
            }
            match c {
                ChartCell::Text(_) => match time {
                    Some(t) => XMode::Temporal(t.0),
                    None => XMode::Categorical,
                },
                _ => XMode::Categorical,
            }
        },
    }
}

/// The first cell of a column.
pub open spec fn first_cell(rows: Seq<ChartRow>, column: Seq<char>) -> Option<ChartCell> {
    if rows.len() == 0 {
        None
    } else {
        match rows[0] {
            ChartRow::Object(cells) => cell_named(cells@, column),
            ChartRow::Other => None,
        }
    }
}

/// How the x values of a line or of points are taken, where the caller does not say.
pub fn detect_line_x_mode(rows: &Vec<ChartRow>, x_col: &str) -> (r: XMode)
    ensures
        r == detected_mode(
            first_cell(rows@, x_col@),
            match first_cell(rows@, x_col@) {
                Some(ChartCell::Text(s)) => temporal::temporal(s@),
                _ => None,
            },
        ),
{
    if rows.len() == 0 {
        return XMode::Categorical;
    }
    let cell = match &rows[0] {
        ChartRow::Object(cells) => find_cell(cells, x_col),
        ChartRow::Other => None,
    };
    let time = match cell {
        Some(ChartCell::Text(s)) => parse_temporal(s.as_str()),
        _ => None,
    };
    x_mode_of(cell, time)
}

/// How the x values of a line or of points are taken: as the caller says, else as
/// `detected`.
pub fn line_x_mode(x_as_category: Option<bool>, detected: XMode) -> (r: XMode)
    ensures
        r == (match x_as_category {
            Some(true) => XMode::Categorical,
            Some(false) => XMode::Numeric,
            None => detected,
        }),
{
    match x_as_category {
        Some(true) => XMode::Categorical,
        Some(false) => XMode::Numeric,
        None => detected,
    }
}

/// Where a point stands on the x axis.
#[derive(Debug, Clone, Copy, PartialEq, Eq, Structural)]
pub enum XPos {
    /// At the category of this number.
    Index(usize),
    /// At the number with these bits.
    Number(u64),
    /// At this point in time, in seconds since 1970.
    Time(i64),
}

/// A point of a chart.
#[derive(Debug)]
pub struct ChartPoint {
    /// Where it stands on the x axis.
    pub x: XPos,
    /// The bits of its measure.
    pub y: u64,
    /// The text of its x value.
    pub x_label: String,
    /// The text of its measure.
    pub y_label: String,
}

/// A point, as plain values.
pub struct PointFacts {
    /// Where it stands on the x axis.
    pub x: XPos,
    /// The bits of its measure.
    pub y: u64,
    /// The text of its x value.
    pub x_label: Seq<char>,
    /// The text of its measure.
    pub y_label: Seq<char>,
}

impl View for ChartPoint {
    type V = PointFacts;

    open spec fn view(&self) -> PointFacts {
        PointFacts { x: self.x, y: self.y, x_label: self.x_label@, y_label: self.y_label@ }
    }
}

/// The columns of a chart.
#[derive(Debug)]
pub struct ChartColumns {
    /// That of the x values.
    pub x: String,
    /// That of the measure.
    pub y: String,
    /// That which tells the series apart.
    pub series: Option<String>,
}

/// The points that were read, each with its series, and the categories in the order in
/// which they were first seen.
#[verifier::ext_equal]
pub struct ReadState {
    /// The series and points.
    pub points: Seq<(Seq<char>, PointFacts)>,
    /// The categories.
    pub categories: Seq<Seq<char>>,
}

/// Where a point stands on the x axis, and the categories with its own.
pub open spec fn x_position(
    cell: ChartCell,
    column: Seq<char>,
    mode: XMode,
    time: Option<i64>,
    categories: Seq<Seq<char>>,
) -> Result<(XPos, Seq<Seq<char>>), Complaint> {
    let label = cell.spec_text();
    match mode {
        XMode::Categorical => if categories.contains(label) {
            Ok((XPos::Index(categories.index_of(label) as usize), categories))
        } else {
            Ok((XPos::Index(categories.len() as usize), categories.push(label)))
        },
        XMode::Numeric => match cell.spec_plain_number() {
            Some(bits) => Ok((XPos::Number(bits), categories)),
            None => Err(non_numeric(column)),
        },
        XMode::Temporal(_) => match time {
            Some(secs) => Ok((XPos::Time(secs), categories)),
            None => Err(
                (
                    ErrorCode::SchemaMismatch,
                    "Column '"@ + column + "' value '"@ + label
                        + "' is not a recognized DATE / TIMESTAMP / TIMESTAMPTZ form"@,
                ),
            ),
        },
    }
}

/// What was read with one more row, whose x value reads as the point in time `time`.
pub open spec fn read_row(
    state: ReadState,
    row: ChartRow,
    columns: ChartColumns,
    mode: XMode,
    measure: Option<ChartMeasureValue>,
    time: Option<i64>,
) -> Result<ReadState, Complaint> {
    match row {
        ChartRow::Other => Ok(state),
        ChartRow::Object(cells) => match cell_named(cells@, columns.y@) {
            None => Err(non_numeric(columns.y@)),
            Some(y_cell) => match measure_of(measure, y_cell, columns.y@) {
                Err(c) => Err(c),
                Ok((y, y_label)) => {
                    let x_cell = match cell_named(cells@, columns.x@) {
                        Some(c) => c,
                        None => ChartCell::Null,
                    };
                    match x_position(x_cell, columns.x@, mode, time, state.categories) {
                        Err(c) => Err(c),
                        Ok((x, categories)) => {
                            let key = match columns.series {
                                Some(s) => match cell_named(cells@, s@) {
                                    Some(c) => c.spec_text(),
                                    None => Seq::empty(),
                                },
                                None => Seq::empty(),
                            };
                            Ok(
                                ReadState {
                                    points: state.points.push(
                                        (
                                            key,
                                            PointFacts {
                                                x,
                                                y,
                                                x_label: x_cell.spec_text(),
                                                y_label,
                                            },
                                        ),
                                    ),
                                    categories,
                                },
                            )
                        },
                    }
                },
            },
        },
    }
}

/// The typed measure of a row, where there is one.
pub open spec fn measure_at(measures: Option<Seq<ChartMeasureValue>>, i: int) -> Option<
    ChartMeasureValue,
> {
    match measures {
        Some(m) => if i < m.len() {
            Some(m[i])
        } else {
            None
        },
        None => None,
    }
}

/// What was read from the first `n` rows, or the first complaint.
pub open spec fn read_rows(
    rows: Seq<ChartRow>,
    columns: ChartColumns,
    mode: XMode,
    measures: Option<Seq<ChartMeasureValue>>,
    times: Seq<Option<i64>>,
    n: nat,
) -> Result<ReadState, Complaint>
    decreases n,
{
    if n == 0 {
        Ok(ReadState { points: Seq::empty(), categories: Seq::empty() })
    } else {
        match read_rows(rows, columns, mode, measures, times, (n - 1) as nat) {
            Err(c) => Err(c),
            Ok(state) => read_row(
                state,
                rows[n - 1],
                columns,
                mode,
                measure_at(measures, n - 1),
                times[n - 1],
            ),
        }
    }
}

/// The points of a series, in order.
pub open spec fn points_of(points: Seq<(Seq<char>, PointFacts)>, key: Seq<char>) -> Seq<PointFacts>
    decreases points.len(),
{
    if points.len() == 0 {
        Seq::empty()
    } else if points.last().0 == key {
        points_of(points.drop_last(), key).push(points.last().1)
    } else {
        points_of(points.drop_last(), key)
    }
}

/// A series.
#[derive(Debug)]
pub struct SeriesGroup {
    /// Its name.
    pub key: String,
    /// Its points, in the order of the rows.
    pub points: Vec<ChartPoint>,
}

/// The points of a vector, as plain values.
pub open spec fn facts_of(points: Seq<ChartPoint>) -> Seq<PointFacts> {
    points.map_values(|p: ChartPoint| p@)
}

/// The series of a chart.
#[derive(Debug)]
pub struct ChartSeries {
    /// The series, in the order in which they are first seen.
    pub groups: Vec<SeriesGroup>,
    /// The places of the series in the order of their names, in which they are drawn.
    pub order: Vec<usize>,
    /// The categories, in the order in which they are first seen.
    pub categories: Vec<String>,
}

/// Whether there is a series of this name.
pub open spec fn has_series(groups: Seq<SeriesGroup>, key: Seq<char>) -> bool {
    exists|g: int| 0 <= g < groups.len() && #[trigger] groups[g].key@ == key
}

/// Whether `groups` are the series of `points`: each series once, with all its points.
pub open spec fn groups_hold(
    groups: Seq<SeriesGroup>,
    points: Seq<(Seq<char>, PointFacts)>,
) -> bool {
    &&& forall|g: int|
        0 <= g < groups.len() ==> facts_of((#[trigger] groups[g]).points@) == points_of(
            points,
            groups[g].key@,
        ) && groups[g].points@.len() > 0
    &&& forall|a: int, b: int|
        0 <= a < b < groups.len() ==> #[trigger] groups[a].key@ != #[trigger] groups[b].key@
    &&& forall|i: int| 0 <= i < points.len() ==> has_series(groups, #[trigger] points[i].0)
}

impl ChartSeries {
    /// Whether these are the series of what was read, drawn in the order of their names.
    pub open spec fn holds(self, state: ReadState) -> bool {
        &&& groups_hold(self.groups@, state.points)
        &&& text::texts(self.categories@) == state.categories
        &&& self.order@.len() == self.groups@.len()
        &&& forall|i: int|
            0 <= i < self.order@.len() ==> #[trigger] self.order@[i] < self.groups@.len()
        &&& forall|i: int, j: int|
            0 <= i < j < self.order@.len() ==> text_index::below(
                self.groups@[#[trigger] self.order@[i] as int].key@,
                self.groups@[#[trigger] self.order@[j] as int].key@,
            )
    }
}

/// The series that are being read.
struct SeriesBuilder {
    groups: Vec<SeriesGroup>,
    group_index: TextIndex,
    categories: Vec<String>,
    category_index: TextIndex,
}

/// Whether an index holds the place of each text.
spec fn indexes(index: Map<Seq<char>, usize>, keys: Seq<Seq<char>>) -> bool {
    &&& keys.no_duplicates()
    &&& forall|k: Seq<char>|
        #[trigger] index.dom().contains(k) ==> index[k] < keys.len() && keys[index[k] as int] == k
    &&& forall|i: int|
        0 <= i < keys.len() ==> index.dom().contains(#[trigger] keys[i]) && index[keys[i]] == i
}

spec fn group_keys(groups: Seq<SeriesGroup>) -> Seq<Seq<char>> {
    groups.map_values(|g: SeriesGroup| g.key@)
}

impl SeriesBuilder {
    spec fn builds(self, state: ReadState) -> bool {
        &&& self.group_index.wf()
        &&& self.category_index.wf()
        &&& indexes(self.group_index@, group_keys(self.groups@))
        &&& text::texts(self.categories@) == state.categories
        &&& indexes(self.category_index@, state.categories)
        &&& groups_hold(self.groups@, state.points)
    }

    fn new() -> (r: SeriesBuilder)
        ensures
            r.builds(ReadState { points: Seq::empty(), categories: Seq::empty() }),
    {
        let r = SeriesBuilder {
            groups: Vec::new(),
            group_index: TextIndex::new(),
            categories: Vec::new(),
            category_index: TextIndex::new(),
        };
        assert(text::texts(r.categories@) =~= Seq::empty());
        r
    }

    fn category(&mut self, label: &str, Ghost(state): Ghost<ReadState>) -> (r: usize)
        requires
            old(self).builds(state),
        ensures
            final(self).builds(
                ReadState {
                    categories: if state.categories.contains(label@) {
                        state.categories
                    } else {
                        state.categories.push(label@)
                    },
                    ..state
                },
            ),
            r == (if state.categories.contains(label@) {
                state.categories.index_of(label@) as usize
            } else {
                state.categories.len() as usize
            }),
            final(self).groups == old(self).groups,
            final(self).group_index == old(self).group_index,
    {
        let ghost keys = state.categories;
        match self.category_index.find(label) {
            Some(i) => {
                proof {
                    assert(keys[i as int] == label@);
                    assert(keys.contains(label@));
                    let j = keys.index_of(label@);
                    assert(keys[j] == label@);
                    assert(j == i);
                }
                i
            },
            None => {
                let i: usize = self.categories.len();
                proof {
                    assert(!keys.contains(label@)) by {
                        if keys.contains(label@) {
                            let j = choose|j: int| 0 <= j < keys.len() && keys[j] == label@;
                            assert(self.category_index@.dom().contains(keys[j]));
                        }
                    }
                }
                let ghost before = self.categories@;
                let ghost index = self.category_index@;
                self.category_index.insert(label, i);
                self.categories.push(label.to_owned());
                proof {
                    assert(text::texts(self.categories@) =~= keys.push(label@));
                    lemma_indexes_push(index, keys, label@);
                }
                i
            },
        }
    }

    fn add(&mut self, key: &str, point: ChartPoint, Ghost(state): Ghost<ReadState>)
        requires
            old(self).builds(state),
        ensures
            final(self).builds(
                ReadState { points: state.points.push((key@, point@)), ..state },
            ),
    {
        let ghost before = *self;
        let ghost points = state.points;
        let ghost more = points.push((key@, point@));
        let ghost facts = point@;
        assert(more.drop_last() =~= points);
        match self.group_index.find(key) {
            Some(g) => {
                proof {
                    assert(group_keys(before.groups@)[g as int] == key@);
                }
                let group = &mut self.groups[g];
                group.points.push(point);
                proof {
                    assert(facts_of(self.groups@[g as int].points@) =~= facts_of(
                        before.groups@[g as int].points@,
                    ).push(facts));
                    lemma_group_grown(before.groups@, self.groups@, g as int, points, key@, facts);
                    assert(group_keys(self.groups@) =~= group_keys(before.groups@));
                }
            },
            None => {
                let g: usize = self.groups.len();
                proof {
                    let keys = group_keys(before.groups@);
                    assert(!keys.contains(key@)) by {
                        if keys.contains(key@) {
                            let j = choose|j: int| 0 <= j < keys.len() && keys[j] == key@;
                            assert(before.group_index@.dom().contains(keys[j]));
                        }
                    }
                    lemma_indexes_push(before.group_index@, keys, key@);
                }
                let mut fresh: Vec<ChartPoint> = Vec::new();
                fresh.push(point);
                self.group_index.insert(key, g);
                self.groups.push(SeriesGroup { key: key.to_owned(), points: fresh });
                proof {
                    assert(group_keys(self.groups@) =~= group_keys(before.groups@).push(key@));
                    assert(facts_of(fresh@) =~= seq![facts]);
                    assert forall|i: int| 0 <= i < before.groups@.len() implies
                        #[trigger] before.groups@[i].key@ != key@ by {
                        let keys = group_keys(before.groups@);
                        assert(keys[i] == before.groups@[i].key@);
                        assert(keys.contains(keys[i]));
                    }
                    lemma_group_added(before.groups@, self.groups@, points, key@, facts);
                }
            },
        }
    }
}

proof fn lemma_indexes_push(index: Map<Seq<char>, usize>, keys: Seq<Seq<char>>, key: Seq<char>)
    requires
        indexes(index, keys),
        !keys.contains(key),
        keys.len() <= usize::MAX,
    ensures
        indexes(index.insert(key, keys.len() as usize), keys.push(key)),
{
    let more = keys.push(key);
    let grown = index.insert(key, keys.len() as usize);
    assert forall|i: int, j: int| 0 <= i < more.len() && 0 <= j < more.len() && i != j implies more[i]
        != more[j] by {
        if i < keys.len() && j < keys.len() {
            assert(keys[i] != keys[j]);
        } else if i < keys.len() {
            assert(keys.contains(keys[i]));
        } else {
            assert(keys.contains(keys[j]));
        }
    }
    assert forall|i: int| 0 <= i < more.len() implies grown.dom().contains(#[trigger] more[i])
        && grown[more[i]] == i by {
        if i < keys.len() {
            assert(index.dom().contains(keys[i]) && index[keys[i]] == i);
            assert(keys.contains(keys[i]));
        }
    }
}

proof fn lemma_points_none(points: Seq<(Seq<char>, PointFacts)>, key: Seq<char>)
    requires
        forall|i: int| 0 <= i < points.len() ==> #[trigger] points[i].0 != key,
    ensures
        points_of(points, key) == Seq::<PointFacts>::empty(),
    decreases points.len(),
{
    if points.len() > 0 {
        assert(points[points.len() - 1].0 != key);
        assert forall|i: int| 0 <= i < points.drop_last().len() implies #[trigger] points.drop_last()[i].0
            != key by {
            assert(points.drop_last()[i] == points[i]);
        }
        lemma_points_none(points.drop_last(), key);
    }
}

proof fn lemma_group_grown(
    before: Seq<SeriesGroup>,
    after: Seq<SeriesGroup>,
    g: int,
    points: Seq<(Seq<char>, PointFacts)>,
    key: Seq<char>,
    facts: PointFacts,
)
    requires
        groups_hold(before, points),
        0 <= g < before.len(),
        after.len() == before.len(),
        before[g].key@ == key,
        after[g].key == before[g].key,
        facts_of(after[g].points@) == facts_of(before[g].points@).push(facts),
        forall|i: int| 0 <= i < before.len() && i != g ==> #[trigger] after[i] == before[i],
    ensures
        groups_hold(after, points.push((key, facts))),
{
    let more = points.push((key, facts));
    assert(more.drop_last() =~= points);
    assert forall|i: int| 0 <= i < after.len() implies facts_of((#[trigger] after[i]).points@)
        == points_of(more, after[i].key@) && after[i].points@.len() > 0 by {
        assert(facts_of(before[i].points@) == points_of(points, before[i].key@));
        if i == g {
            assert(facts_of(after[g].points@).len() == after[g].points@.len());
        } else {
            assert(after[i] == before[i]);
            if i < g {
                assert(before[i].key@ != before[g].key@);
            } else {
                assert(before[g].key@ != before[i].key@);
            }
        }
    }
    assert forall|a: int, b: int| 0 <= a < b < after.len() implies #[trigger] after[a].key@
        != #[trigger] after[b].key@ by {
        assert(before[a].key@ != before[b].key@);
    }
    assert forall|i: int| 0 <= i < more.len() implies has_series(after, #[trigger] more[i].0) by {
        if i < points.len() {
            assert(has_series(before, points[i].0));
            let h = choose|h: int| 0 <= h < before.len() && #[trigger] before[h].key@ == points[i].0;
            assert(after[h].key@ == more[i].0);
        } else {
            assert(after[g].key@ == more[i].0);
        }
    }
}

proof fn lemma_group_added(
    before: Seq<SeriesGroup>,
    after: Seq<SeriesGroup>,
    points: Seq<(Seq<char>, PointFacts)>,
    key: Seq<char>,
    facts: PointFacts,
)
    requires
        groups_hold(before, points),
        after.len() == before.len() + 1,
        forall|i: int| 0 <= i < before.len() ==> #[trigger] after[i] == before[i],
        forall|i: int| 0 <= i < before.len() ==> #[trigger] before[i].key@ != key,
        after.last().key@ == key,
        facts_of(after.last().points@) == seq![facts],
    ensures
        groups_hold(after, points.push((key, facts))),
{
    let more = points.push((key, facts));
    let n = before.len() as int;
    assert(more.drop_last() =~= points);
    assert forall|i: int| 0 <= i < points.len() implies #[trigger] points[i].0 != key by {
        assert(has_series(before, points[i].0));
        let h = choose|h: int| 0 <= h < before.len() && #[trigger] before[h].key@ == points[i].0;
        assert(before[h].key@ != key);
    }
    lemma_points_none(points, key);
    assert(after[n] == after.last());
    assert forall|i: int| 0 <= i < after.len() implies facts_of((#[trigger] after[i]).points@)
        == points_of(more, after[i].key@) && after[i].points@.len() > 0 by {
        if i < n {
            assert(after[i] == before[i]);
            assert(before[i].key@ != key);
        } else {
            assert(points_of(more, key) =~= seq![facts]);
            assert(facts_of(after[n].points@).len() == after[n].points@.len());
        }
    }
    assert forall|a: int, b: int| 0 <= a < b < after.len() implies #[trigger] after[a].key@
        != #[trigger] after[b].key@ by {
        assert(after[a] == before[a]);
        if b < n {
            assert(after[b] == before[b]);
            assert(before[a].key@ != before[b].key@);
        } else {
            assert(before[a].key@ != key);
        }
    }
    assert forall|i: int| 0 <= i < more.len() implies has_series(after, #[trigger] more[i].0) by {
        if i < points.len() {
            assert(has_series(before, points[i].0));
            let h = choose|h: int| 0 <= h < before.len() && #[trigger] before[h].key@ == points[i].0;
            assert(after[h] == before[h]);
            assert(after[h].key@ == more[i].0);
        } else {
            assert(after[n].key@ == more[i].0);
        }
    }
}

/// The series of a chart, where `times` are the points in time that the x values of the
/// rows read as.
pub fn group_chart_series_with(
    rows: &Vec<ChartRow>,
    columns: &ChartColumns,
    x_mode: XMode,
    measures: Option<&Vec<ChartMeasureValue>>,
    times: &Vec<Option<i64>>,
) -> (r: Result<ChartSeries, McpError>)
    requires
        times@.len() == rows@.len(),
    ensures
        is_grouping(r, read_rows(
            rows@,
            *columns,
            x_mode,
            measures_view(measures),
            times@,
            rows@.len(),
        )),
        r matches Ok(s) ==> point_count(s.groups@, s.groups@.len()) <= rows@.len(),
{
    let mut builder = SeriesBuilder::new();
    let ghost mut state = ReadState { points: Seq::empty(), categories: Seq::empty() };
    let ghost typed = measures_view(measures);
    let mut i: usize = 0;
    while i < rows.len()
        invariant
            i <= rows@.len(),
            times@.len() == rows@.len(),
            typed == measures_view(measures),
            builder.builds(state),
            read_rows(rows@, *columns, x_mode, typed, times@, i as nat) == Ok::<
                ReadState,
                Complaint,
            >(state),
        decreases rows@.len() - i,
    {
        let ghost before = state;
        let ghost next = read_row(
            before,
            rows@[i as int],
            *columns,
            x_mode,
            measure_at(typed, i as int),
            times@[i as int],
        );
        assert(read_rows(rows@, *columns, x_mode, typed, times@, (i + 1) as nat) == next);
        proof {
            if next is Err {
                lemma_complaint_stays(rows@, *columns, x_mode, typed, times@, (i + 1) as nat, rows@.len());
            }
        }
        if let ChartRow::Object(cells) = &rows[i] {
            let y_cell = match find_cell(cells, columns.y.as_str()) {
                Some(c) => c,
                None => {
                    return Err(non_numeric_measure_error(columns.y.as_str()));
                },
            };
            let measure = match measures {
                Some(m) => {
                    if i < m.len() {
                        Some(&m[i])
                    } else {
                        None
                    }
                },
                None => None,
            };
            let (y, y_label) = match chart_measure_coordinate_and_label(
                measure,
                y_cell,
                columns.y.as_str(),
            ) {
                Ok(p) => p,
                Err(e) => {
                    return Err(e);
                },
            };
            let null = ChartCell::Null;
            let x_cell = match find_cell(cells, columns.x.as_str()) {
                Some(c) => c,
                None => &null,
            };
            let x_label = x_cell.as_string();
            let x = match x_mode {
                XMode::Categorical => {
                    let index = builder.category(x_label.as_str(), Ghost(state));
                    proof {
                        state = ReadState {
                            categories: if before.categories.contains(x_label@) {
                                before.categories
                            } else {
                                before.categories.push(x_label@)
                            },
                            ..before
                        };
                    }
                    XPos::Index(index)
                },
                XMode::Numeric => match x_cell.plain_number() {
                    Some(bits) => XPos::Number(bits),
                    None => {
                        return Err(non_numeric_measure_error(columns.x.as_str()));
                    },
                },
                XMode::Temporal(_) => match times[i] {
                    Some(secs) => XPos::Time(secs),
                    None => {
                        let message = text::cat5(
                            "Column '",
                            columns.x.as_str(),
                            "' value '",
                            x_label.as_str(),
                            "' is not a recognized DATE / TIMESTAMP / TIMESTAMPTZ form",
                        );
                        return Err(McpError::new(ErrorCode::SchemaMismatch, message.as_str()));
                    },
                },
            };
            let key = match &columns.series {
                Some(s) => match find_cell(cells, s.as_str()) {
                    Some(c) => c.as_string(),
                    None => String::new(),
                },
                None => String::new(),
            };
            proof {
                if columns.series is None || cell_named(cells@, columns.series->0@) is None {
                    assert(key@ =~= Seq::empty());
                }
            }
            let point = ChartPoint { x, y, x_label, y_label };
            let ghost facts = point@;
            builder.add(key.as_str(), point, Ghost(state));
            proof {
                state = ReadState { points: state.points.push((key@, facts)), ..state };
                assert(next == Ok::<ReadState, Complaint>(state));
            }
        }
        i = i + 1;
    }
    if builder.groups.len() == 0 {
        proof {
            lemma_points_there(builder.groups@, state.points);
        }
        return Err(McpError::new(ErrorCode::EmptyData, "No valid data points after filtering"));
    }
    proof {
        lemma_points_there(builder.groups@, state.points);
    }
    let order = builder.group_index.values();
    let r = ChartSeries { groups: builder.groups, order, categories: builder.categories };
    proof {
        lemma_drawn_in_order(builder.group_index, builder.groups@, order@);
        law_every_point_is_drawn(builder.groups@, state.points);
        lemma_points_within_rows(rows@, *columns, x_mode, typed, times@, rows@.len());
    }
    Ok(r)
}

/// Whether a row has a column of this name.
pub open spec fn row_has(row: ChartRow, name: Seq<char>) -> bool {
    match row {
        ChartRow::Other => false,
        ChartRow::Object(cells) => cell_named(cells@, name) is Some,
    }
}

/// Whether some row has a column of this name.
pub open spec fn has_column(rows: Seq<ChartRow>, name: Seq<char>) -> bool {
    exists|i: int| 0 <= i < rows.len() && row_has(#[trigger] rows[i], name)
}

/// Whether some row has a column of this name.
pub fn column_there(rows: &Vec<ChartRow>, name: &str) -> (r: bool)
    ensures
        r == has_column(rows@, name@),
{
    let mut i: usize = 0;
    while i < rows.len()
        invariant
            i <= rows@.len(),
            forall|k: int| 0 <= k < i ==> !row_has(#[trigger] rows@[k], name@),
        decreases rows@.len() - i,
    {
        if let ChartRow::Object(cells) = &rows[i] {
            if let Some(_) = find_cell(cells, name) {
                assert(row_has(rows@[i as int], name@));
                return true;
            }
        }
        i = i + 1;
    }
    false
}

/// The typed measures as a sequence.
pub open spec fn measures_view(measures: Option<&Vec<ChartMeasureValue>>) -> Option<
    Seq<ChartMeasureValue>,
> {
    match measures {
        Some(m) => Some(m@),
        None => None,
    }
}

/// Whether `r` are the series of what was read: there must be points.
pub open spec fn is_grouping(
    r: Result<ChartSeries, McpError>,
    read: Result<ReadState, Complaint>,
) -> bool {
    match read {
        Err(c) => r matches Err(e) && e.says(c.0, c.1),
        Ok(state) => if state.points.len() == 0 {
            r matches Err(e) && e.says(
                ErrorCode::EmptyData,
                "No valid data points after filtering"@,
            )
        } else {
            r matches Ok(s) && s.holds(state)
        },
    }
}

proof fn lemma_points_within_rows(
    rows: Seq<ChartRow>,
    columns: ChartColumns,
    mode: XMode,
    measures: Option<Seq<ChartMeasureValue>>,
    times: Seq<Option<i64>>,
    n: nat,
)
    ensures
        read_rows(rows, columns, mode, measures, times, n) matches Ok(state) ==> state.points.len()
            <= n,
    decreases n,
{
    if n > 0 {
        lemma_points_within_rows(rows, columns, mode, measures, times, (n - 1) as nat);
    }
}

/// Rows that are read never make a chart empty: a complaint about a row is another one.
pub proof fn lemma_complaints_are_of_rows(
    rows: Seq<ChartRow>,
    columns: ChartColumns,
    mode: XMode,
    measures: Option<Seq<ChartMeasureValue>>,
    times: Seq<Option<i64>>,
    n: nat,
)
    ensures
        read_rows(rows, columns, mode, measures, times, n) matches Err(c) ==> c.0
            != ErrorCode::EmptyData,
    decreases n,
{
    if n > 0 {
        lemma_complaints_are_of_rows(rows, columns, mode, measures, times, (n - 1) as nat);
    }
}

/// Rows that are no objects are passed over: of such rows alone nothing is read.
pub proof fn law_rows_without_cells_are_passed_over(
    rows: Seq<ChartRow>,
    columns: ChartColumns,
    mode: XMode,
    measures: Option<Seq<ChartMeasureValue>>,
    times: Seq<Option<i64>>,
    n: nat,
)
    requires
        n <= rows.len(),
        forall|i: int| 0 <= i < n ==> #[trigger] rows[i] == ChartRow::Other,
    ensures
        read_rows(rows, columns, mode, measures, times, n) == Ok::<ReadState, Complaint>(
            ReadState { points: Seq::empty(), categories: Seq::empty() },
        ),
    decreases n,
{
    if n > 0 {
        law_rows_without_cells_are_passed_over(
            rows,
            columns,
            mode,
            measures,
            times,
            (n - 1) as nat,
        );
    }
}

proof fn lemma_complaint_stays(
    rows: Seq<ChartRow>,
    columns: ChartColumns,
    mode: XMode,
    measures: Option<Seq<ChartMeasureValue>>,
    times: Seq<Option<i64>>,
    n: nat,
    m: nat,
)
    requires
        n <= m,
        read_rows(rows, columns, mode, measures, times, n) is Err,
    ensures
        read_rows(rows, columns, mode, measures, times, m) == read_rows(
            rows,
            columns,
            mode,
            measures,
            times,
            n,
        ),
    decreases m - n,
{
    if n < m {
        lemma_complaint_stays(rows, columns, mode, measures, times, n, (m - 1) as nat);
    }
}

proof fn lemma_points_there(groups: Seq<SeriesGroup>, points: Seq<(Seq<char>, PointFacts)>)
    requires
        groups_hold(groups, points),
    ensures
        points.len() > 0 <==> groups.len() > 0,
{
    if groups.len() > 0 {
        assert(facts_of(groups[0].points@).len() == groups[0].points@.len());
        if points.len() == 0 {
            assert(points_of(points, groups[0].key@) =~= Seq::empty());
        }
    }
    if points.len() > 0 {
        assert(has_series(groups, points[0].0));
        let g = choose|g: int| 0 <= g < groups.len() && #[trigger] groups[g].key@ == points[0].0;
        assert(0 <= g < groups.len());
    }
}

proof fn lemma_drawn_in_order(index: TextIndex, groups: Seq<SeriesGroup>, order: Seq<usize>)
    requires
        indexes(index@, group_keys(groups)),
        order.len() == index.keys().len(),
        forall|i: int, j: int|
            0 <= i < j < index.keys().len() ==> text_index::below(
                #[trigger] index.keys()[i],
                #[trigger] index.keys()[j],
            ),
        forall|i: int| 0 <= i < order.len() ==> #[trigger] order[i] == index@[index.keys()[i]],
        forall|i: int|
            0 <= i < index.keys().len() ==> index@.dom().contains(#[trigger] index.keys()[i]),
        forall|key: Seq<char>| index@.dom().contains(key) ==> #[trigger] index.keys().contains(key),
    ensures
        order.len() == groups.len(),
        forall|i: int| 0 <= i < order.len() ==> #[trigger] order[i] < groups.len(),
        forall|i: int, j: int|
            0 <= i < j < order.len() ==> text_index::below(
                groups[#[trigger] order[i] as int].key@,
                groups[#[trigger] order[j] as int].key@,
            ),
{
    let keys = group_keys(groups);
    let sorted = index.keys();
    assert forall|i: int| 0 <= i < order.len() implies #[trigger] order[i] < groups.len()
        && groups[order[i] as int].key@ == sorted[i] by {
        assert(index@.dom().contains(sorted[i]));
        assert(keys[index@[sorted[i]] as int] == sorted[i]);
    }
    assert forall|i: int, j: int| 0 <= i < j < order.len() implies text_index::below(
        groups[#[trigger] order[i] as int].key@,
        groups[#[trigger] order[j] as int].key@,
    ) by {
        assert(text_index::below(sorted[i], sorted[j]));
    }
    assert(sorted.no_duplicates()) by {
        assert forall|i: int, j: int| 0 <= i < sorted.len() && 0 <= j < sorted.len() && i != j implies
            sorted[i] != sorted[j] by {
            text_index::law_below_is_total(sorted[i], sorted[i]);
            if i < j {
                assert(text_index::below(sorted[i], sorted[j]));
            } else {
                assert(text_index::below(sorted[j], sorted[i]));
            }
        }
    }
    sorted.unique_seq_to_set();
    keys.unique_seq_to_set();
    assert(sorted.to_set() =~= keys.to_set()) by {
        assert forall|k: Seq<char>| sorted.to_set().contains(k) <==> keys.to_set().contains(k) by {
            if sorted.contains(k) {
                let i = choose|i: int| 0 <= i < sorted.len() && sorted[i] == k;
                assert(index@.dom().contains(sorted[i]));
                assert(keys[index@[k] as int] == k);
            }
            if keys.contains(k) {
                let i = choose|i: int| 0 <= i < keys.len() && keys[i] == k;
                assert(index@.dom().contains(keys[i]));
                assert(sorted.contains(k));
            }
        }
    }
}

/// The points in time that the x values of the rows read as, where they are taken so.
pub open spec fn times_of(rows: Seq<ChartRow>, column: Seq<char>, mode: XMode) -> Seq<Option<i64>> {
    rows.map_values(|row: ChartRow| time_of(row, column, mode))
}

/// The point in time that the x value of a row reads as, where it is taken so.
pub open spec fn time_of(row: ChartRow, column: Seq<char>, mode: XMode) -> Option<i64> {
    match (mode, row) {
        (XMode::Temporal(_), ChartRow::Object(cells)) => {
            let label = match cell_named(cells@, column) {
                Some(c) => c.spec_text(),
                None => Seq::empty(),
            };
            match temporal::temporal(label) {
                Some((_, secs)) => Some(secs),
                None => None,
            }
        },
        _ => None,
    }
}

/// The series of a chart: rows that are no objects are passed over, and the first row
/// that cannot be drawn is told.
pub fn group_chart_series(
    rows: &Vec<ChartRow>,
    columns: &ChartColumns,
    x_mode: XMode,
    measures: Option<&Vec<ChartMeasureValue>>,
) -> (r: Result<ChartSeries, McpError>)
    ensures
        is_grouping(
            r,
            read_rows(
                rows@,
                *columns,
                x_mode,
                measures_view(measures),
                times_of(rows@, columns.x@, x_mode),
                rows@.len(),
            ),
        ),
        r matches Ok(s) ==> point_count(s.groups@, s.groups@.len()) <= rows@.len(),
{
    let mut times: Vec<Option<i64>> = Vec::new();
    let temporal = match x_mode {
        XMode::Temporal(_) => true,
        _ => false,
    };
    let mut i: usize = 0;
    while i < rows.len()
        invariant
            i <= rows@.len(),
            temporal == (x_mode is Temporal),
            times@.len() == i,
            forall|j: int|
                0 <= j < i ==> #[trigger] times@[j] == time_of(rows@[j], columns.x@, x_mode),
        decreases rows@.len() - i,
    {
        let time = match &rows[i] {
            ChartRow::Object(cells) => {
                if temporal {
                    let label = match find_cell(cells, columns.x.as_str()) {
                        Some(c) => c.as_string(),
                        None => {
                            let empty = String::new();
                            assert(empty@ =~= Seq::empty());
                            empty
                        },
                    };
                    match parse_temporal(label.as_str()) {
                        Some(t) => Some(t.1),
                        None => None,
                    }
                } else {
                    None
                }
            },
            ChartRow::Other => None,
        };
        times.push(time);
        i = i + 1;
    }
    assert(times@ =~= times_of(rows@, columns.x@, x_mode));
    group_chart_series_with(rows, columns, x_mode, measures, &times)
}

/// How many points the first `n` series have.
pub open spec fn point_count(groups: Seq<SeriesGroup>, n: nat) -> nat
    decreases n,
{
    if n == 0 || n > groups.len() {
        0
    } else {
        point_count(groups, (n - 1) as nat) + groups[n - 1].points@.len()
    }
}

/// The bits of the measures of points.
pub open spec fn measures_of(points: Seq<ChartPoint>) -> Seq<u64> {
    points.map_values(|p: ChartPoint| p.y)
}

/// The bits of the measures of the first `n` series.
pub open spec fn all_measures(groups: Seq<SeriesGroup>, n: nat) -> Seq<u64>
    decreases n,
{
    if n == 0 || n > groups.len() {
        Seq::empty()
    } else {
        all_measures(groups, (n - 1) as nat) + measures_of(groups[n - 1].points@)
    }
}

impl ChartSeries {
    /// How many points are drawn.
    pub fn rows_plotted(&self) -> (r: usize)
        requires
            point_count(self.groups@, self.groups@.len()) <= usize::MAX,
        ensures
            r == point_count(self.groups@, self.groups@.len()),
    {
        let mut sum: usize = 0;
        let mut i: usize = 0;
        while i < self.groups.len()
            invariant
                i <= self.groups@.len(),
                sum == point_count(self.groups@, i as nat),
                point_count(self.groups@, self.groups@.len()) <= usize::MAX,
            decreases self.groups@.len() - i,
        {
            proof {
                lemma_point_count_grows(self.groups@, (i + 1) as nat);
            }
            sum = sum + self.groups[i].points.len();
            i = i + 1;
        }
        sum
    }

    /// The bits of all measures.
    pub fn measure_values(&self) -> (r: Vec<u64>)
        ensures
            r@ == all_measures(self.groups@, self.groups@.len()),
    {
        let mut out: Vec<u64> = Vec::new();
        let mut i: usize = 0;
        while i < self.groups.len()
            invariant
                i <= self.groups@.len(),
                out@ == all_measures(self.groups@, i as nat),
            decreases self.groups@.len() - i,
        {
            let ghost before = out@;
            let ghost more = measures_of(self.groups@[i as int].points@);
            let mut j: usize = 0;
            assert(before + more.take(0) =~= before);
            while j < self.groups[i as usize].points.len()
                invariant
                    i < self.groups@.len(),
                    j <= self.groups@[i as int].points@.len(),
                    more == measures_of(self.groups@[i as int].points@),
                    out@ == before + more.take(j as int),
                decreases self.groups@[i as int].points@.len() - j,
            {
                out.push(self.groups[i].points[j].y);
                assert(more.take(j + 1) =~= more.take(j as int).push(more[j as int]));
                j = j + 1;
            }
            assert(more.take(more.len() as int) =~= more);
            i = i + 1;
        }
        out
    }
}

proof fn lemma_point_count_grows(groups: Seq<SeriesGroup>, n: nat)
    requires
        n <= groups.len(),
    ensures
        point_count(groups, n) <= point_count(groups, groups.len()),
    decreases groups.len() - n,
{
    if n < groups.len() {
        lemma_point_count_grows(groups, n + 1);
    }
}

/// The keys by which a line joins points: where they stand on the x axis.
pub open spec fn line_key(x: XPos) -> int {
    match x {
        XPos::Index(i) => if i <= i64::MAX {
            i as int
        } else {
            i64::MAX as int
        },
        XPos::Number(bits) => number::rank(bits),
        XPos::Time(secs) => secs as int,
    }
}

/// The keys by which a line joins points.
pub fn line_keys(points: &Vec<ChartPoint>) -> (r: Vec<i64>)
    ensures
        r@.len() == points@.len(),
        forall|i: int| 0 <= i < r@.len() ==> #[trigger] r@[i] == line_key(points@[i].x),
{
    let mut out: Vec<i64> = Vec::new();
    let mut i: usize = 0;
    while i < points.len()
        invariant
            i <= points@.len(),
            out@.len() == i,
            forall|j: int| 0 <= j < i ==> #[trigger] out@[j] == line_key(points@[j].x),
        decreases points@.len() - i,
    {
        let key: i64 = match points[i].x {
            XPos::Index(k) => {
                if k as u64 <= i64::MAX as u64 {
                    k as i64
                } else {
                    i64::MAX
                }
            },
            XPos::Number(bits) => rank_of(bits),
            XPos::Time(secs) => secs,
        };
        out.push(key);
        i = i + 1;
    }
    out
}

/// The values of a histogram with one more row.
pub open spec fn histogram_read(
    values: Seq<u64>,
    row: ChartRow,
    column: Seq<char>,
    measure: Option<ChartMeasureValue>,
) -> Result<Seq<u64>, Complaint> {
    match measure {
        Some(ChartMeasureValue::Finite { coordinate, .. }) => Ok(values.push(coordinate)),
        Some(ChartMeasureValue::NonFinite) => Err(non_finite(column)),
        Some(ChartMeasureValue::Null) => Ok(values),
        Some(ChartMeasureValue::NonNumeric) => Ok(values),
        None => match row {
            ChartRow::Object(cells) => match cell_named(cells@, column) {
                Some(c) => match c.spec_number() {
                    Some(bits) => Ok(values.push(bits)),
                    None => Ok(values),
                },
                None => Ok(values),
            },
            ChartRow::Other => Ok(values),
        },
    }
}

/// The values of a histogram from the first `n` rows, or the first complaint.
pub open spec fn histogram_rows(
    rows: Seq<ChartRow>,
    column: Seq<char>,
    measures: Option<Seq<ChartMeasureValue>>,
    n: nat,
) -> Result<Seq<u64>, Complaint>
    decreases n,
{
    if n == 0 {
        Ok(Seq::empty())
    } else {
        match histogram_rows(rows, column, measures, (n - 1) as nat) {
            Err(c) => Err(c),
            Ok(values) => histogram_read(
                values,
                rows[n - 1],
                column,
                measure_at(measures, n - 1),
            ),
        }
    }
}

proof fn lemma_histogram_complaint_stays(
    rows: Seq<ChartRow>,
    column: Seq<char>,
    measures: Option<Seq<ChartMeasureValue>>,
    n: nat,
    m: nat,
)
    requires
        n <= m,
        histogram_rows(rows, column, measures, n) is Err,
    ensures
        histogram_rows(rows, column, measures, m) == histogram_rows(rows, column, measures, n),
    decreases m - n,
{
    if n < m {
        lemma_histogram_complaint_stays(rows, column, measures, n, (m - 1) as nat);
    }
}

/// The values of a histogram: rows without a number are passed over, and there must be
/// some with one.
pub fn histogram_values(
    rows: &Vec<ChartRow>,
    column: &str,
    measures: Option<&Vec<ChartMeasureValue>>,
) -> (r: Result<Vec<u64>, McpError>)
    ensures
        match histogram_rows(rows@, column@, measures_view(measures), rows@.len()) {
            Err(c) => r matches Err(e) && e.says(c.0, c.1),
            Ok(values) => if values.len() == 0 {
                r matches Err(e) && e.says(
                    ErrorCode::SchemaMismatch,
                    "Column '"@ + column@ + "' has no numeric values to histogram"@,
                )
            } else {
                r matches Ok(v) && v@ == values
            },
        },
{
    let ghost typed = measures_view(measures);
    let mut values: Vec<u64> = Vec::new();
    let mut i: usize = 0;
    while i < rows.len()
        invariant
            i <= rows@.len(),
            typed == measures_view(measures),
            histogram_rows(rows@, column@, typed, i as nat) == Ok::<Seq<u64>, Complaint>(values@),
        decreases rows@.len() - i,
    {
        let ghost next = histogram_read(
            values@,
            rows@[i as int],
            column@,
            measure_at(typed, i as int),
        );
        assert(histogram_rows(rows@, column@, typed, (i + 1) as nat) == next);
        proof {
            if next is Err {
                lemma_histogram_complaint_stays(
                    rows@,
                    column@,
                    typed,
                    (i + 1) as nat,
                    rows@.len(),
                );
            }
        }
        let measure = match measures {
            Some(m) => {
                if i < m.len() {
                    Some(&m[i])
                } else {
                    None
                }
            },
            None => None,
        };
        match measure {
            Some(ChartMeasureValue::Finite { coordinate, .. }) => {
                values.push(*coordinate);
            },
            Some(ChartMeasureValue::NonFinite) => {
                return Err(non_finite_measure_error(column));
            },
            Some(_) => {},
            None => {
                if let ChartRow::Object(cells) = &rows[i] {
                    if let Some(c) = find_cell(cells, column) {
                        if let Some(bits) = c.as_number() {
                            values.push(bits);
                        }
                    }
                }
            },
        }
        i = i + 1;
    }
    if values.len() == 0 {
        let message = text::cat3("Column '", column, "' has no numeric values to histogram");
        return Err(McpError::new(ErrorCode::SchemaMismatch, message.as_str()));
    }
    Ok(values)
}

/// Categories are numbered in the order in which they are first seen: each has one
/// number, and every point stands at that of its own label.
pub proof fn law_categories_are_numbered(
    rows: Seq<ChartRow>,
    columns: ChartColumns,
    measures: Option<Seq<ChartMeasureValue>>,
    times: Seq<Option<i64>>,
    n: nat,
)
    requires
        n <= usize::MAX,
    ensures
        read_rows(rows, columns, XMode::Categorical, measures, times, n) matches Ok(state) ==> {
            &&& state.categories.no_duplicates()
            &&& state.categories.len() <= state.points.len() <= n
            &&& forall|i: int|
                0 <= i < state.points.len() ==> ((#[trigger] state.points[i]).1.x matches XPos::Index(
                    k,
                ) && k < state.categories.len() && state.categories[k as int]
                    == state.points[i].1.x_label)
        },
    decreases n,
{
    if n > 0 {
        law_categories_are_numbered(rows, columns, measures, times, (n - 1) as nat);
        if let Ok(before) = read_rows(
            rows,
            columns,
            XMode::Categorical,
            measures,
            times,
            (n - 1) as nat,
        ) {
            if let Ok(state) = read_rows(rows, columns, XMode::Categorical, measures, times, n) {
                assert forall|i: int| 0 <= i < state.points.len() implies ((
                #[trigger] state.points[i]).1.x matches XPos::Index(k) && k < state.categories.len()
                    && state.categories[k as int] == state.points[i].1.x_label) by {
                    if i < before.points.len() {
                        assert(state.points[i] == before.points[i]);
                    } else if rows[n - 1] is Object {
                        let label = state.points[i].1.x_label;
                        if before.categories.contains(label) {
                            before.categories.index_of_first_ensures(label);
                        }
                    }
                }
            }
        }
    }
}

/// Every point that is read is drawn, in exactly one series.
pub proof fn law_every_point_is_drawn(
    groups: Seq<SeriesGroup>,
    points: Seq<(Seq<char>, PointFacts)>,
)
    requires
        groups_hold(groups, points),
    ensures
        point_count(groups, groups.len()) == points.len(),
{
    lemma_counts(groups, points, groups.len());
    assert(keyed_before(groups, points, groups.len()) == points.len()) by {
        lemma_all_keyed(groups, points, points.len());
        assert(points.take(points.len() as int) =~= points);
    }
}

/// How many points are of the first `n` series.
spec fn keyed_before(
    groups: Seq<SeriesGroup>,
    points: Seq<(Seq<char>, PointFacts)>,
    n: nat,
) -> nat
    decreases n,
{
    if n == 0 || n > groups.len() {
        0
    } else {
        keyed_before(groups, points, (n - 1) as nat) + points_of(points, groups[n - 1].key@).len()
    }
}

proof fn lemma_counts(groups: Seq<SeriesGroup>, points: Seq<(Seq<char>, PointFacts)>, n: nat)
    requires
        groups_hold(groups, points),
        n <= groups.len(),
    ensures
        point_count(groups, n) == keyed_before(groups, points, n),
    decreases n,
{
    if n > 0 {
        lemma_counts(groups, points, (n - 1) as nat);
        assert(facts_of(groups[n - 1].points@) == points_of(points, groups[n - 1].key@));
        assert(facts_of(groups[n - 1].points@).len() == groups[n - 1].points@.len());
    }
}

proof fn lemma_all_keyed(groups: Seq<SeriesGroup>, points: Seq<(Seq<char>, PointFacts)>, m: nat)
    requires
        m <= points.len(),
        forall|a: int, b: int|
            0 <= a < b < groups.len() ==> #[trigger] groups[a].key@ != #[trigger] groups[b].key@,
        forall|i: int| 0 <= i < points.len() ==> has_series(groups, #[trigger] points[i].0),
    ensures
        keyed_before(groups, points.take(m as int), groups.len()) == m,
    decreases m,
{
    let some = points.take(m as int);
    if m == 0 {
        lemma_keyed_none(groups, some, groups.len());
    } else {
        lemma_all_keyed(groups, points, (m - 1) as nat);
        assert(some.drop_last() =~= points.take(m - 1));
        assert(has_series(groups, points[m - 1].0));
        let g = choose|g: int| 0 <= g < groups.len() && #[trigger] groups[g].key@ == points[m - 1].0;
        lemma_keyed_push(groups, some, g, groups.len());
    }
}

proof fn lemma_keyed_none(groups: Seq<SeriesGroup>, points: Seq<(Seq<char>, PointFacts)>, n: nat)
    requires
        points.len() == 0,
    ensures
        keyed_before(groups, points, n) == 0,
    decreases n,
{
    if n > 0 && n <= groups.len() {
        lemma_keyed_none(groups, points, (n - 1) as nat);
    }
}

proof fn lemma_keyed_push(
    groups: Seq<SeriesGroup>,
    points: Seq<(Seq<char>, PointFacts)>,
    g: int,
    n: nat,
)
    requires
        points.len() > 0,
        0 <= g < groups.len(),
        n <= groups.len(),
        groups[g].key@ == points.last().0,
        forall|a: int, b: int|
            0 <= a < b < groups.len() ==> #[trigger] groups[a].key@ != #[trigger] groups[b].key@,
    ensures
        keyed_before(groups, points, n) == keyed_before(groups, points.drop_last(), n) + if g < n {
            1nat
        } else {
            0
        },
    decreases n,
{
    if n > 0 {
        lemma_keyed_push(groups, points, g, (n - 1) as nat);
        if g < n - 1 {
            assert(groups[g].key@ != groups[n - 1].key@);
        } else if g > n - 1 {
            assert(groups[n - 1].key@ != groups[g].key@);
        }
    }
}

/// The numbers of the rows with cells among the first `n`, in order.
pub open spec fn filled_rows(rows: Seq<ChartRow>, n: nat) -> Seq<int>
    decreases n,
{
    if n == 0 {
        Seq::empty()
    } else if rows[n - 1] is Object {
        filled_rows(rows, (n - 1) as nat).push(n - 1)
    } else {
        filled_rows(rows, (n - 1) as nat)
    }
}

/// The text of a column's cell in a row; empty where the row has no such cell.
pub open spec fn label_in(cells: Seq<(String, ChartCell)>, name: Seq<char>) -> Seq<char> {
    match cell_named(cells, name) {
        Some(c) => c.spec_text(),
        None => Seq::empty(),
    }
}

/// Every row with cells becomes one point, in the order of the rows. Where the horizontal
/// axis is numeric, the point stands at the number of its row's cell, bit for bit, so that
/// rows with different numbers stand at different places; where it is temporal, at the time
/// of its row. The point is as high as its row's measure says and carries the texts of its
/// row's cells and the key of its row's series.
pub proof fn law_points_stand_for_rows(
    rows: Seq<ChartRow>,
    columns: ChartColumns,
    mode: XMode,
    measures: Option<Seq<ChartMeasureValue>>,
    times: Seq<Option<i64>>,
    n: nat,
)
    requires
        n <= rows.len(),
    ensures
        read_rows(rows, columns, mode, measures, times, n) matches Ok(state) ==> {
            &&& state.points.len() == filled_rows(rows, n).len()
            &&& !(mode is Categorical) ==> state.categories.len() == 0
            &&& forall|i: int|
                0 <= i < state.points.len() ==> {
                    let k = filled_rows(rows, n)[i];
                    let cells = rows[k]->Object_0@;
                    let point = (#[trigger] state.points[i]).1;
                    &&& 0 <= k < n
                    &&& rows[k] is Object
                    &&& mode is Numeric ==> (cell_named(
                        cells,
                        columns.x@,
                    ) matches Some(ChartCell::Number { bits, .. }) && point.x == XPos::Number(bits))
                    &&& mode is Temporal ==> (times[k] matches Some(secs) && point.x == XPos::Time(
                        secs,
                    ))
                    &&& mode is Categorical ==> point.x is Index
                    &&& point.x_label == label_in(cells, columns.x@)
                    &&& cell_named(cells, columns.y@) is Some
                    &&& match measure_at(measures, k) {
                        Some(ChartMeasureValue::Finite { coordinate, display }) => point.y
                            == coordinate && point.y_label == display@,
                        Some(_) => false,
                        None => match cell_named(cells, columns.y@)->0 {
                            ChartCell::Number { bits, shown } => point.y == bits && point.y_label
                                == shown@,
                            ChartCell::Bool(b) => point.y == (if b {
                                0x3ff0_0000_0000_0000u64
                            } else {
                                0u64
                            }) && point.y_label == (if b {
                                "true"@
                            } else {
                                "false"@
                            }),
                            _ => false,
                        },
                    }
                    &&& columns.series is None ==> state.points[i].0 == Seq::<char>::empty()
                    &&& columns.series matches Some(column) ==> state.points[i].0 == label_in(
                        cells,
                        column@,
                    )
                }
        },
    decreases n,
{
    if n > 0 {
        law_points_stand_for_rows(rows, columns, mode, measures, times, (n - 1) as nat);
    }
}

/// On a numeric axis two rows stand at the same place if and only if their numbers are the
/// same; on a temporal one if and only if their times are.
pub proof fn law_places_tell_rows_apart(
    rows: Seq<ChartRow>,
    columns: ChartColumns,
    mode: XMode,
    measures: Option<Seq<ChartMeasureValue>>,
    times: Seq<Option<i64>>,
    i: int,
    j: int,
)
    requires
        0 <= i < filled_rows(rows, rows.len()).len(),
        0 <= j < filled_rows(rows, rows.len()).len(),
    ensures
        read_rows(rows, columns, mode, measures, times, rows.len()) matches Ok(state) ==> {
            let a = filled_rows(rows, rows.len())[i];
            let b = filled_rows(rows, rows.len())[j];
            &&& mode is Numeric ==> (state.points[i].1.x == state.points[j].1.x <==> cell_named(
                rows[a]->Object_0@,
                columns.x@,
            )->0->Number_bits == cell_named(rows[b]->Object_0@, columns.x@)->0->Number_bits)
            &&& mode is Temporal ==> (state.points[i].1.x == state.points[j].1.x <==> times[a]
                == times[b])
        },
{
    law_points_stand_for_rows(rows, columns, mode, measures, times, rows.len());
}

/// The rows with cells are counted in order, all of them and no others.
pub proof fn law_filled_rows(rows: Seq<ChartRow>, n: nat)
    requires
        n <= rows.len(),
    ensures
        forall|i: int, j: int|
            0 <= i < j < filled_rows(rows, n).len() ==> filled_rows(rows, n)[i] < filled_rows(
                rows,
                n,
            )[j],
        forall|i: int|
            0 <= i < filled_rows(rows, n).len() ==> 0 <= #[trigger] filled_rows(rows, n)[i] < n
                && rows[filled_rows(rows, n)[i]] is Object,
        forall|k: int|
            0 <= k < n && rows[k] is Object ==> #[trigger] filled_rows(rows, n).contains(k),
    decreases n,
{
    if n > 0 {
        law_filled_rows(rows, (n - 1) as nat);
        let before = filled_rows(rows, (n - 1) as nat);
        let all = filled_rows(rows, n);
        assert forall|k: int| 0 <= k < n && rows[k] is Object implies #[trigger] all.contains(
            k,
        ) by {
            if k < n - 1 {
                assert(before.contains(k));
                let i = choose|i: int| 0 <= i < before.len() && before[i] == k;
                assert(all[i] == k);
            } else {
                assert(all.last() == k);
            }
        }
    }
}

/// What is wrong with a row is told by the first row that is wrong: a measure that is
/// missing, no number or not finite, or a place on the horizontal axis that is no number or
/// no time. Rows without cells are never wrong.
pub proof fn law_wrong_rows_are_told(
    rows: Seq<ChartRow>,
    columns: ChartColumns,
    mode: XMode,
    measures: Option<Seq<ChartMeasureValue>>,
    times: Seq<Option<i64>>,
    n: nat,
)
    requires
        n < rows.len(),
    ensures
        ({
            let before = read_rows(rows, columns, mode, measures, times, n);
            let after = read_rows(rows, columns, mode, measures, times, n + 1);
            let no_number = |column: Seq<char>|
                Err::<ReadState, Complaint>(
                    (
                        ErrorCode::SchemaMismatch,
                        "Column '"@ + column + "' is missing or not numeric in at least one row"@,
                    ),
                );
            let cells = rows[n as int]->Object_0@;
            let y = cell_named(cells, columns.y@);
            let measure = measure_at(measures, n as int);
            let measured = measure is Some && measure->0 is Finite || (measure is None && (
            y->0 is Number || y->0 is Bool));
            &&& before is Err ==> after == before
            &&& before is Ok && rows[n as int] is Other ==> after == before
            &&& before is Ok && rows[n as int] is Object ==> {
                &&& y is None ==> after == no_number(columns.y@)
                &&& y is Some && measure == Some(ChartMeasureValue::NonFinite) ==> after == Err::<
                    ReadState,
                    Complaint,
                >(
                    (
                        ErrorCode::InvalidArgument,
                        "Column '"@ + columns.y@ + "' contains a non-finite numeric value"@,
                    ),
                )
                &&& y is Some && (measure == Some(ChartMeasureValue::Null) || measure == Some(
                    ChartMeasureValue::NonNumeric,
                )) ==> after == no_number(columns.y@)
                &&& y is Some && measure is None && !(y->0 is Number || y->0 is Bool) ==> after
                    == no_number(columns.y@)
                &&& y is Some && measured && mode is Numeric && !(cell_named(
                    cells,
                    columns.x@,
                ) matches Some(c) && c is Number) ==> after == no_number(columns.x@)
                &&& y is Some && measured && mode is Temporal && times[n as int] is None ==> after
                    == Err::<ReadState, Complaint>(
                    (
                        ErrorCode::SchemaMismatch,
                        "Column '"@ + columns.x@ + "' value '"@ + label_in(cells, columns.x@)
                            + "' is not a recognized DATE / TIMESTAMP / TIMESTAMPTZ form"@,
                    ),
                )
                &&& y is Some && measured && (mode is Categorical || (mode is Numeric && (
                cell_named(cells, columns.x@) matches Some(c) && c is Number)) || (mode is Temporal
                    && times[n as int] is Some)) ==> after is Ok
            }
        }),
{
    let before = read_rows(rows, columns, mode, measures, times, n);
    let after = read_rows(rows, columns, mode, measures, times, n + 1);
    assert(rows[(n + 1) - 1] == rows[n as int]);
    assert(after == (match before {
        Err(c) => Err(c),
        Ok(state) => read_row(
            state,
            rows[n as int],
            columns,
            mode,
            measure_at(measures, n as int),
            times[n as int],
        ),
    }));
    if let Ok(state) = before {
        assert(ReadState { points: state.points, categories: state.categories } == state);
    }
}

/// Of several cells of one name in a row the last counts, whatever stands before it.
pub proof fn law_last_cell_counts(cells: Seq<(String, ChartCell)>, name: Seq<char>, i: int)
    ensures
        0 <= i < cells.len() && cells[i].0@ == name && (forall|j: int|
            i < j < cells.len() ==> (#[trigger] cells[j]).0@ != name) ==> cell_named(cells, name)
            == Some(cells[i].1),
        (forall|j: int| 0 <= j < cells.len() ==> (#[trigger] cells[j]).0@ != name) ==> cell_named(
            cells,
            name,
        ) is None,
    decreases cells.len(),
{
    if cells.len() > 0 {
        let t = cells.drop_last();
        law_last_cell_counts(t, name, i);
        if cells.last().0@ != name {
            assert(forall|j: int| 0 <= j < t.len() ==> t[j] == cells[j]);
            assert(cell_named(cells, name) == cell_named(t, name));
            if 0 <= i < cells.len() && cells[i].0@ == name {
                assert(i < t.len());
                assert(t[i] == cells[i]);
            }
        } else {
            assert(cells[cells.len() - 1].0@ == name);
        }
    } else {
        assert(cell_named(cells, name) is None);
    }
}

/// What a cell is shown as, and which number it is: truth values count as one and zero for
/// a measure and are no plain numbers, and a text is no number whatever it holds.
pub proof fn law_readings_of_cells(b: bool, bits: u64, shown: String)
    ensures
        ChartCell::Null.spec_text() == Seq::<char>::empty(),
        ChartCell::Bool(b).spec_text() == (if b {
            "true"@
        } else {
            "false"@
        }),
        (ChartCell::Number { bits, shown }).spec_text() == shown@,
        ChartCell::Text(shown).spec_text() == shown@,
        (ChartCell::Other { shown }).spec_text() == shown@,
        (ChartCell::Number { bits, shown }).spec_number() == Some(bits),
        ChartCell::Bool(b).spec_number() == Some(
            if b {
                0x3ff0_0000_0000_0000u64
            } else {
                0u64
            },
        ),
        ChartCell::Null.spec_number() is None,
        ChartCell::Text(shown).spec_number() is None,
        (ChartCell::Other { shown }).spec_number() is None,
        (ChartCell::Number { bits, shown }).spec_plain_number() == Some(bits),
        ChartCell::Bool(b).spec_plain_number() is None,
        ChartCell::Null.spec_plain_number() is None,
        ChartCell::Text(shown).spec_plain_number() is None,
        (ChartCell::Other { shown }).spec_plain_number() is None,
{
}

/// A measure that was typed when the query ran is taken as it was typed; only without one is
/// the cell looked at.
pub proof fn law_typed_measures_come_first(
    coordinate: u64,
    display: String,
    cell: ChartCell,
    column: Seq<char>,
)
    ensures
        measure_of(Some(ChartMeasureValue::Finite { coordinate, display }), cell, column) == Ok::<
            (u64, Seq<char>),
            Complaint,
        >((coordinate, display@)),
        measure_of(Some(ChartMeasureValue::NonFinite), cell, column) == Err::<
            (u64, Seq<char>),
            Complaint,
        >(
            (
                ErrorCode::InvalidArgument,
                "Column '"@ + column + "' contains a non-finite numeric value"@,
            ),
        ),
        measure_of(Some(ChartMeasureValue::Null), cell, column) == Err::<
            (u64, Seq<char>),
            Complaint,
        >(
            (
                ErrorCode::SchemaMismatch,
                "Column '"@ + column + "' is missing or not numeric in at least one row"@,
            ),
        ),
        measure_of(Some(ChartMeasureValue::NonNumeric), cell, column) == measure_of(
            Some(ChartMeasureValue::Null),
            cell,
            column,
        ),
        cell matches ChartCell::Number { bits, shown } ==> measure_of(None, cell, column) == Ok::<
            (u64, Seq<char>),
            Complaint,
        >((bits, shown@)),
        cell matches ChartCell::Bool(b) ==> measure_of(None, cell, column) == Ok::<
            (u64, Seq<char>),
            Complaint,
        >(
            if b {
                (0x3ff0_0000_0000_0000u64, "true"@)
            } else {
                (0u64, "false"@)
            },
        ),
        cell is Null || cell is Text || cell is Other ==> measure_of(None, cell, column)
            == measure_of(Some(ChartMeasureValue::Null), cell, column),
{
}

/// The horizontal axis is numeric where the first row's cell is a number, temporal where it
/// is a text that reads as a time, and otherwise one of categories.
pub proof fn law_first_cell_tells_the_axis(
    rows: Seq<ChartRow>,
    column: Seq<char>,
    bits: u64,
    shown: String,
    b: bool,
    kind: TemporalKind,
    secs: i64,
    time: Option<(TemporalKind, i64)>,
)
    ensures
        detected_mode(None, time) == XMode::Categorical,
        detected_mode(Some(ChartCell::Number { bits, shown }), time) == XMode::Numeric,
        detected_mode(Some(ChartCell::Text(shown)), Some((kind, secs))) == XMode::Temporal(kind),
        detected_mode(Some(ChartCell::Text(shown)), None) == XMode::Categorical,
        detected_mode(Some(ChartCell::Null), time) == XMode::Categorical,
        detected_mode(Some(ChartCell::Bool(b)), time) == XMode::Categorical,
        detected_mode(Some(ChartCell::Other { shown }), time) == XMode::Categorical,
        rows.len() == 0 ==> first_cell(rows, column) is None,
        rows.len() > 0 && rows[0] is Other ==> first_cell(rows, column) is None,
        rows.len() > 0 ==> (rows[0] matches ChartRow::Object(cells) ==> first_cell(rows, column)
            == cell_named(cells@, column)),
{
}

/// On a temporal axis the time of a row is what the text of its cell reads as; on any other
/// axis, and of a row without cells, no time is read.
pub proof fn law_times_of_rows(rows: Seq<ChartRow>, column: Seq<char>, mode: XMode, k: int)
    requires
        0 <= k < rows.len(),
    ensures
        times_of(rows, column, mode).len() == rows.len(),
        mode is Temporal ==> (rows[k] matches ChartRow::Object(cells) ==> match temporal::temporal(
            label_in(cells@, column),
        ) {
            Some(read) => times_of(rows, column, mode)[k] == Some(read.1),
            None => times_of(rows, column, mode)[k] is None,
        }),
        !(mode is Temporal) || rows[k] is Other ==> times_of(rows, column, mode)[k] is None,
{
}

/// A point is taken to a series if and only if it has the key of the series, whatever stands
/// around it, and the order of the points stays.
pub proof fn law_points_of_a_series(
    a: Seq<(Seq<char>, PointFacts)>,
    point: (Seq<char>, PointFacts),
    b: Seq<(Seq<char>, PointFacts)>,
    key: Seq<char>,
)
    ensures
        points_of(Seq::empty(), key) == Seq::<PointFacts>::empty(),
        points_of(a + seq![point] + b, key) == points_of(a, key) + (if point.0 == key {
            seq![point.1]
        } else {
            Seq::empty()
        }) + points_of(b, key),
    decreases b.len(),
{
    let all = a + seq![point] + b;
    let own = if point.0 == key {
        seq![point.1]
    } else {
        Seq::<PointFacts>::empty()
    };
    if b.len() == 0 {
        assert(all.drop_last() =~= a);
        assert(all.last() == point);
        assert(points_of(all, key) =~= points_of(a, key) + own + points_of(b, key));
    } else {
        law_points_of_a_series(a, point, b.drop_last(), key);
        assert(all.drop_last() =~= a + seq![point] + b.drop_last());
        assert(all.last() == b.last());
        assert(points_of(all, key) =~= points_of(a, key) + own + points_of(b, key));
    }
}

/// What is known of the points of a series is their places, heights and texts, one by one.
pub proof fn law_facts_of_points(points: Seq<ChartPoint>, i: int)
    requires
        0 <= i < points.len(),
    ensures
        facts_of(points).len() == points.len(),
        facts_of(points)[i].x == points[i].x,
        facts_of(points)[i].y == points[i].y,
        facts_of(points)[i].x_label == points[i].x_label@,
        facts_of(points)[i].y_label == points[i].y_label@,
{
}

proof fn lemma_point_is_kept(
    points: Seq<(Seq<char>, PointFacts)>,
    i: int,
) -> (j: int)
    requires
        0 <= i < points.len(),
    ensures
        0 <= j < points_of(points, points[i].0).len(),
        points_of(points, points[i].0)[j] == points[i].1,
{
    let a = points.take(i);
    let b = points.skip(i + 1);
    let key = points[i].0;
    assert(points =~= a + seq![points[i]] + b);
    law_points_of_a_series(a, points[i], b, key);
    points_of(a, key).len() as int
}

proof fn lemma_kept_point_is_one(
    points: Seq<(Seq<char>, PointFacts)>,
    key: Seq<char>,
    j: int,
) -> (i: int)
    requires
        0 <= j < points_of(points, key).len(),
    ensures
        0 <= i < points.len(),
        points[i] == (key, points_of(points, key)[j]),
    decreases points.len(),
{
    let t = points.drop_last();
    if points.last().0 == key && j == points_of(t, key).len() {
        points.len() - 1
    } else {
        lemma_kept_point_is_one(t, key, j)
    }
}

/// Every row with cells is drawn in the series of its key, at its place and height and with
/// its texts, and nothing else is drawn; the series are ordered by their keys. Where there
/// is no row with cells there are no series.
pub proof fn law_series_hold_the_points(
    r: Result<ChartSeries, McpError>,
    read: Result<ReadState, Complaint>,
)
    requires
        is_grouping(r, read),
    ensures
        read matches Err(c) ==> (r matches Err(e) && e.code == c.0 && e.message@ == c.1),
        read matches Ok(state) ==> {
            &&& state.points.len() == 0 ==> (r matches Err(e) && e.code == ErrorCode::EmptyData
                && e.message@ == "No valid data points after filtering"@)
            &&& state.points.len() > 0 ==> r is Ok
        },
        r matches Ok(s) ==> (read matches Ok(state) && {
            &&& text::texts(s.categories@) == state.categories
            &&& forall|i: int|
                0 <= i < state.points.len() ==> exists|g: int, j: int|
                    0 <= g < s.groups@.len() && 0 <= j < s.groups@[g].points@.len()
                        && s.groups@[g].key@ == (#[trigger] state.points[i]).0
                        && #[trigger] s.groups@[g].points@[j].x == state.points[i].1.x
                        && s.groups@[g].points@[j].y == state.points[i].1.y
                        && s.groups@[g].points@[j].x_label@ == state.points[i].1.x_label
                        && s.groups@[g].points@[j].y_label@ == state.points[i].1.y_label
            &&& forall|g: int, j: int|
                0 <= g < s.groups@.len() && 0 <= j < s.groups@[g].points@.len() ==> exists|i: int|
                    0 <= i < state.points.len() && (#[trigger] state.points[i]).0
                        == s.groups@[g].key@ && state.points[i].1.x
                        == #[trigger] s.groups@[g].points@[j].x && state.points[i].1.y
                        == s.groups@[g].points@[j].y
            &&& s.order@.len() == s.groups@.len()
            &&& forall|i: int, j: int|
                0 <= i < j < s.order@.len() ==> text_index::below(
                    s.groups@[#[trigger] s.order@[i] as int].key@,
                    s.groups@[#[trigger] s.order@[j] as int].key@,
                )
        }),
{
    if let Ok(s) = r {
        let state = read->Ok_0;
        assert forall|i: int| 0 <= i < state.points.len() implies exists|g: int, j: int|
            0 <= g < s.groups@.len() && 0 <= j < s.groups@[g].points@.len() && s.groups@[g].key@
                == (#[trigger] state.points[i]).0 && #[trigger] s.groups@[g].points@[j].x
                == state.points[i].1.x && s.groups@[g].points@[j].y == state.points[i].1.y
                && s.groups@[g].points@[j].x_label@ == state.points[i].1.x_label
                && s.groups@[g].points@[j].y_label@ == state.points[i].1.y_label by {
            assert(has_series(s.groups@, state.points[i].0));
            let g = choose|g: int|
                0 <= g < s.groups@.len() && #[trigger] s.groups@[g].key@ == state.points[i].0;
            let j = lemma_point_is_kept(state.points, i);
            law_facts_of_points(s.groups@[g].points@, j);
            assert(facts_of(s.groups@[g].points@)[j] == state.points[i].1);
            assert(s.groups@[g].points@[j].x == state.points[i].1.x);
        }
        assert forall|g: int, j: int|
            0 <= g < s.groups@.len() && 0 <= j < s.groups@[g].points@.len() implies exists|i: int|
            0 <= i < state.points.len() && (#[trigger] state.points[i]).0 == s.groups@[g].key@
                && state.points[i].1.x == #[trigger] s.groups@[g].points@[j].x
                && state.points[i].1.y == s.groups@[g].points@[j].y by {
            law_facts_of_points(s.groups@[g].points@, j);
            let i = lemma_kept_point_is_one(state.points, s.groups@[g].key@, j);
            assert(state.points[i].0 == s.groups@[g].key@);
        }
    }
}

/// Whether one of the first `i` points stands in the category with the number `m`.
pub open spec fn met_before(state: ReadState, i: int, m: int) -> bool {
    exists|j: int|
        0 <= j < i && (#[trigger] state.points[j]).1.x == XPos::Index(m as usize)
            && state.points[j].1.x_label == state.categories[m]
}

/// Categories are numbered in the order in which they first come: before a category is met,
/// all that have lower numbers were.
pub proof fn law_categories_in_order(
    rows: Seq<ChartRow>,
    columns: ChartColumns,
    measures: Option<Seq<ChartMeasureValue>>,
    times: Seq<Option<i64>>,
    n: nat,
)
    requires
        n <= usize::MAX,
    ensures
        read_rows(rows, columns, XMode::Categorical, measures, times, n) matches Ok(state) ==> {
            &&& forall|m: int|
                0 <= m < state.categories.len() ==> #[trigger] met_before(
                    state,
                    state.points.len() as int,
                    m,
                )
            &&& forall|i: int, m: int|
                0 <= i < state.points.len() && 0 <= m < state.points[i].1.x->Index_0
                    ==> #[trigger] met_before(state, i, m)
        },
    decreases n,
{
    if n > 0 {
        law_categories_in_order(rows, columns, measures, times, (n - 1) as nat);
        law_categories_are_numbered(rows, columns, measures, times, (n - 1) as nat);
        law_categories_are_numbered(rows, columns, measures, times, n);
        let before = read_rows(
            rows,
            columns,
            XMode::Categorical,
            measures,
            times,
            (n - 1) as nat,
        );
        let after = read_rows(rows, columns, XMode::Categorical, measures, times, n);
        if after is Ok && rows[n - 1] is Object {
            let old_state = before->Ok_0;
            let state = after->Ok_0;
            let last = state.points.len() - 1;
            assert(state.points.drop_last() =~= old_state.points);
            assert(forall|j: int|
                0 <= j < old_state.points.len() ==> state.points[j] == old_state.points[j]);
            assert(forall|m: int|
                0 <= m < old_state.categories.len() ==> state.categories[m]
                    == old_state.categories[m]);
            assert(state.points[last].1.x->Index_0 <= old_state.categories.len());
            assert forall|i: int, m: int|
                0 <= i <= last && 0 <= m < old_state.categories.len() && #[trigger] met_before(
                    old_state,
                    i,
                    m,
                ) implies met_before(state, i, m) by {
                let j = choose|j: int|
                    0 <= j < i && (#[trigger] old_state.points[j]).1.x == XPos::Index(m as usize)
                        && old_state.points[j].1.x_label == old_state.categories[m];
                assert(state.points[j] == old_state.points[j]);
            }
            assert forall|m: int| 0 <= m < state.categories.len() implies #[trigger] met_before(
                state,
                state.points.len() as int,
                m,
            ) by {
                if m < old_state.categories.len() {
                    assert(met_before(old_state, last, m));
                    assert(met_before(state, last, m));
                    let j = choose|j: int|
                        0 <= j < last && (#[trigger] state.points[j]).1.x == XPos::Index(
                            m as usize,
                        ) && state.points[j].1.x_label == state.categories[m];
                    assert(state.points[j].1.x == XPos::Index(m as usize));
                } else {
                    assert(state.points[last].1.x == XPos::Index(m as usize));
                }
            }
            assert forall|i: int, m: int|
                0 <= i < state.points.len() && 0 <= m
                    < state.points[i].1.x->Index_0 implies #[trigger] met_before(state, i, m) by {
                if i < last {
                    assert(state.points[i] == old_state.points[i]);
                    assert(met_before(old_state, i, m));
                } else {
                    assert(met_before(old_state, last, m));
                }
            }
        }
    }
}

/// The measures of all series are the heights of their points, series by series.
pub proof fn law_all_measures(groups: Seq<SeriesGroup>, n: nat, g: int, j: int)
    requires
        n <= groups.len(),
        0 <= g < n,
        0 <= j < groups[g].points@.len(),
    ensures
        all_measures(groups, n).len() == point_count(groups, n),
        point_count(groups, g as nat) + j < point_count(groups, n),
        all_measures(groups, n)[point_count(groups, g as nat) + j] == groups[g].points@[j].y,
    decreases n,
{
    lemma_measures_counted(groups, (n - 1) as nat);
    if g < n - 1 {
        law_all_measures(groups, (n - 1) as nat, g, j);
    }
}

proof fn lemma_measures_counted(groups: Seq<SeriesGroup>, n: nat)
    requires
        n <= groups.len(),
    ensures
        all_measures(groups, n).len() == point_count(groups, n),
    decreases n,
{
    if n > 0 {
        lemma_measures_counted(groups, (n - 1) as nat);
    }
}

/// Points are put in the order of their places: by the numbers of their categories, by the
/// numbers they stand at, below zero the other way round as bits, or by their times.
pub proof fn law_line_keys(index: usize, bits: u64, secs: i64)
    ensures
        index <= i64::MAX ==> line_key(XPos::Index(index)) == index,
        index > i64::MAX ==> line_key(XPos::Index(index)) == i64::MAX,
        bits < 0x8000_0000_0000_0000 ==> line_key(XPos::Number(bits)) == bits,
        bits >= 0x8000_0000_0000_0000 ==> line_key(XPos::Number(bits)) == 0x8000_0000_0000_0000
            - bits,
        line_key(XPos::Time(secs)) == secs,
{
}

/// A histogram counts the measure of every row: what was typed as a finite number, or,
/// where nothing was typed, a cell that is a number or a truth value. Everything else is
/// passed over, but for a number that is not finite.
pub proof fn law_histogram_counts_measures(
    rows: Seq<ChartRow>,
    column: Seq<char>,
    measures: Option<Seq<ChartMeasureValue>>,
    n: nat,
)
    requires
        n < rows.len(),
    ensures
        ({
            let before = histogram_rows(rows, column, measures, n);
            let after = histogram_rows(rows, column, measures, n + 1);
            let measure = measure_at(measures, n as int);
            let cell = if rows[n as int] is Object {
                cell_named(rows[n as int]->Object_0@, column)
            } else {
                None
            };
            &&& histogram_rows(rows, column, measures, 0) == Ok::<Seq<u64>, Complaint>(
                Seq::empty(),
            )
            &&& before is Err ==> after == before
            &&& before matches Ok(values) ==> {
                &&& measure matches Some(ChartMeasureValue::Finite { coordinate, .. }) ==> after
                    == Ok::<Seq<u64>, Complaint>(values.push(coordinate))
                &&& measure == Some(ChartMeasureValue::NonFinite) ==> after == Err::<
                    Seq<u64>,
                    Complaint,
                >(
                    (
                        ErrorCode::InvalidArgument,
                        "Column '"@ + column + "' contains a non-finite numeric value"@,
                    ),
                )
                &&& measure == Some(ChartMeasureValue::Null) || measure == Some(
                    ChartMeasureValue::NonNumeric,
                ) ==> after == before
                &&& measure is None && (cell matches Some(ChartCell::Number { .. })) ==> after
                    == Ok::<Seq<u64>, Complaint>(values.push(cell->0->Number_bits))
                &&& measure is None && (cell matches Some(ChartCell::Bool(b))) ==> after == Ok::<
                    Seq<u64>,
                    Complaint,
                >(
                    values.push(
                        if cell->0->Bool_0 {
                            0x3ff0_0000_0000_0000u64
                        } else {
                            0u64
                        },
                    ),
                )
                &&& measure is None && (cell is None || cell->0 is Null || cell->0 is Text || cell->0
                    is Other) ==> after == before
            }
        }),
{
    assert(rows[(n + 1) - 1] == rows[n as int]);
}

/// The measure of a row is the one that was typed for it, where measures were typed.
pub proof fn law_measures_go_with_their_rows(measures: Seq<ChartMeasureValue>, k: int)
    requires
        0 <= k < measures.len(),
    ensures
        measure_at(Some(measures), k) == Some(measures[k]),
        measure_at(None, k) is None,
{
}

/// A column is there if and only if a row has a cell of its name.
pub proof fn law_columns_that_are_there(rows: Seq<ChartRow>, name: Seq<char>, k: int, j: int)
    ensures
        0 <= k < rows.len() && (rows[k] matches ChartRow::Object(cells) && 0 <= j < cells@.len()
            && cells@[j].0@ == name) ==> has_column(rows, name),
        (forall|i: int| 0 <= i < rows.len() ==> #[trigger] rows[i] is Other) ==> !has_column(
            rows,
            name,
        ),
        has_column(rows, name) ==> exists|i: int|
            0 <= i < rows.len() && (#[trigger] rows[i] matches ChartRow::Object(cells)
                && cell_named(cells@, name) is Some),
{
    if 0 <= k < rows.len() && (rows[k] matches ChartRow::Object(cells) && 0 <= j < cells@.len()
        && cells@[j].0@ == name) {
        lemma_cell_is_there(rows[k]->Object_0@, name, j);
        assert(row_has(rows[k], name));
    }
    if has_column(rows, name) {
        let i = choose|i: int| 0 <= i < rows.len() && row_has(#[trigger] rows[i], name);
        assert(rows[i] is Object);
    }
}

proof fn lemma_cell_is_there(cells: Seq<(String, ChartCell)>, name: Seq<char>, j: int)
    requires
        0 <= j < cells.len(),
        cells[j].0@ == name,
    ensures
        cell_named(cells, name) is Some,
    decreases cells.len(),
{
    if cells.last().0@ != name {
        assert(cells.drop_last()[j] == cells[j]);
        lemma_cell_is_there(cells.drop_last(), name, j);
    }
}

/// The measures that are given are taken as they are.
pub proof fn law_measures_as_given(measures: &Vec<ChartMeasureValue>)
    ensures
        measures_view(Some(measures)) == Some(measures@),
        measures_view(None) is None,
{
}

} // verus!
