//! The XY chart block: series of grouped data, and the visitor that builds
//! them from the table nodes of the intermediate representation.
use vstd::prelude::*;
use std::collections::HashMap;
use crate::ids::{is_random_uuid, new_uuid};
use crate::ir::{CellNode, ColumnNode, Node, NodeTypes, RowNode, TableNode};
use crate::names::ParseError;
use crate::text::str_eq;

verus! {

/// The ways an XY chart can draw its series.
#[derive(Clone, Copy, Debug, PartialEq, Eq, Structural)]
pub enum XYChartTypes {
    Line,
    Bar,
    StackedBar,
    HorizontalBar,
    HorizontalStackedBar,
}

impl XYChartTypes {
    /// The name under which this variant is stored and shown.
    pub open spec fn name(self) -> Seq<char> {
        match self {
            XYChartTypes::Line => "Line"@,
            XYChartTypes::Bar => "Bar"@,
            XYChartTypes::StackedBar => "StackedBar"@,
            XYChartTypes::HorizontalBar => "HorizontalBar"@,
            XYChartTypes::HorizontalStackedBar => "HorizontalStackedBar"@,
        }
    }

    /// The variant that a stored name stands for, if any.
    pub open spec fn parse(s: Seq<char>) -> Option<XYChartTypes> {
        if s == "Line"@ {
            Some(XYChartTypes::Line)
        } else if s == "Bar"@ {
            Some(XYChartTypes::Bar)
        } else if s == "StackedBar"@ {
            Some(XYChartTypes::StackedBar)
        } else if s == "HorizontalBar"@ {
            Some(XYChartTypes::HorizontalBar)
        } else if s == "HorizontalStackedBar"@ {
            Some(XYChartTypes::HorizontalStackedBar)
        } else {
            None
        }
    }

    /// The name of this variant, as a static string.
    pub fn as_str(&self) -> (s: &'static str)
        ensures
            s@ == self.name(),
    {
        match self {
            XYChartTypes::Line => "Line",
            XYChartTypes::Bar => "Bar",
            XYChartTypes::StackedBar => "StackedBar",
            XYChartTypes::HorizontalBar => "HorizontalBar",
            XYChartTypes::HorizontalStackedBar => "HorizontalStackedBar",
        }
    }

    /// The name of this variant, as an owned string (its `Display` form).
    pub fn to_string(&self) -> (s: String)
        ensures
            s@ == self.name(),
    {
        self.as_str().to_string()
    }

    /// Reads a variant from its exact name; any other text is refused.
    pub fn from_str(s: &str) -> (r: Result<XYChartTypes, ParseError>)
        ensures
            r matches Ok(t) ==> XYChartTypes::parse(s@) == Some(t),
            r is Err <==> XYChartTypes::parse(s@) is None,
    {
        if str_eq(s, "Line") {
            Ok(XYChartTypes::Line)
        } else if str_eq(s, "Bar") {
            Ok(XYChartTypes::Bar)
        } else if str_eq(s, "StackedBar") {
            Ok(XYChartTypes::StackedBar)
        } else if str_eq(s, "HorizontalBar") {
            Ok(XYChartTypes::HorizontalBar)
        } else if str_eq(s, "HorizontalStackedBar") {
            Ok(XYChartTypes::HorizontalStackedBar)
        } else {
            Err(ParseError::VariantNotFound)
        }
    }
}

/// Every variant of `XYChartTypes` is read back from its own name.
pub proof fn lemma_xy_chart_types_names(t: XYChartTypes)
    ensures
        XYChartTypes::parse(t.name()) == Some(t),
        forall|s: Seq<char>| #[trigger] XYChartTypes::parse(s) == Some(t) ==> s == t.name(),
{
    reveal_strlit("Line");
    reveal_strlit("Bar");
    reveal_strlit("StackedBar");
    reveal_strlit("HorizontalBar");
    reveal_strlit("HorizontalStackedBar");
    match t {
        XYChartTypes::Line => {
        },
        XYChartTypes::Bar => {
            assert("Bar"@.len() != "Line"@.len());
        },
        XYChartTypes::StackedBar => {
            assert("StackedBar"@.len() != "Line"@.len());
            assert("StackedBar"@.len() != "Bar"@.len());
        },
        XYChartTypes::HorizontalBar => {
            assert("HorizontalBar"@.len() != "Line"@.len());
            assert("HorizontalBar"@.len() != "Bar"@.len());
            assert("HorizontalBar"@.len() != "StackedBar"@.len());
        },
        XYChartTypes::HorizontalStackedBar => {
            assert("HorizontalStackedBar"@.len() != "Line"@.len());
            assert("HorizontalStackedBar"@.len() != "Bar"@.len());
            assert("HorizontalStackedBar"@.len() != "StackedBar"@.len());
            assert("HorizontalStackedBar"@.len() != "HorizontalBar"@.len());
        },
    }
}

/// Each variant of `XYChartTypes` is stored under its own name, and each of those names
/// reads back as that variant.
pub proof fn lemma_xy_chart_types_stored_names()
    ensures
        XYChartTypes::Line.name() == "Line"@,
        XYChartTypes::Bar.name() == "Bar"@,
        XYChartTypes::StackedBar.name() == "StackedBar"@,
        XYChartTypes::HorizontalBar.name() == "HorizontalBar"@,
        XYChartTypes::HorizontalStackedBar.name() == "HorizontalStackedBar"@,
        XYChartTypes::parse("Line"@) == Some(XYChartTypes::Line),
        XYChartTypes::parse("Bar"@) == Some(XYChartTypes::Bar),
        XYChartTypes::parse("StackedBar"@) == Some(XYChartTypes::StackedBar),
        XYChartTypes::parse("HorizontalBar"@) == Some(XYChartTypes::HorizontalBar),
        XYChartTypes::parse("HorizontalStackedBar"@) == Some(XYChartTypes::HorizontalStackedBar),
{
    lemma_xy_chart_types_names(XYChartTypes::Line);
    lemma_xy_chart_types_names(XYChartTypes::Bar);
    lemma_xy_chart_types_names(XYChartTypes::StackedBar);
    lemma_xy_chart_types_names(XYChartTypes::HorizontalBar);
    lemma_xy_chart_types_names(XYChartTypes::HorizontalStackedBar);
}

/// The scales an axis of an XY chart can use.
#[derive(Clone, Copy, Debug, PartialEq, Eq, Structural)]
pub enum XYChartAxisTypes {
    Linear,
    Band,
    Time,
    TimeLocal,
    Log,
}

impl XYChartAxisTypes {
    /// The name under which this variant is stored and shown.
    pub open spec fn name(self) -> Seq<char> {
        match self {
            XYChartAxisTypes::Linear => "Linear"@,
            XYChartAxisTypes::Band => "Band"@,
            XYChartAxisTypes::Time => "Time"@,
            XYChartAxisTypes::TimeLocal => "TimeLocal"@,
            XYChartAxisTypes::Log => "Log"@,
        }
    }

    /// The variant that a stored name stands for, if any.
    pub open spec fn parse(s: Seq<char>) -> Option<XYChartAxisTypes> {
        if s == "Linear"@ {
            Some(XYChartAxisTypes::Linear)
        } else if s == "Band"@ {
            Some(XYChartAxisTypes::Band)
        } else if s == "Time"@ {
            Some(XYChartAxisTypes::Time)
        } else if s == "TimeLocal"@ {
            Some(XYChartAxisTypes::TimeLocal)
        } else if s == "Log"@ {
            Some(XYChartAxisTypes::Log)
        } else {
            None
        }
    }

    /// The name of this variant, as a static string.
    pub fn as_str(&self) -> (s: &'static str)
        ensures
            s@ == self.name(),
    {
        match self {
            XYChartAxisTypes::Linear => "Linear",
            XYChartAxisTypes::Band => "Band",
            XYChartAxisTypes::Time => "Time",
            XYChartAxisTypes::TimeLocal => "TimeLocal",
            XYChartAxisTypes::Log => "Log",
        }
    }

    /// The name of this variant, as an owned string (its `Display` form).
    pub fn to_string(&self) -> (s: String)
        ensures
            s@ == self.name(),
    {
        self.as_str().to_string()
    }

    /// Reads a variant from its exact name; any other text is refused.
    pub fn from_str(s: &str) -> (r: Result<XYChartAxisTypes, ParseError>)
        ensures
            r matches Ok(t) ==> XYChartAxisTypes::parse(s@) == Some(t),
            r is Err <==> XYChartAxisTypes::parse(s@) is None,
    {
        if str_eq(s, "Linear") {
            Ok(XYChartAxisTypes::Linear)
        } else if str_eq(s, "Band") {
            Ok(XYChartAxisTypes::Band)
        } else if str_eq(s, "Time") {
            Ok(XYChartAxisTypes::Time)
        } else if str_eq(s, "TimeLocal") {
            Ok(XYChartAxisTypes::TimeLocal)
        } else if str_eq(s, "Log") {
            Ok(XYChartAxisTypes::Log)
        } else {
            Err(ParseError::VariantNotFound)
        }
    }
}

/// Every variant of `XYChartAxisTypes` is read back from its own name.
pub proof fn lemma_xy_chart_axis_types_names(t: XYChartAxisTypes)
    ensures
        XYChartAxisTypes::parse(t.name()) == Some(t),
        forall|s: Seq<char>| #[trigger] XYChartAxisTypes::parse(s) == Some(t) ==> s == t.name(),
{
    reveal_strlit("Linear");
    reveal_strlit("Band");
    reveal_strlit("Time");
    reveal_strlit("TimeLocal");
    reveal_strlit("Log");
    match t {
        XYChartAxisTypes::Linear => {
        },
        XYChartAxisTypes::Band => {
            assert("Band"@.len() != "Linear"@.len());
        },
        XYChartAxisTypes::Time => {
            assert("Time"@.len() != "Linear"@.len());
            assert("Time"@[0] != "Band"@[0]);
        },
        XYChartAxisTypes::TimeLocal => {
            assert("TimeLocal"@.len() != "Linear"@.len());
            assert("TimeLocal"@.len() != "Band"@.len());
            assert("TimeLocal"@.len() != "Time"@.len());
        },
        XYChartAxisTypes::Log => {
            assert("Log"@.len() != "Linear"@.len());
            assert("Log"@.len() != "Band"@.len());
            assert("Log"@.len() != "Time"@.len());
            assert("Log"@.len() != "TimeLocal"@.len());
        },
    }
}

/// Each variant of `XYChartAxisTypes` is stored under its own name, and each of those names
/// reads back as that variant.
pub proof fn lemma_xy_chart_axis_types_stored_names()
    ensures
        XYChartAxisTypes::Linear.name() == "Linear"@,
        XYChartAxisTypes::Band.name() == "Band"@,
        XYChartAxisTypes::Time.name() == "Time"@,
        XYChartAxisTypes::TimeLocal.name() == "TimeLocal"@,
        XYChartAxisTypes::Log.name() == "Log"@,
        XYChartAxisTypes::parse("Linear"@) == Some(XYChartAxisTypes::Linear),
        XYChartAxisTypes::parse("Band"@) == Some(XYChartAxisTypes::Band),
        XYChartAxisTypes::parse("Time"@) == Some(XYChartAxisTypes::Time),
        XYChartAxisTypes::parse("TimeLocal"@) == Some(XYChartAxisTypes::TimeLocal),
        XYChartAxisTypes::parse("Log"@) == Some(XYChartAxisTypes::Log),
{
    lemma_xy_chart_axis_types_names(XYChartAxisTypes::Linear);
    lemma_xy_chart_axis_types_names(XYChartAxisTypes::Band);
    lemma_xy_chart_axis_types_names(XYChartAxisTypes::Time);
    lemma_xy_chart_axis_types_names(XYChartAxisTypes::TimeLocal);
    lemma_xy_chart_axis_types_names(XYChartAxisTypes::Log);
}

/// What a datum of an XY chart holds.
#[derive(Clone, Copy, Debug, PartialEq, Eq, Structural)]
pub enum XYChartDatumTypes {
    Text,
    Number,
}

impl XYChartDatumTypes {
    /// The name under which this variant is stored and shown.
    pub open spec fn name(self) -> Seq<char> {
        match self {
            XYChartDatumTypes::Text => "Text"@,
            XYChartDatumTypes::Number => "Number"@,
        }
    }

    /// The variant that a stored name stands for, if any.
    pub open spec fn parse(s: Seq<char>) -> Option<XYChartDatumTypes> {
        if s == "Text"@ {
            Some(XYChartDatumTypes::Text)
        } else if s == "Number"@ {
            Some(XYChartDatumTypes::Number)
        } else {
            None
        }
    }

    /// The name of this variant, as a static string.
    pub fn as_str(&self) -> (s: &'static str)
        ensures
            s@ == self.name(),
    {
        match self {
            XYChartDatumTypes::Text => "Text",
            XYChartDatumTypes::Number => "Number",
        }
    }

    /// The name of this variant, as an owned string (its `Display` form).
    pub fn to_string(&self) -> (s: String)
        ensures
            s@ == self.name(),
    {
        self.as_str().to_string()
    }

    /// Reads a variant from its exact name; any other text is refused.
    pub fn from_str(s: &str) -> (r: Result<XYChartDatumTypes, ParseError>)
        ensures
            r matches Ok(t) ==> XYChartDatumTypes::parse(s@) == Some(t),
            r is Err <==> XYChartDatumTypes::parse(s@) is None,
    {
        if str_eq(s, "Text") {
            Ok(XYChartDatumTypes::Text)
        } else if str_eq(s, "Number") {
            Ok(XYChartDatumTypes::Number)
        } else {
            Err(ParseError::VariantNotFound)
        }
    }
}

/// Every variant of `XYChartDatumTypes` is read back from its own name.
pub proof fn lemma_xy_chart_datum_types_names(t: XYChartDatumTypes)
    ensures
        XYChartDatumTypes::parse(t.name()) == Some(t),
        forall|s: Seq<char>| #[trigger] XYChartDatumTypes::parse(s) == Some(t) ==> s == t.name(),
{
    reveal_strlit("Text");
    reveal_strlit("Number");
    match t {
        XYChartDatumTypes::Text => {
        },
        XYChartDatumTypes::Number => {
            assert("Number"@.len() != "Text"@.len());
        },
    }
}

/// Each variant of `XYChartDatumTypes` is stored under its own name, and each of those names
/// reads back as that variant.
pub proof fn lemma_xy_chart_datum_types_stored_names()
    ensures
        XYChartDatumTypes::Text.name() == "Text"@,
        XYChartDatumTypes::Number.name() == "Number"@,
        XYChartDatumTypes::parse("Text"@) == Some(XYChartDatumTypes::Text),
        XYChartDatumTypes::parse("Number"@) == Some(XYChartDatumTypes::Number),
{
    lemma_xy_chart_datum_types_names(XYChartDatumTypes::Text);
    lemma_xy_chart_datum_types_names(XYChartDatumTypes::Number);
}

/// A text datum of a chart group, keyed by the name of the column it came from.
pub struct XYChartTextDatum {
    pub key: String,
    pub datum_type: XYChartDatumTypes,
    pub text: String,
}

/// A numeric datum of a chart group, its number held as the bit pattern of a 64-bit float.
pub struct XYChartNumberDatum {
    pub key: String,
    pub datum_type: XYChartDatumTypes,
    pub number_bits: u64,
}

/// A datum of a chart group.
pub enum XYChartDatum {
    Text(XYChartTextDatum),
    Number(XYChartNumberDatum),
}

/// The data of one row of the source table.
pub struct XYChartDatumGroup {
    pub id: u128,
    pub data: Vec<XYChartDatum>,
}

/// A series of the chart: one source table, grouped by row.
pub struct XYChartSeries {
    pub id: u128,
    pub label: String,
    pub groups: Vec<XYChartDatumGroup>,
}

/// An XY chart block.
pub struct XYChartBlock {
    pub chart_type: XYChartTypes,
    pub primary_axis: Option<u128>,
    pub series: Vec<XYChartSeries>,
}

/// The value of a datum.
pub enum DatumModel {
    Text { key: Seq<char>, datum_type: XYChartDatumTypes, text: Seq<char> },
    Number { key: Seq<char>, datum_type: XYChartDatumTypes, number_bits: u64 },
}

/// The value of a group.
pub struct GroupModel {
    pub id: u128,
    pub data: Seq<DatumModel>,
}

/// The value of a series.
pub struct SeriesModel {
    pub id: u128,
    pub label: Seq<char>,
    pub groups: Seq<GroupModel>,
}

impl XYChartDatum {
    pub open spec fn model(self) -> DatumModel {
        match self {
            XYChartDatum::Text(d) => DatumModel::Text { key: d.key@, datum_type: d.datum_type, text: d.text@ },
            XYChartDatum::Number(d) => DatumModel::Number {
                key: d.key@,
                datum_type: d.datum_type,
                number_bits: d.number_bits,
            },
        }
    }
}

impl XYChartDatumGroup {
    pub open spec fn model(self) -> GroupModel {
        GroupModel { id: self.id, data: self.data@.map_values(|d: XYChartDatum| d.model()) }
    }
}

impl XYChartSeries {
    pub open spec fn model(self) -> SeriesModel {
        SeriesModel {
            id: self.id,
            label: self.label@,
            groups: self.groups@.map_values(|g: XYChartDatumGroup| g.model()),
        }
    }
}

/// `i` is the first position of `s` whose series has identifier `id`.
pub open spec fn is_first_series(s: Seq<SeriesModel>, id: u128, i: int) -> bool {
    &&& 0 <= i < s.len()
    &&& s[i].id == id
    &&& forall|k: int| 0 <= k < i ==> s[k].id != id
}

/// `i` is the first position of `g` whose group has identifier `id`.
pub open spec fn is_first_group(g: Seq<GroupModel>, id: u128, i: int) -> bool {
    &&& 0 <= i < g.len()
    &&& g[i].id == id
    &&& forall|k: int| 0 <= k < i ==> g[k].id != id
}

pub proof fn lemma_first_series_unique(s: Seq<SeriesModel>, id: u128, i: int, j: int)
    requires
        is_first_series(s, id, i),
        is_first_series(s, id, j),
    ensures
        i == j,
{
    if i < j {
        assert(s[i].id != id);
    } else if j < i {
        assert(s[j].id != id);
    }
}

pub proof fn lemma_first_group_unique(g: Seq<GroupModel>, id: u128, i: int, j: int)
    requires
        is_first_group(g, id, i),
        is_first_group(g, id, j),
    ensures
        i == j,
{
    if i < j {
        assert(g[i].id != id);
    } else if j < i {
        assert(g[j].id != id);
    }
}

/// The datum that a cell's content becomes, under the name of its column: text
/// stays text, a number stays a number, a user becomes the user's label, and
/// anything else becomes empty text.
pub open spec fn datum_of(key: Seq<char>, data: NodeTypes) -> DatumModel {
    match data {
        NodeTypes::Text(t) => DatumModel::Text { key, datum_type: XYChartDatumTypes::Text, text: t.text@ },
        NodeTypes::Float(f) => DatumModel::Number {
            key,
            datum_type: XYChartDatumTypes::Number,
            number_bits: f.value_bits,
        },
        NodeTypes::User(u) => DatumModel::Text { key, datum_type: XYChartDatumTypes::Text, text: u.label@ },
        _ => DatumModel::Text { key, datum_type: XYChartDatumTypes::Text, text: Seq::empty() },
    }
}

/// The value of a chart visitor.
pub struct XYVisitorModel {
    pub chart_type: XYChartTypes,
    pub primary_axis: Option<u128>,
    pub current_series: Option<u128>,
    pub series: Seq<SeriesModel>,
    pub column_names: Map<u128, Seq<char>>,
}

impl XYVisitorModel {
    /// The visitor before any node is entered: a line chart with no series.
    pub open spec fn empty() -> XYVisitorModel {
        XYVisitorModel {
            chart_type: XYChartTypes::Line,
            primary_axis: None,
            current_series: None,
            series: Seq::empty(),
            column_names: Map::empty(),
        }
    }

    /// Entering a table opens a new series for it, labelled `Series 1`, and makes it current.
    pub open spec fn enter_table(self, table: TableNode) -> XYVisitorModel {
        XYVisitorModel {
            series: self.series.push(SeriesModel { id: table.id, label: "Series 1"@, groups: Seq::empty() }),
            current_series: Some(table.id),
            ..self
        }
    }

    /// Entering a column records its label as the name of its identifier.
    pub open spec fn enter_column(self, column: ColumnNode) -> XYVisitorModel {
        XYVisitorModel { column_names: self.column_names.insert(column.id, column.label@), ..self }
    }

    /// Entering a row adds an empty group for it to the first series with
    /// identifier `series_id`; with no such series nothing changes.
    pub open spec fn enter_row_in(self, series_id: u128, row: RowNode) -> XYVisitorModel {
        if exists|i: int| is_first_series(self.series, series_id, i) {
            let i = choose|i: int| is_first_series(self.series, series_id, i);
            let s = self.series[i];
            XYVisitorModel {
                series: self.series.update(
                    i,
                    SeriesModel { groups: s.groups.push(GroupModel { id: row.id, data: Seq::empty() }), ..s },
                ),
                ..self
            }
        } else {
            self
        }
    }

    /// Whether a cell of row `row_id` reaches a group of the first series with
    /// identifier `series_id`.
    pub open spec fn reaches_group(self, series_id: u128, row_id: u128) -> bool {
        exists|i: int, k: int|
            is_first_series(self.series, series_id, i) && is_first_group(self.series[i].groups, row_id, k)
    }

    /// Entering a cell adds its content, as a datum named after its column, to
    /// the group of its row in the first series with identifier `series_id`.
    /// A cell without content, or reaching no group, changes nothing.
    pub open spec fn enter_cell_in(self, series_id: u128, cell: CellNode) -> XYVisitorModel {
        if self.reaches_group(series_id, cell.row_id) && cell.data is Some {
            let i = choose|i: int| is_first_series(self.series, series_id, i);
            let s = self.series[i];
            let k = choose|k: int| is_first_group(s.groups, cell.row_id, k);
            let g = s.groups[k];
            let datum = datum_of(self.column_names[cell.column_id], cell.data->0);
            XYVisitorModel {
                series: self.series.update(
                    i,
                    SeriesModel { groups: s.groups.update(k, GroupModel { data: g.data.push(datum), ..g }), ..s },
                ),
                ..self
            }
        } else {
            self
        }
    }

    /// A cell can be entered when the name of its column is known, or when it
    /// reaches no group: of the current series, or, when there is none, of any
    /// series whose identifier is a random one (the only kind a fresh identifier
    /// can match).
    pub open spec fn can_enter_cell(self, cell: CellNode) -> bool {
        match self.current_series {
            Some(sid) => self.reaches_group(sid, cell.row_id) ==> self.column_names.contains_key(cell.column_id),
            None => forall|r: u128|
                is_random_uuid(r) && #[trigger] self.reaches_group(r, cell.row_id)
                    ==> self.column_names.contains_key(cell.column_id),
        }
    }
}

/// Builds a chart block out of the tables it is shown.
pub struct XYChartBlockVisitor {
    pub chart_type: XYChartTypes,
    pub primary_axis: Option<u128>,
    pub current_series: Option<u128>,
    pub series: Vec<XYChartSeries>,
    pub column_names_by_column_id: HashMap<u128, String>,
}

impl View for XYChartBlockVisitor {
    type V = XYVisitorModel;

    open spec fn view(&self) -> XYVisitorModel {
        XYVisitorModel {
            chart_type: self.chart_type,
            primary_axis: self.primary_axis,
            current_series: self.current_series,
            series: self.series@.map_values(|s: XYChartSeries| s.model()),
            column_names: self.column_names_by_column_id@.map_values(|s: String| s@),
        }
    }
}

impl XYChartBlockVisitor {
    /// A visitor for a line chart with no series yet.
    pub fn new() -> (v: XYChartBlockVisitor)
        ensures
            v@ == XYVisitorModel::empty(),
    {
        let v = XYChartBlockVisitor {
            chart_type: XYChartTypes::Line,
            primary_axis: None,
            current_series: None,
            series: Vec::new(),
            column_names_by_column_id: HashMap::new(),
        };
        assert(v@.series =~= Seq::<SeriesModel>::empty());
        assert(v@.column_names =~= Map::<u128, Seq<char>>::empty());
        v
    }

    /// Opens a series for a table and makes it current.
    pub fn enter_table(&mut self, table: &TableNode)
        ensures
            final(self)@ == old(self)@.enter_table(*table),
    {
        let series = XYChartSeries { id: table.id, label: "Series 1".to_string(), groups: Vec::new() };
        assert(series.model().groups =~= Seq::<GroupModel>::empty());
        self.series.push(series);
        self.current_series = Some(table.id);
        assert(self@.series =~= old(self)@.series.push(series.model()));
    }

    /// Records the label of a column under its identifier.
    pub fn enter_column(&mut self, column: &ColumnNode)
        ensures
            final(self)@ == old(self)@.enter_column(*column),
    {
        broadcast use vstd::std_specs::hash::group_hash_axioms;

        let label = column.label.clone();
        self.column_names_by_column_id.insert(column.id, label);
        assert(self@.column_names =~= old(self)@.column_names.insert(column.id, column.label@));
    }

    fn first_series_position(&self, id: u128) -> (r: Option<usize>)
        ensures
            match r {
                Some(i) => is_first_series(self@.series, id, i as int),
                None => !exists|i: int| is_first_series(self@.series, id, i),
            },
    {
        let mut i: usize = 0;
        while i < self.series.len()
            invariant
                i <= self.series@.len(),
                self@.series.len() == self.series@.len(),
                forall|k: int| 0 <= k < i ==> self@.series[k].id != id,
            decreases self.series@.len() - i,
        {
            if self.series[i].id == id {
                return Some(i);
            }
            i = i + 1;
        }
        None
    }

    fn first_group_position(&self, i: usize, id: u128) -> (r: Option<usize>)
        requires
            i < self.series@.len(),
        ensures
            match r {
                Some(k) => is_first_group(self@.series[i as int].groups, id, k as int),
                None => !exists|k: int| is_first_group(self@.series[i as int].groups, id, k),
            },
    {
        let groups = &self.series[i].groups;
        let mut k: usize = 0;
        while k < groups.len()
            invariant
                k <= groups@.len(),
                self@.series[i as int].groups.len() == groups@.len(),
                self@.series[i as int].groups == groups@.map_values(|g: XYChartDatumGroup| g.model()),
                forall|j: int| 0 <= j < k ==> self@.series[i as int].groups[j].id != id,
            decreases groups@.len() - k,
        {
            if groups[k].id == id {
                return Some(k);
            }
            k = k + 1;
        }
        None
    }

    /// Adds an empty group for a row to the first series with identifier `series_id`.
    pub fn enter_row_of_series(&mut self, series_id: u128, row: &RowNode)
        ensures
            final(self)@ == old(self)@.enter_row_in(series_id, *row),
    {
        match self.first_series_position(series_id) {
            Some(i) => {
                proof {
                    let j = choose|j: int| is_first_series(old(self)@.series, series_id, j);
                    lemma_first_series_unique(old(self)@.series, series_id, i as int, j);
                }
                let group = XYChartDatumGroup { id: row.id, data: Vec::new() };
                assert(group.model().data =~= Seq::<DatumModel>::empty());
                let mut s = self.series.remove(i);
                s.groups.push(group);
                assert(s.model().groups =~= old(self)@.series[i as int].groups.push(group.model()));
                self.series.insert(i, s);
                assert(self@.series =~= old(self)@.series.update(i as int, s.model()));
            },
            None => {},
        }
    }

    /// Adds an empty group for a row to the current series (to the first series
    /// bearing a fresh random identifier when no series is current).
    pub fn enter_row(&mut self, row: &RowNode)
        ensures
            match old(self).current_series {
                Some(sid) => final(self)@ == old(self)@.enter_row_in(sid, *row),
                None => exists|r: u128| is_random_uuid(r) && final(self)@ == old(self)@.enter_row_in(r, *row),
            },
    {
        let series_id = match self.current_series {
            Some(sid) => sid,
            None => new_uuid(),
        };
        self.enter_row_of_series(series_id, row);
    }

    /// Adds the content of a cell, as a datum named after its column, to the
    /// group of its row in the first series with identifier `series_id`.
    pub fn enter_cell_of_series(&mut self, series_id: u128, cell: &CellNode)
        requires
            old(self)@.reaches_group(series_id, cell.row_id) ==> old(self)@.column_names.contains_key(
                cell.column_id,
            ),
        ensures
            final(self)@ == old(self)@.enter_cell_in(series_id, *cell),
    {
        broadcast use vstd::std_specs::hash::group_hash_axioms;

        let i = match self.first_series_position(series_id) {
            Some(i) => i,
            None => {
                return;
            },
        };
        let k = match self.first_group_position(i, cell.row_id) {
            Some(k) => k,
            None => {
                assert(!old(self)@.reaches_group(series_id, cell.row_id));
                return;
            },
        };
        assert(old(self)@.reaches_group(series_id, cell.row_id));
        proof {
            let j = choose|j: int| is_first_series(old(self)@.series, series_id, j);
            lemma_first_series_unique(old(self)@.series, series_id, i as int, j);
            let l = choose|l: int| is_first_group(old(self)@.series[i as int].groups, cell.row_id, l);
            lemma_first_group_unique(old(self)@.series[i as int].groups, cell.row_id, k as int, l);
        }
        let column_name = match self.column_names_by_column_id.get(&cell.column_id) {
            Some(name) => name.clone(),
            None => {
                proof {
                    assert(false);
                }
                String::new()
            },
        };
        assert(column_name@ == old(self)@.column_names[cell.column_id]);
        match &cell.data {
            Some(data) => {
                let datum = match data {
                    NodeTypes::Text(text_node) => XYChartDatum::Text(
                        XYChartTextDatum {
                            key: column_name,
                            datum_type: XYChartDatumTypes::Text,
                            text: text_node.text.clone(),
                        },
                    ),
                    NodeTypes::Float(float_node) => XYChartDatum::Number(
                        XYChartNumberDatum {
                            key: column_name,
                            datum_type: XYChartDatumTypes::Number,
                            number_bits: float_node.value_bits,
                        },
                    ),
                    NodeTypes::User(user_node) => XYChartDatum::Text(
                        XYChartTextDatum {
                            key: column_name,
                            datum_type: XYChartDatumTypes::Text,
                            text: user_node.label.clone(),
                        },
                    ),
                    _ => XYChartDatum::Text(
                        XYChartTextDatum {
                            key: column_name,
                            datum_type: XYChartDatumTypes::Text,
                            text: String::new(),
                        },
                    ),
                };
                assert(datum.model() == datum_of(old(self)@.column_names[cell.column_id], *data));
                let mut s = self.series.remove(i);
                let mut g = s.groups.remove(k);
                g.data.push(datum);
                assert(g.model().data =~= old(self)@.series[i as int].groups[k as int].data.push(datum.model()));
                s.groups.insert(k, g);
                assert(s.model().groups =~= old(self)@.series[i as int].groups.update(k as int, g.model()));
                self.series.insert(i, s);
                assert(self@.series =~= old(self)@.series.update(i as int, s.model()));
            },
            None => {},
        }
    }

    /// Adds the content of a cell to the group of its row in the current series
    /// (in the first series bearing a fresh random identifier when no series is current).
    pub fn enter_cell(&mut self, cell: &CellNode)
        requires
            old(self)@.can_enter_cell(*cell),
        ensures
            match old(self).current_series {
                Some(sid) => final(self)@ == old(self)@.enter_cell_in(sid, *cell),
                None => exists|r: u128| is_random_uuid(r) && final(self)@ == old(self)@.enter_cell_in(r, *cell),
            },
    {
        let series_id = match self.current_series {
            Some(sid) => sid,
            None => new_uuid(),
        };
        self.enter_cell_of_series(series_id, cell);
    }

    /// The chart block built from what the visitor collected: its chart type and
    /// series, with no primary axis.
    pub fn finish(self) -> (block: XYChartBlock)
        ensures
            block.chart_type == self.chart_type,
            block.primary_axis is None,
            block.series == self.series,
    {
        XYChartBlock { chart_type: self.chart_type, primary_axis: None, series: self.series }
    }
}

impl TableNode {
    /// The table node for a chart block: a fresh random identifier, labelled
    /// `Table`, with no rows, columns or cells.
    pub fn from_xy_chart(_block: XYChartBlock) -> (n: TableNode)
        ensures
            is_random_uuid(n.id),
            n.label@ == "Table"@,
            n.debug_info@ == "XYChartBlock"@,
            n.rows@.len() == 0,
            n.columns@.len() == 0,
            n.cells@.len() == 0,
    {
        TableNode {
            id: new_uuid(),
            label: "Table".to_string(),
            debug_info: "XYChartBlock".to_string(),
            rows: Vec::new(),
            columns: Vec::new(),
            cells: Vec::new(),
        }
    }
}

impl XYChartBlock {
    /// The tree for this block: a root node with a fresh random identifier and no data.
    pub fn tap(&self) -> (root: Node)
        ensures
            is_random_uuid(root.id),
            root.label@ == "Root Node"@,
            root.debug_info@ == "Root Node for XYChart"@,
            root.data is None,
    {
        Node {
            id: new_uuid(),
            label: "Root Node".to_string(),
            debug_info: "Root Node for XYChart".to_string(),
            data: None,
        }
    }
}

/// A row entered in the series of a table just entered (whose identifier no
/// earlier series bears) opens one empty group in that series, and no other
/// series changes.
pub proof fn lemma_row_opens_group(v: XYVisitorModel, table: TableNode, row: RowNode)
    requires
        forall|k: int| 0 <= k < v.series.len() ==> v.series[k].id != table.id,
    ensures
        ({
            let w = v.enter_table(table).enter_row_in(table.id, row);
            &&& w.series.len() == v.series.len() + 1
            &&& w.series.drop_last() == v.series
            &&& w.series.last().groups == seq![GroupModel { id: row.id, data: Seq::empty() }]
        }),
{
    let u = v.enter_table(table);
    let n = v.series.len() as int;
    assert(is_first_series(u.series, table.id, n));
    let i = choose|i: int| is_first_series(u.series, table.id, i);
    lemma_first_series_unique(u.series, table.id, i, n);
    let w = u.enter_row_in(table.id, row);
    assert(w.series.drop_last() =~= v.series);
    assert(w.series.last().groups =~= seq![GroupModel { id: row.id, data: Seq::empty() }]);
}

/// In the series of a table just entered, a cell of a row entered there, in a
/// column entered before, becomes the one datum of that row's group, named
/// after the column.
pub proof fn lemma_cell_lands_in_its_row(
    v: XYVisitorModel,
    table: TableNode,
    column: ColumnNode,
    row: RowNode,
    cell: CellNode,
)
    requires
        forall|k: int| 0 <= k < v.series.len() ==> v.series[k].id != table.id,
        cell.row_id == row.id,
        cell.column_id == column.id,
        cell.data is Some,
    ensures
        ({
            let w = v.enter_table(table).enter_column(column).enter_row_in(table.id, row);
            &&& w.can_enter_cell(cell)
            &&& w.enter_cell_in(table.id, cell).series.last().groups[0].data == seq![
                datum_of(column.label@, cell.data->0),
            ]
        }),
{
    let u = v.enter_table(table).enter_column(column);
    let n = v.series.len() as int;
    assert(is_first_series(u.series, table.id, n));
    let i = choose|i: int| is_first_series(u.series, table.id, i);
    lemma_first_series_unique(u.series, table.id, i, n);
    let w = u.enter_row_in(table.id, row);
    assert(is_first_series(w.series, table.id, n));
    assert(is_first_group(w.series[n].groups, row.id, 0));
    assert(w.reaches_group(table.id, cell.row_id));
    let i2 = choose|i: int| is_first_series(w.series, table.id, i);
    lemma_first_series_unique(w.series, table.id, i2, n);
    let k = choose|k: int| is_first_group(w.series[n].groups, cell.row_id, k);
    lemma_first_group_unique(w.series[n].groups, cell.row_id, k, 0);
    assert(w.column_names.contains_key(cell.column_id));
    let x = w.enter_cell_in(table.id, cell);
    assert(x.series.last().groups[0].data =~= seq![datum_of(column.label@, cell.data->0)]);
}

/// Entering a table appends exactly one series at the end, for that table,
/// labelled `Series 1` and with no groups, and makes it the current series.
pub proof fn lemma_table_appends_series(v: XYVisitorModel, table: TableNode)
    ensures
        ({
            let w = v.enter_table(table);
            &&& w.series.len() == v.series.len() + 1
            &&& w.series.drop_last() == v.series
            &&& w.series.last().id == table.id
            &&& w.series.last().label == "Series 1"@
            &&& w.series.last().groups.len() == 0
            &&& w.current_series == Some(table.id)
            &&& w.column_names == v.column_names
            &&& w.chart_type == v.chart_type
            &&& w.primary_axis == v.primary_axis
        }),
{
    let w = v.enter_table(table);
    assert(w.series.drop_last() =~= v.series);
}

/// Entering a column names its identifier by its label and leaves every other
/// column name, and every series, as it was.
pub proof fn lemma_column_is_named(v: XYVisitorModel, column: ColumnNode)
    ensures
        ({
            let w = v.enter_column(column);
            &&& w.column_names.contains_key(column.id)
            &&& w.column_names[column.id] == column.label@
            &&& forall|c: u128| c != column.id ==> (#[trigger] w.column_names.contains_key(c)
                == v.column_names.contains_key(c) && (v.column_names.contains_key(c) ==> w.column_names[c]
                == v.column_names[c]))
            &&& w.series == v.series
            &&& w.current_series == v.current_series
        }),
{
}

/// Entering a row in a series appends exactly one group at the end of that
/// series (after all groups of the rows entered before), with the row's
/// identifier and no data; every other series, and the series' identifier and
/// label, stay as they were.
pub proof fn lemma_row_appends_group(v: XYVisitorModel, series_id: u128, row: RowNode, i: int)
    requires
        is_first_series(v.series, series_id, i),
    ensures
        ({
            let w = v.enter_row_in(series_id, row);
            &&& w.series.len() == v.series.len()
            &&& w.series[i].id == v.series[i].id
            &&& w.series[i].label == v.series[i].label
            &&& w.series[i].groups.len() == v.series[i].groups.len() + 1
            &&& w.series[i].groups.drop_last() == v.series[i].groups
            &&& w.series[i].groups.last().id == row.id
            &&& w.series[i].groups.last().data.len() == 0
            &&& forall|j: int| 0 <= j < v.series.len() && j != i ==> #[trigger] w.series[j] == v.series[j]
            &&& w.column_names == v.column_names
            &&& w.current_series == v.current_series
        }),
{
    let j = choose|j: int| is_first_series(v.series, series_id, j);
    lemma_first_series_unique(v.series, series_id, i, j);
    let w = v.enter_row_in(series_id, row);
    assert(w.series[i].groups.drop_last() =~= v.series[i].groups);
}

/// A row entered in no series changes nothing.
pub proof fn lemma_row_without_series(v: XYVisitorModel, series_id: u128, row: RowNode)
    requires
        forall|k: int| 0 <= k < v.series.len() ==> v.series[k].id != series_id,
    ensures
        v.enter_row_in(series_id, row) == v,
{
}

/// Entering a cell with content, whose row has a group in the series, appends
/// exactly one datum at the end of that group, named after the cell's column;
/// every other group and series stays as it was.
pub proof fn lemma_cell_appends_datum(v: XYVisitorModel, series_id: u128, cell: CellNode, i: int, k: int)
    requires
        is_first_series(v.series, series_id, i),
        is_first_group(v.series[i].groups, cell.row_id, k),
        v.column_names.contains_key(cell.column_id),
        cell.data is Some,
    ensures
        ({
            let w = v.enter_cell_in(series_id, cell);
            let d = w.series[i].groups[k].data;
            &&& w.series.len() == v.series.len()
            &&& w.series[i].groups.len() == v.series[i].groups.len()
            &&& w.series[i].groups[k].id == cell.row_id
            &&& d.len() == v.series[i].groups[k].data.len() + 1
            &&& d.drop_last() == v.series[i].groups[k].data
            &&& d.last() == datum_of(v.column_names[cell.column_id], cell.data->0)
            &&& forall|g: int|
                0 <= g < v.series[i].groups.len() && g != k ==> #[trigger] w.series[i].groups[g]
                    == v.series[i].groups[g]
            &&& forall|j: int| 0 <= j < v.series.len() && j != i ==> #[trigger] w.series[j] == v.series[j]
        }),
{
    assert(v.reaches_group(series_id, cell.row_id));
    let i2 = choose|i2: int| is_first_series(v.series, series_id, i2);
    lemma_first_series_unique(v.series, series_id, i, i2);
    let k2 = choose|k2: int| is_first_group(v.series[i].groups, cell.row_id, k2);
    lemma_first_group_unique(v.series[i].groups, cell.row_id, k, k2);
    let w = v.enter_cell_in(series_id, cell);
    assert(w.series[i].groups[k].data.drop_last() =~= v.series[i].groups[k].data);
}

/// What a cell's content becomes: text stays text, a number stays the same
/// number, a user becomes the user's label as text, and anything else empty
/// text; each is keyed by the given column name.
pub proof fn lemma_datum_by_content(key: Seq<char>, data: NodeTypes)
    ensures
        data matches NodeTypes::Text(t) ==> datum_of(key, data) == (DatumModel::Text {
            key,
            datum_type: XYChartDatumTypes::Text,
            text: t.text@,
        }),
        data matches NodeTypes::Float(f) ==> datum_of(key, data) == (DatumModel::Number {
            key,
            datum_type: XYChartDatumTypes::Number,
            number_bits: f.value_bits,
        }),
        data matches NodeTypes::User(u) ==> datum_of(key, data) == (DatumModel::Text {
            key,
            datum_type: XYChartDatumTypes::Text,
            text: u.label@,
        }),
        !(data is Text || data is Float || data is User) ==> datum_of(key, data) == (DatumModel::Text {
            key,
            datum_type: XYChartDatumTypes::Text,
            text: Seq::empty(),
        }),
{
}

} // verus!
