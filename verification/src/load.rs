//! The data loader: from the text of a data file to typed records.
//!
//! A data file is a JSON array of objects. The loader reads it as a table,
//! an ordered sequence of records with named fields, and checks that every
//! record has the fields of its kind, each of the type it should have. What
//! a field says is not looked at.

use vstd::prelude::*;
use crate::error::{GenError, GenErrorView};
use crate::model::{
    views, BackendDescriptor, BackendView, PositionCase, PositionView,
};

verus! {

/// The value of one field, as far as the loader tells values apart: texts
/// and flags with what they hold, everything else by its kind alone.
#[derive(Debug, Clone, PartialEq, Eq)]
pub enum Cell {
    Null,
    Flag(bool),
    Number,
    Text(String),
    List,
    Record,
}

/// What a `Cell` is to the specifications.
pub enum CellView {
    Null,
    Flag(bool),
    Number,
    Text(Seq<char>),
    List,
    Record,
}

impl View for Cell {
    type V = CellView;

    open spec fn view(&self) -> CellView {
        match self {
            Cell::Null => CellView::Null,
            Cell::Flag(b) => CellView::Flag(*b),
            Cell::Number => CellView::Number,
            Cell::Text(s) => CellView::Text(s@),
            Cell::List => CellView::List,
            Cell::Record => CellView::Record,
        }
    }
}

/// One named field of a record.
#[derive(Debug, Clone, PartialEq, Eq)]
pub struct Field {
    pub name: String,
    pub value: Cell,
}

/// What a `Field` is to the specifications.
pub struct FieldView {
    pub name: Seq<char>,
    pub value: CellView,
}

impl View for Field {
    type V = FieldView;

    open spec fn view(&self) -> FieldView {
        FieldView { name: self.name@, value: self.value@ }
    }
}

/// One record of a table: its fields, in the order the table gives them.
#[derive(Debug, Clone, PartialEq, Eq)]
pub struct Record {
    pub fields: Vec<Field>,
}

impl View for Record {
    type V = Seq<FieldView>;

    open spec fn view(&self) -> Seq<FieldView> {
        views(self.fields@)
    }
}

/// The table that `serde_json::from_str` reads from a text as an array of
/// objects, field by field; `None` where it reads none.
pub uninterp spec fn parsed_table(text: Seq<char>) -> Option<Seq<Seq<FieldView>>>;

/// The value of the first field called `name`.
pub open spec fn field_value(fields: Seq<FieldView>, name: Seq<char>) -> Option<CellView>
    decreases fields.len(),
{
    if fields.len() == 0 {
        None
    } else if fields[0].name == name {
        Some(fields[0].value)
    } else {
        field_value(fields.drop_first(), name)
    }
}

/// The text of the field called `name`, where there is such a field and it
/// holds a text.
pub open spec fn text_field(fields: Seq<FieldView>, name: Seq<char>) -> Option<Seq<char>> {
    match field_value(fields, name) {
        Some(CellView::Text(s)) => Some(s),
        _ => None,
    }
}

/// The flag of the field called `name`, where there is such a field and it
/// holds a flag.
pub open spec fn flag_field(fields: Seq<FieldView>, name: Seq<char>) -> Option<bool> {
    match field_value(fields, name) {
        Some(CellView::Flag(b)) => Some(b),
        _ => None,
    }
}

/// The position that a record describes: it needs the four text fields
/// `id`, `fen`, `depth` and `expected`.
pub open spec fn position_of(fields: Seq<FieldView>) -> Option<PositionView> {
    if text_field(fields, "id"@) is Some && text_field(fields, "fen"@) is Some && text_field(
        fields,
        "depth"@,
    ) is Some && text_field(fields, "expected"@) is Some {
        Some(
            PositionView {
                id: text_field(fields, "id"@).unwrap(),
                fen: text_field(fields, "fen"@).unwrap(),
                depth: text_field(fields, "depth"@).unwrap(),
                expected: text_field(fields, "expected"@).unwrap(),
            },
        )
    } else {
        None
    }
}

/// The backend that a record describes: it needs the text fields
/// `perft_func` and `perft_name` and the flag `bench`.
pub open spec fn backend_of(fields: Seq<FieldView>) -> Option<BackendView> {
    if text_field(fields, "perft_func"@) is Some && text_field(fields, "perft_name"@) is Some
        && flag_field(fields, "bench"@) is Some {
        Some(
            BackendView {
                function_name: text_field(fields, "perft_func"@).unwrap(),
                display_name: text_field(fields, "perft_name"@).unwrap(),
                included: flag_field(fields, "bench"@).unwrap(),
            },
        )
    } else {
        None
    }
}

/// The positions of a table, in its order, where every record describes
/// one.
pub open spec fn positions_of(table: Seq<Seq<FieldView>>) -> Option<Seq<PositionView>> {
    if forall|i: int| 0 <= i < table.len() ==> position_of(#[trigger] table[i]) is Some {
        Some(Seq::new(table.len(), |i: int| position_of(table[i]).unwrap()))
    } else {
        None
    }
}

/// The backends of a table, in its order, where every record describes one.
pub open spec fn backends_of(table: Seq<Seq<FieldView>>) -> Option<Seq<BackendView>> {
    if forall|i: int| 0 <= i < table.len() ==> backend_of(#[trigger] table[i]) is Some {
        Some(Seq::new(table.len(), |i: int| backend_of(table[i]).unwrap()))
    } else {
        None
    }
}

/// The positions that a position file's text holds.
pub open spec fn positions_in(text: Seq<char>) -> Option<Seq<PositionView>> {
    match parsed_table(text) {
        Some(table) => positions_of(table),
        None => None,
    }
}

/// The backends that a backend file's text holds.
pub open spec fn backends_in(text: Seq<char>) -> Option<Seq<BackendView>> {
    match parsed_table(text) {
        Some(table) => backends_of(table),
        None => None,
    }
}

/// Reads `text` as a table. Calls `serde_json::from_str` for an array of
/// JSON objects and turns every member of every object into a `Field`, the
/// value by its JSON kind. The contract claims one thing of that call: what
/// it returns depends on the text alone, so it bears the name
/// `parsed_table`.
#[verifier::external_body]
fn parse_table(text: &str) -> (r: Option<Vec<Record>>)
    ensures
        match r {
            Some(table) => parsed_table(text@) == Some(views(table@)),
            None => parsed_table(text@) is None,
        },
{
    let rows: Vec<serde_json::Map<String, serde_json::Value>> = serde_json::from_str(text).ok()?;
    let cell = |value: serde_json::Value| match value {
        serde_json::Value::Null => Cell::Null,
        serde_json::Value::Bool(flag) => Cell::Flag(flag),
        serde_json::Value::Number(_) => Cell::Number,
        serde_json::Value::String(text) => Cell::Text(text),
        serde_json::Value::Array(_) => Cell::List,
        serde_json::Value::Object(_) => Cell::Record,
    };
    let field = |(name, value)| Field { name, value: cell(value) };
    Some(rows.into_iter().map(|row| Record { fields: row.into_iter().map(field).collect() }).collect())
}

/// Finds the first field called `name`.
pub fn find_field<'a>(fields: &'a Vec<Field>, name: &str) -> (r: Option<&'a Cell>)
    ensures
        match r {
            Some(cell) => field_value(views(fields@), name@) == Some(cell@),
            None => field_value(views(fields@), name@) is None,
        },
{
    let ghost all = views(fields@);
    let wanted = String::from_str(name);
    let mut i: usize = 0;
    proof {
        assert(all.skip(0) =~= all);
    }
    while i < fields.len()
        invariant
            all == views(fields@),
            wanted@ == name@,
            i <= fields.len(),
            field_value(all, name@) == field_value(all.skip(i as int), name@),
        decreases fields.len() - i,
    {
        proof {
            let rest = all.skip(i as int);
            assert(rest[0] == fields[i as int]@);
            assert(rest.drop_first() =~= all.skip(i + 1));
        }
        if fields[i].name == wanted {
            return Some(&fields[i].value);
        }
        i = i + 1;
    }
    proof {
        assert(all.skip(i as int).len() == 0);
    }
    None
}

/// Reads the text of the field called `name`.
pub fn find_text(fields: &Vec<Field>, name: &str) -> (r: Option<String>)
    ensures
        match r {
            Some(text) => text_field(views(fields@), name@) == Some(text@),
            None => text_field(views(fields@), name@) is None,
        },
{
    match find_field(fields, name) {
        Some(Cell::Text(text)) => Some(text.clone()),
        _ => None,
    }
}

/// Reads the flag of the field called `name`.
pub fn find_flag(fields: &Vec<Field>, name: &str) -> (r: Option<bool>)
    ensures
        r == flag_field(views(fields@), name@),
{
    match find_field(fields, name) {
        Some(Cell::Flag(flag)) => Some(*flag),
        _ => None,
    }
}

/// Reads a record as a position.
pub fn position_from(record: &Record) -> (r: Option<PositionCase>)
    ensures
        match r {
            Some(position) => position_of(record@) == Some(position@),
            None => position_of(record@) is None,
        },
{
    let id = match find_text(&record.fields, "id") {
        Some(id) => id,
        None => {
            return None;
        },
    };
    let fen = match find_text(&record.fields, "fen") {
        Some(fen) => fen,
        None => {
            return None;
        },
    };
    let depth = match find_text(&record.fields, "depth") {
        Some(depth) => depth,
        None => {
            return None;
        },
    };
    let expected = match find_text(&record.fields, "expected") {
        Some(expected) => expected,
        None => {
            return None;
        },
    };
    Some(PositionCase { id, fen, depth, expected })
}

/// Reads a record as a backend.
pub fn backend_from(record: &Record) -> (r: Option<BackendDescriptor>)
    ensures
        match r {
            Some(backend) => backend_of(record@) == Some(backend@),
            None => backend_of(record@) is None,
        },
{
    let function_name = match find_text(&record.fields, "perft_func") {
        Some(function_name) => function_name,
        None => {
            return None;
        },
    };
    let display_name = match find_text(&record.fields, "perft_name") {
        Some(display_name) => display_name,
        None => {
            return None;
        },
    };
    let included = match find_flag(&record.fields, "bench") {
        Some(included) => included,
        None => {
            return None;
        },
    };
    Some(BackendDescriptor { function_name, display_name, included })
}

/// Reads a table as positions, one for each record and in the table's
/// order.
///
/// Fails with `MalformedInput`, citing `file`, exactly where some record
/// does not describe a position.
pub fn positions_from(table: &Vec<Record>, file: &str) -> (r: Result<Vec<PositionCase>, GenError>)
    ensures
        match positions_of(views(table@)) {
            Some(ps) => r matches Ok(out) && views(out@) == ps,
            None => r matches Err(e) && e@ == (GenErrorView::MalformedInput { file: file@ }),
        },
{
    let ghost rows = views(table@);
    let mut out: Vec<PositionCase> = Vec::new();
    let mut i: usize = 0;
    while i < table.len()
        invariant
            rows == views(table@),
            i <= table.len(),
            out.len() == i,
            forall|j: int| 0 <= j < i ==> position_of(#[trigger] rows[j]) == Some(out[j]@),
        decreases table.len() - i,
    {
        assert(rows[i as int] == table[i as int]@);
        match position_from(&table[i]) {
            Some(position) => {
                out.push(position);
            },
            None => {
                return Err(GenError::MalformedInput { file: String::from_str(file) });
            },
        }
        i = i + 1;
    }
    proof {
        assert(views(out@) =~= positions_of(rows).unwrap());
    }
    Ok(out)
}

/// Reads a table as backends, one for each record and in the table's order.
///
/// Fails with `MalformedInput`, citing `file`, exactly where some record
/// does not describe a backend.
pub fn backends_from(table: &Vec<Record>, file: &str) -> (r: Result<
    Vec<BackendDescriptor>,
    GenError,
>)
    ensures
        match backends_of(views(table@)) {
            Some(bs) => r matches Ok(out) && views(out@) == bs,
            None => r matches Err(e) && e@ == (GenErrorView::MalformedInput { file: file@ }),
        },
{
    let ghost rows = views(table@);
    let mut out: Vec<BackendDescriptor> = Vec::new();
    let mut i: usize = 0;
    while i < table.len()
        invariant
            rows == views(table@),
            i <= table.len(),
            out.len() == i,
            forall|j: int| 0 <= j < i ==> backend_of(#[trigger] rows[j]) == Some(out[j]@),
        decreases table.len() - i,
    {
        assert(rows[i as int] == table[i as int]@);
        match backend_from(&table[i]) {
            Some(backend) => {
                out.push(backend);
            },
            None => {
                return Err(GenError::MalformedInput { file: String::from_str(file) });
            },
        }
        i = i + 1;
    }
    proof {
        assert(views(out@) =~= backends_of(rows).unwrap());
    }
    Ok(out)
}

/// Loads the positions from the text of the position file `file`.
///
/// Fails with `MalformedInput`, citing `file`, where the text is not an
/// array of objects or some object does not describe a position.
pub fn load_positions(text: &str, file: &str) -> (r: Result<Vec<PositionCase>, GenError>)
    ensures
        match positions_in(text@) {
            Some(ps) => r matches Ok(out) && views(out@) == ps,
            None => r matches Err(e) && e@ == (GenErrorView::MalformedInput { file: file@ }),
        },
{
    match parse_table(text) {
        Some(table) => positions_from(&table, file),
        None => Err(GenError::MalformedInput { file: String::from_str(file) }),
    }
}

/// Loads the backends from the text of the backend file `file`.
///
/// Fails with `MalformedInput`, citing `file`, where the text is not an
/// array of objects or some object does not describe a backend.
pub fn load_backends(text: &str, file: &str) -> (r: Result<Vec<BackendDescriptor>, GenError>)
    ensures
        match backends_in(text@) {
            Some(bs) => r matches Ok(out) && views(out@) == bs,
            None => r matches Err(e) && e@ == (GenErrorView::MalformedInput { file: file@ }),
        },
{
    match parse_table(text) {
        Some(table) => backends_from(&table, file),
        None => Err(GenError::MalformedInput { file: String::from_str(file) }),
    }
}

} // verus!
