//! The rows of a result as JSON objects, and the record written for a query.

use crate::mapping::{failure_of, map_type, maps_to, Cell};
use crate::value::{JsonModel, JsonValue, MapError, MapErrorModel};
use vstd::prelude::*;

verus! {

/// One member of a row's object: a column's name and the cell's JSON value.
#[derive(Debug, Clone, PartialEq, Eq)]
pub struct Field {
    pub name: String,
    pub value: JsonValue,
}

/// One row as a JSON object. The fields stand in column order; where a name
/// occurs more than once, the object holds the last value under it.
#[derive(Debug, Clone, PartialEq, Eq)]
pub struct RowObject {
    pub fields: Vec<Field>,
}

/// What is written for one query on one server.
#[derive(Debug, Clone, PartialEq, Eq)]
pub struct OutputRecord {
    pub server: String,
    pub query: String,
    /// When the query was submitted, as the caller formatted it.
    pub now: String,
    pub results: Vec<RowObject>,
}

/// A cell of a row that could not be mapped: its column, by position and
/// name, and the error.
#[derive(Debug, Clone, PartialEq, Eq)]
pub struct ColumnError {
    pub column: usize,
    pub name: String,
    pub error: MapError,
}

/// A query whose result could not be mapped: the server and the query, the
/// row and the column of the first cell that failed, and the error.
#[derive(Debug, Clone, PartialEq, Eq)]
pub struct RecordError {
    pub server: String,
    pub query: String,
    pub row: usize,
    pub column: usize,
    pub name: String,
    pub error: MapError,
}

/// The error that mapping this cell ends in, if any.
pub open spec fn cell_failure(cell: Cell) -> Option<MapErrorModel> {
    failure_of(cell.type_oid, cell.declared_type@, cell.spec_raw())
}

/// The position of the first cell from `from` on that fails, or the number of
/// cells if none does.
pub open spec fn first_failure(cells: Seq<Cell>, from: int) -> int
    decreases cells.len() - from,
{
    if from < 0 || from >= cells.len() {
        cells.len() as int
    } else if cell_failure(cells[from]) is Some {
        from
    } else {
        first_failure(cells, from + 1)
    }
}

/// Whether `fields` are the cells of a row, mapped one by one under the
/// columns' names and in their order.
pub open spec fn row_maps_to(names: Seq<String>, cells: Seq<Cell>, fields: Seq<Field>) -> bool {
    &&& fields.len() == cells.len()
    &&& forall|i: int|
        0 <= i < cells.len() ==> {
            &&& (#[trigger] fields[i]).name@ == names[i]@
            &&& maps_to(
                cells[i].type_oid,
                cells[i].declared_type@,
                cells[i].spec_raw(),
                Ok(fields[i].value@),
            )
        }
}

/// The position of the first row from `from` on that fails, or the number of
/// rows if none does.
pub open spec fn first_failing_row(rows: Seq<Vec<Cell>>, from: int) -> int
    decreases rows.len() - from,
{
    if from < 0 || from >= rows.len() {
        rows.len() as int
    } else if first_failure(rows[from]@, 0) < rows[from]@.len() {
        from
    } else {
        first_failing_row(rows, from + 1)
    }
}

/// The object that the fields make when they are put in one by one, each
/// under its name: a later field takes the place of an earlier one of the
/// same name.
pub open spec fn object_of(fields: Seq<Field>) -> Map<Seq<char>, JsonModel>
    decreases fields.len(),
{
    if fields.len() == 0 {
        Map::empty()
    } else {
        object_of(fields.drop_last()).insert(fields.last().name@, fields.last().value@)
    }
}

impl View for RowObject {
    type V = Map<Seq<char>, JsonModel>;

    open spec fn view(&self) -> Map<Seq<char>, JsonModel> {
        object_of(self.fields@)
    }
}

impl RowObject {
    /// Whether no two fields share a name.
    pub open spec fn distinct(&self) -> bool {
        forall|i: int, j: int|
            0 <= i < j < self.fields@.len() ==> self.fields@[i].name@ != self.fields@[j].name@
    }

    /// An object without fields.
    pub fn new() -> (r: RowObject)
        ensures
            r.fields@.len() == 0,
            r.distinct(),
            r@ == Map::<Seq<char>, JsonModel>::empty(),
    {
        RowObject { fields: Vec::new() }
    }

    /// What the object holds under `name`: the value of the last field of
    /// that name, if there is one.
    pub fn get(&self, name: &str) -> (r: Option<&JsonValue>)
        ensures
            match r {
                Some(v) => self@.contains_key(name@) && self@[name@] == v@,
                None => !self@.contains_key(name@),
            },
    {
        let key: String = name.to_string();
        let mut i: usize = self.fields.len();
        while i > 0
            invariant
                i <= self.fields.len(),
                key@ == name@,
                forall|j: int|
                    i <= j < self.fields@.len() ==> (#[trigger] self.fields@[j]).name@ != name@,
            decreases i,
        {
            if self.fields[i - 1].name == key {
                proof {
                    lemma_last_field_wins(self.fields@, i - 1);
                }
                return Some(&self.fields[i - 1].value);
            }
            i -= 1;
        }
        proof {
            lemma_absent_name(self.fields@, name@);
        }
        None
    }

    /// Puts `value` under `name`, in place of what the object held under it.
    pub fn insert(&mut self, name: String, value: JsonValue)
        requires
            old(self).distinct(),
        ensures
            final(self).distinct(),
            final(self)@ == old(self)@.insert(name@, value@),
    {
        let mut i: usize = 0;
        while i < self.fields.len()
            invariant
                i <= self.fields.len(),
                *self == *old(self),
                self.distinct(),
                forall|j: int| 0 <= j < i ==> (#[trigger] self.fields@[j]).name@ != name@,
            decreases self.fields.len() - i,
        {
            if self.fields[i].name == name {
                let ghost before = self.fields@;
                let replacement = Field { name, value };
                self.fields.set(i, replacement);
                proof {
                    lemma_replace_field(before, i as int, replacement);
                }
                return;
            }
            i += 1;
        }
        let ghost before = self.fields@;
        self.fields.push(Field { name, value });
        proof {
            assert(self.fields@.drop_last() =~= before);
        }
    }

    /// The object as it is written: each name once, with the value of the
    /// last field of that name.
    pub fn members(&self) -> (r: RowObject)
        ensures
            r.distinct(),
            r@ == self@,
    {
        let mut out = RowObject::new();
        let mut i: usize = 0;
        while i < self.fields.len()
            invariant
                i <= self.fields.len(),
                out.distinct(),
                out@ == object_of(self.fields@.take(i as int)),
            decreases self.fields.len() - i,
        {
            proof {
                assert(self.fields@.take(i + 1).drop_last() =~= self.fields@.take(i as int));
            }
            out.insert(self.fields[i].name.clone(), self.fields[i].value.duplicate());
            i += 1;
        }
        proof {
            assert(self.fields@.take(i as int) =~= self.fields@);
        }
        out
    }
}

/// A field that no later field shares its name with is the one that the
/// object holds under that name.
proof fn lemma_last_field_wins(fields: Seq<Field>, i: int)
    requires
        0 <= i < fields.len(),
        forall|j: int| i < j < fields.len() ==> (#[trigger] fields[j]).name@ != fields[i].name@,
    ensures
        object_of(fields).contains_key(fields[i].name@),
        object_of(fields)[fields[i].name@] == fields[i].value@,
    decreases fields.len(),
{
    if i < fields.len() - 1 {
        assert(fields.last().name@ != fields[i].name@);
        lemma_last_field_wins(fields.drop_last(), i);
    }
}

/// A name that no field has is not in the object.
proof fn lemma_absent_name(fields: Seq<Field>, name: Seq<char>)
    requires
        forall|j: int| 0 <= j < fields.len() ==> (#[trigger] fields[j]).name@ != name,
    ensures
        !object_of(fields).contains_key(name),
    decreases fields.len(),
{
    if fields.len() > 0 {
        assert(fields.last().name@ != name);
        lemma_absent_name(fields.drop_last(), name);
    }
}

/// Where no two fields share a name, a new value for one field is a new
/// value under its name in the object, and nothing else changes.
proof fn lemma_replace_field(fields: Seq<Field>, i: int, replacement: Field)
    requires
        0 <= i < fields.len(),
        replacement.name@ == fields[i].name@,
        forall|a: int, b: int| 0 <= a < b < fields.len() ==> fields[a].name@ != fields[b].name@,
    ensures
        object_of(fields.update(i, replacement)) == object_of(fields).insert(
            replacement.name@,
            replacement.value@,
        ),
        forall|a: int, b: int|
            0 <= a < b < fields.len() ==> fields.update(i, replacement)[a].name@
                != fields.update(i, replacement)[b].name@,
    decreases fields.len(),
{
    let changed = fields.update(i, replacement);
    if i == fields.len() - 1 {
        assert(changed.drop_last() =~= fields.drop_last());
        assert(object_of(changed) =~= object_of(fields).insert(
            replacement.name@,
            replacement.value@,
        ));
    } else {
        assert(changed.drop_last() =~= fields.drop_last().update(i, replacement));
        assert(changed.last() == fields.last());
        assert(fields.last().name@ != fields[i].name@);
        lemma_replace_field(fields.drop_last(), i, replacement);
        assert(object_of(changed) =~= object_of(fields).insert(
            replacement.name@,
            replacement.value@,
        ));
    }
}

/// Maps the cells of one row, in column order, to the fields of its object.
/// The first cell that fails ends the row with its error; no part of the row
/// is kept then.
pub fn map_row(names: &Vec<String>, cells: &Vec<Cell>) -> (r: Result<RowObject, ColumnError>)
    requires
        names.len() == cells.len(),
    ensures
        match r {
            Ok(object) => first_failure(cells@, 0) == cells.len() && row_maps_to(
                names@,
                cells@,
                object.fields@,
            ),
            Err(e) => {
                &&& e.column == first_failure(cells@, 0)
                &&& e.column < cells.len()
                &&& e.name@ == names[e.column as int]@
                &&& cell_failure(cells[e.column as int]) == Some(e.error@)
            },
        },
{
    let mut fields: Vec<Field> = Vec::new();
    let mut i: usize = 0;
    while i < cells.len()
        invariant
            i <= cells.len(),
            names.len() == cells.len(),
            fields.len() == i,
            first_failure(cells@, 0) == first_failure(cells@, i as int),
            forall|j: int|
                0 <= j < i ==> {
                    &&& (#[trigger] fields@[j]).name@ == names@[j]@
                    &&& maps_to(
                        cells@[j].type_oid,
                        cells@[j].declared_type@,
                        cells@[j].spec_raw(),
                        Ok(fields@[j].value@),
                    )
                },
        decreases cells.len() - i,
    {
        match map_type(&cells[i]) {
            Ok(value) => {
                fields.push(Field { name: names[i].clone(), value });
            },
            Err(error) => {
                return Err(ColumnError { column: i, name: names[i].clone(), error });
            },
        }
        i += 1;
    }
    Ok(RowObject { fields })
}

/// Builds the record of one query from its rows. The first cell that fails,
/// going through the rows in order and through each row in column order, ends
/// the query with its error, and nothing of the result is kept.
pub fn build_record(
    server: &str,
    query: &str,
    now: &str,
    names: &Vec<String>,
    rows: &Vec<Vec<Cell>>,
) -> (r: Result<OutputRecord, RecordError>)
    requires
        forall|i: int| 0 <= i < rows.len() ==> (#[trigger] rows[i]).len() == names.len(),
    ensures
        match r {
            Ok(record) => {
                &&& first_failing_row(rows@, 0) == rows.len()
                &&& record.server@ == server@
                &&& record.query@ == query@
                &&& record.now@ == now@
                &&& record.results.len() == rows.len()
                &&& forall|i: int|
                    0 <= i < rows.len() ==> row_maps_to(
                        names@,
                        rows[i]@,
                        (#[trigger] record.results[i]).fields@,
                    )
            },
            Err(e) => {
                &&& e.server@ == server@
                &&& e.query@ == query@
                &&& e.row == first_failing_row(rows@, 0)
                &&& e.row < rows.len()
                &&& e.column == first_failure(rows[e.row as int]@, 0)
                &&& e.column < names.len()
                &&& e.name@ == names[e.column as int]@
                &&& cell_failure(rows[e.row as int]@[e.column as int]) == Some(e.error@)
            },
        },
{
    let mut results: Vec<RowObject> = Vec::new();
    let mut i: usize = 0;
    while i < rows.len()
        invariant
            i <= rows.len(),
            results.len() == i,
            forall|j: int| 0 <= j < rows.len() ==> (#[trigger] rows[j]).len() == names.len(),
            first_failing_row(rows@, 0) == first_failing_row(rows@, i as int),
            forall|j: int|
                0 <= j < i ==> row_maps_to(names@, rows[j]@, (#[trigger] results[j]).fields@),
        decreases rows.len() - i,
    {
        match map_row(names, &rows[i]) {
            Ok(object) => {
                results.push(object);
            },
            Err(e) => {
                return Err(
                    RecordError {
                        server: server.to_string(),
                        query: query.to_string(),
                        row: i,
                        column: e.column,
                        name: e.name,
                        error: e.error,
                    },
                );
            },
        }
        i += 1;
    }
    Ok(
        OutputRecord {
            server: server.to_string(),
            query: query.to_string(),
            now: now.to_string(),
            results,
        },
    )
}

/// Where two columns of a row share a name, the object holds the value of the
/// later one: a field that no later field shares its name with is the one
/// found under that name.
pub proof fn law_last_column_wins(object: RowObject, i: int)
    requires
        0 <= i < object.fields@.len(),
        forall|j: int|
            i < j < object.fields@.len() ==> (#[trigger] object.fields@[j]).name@
                != object.fields@[i].name@,
    ensures
        object@.contains_key(object.fields@[i].name@),
        object@[object.fields@[i].name@] == object.fields@[i].value@,
{
    lemma_last_field_wins(object.fields@, i);
}

/// The object holds a name exactly if a column of the row has it.
pub proof fn law_names_are_the_columns(object: RowObject, name: Seq<char>)
    ensures
        object@.contains_key(name) <==> exists|j: int|
            0 <= j < object.fields@.len() && (#[trigger] object.fields@[j]).name@ == name,
{
    lemma_names(object.fields@, name);
}

/// The induction behind [`law_names_are_the_columns`].
proof fn lemma_names(fields: Seq<Field>, name: Seq<char>)
    ensures
        object_of(fields).contains_key(name) <==> exists|j: int|
            0 <= j < fields.len() && (#[trigger] fields[j]).name@ == name,
    decreases fields.len(),
{
    if fields.len() > 0 {
        lemma_names(fields.drop_last(), name);
        if exists|j: int| 0 <= j < fields.len() && (#[trigger] fields[j]).name@ == name {
            let j = choose|j: int| 0 <= j < fields.len() && (#[trigger] fields[j]).name@ == name;
            if j < fields.len() - 1 {
                assert(fields.drop_last()[j].name@ == name);
            }
        }
        if object_of(fields.drop_last()).contains_key(name) {
            let j = choose|j: int|
                0 <= j < fields.drop_last().len() && (#[trigger] fields.drop_last()[j]).name@
                    == name;
            assert(fields[j].name@ == name);
        }
        if fields.last().name@ == name {
            assert(fields[fields.len() - 1].name@ == name);
        }
    }
}

} // verus!
