//! Result rows written back into records.

use vstd::prelude::*;
use crate::error::Error;
use crate::table::Table;
use crate::text::views;
use crate::value::{value_views, Value, ValueView};

verus! {

/// The position in a result row that the first column field is read from.
///
/// Position 0 is passed over: a result row is taken to begin with a column
/// that identifies the row and that no column field stands for.
pub const FIRST_MAPPED_COLUMN: usize = 1;

/// A value on its way into the field of a record.
pub struct Assignment {
    pub column: String,
    pub value: Value,
}

/// What an [`Assignment`] stands for.
pub struct AssignmentView {
    pub column: Seq<char>,
    pub value: ValueView,
}

impl View for Assignment {
    type V = AssignmentView;

    open spec fn view(&self) -> AssignmentView {
        AssignmentView { column: self.column@, value: self.value@ }
    }
}

/// What each assignment of a list stands for, in order.
pub open spec fn assignment_views(assignments: Seq<Assignment>) -> Seq<AssignmentView> {
    Seq::new(assignments.len(), |i: int| assignments[i]@)
}

/// The first position that a row of `width` values lacks when a field is
/// read from it.
pub open spec fn first_missing_column(width: nat) -> nat {
    if width < FIRST_MAPPED_COLUMN {
        FIRST_MAPPED_COLUMN as nat
    } else {
        width
    }
}

/// What reading the `fields` from `row` gives. Field `i` takes the value at
/// position `i + FIRST_MAPPED_COLUMN`. Where a field's position lies behind
/// the end of the row, the row, known by its `index` in the result set,
/// cannot be mapped.
pub open spec fn row_outcome(fields: Seq<Seq<char>>, row: Seq<ValueView>, index: usize) -> Result<
    Seq<AssignmentView>,
    Error,
> {
    if fields.len() > 0 && row.len() < fields.len() + FIRST_MAPPED_COLUMN {
        Err(Error::RowMapping { row: index, column: first_missing_column(row.len()) as usize })
    } else {
        Ok(
            Seq::new(
                fields.len(),
                |i: int| AssignmentView { column: fields[i], value: row[i + FIRST_MAPPED_COLUMN] },
            ),
        )
    }
}

/// The assignments of an outcome as what they stand for, or the failure.
pub open spec fn assignments_view(outcome: Result<Vec<Assignment>, Error>) -> Result<
    Seq<AssignmentView>,
    Error,
> {
    match outcome {
        Ok(assignments) => Ok(assignment_views(assignments@)),
        Err(error) => Err(error),
    }
}

/// Pairs each field with the value at its position in `row`.
pub fn row_assignments(fields: &Vec<String>, row: &Vec<Value>, index: usize) -> (outcome: Result<
    Vec<Assignment>,
    Error,
>)
    ensures
        assignments_view(outcome) == row_outcome(views(fields@), value_views(row@), index),
{
    if fields.len() > 0 && row.len() <= fields.len() {
        let column: usize = if row.len() < FIRST_MAPPED_COLUMN {
            FIRST_MAPPED_COLUMN
        } else {
            row.len()
        };
        return Err(Error::RowMapping { row: index, column });
    }
    let mut assignments: Vec<Assignment> = Vec::new();
    let mut i: usize = 0;
    while i < fields.len()
        invariant
            i <= fields.len(),
            fields.len() == 0 || fields.len() < row.len(),
            assignments.len() == i,
            forall|k: int|
                0 <= k < i ==> (#[trigger] assignments@[k])@ == (AssignmentView {
                    column: fields@[k]@,
                    value: row@[k + FIRST_MAPPED_COLUMN]@,
                }),
        decreases fields.len() - i,
    {
        let column = fields[i].clone();
        let value = row[i + FIRST_MAPPED_COLUMN].clone();
        assignments.push(Assignment { column, value });
        i = i + 1;
    }
    proof {
        let expected = row_outcome(views(fields@), value_views(row@), index);
        assert(expected is Ok);
        assert(assignment_views(assignments@) =~= expected->Ok_0);
    }
    Ok(assignments)
}

/// Stores `value` in the field `column` of `record` and hands the record
/// back.
pub fn write_back<T: Table>(record: T, column: &str, value: Value) -> (written: T)
    ensures
        exists|target: &mut T, stored: Value|
            *target == record && *final(target) == written && stored@ == value@
                && #[trigger] call_ensures(T::set_column_value, (target, column, stored), ()),
{
    let mut record = record;
    record.set_column_value(column, value);
    record
}

/// `after` is what `before` can become when the value of `assignment` is
/// stored in the field that `assignment` names.
pub open spec fn written<T: Table>(before: T, assignment: AssignmentView, after: T) -> bool {
    exists|column: &str, value: Value|
        column@ == assignment.column && value@ == assignment.value && #[trigger] call_ensures(
            write_back::<T>,
            (before, column, value),
            after,
        )
}

/// `after` is what `before` can become when the `assignments` are stored
/// one after another, the first one first.
pub open spec fn written_all<T: Table>(
    before: T,
    assignments: Seq<AssignmentView>,
    after: T,
) -> bool
    decreases assignments.len(),
{
    if assignments.len() == 0 {
        after == before
    } else {
        exists|middle: T|
            written_all(before, assignments.drop_last(), middle) && #[trigger] written(
                middle,
                assignments.last(),
                after,
            )
    }
}

/// `outcome` is what mapping `row` into a fresh record gives: the fields that
/// the fresh record declares are read from the row. Where the row holds a
/// value for each of them, the values are stored in the record, in the
/// order of the fields; where it does not, the row is not mapped.
pub open spec fn row_mapped<T: Table + Default>(
    row: Seq<ValueView>,
    index: usize,
    outcome: Result<T, Error>,
) -> bool {
    exists|fresh: T, fields: Vec<String>|
        #![trigger
            call_ensures(T::default, (), fresh),
            call_ensures(T::get_column_fields, (&fresh,), fields)]
        call_ensures(T::default, (), fresh) && call_ensures(
            T::get_column_fields,
            (&fresh,),
            fields,
        ) && match row_outcome(views(fields@), row, index) {
            Ok(assignments) => outcome matches Ok(record) && written_all(
                fresh,
                assignments,
                record,
            ),
            Err(error) => outcome == Err::<T, Error>(error),
        }
}

/// Maps one result row into a fresh record: each declared field, in order,
/// receives the value at its position in the row.
pub fn map_row<T: Table + Default>(row: &Vec<Value>, index: usize) -> (outcome: Result<T, Error>)
    ensures
        row_mapped::<T>(value_views(row@), index, outcome),
{
    let fresh = T::default();
    let fields = fresh.get_column_fields();
    assert(call_ensures(T::default, (), fresh) && call_ensures(
        T::get_column_fields,
        (&fresh,),
        fields,
    ));
    let ghost start = fresh;
    match row_assignments(&fields, row, index) {
        Ok(assignments) => {
            let ghost planned = assignment_views(assignments@);
            let ghost list = assignments@;
            let mut record = fresh;
            for assignment in it: assignments
                invariant
                    it.seq() == list,
                    planned == assignment_views(list),
                    written_all(start, planned.take(it.index()), record),
            {
                let ghost middle = record;
                record = write_back(record, assignment.column.as_str(), assignment.value);
                proof {
                    let done = planned.take(it.index() + 1);
                    assert(done.drop_last() == planned.take(it.index()));
                    assert(done.last() == assignment@);
                    assert(written(middle, done.last(), record));
                }
            }
            proof {
                assert(planned.take(planned.len() as int) == planned);
            }
            Ok(record)
        },
        Err(error) => Err(error),
    }
}

/// Mapping `row` into a fresh record gives a record.
pub open spec fn row_accepted<T: Table + Default>(row: Seq<ValueView>, index: usize) -> bool {
    exists|outcome: Result<T, Error>| outcome is Ok && #[trigger] row_mapped::<T>(row, index, outcome)
}

/// Maps the rows of a result set into records, in the order of the rows.
///
/// Either every row is mapped, or the first row that cannot be mapped fails
/// the whole set and no record is returned.
pub fn map_rows<T: Table + Default>(rows: &Vec<Vec<Value>>) -> (outcome: Result<Vec<T>, Error>)
    ensures
        match outcome {
            Ok(records) => records.len() == rows.len() && forall|i: int|
                0 <= i < rows.len() ==> row_mapped::<T>(
                    value_views(#[trigger] rows@[i]@),
                    i as usize,
                    Ok(records@[i]),
                ),
            Err(error) => exists|i: int|
                0 <= i < rows.len() && row_mapped::<T>(
                    value_views(#[trigger] rows@[i]@),
                    i as usize,
                    Err(error),
                ) && forall|k: int|
                    0 <= k < i ==> row_accepted::<T>(value_views(#[trigger] rows@[k]@), k as usize),
        },
{
    let mut records: Vec<T> = Vec::new();
    let mut i: usize = 0;
    while i < rows.len()
        invariant
            i <= rows.len(),
            records.len() == i,
            forall|k: int|
                0 <= k < i ==> row_mapped::<T>(
                    value_views(#[trigger] rows@[k]@),
                    k as usize,
                    Ok(records@[k]),
                ),
        decreases rows.len() - i,
    {
        match map_row::<T>(&rows[i], i) {
            Ok(record) => {
                records.push(record);
            },
            Err(error) => {
                assert(row_mapped::<T>(value_views(rows@[i as int]@), i, Err(error)));
                assert forall|k: int| 0 <= k < i implies row_accepted::<T>(
                    value_views(#[trigger] rows@[k]@),
                    k as usize,
                ) by {
                    assert(row_mapped::<T>(value_views(rows@[k]@), k as usize, Ok(records@[k])));
                }
                return Err(error);
            },
        }
        i = i + 1;
    }
    Ok(records)
}

} // verus!
