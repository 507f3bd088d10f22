//! The `INSERT` statement of a record.

use vstd::prelude::*;
use vstd::string::*;
use crate::error::{Error, GenerationFault};
use crate::table::Table;
use crate::text::{join, join_strings, lemma_join_len, total_len, views};
use crate::util::convert_insert_values;
use crate::value::{literal, literals, value_views, Value, ValueView};

verus! {

/// The statement that inserts `values` into the columns `fields` of `table`.
pub open spec fn insert_sql(table: Seq<char>, fields: Seq<Seq<char>>, values: Seq<ValueView>) -> Seq<
    char,
> {
    "INSERT INTO "@ + table + " ("@ + join(fields, ", "@) + ") VALUES ("@ + join(
        literals(values),
        ", "@,
    ) + ");"@
}

/// What composing the statement gives: the statement for one or more fields
/// with as many values, and otherwise the fault that prevents it.
pub open spec fn insert_outcome(
    table: Seq<char>,
    fields: Seq<Seq<char>>,
    values: Seq<ValueView>,
) -> Result<Seq<char>, Error> {
    if fields.len() == 0 {
        Err(Error::StatementGeneration(GenerationFault::NoColumns))
    } else if fields.len() != values.len() {
        Err(
            Error::StatementGeneration(
                GenerationFault::Misaligned {
                    fields: fields.len() as usize,
                    values: values.len() as usize,
                },
            ),
        )
    } else {
        Ok(insert_sql(table, fields, values))
    }
}

/// The statement of a record with `n` fields and `n` values, `n` at least
/// one, lists `n` column names and `n` literals: the names in the order of
/// the fields, at each position the literal of the value at that position,
/// and `n - 1` separators in either list.
pub proof fn lemma_insert_lists_aligned(
    table: Seq<char>,
    fields: Seq<Seq<char>>,
    values: Seq<ValueView>,
)
    requires
        fields.len() > 0,
        fields.len() == values.len(),
    ensures
        insert_outcome(table, fields, values) == Ok::<Seq<char>, Error>(
            insert_sql(table, fields, values),
        ),
        insert_sql(table, fields, values) == "INSERT INTO "@ + table + " ("@ + join(fields, ", "@)
            + ") VALUES ("@ + join(literals(values), ", "@) + ");"@,
        literals(values).len() == fields.len(),
        forall|i: int| 0 <= i < values.len() ==> #[trigger] literals(values)[i] == literal(values[i]),
        join(fields, ", "@).len() == total_len(fields) + (fields.len() - 1) * 2,
        join(literals(values), ", "@).len() == total_len(literals(values)) + (fields.len() - 1) * 2,
{
    reveal_strlit(", ");
    lemma_join_len(fields, ", "@);
    lemma_join_len(literals(values), ", "@);
}

/// The text of a composed statement, or the fault.
pub open spec fn statement_view(outcome: Result<String, Error>) -> Result<Seq<char>, Error> {
    match outcome {
        Ok(sql) => Ok(sql@),
        Err(error) => Err(error),
    }
}

/// Composes `INSERT INTO table (fields) VALUES (literals);`.
///
/// The fields and the literals of the values are each joined with `, `, in
/// their order. A record without fields, or with another number of values
/// than fields, gives a fault and no statement.
pub fn insert_statement(table: &str, fields: &Vec<String>, values: Vec<Value>) -> (outcome: Result<
    String,
    Error,
>)
    ensures
        statement_view(outcome) == insert_outcome(table@, views(fields@), value_views(values@)),
{
    if fields.len() == 0 {
        return Err(Error::StatementGeneration(GenerationFault::NoColumns));
    }
    if fields.len() != values.len() {
        return Err(
            Error::StatementGeneration(
                GenerationFault::Misaligned { fields: fields.len(), values: values.len() },
            ),
        );
    }
    let columns = join_strings(fields, ", ");
    let converted = convert_insert_values(values);
    let literal_list = join_strings(&converted, ", ");
    let mut sql = String::new();
    sql.append("INSERT INTO ");
    sql.append(table);
    sql.append(" (");
    sql.append(columns.as_str());
    sql.append(") VALUES (");
    sql.append(literal_list.as_str());
    sql.append(");");
    Ok(sql)
}

/// Composes the `INSERT` statement of `table_row` from the name, the fields
/// and the values that the record reports.
pub fn generate_statement<T: Table + ?Sized>(table_row: &T) -> (outcome: Result<String, Error>)
    ensures
        exists|table: &str, fields: Vec<String>, values: Vec<Value>|
            #![trigger
                call_ensures(T::get_name, (table_row,), table),
                call_ensures(T::get_column_fields, (table_row,), fields),
                call_ensures(T::get_column_values, (table_row,), values)]
            call_ensures(T::get_name, (table_row,), table)
                && call_ensures(T::get_column_fields, (table_row,), fields)
                && call_ensures(T::get_column_values, (table_row,), values)
                && statement_view(outcome) == insert_outcome(
                    table@,
                    views(fields@),
                    value_views(values@),
                ),
{
    let table = table_row.get_name();
    let fields = table_row.get_column_fields();
    let values = table_row.get_column_values();
    let ghost reported = values;
    let outcome = insert_statement(table, &fields, values);
    assert(call_ensures(T::get_name, (table_row,), table) && call_ensures(
        T::get_column_fields,
        (table_row,),
        fields,
    ) && call_ensures(T::get_column_values, (table_row,), reported));
    outcome
}

} // verus!
