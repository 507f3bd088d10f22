//! Conversion of column values into the literals of a statement.

use vstd::prelude::*;
use crate::text::views;
use crate::value::{literals, value_views, Value};

verus! {

/// Writes each value as its SQL literal.
///
/// The result has one literal for each value, at the value's position.
pub fn convert_insert_values(values: Vec<Value>) -> (converted: Vec<String>)
    ensures
        views(converted@) == literals(value_views(values@)),
{
    let mut converted: Vec<String> = Vec::new();
    let mut i: usize = 0;
    while i < values.len()
        invariant
            i <= values.len(),
            converted.len() == i,
            forall|k: int| 0 <= k < i ==> converted@[k]@ == crate::value::literal(#[trigger] values@[k]@),
        decreases values.len() - i,
    {
        converted.push(values[i].literal());
        i = i + 1;
    }
    proof {
        assert(views(converted@) =~= literals(value_views(values@)));
    }
    converted
}

} // verus!
