//! The `SELECT` statement of a query configuration.

use vstd::prelude::*;
use vstd::string::*;
use crate::sqlite::condition::{condition_sql, Condition, ConditionView};
use crate::sqlite::order::{distinct_groups, order_terms_sql, OrderBy, OrderTermView};
use crate::table::Table;
use crate::text::{decimal_nat, join, join_strings, push_decimal_nat, views};

verus! {

/// What a [`QueryBuilder`] holds: each clause of the statement, set or unset.
pub struct QueryView {
    pub table: Option<Seq<char>>,
    pub columns: Seq<Seq<char>>,
    pub distinct: bool,
    pub where_condition: Option<ConditionView>,
    pub group_by: Option<Seq<Seq<char>>>,
    pub having_condition: Option<ConditionView>,
    pub order_by: Option<Seq<OrderTermView>>,
    pub limit: Option<nat>,
    pub offset: Option<nat>,
}

/// `SELECT`, `DISTINCT` where it is asked for, and the columns joined with `, `.
pub open spec fn select_clause(query: QueryView) -> Seq<char> {
    "SELECT "@ + (if query.distinct {
        "DISTINCT "@
    } else {
        Seq::empty()
    }) + join(query.columns, ", "@)
}

/// ` FROM ` and the name of the table; no name where no table was given.
pub open spec fn from_clause(query: QueryView) -> Seq<char> {
    " FROM "@ + (match query.table {
        Some(name) => name,
        None => Seq::empty(),
    })
}

/// ` WHERE ` and the predicate, where one is set.
pub open spec fn where_clause(query: QueryView) -> Seq<char> {
    match query.where_condition {
        Some(condition) => " WHERE "@ + condition_sql(condition),
        None => Seq::empty(),
    }
}

/// ` GROUP BY ` and the columns joined with `, `, where a grouping is set.
pub open spec fn group_by_clause(query: QueryView) -> Seq<char> {
    match query.group_by {
        Some(columns) => " GROUP BY "@ + join(columns, ", "@),
        None => Seq::empty(),
    }
}

/// ` HAVING ` and the predicate, where both a grouping and the predicate are
/// set. Without a grouping the predicate is left out.
pub open spec fn having_clause(query: QueryView) -> Seq<char> {
    match (query.group_by, query.having_condition) {
        (Some(_), Some(condition)) => " HAVING "@ + condition_sql(condition),
        _ => Seq::empty(),
    }
}

/// ` ORDER BY ` and the entries of the ordering, where it has any.
pub open spec fn order_by_clause(query: QueryView) -> Seq<char> {
    match query.order_by {
        Some(terms) => if terms.len() > 0 {
            " ORDER BY "@ + order_terms_sql(terms)
        } else {
            Seq::empty()
        },
        None => Seq::empty(),
    }
}

/// ` LIMIT ` and the count, where a limit is set.
pub open spec fn limit_clause(query: QueryView) -> Seq<char> {
    match query.limit {
        Some(count) => " LIMIT "@ + decimal_nat(count),
        None => Seq::empty(),
    }
}

/// ` OFFSET ` and the count, where an offset is set.
pub open spec fn offset_clause(query: QueryView) -> Seq<char> {
    match query.offset {
        Some(count) => " OFFSET "@ + decimal_nat(count),
        None => Seq::empty(),
    }
}

/// The statement: the clauses in their fixed order. A clause that is not set
/// adds nothing, not even a space.
pub open spec fn select_sql(query: QueryView) -> Seq<char> {
    select_clause(query) + from_clause(query) + where_clause(query) + group_by_clause(query)
        + having_clause(query) + order_by_clause(query) + limit_clause(query) + offset_clause(
        query,
    )
}

/// Without a grouping no `HAVING` clause is compiled, whatever predicate was
/// set for it: the statement is that of the configuration without the
/// predicate.
pub proof fn lemma_having_needs_group_by(query: QueryView, condition: ConditionView)
    requires
        query.group_by is None,
    ensures
        having_clause(QueryView { having_condition: Some(condition), ..query }) == Seq::<
            char,
        >::empty(),
        select_sql(QueryView { having_condition: Some(condition), ..query }) == select_sql(
            QueryView { having_condition: None, ..query },
        ),
{
}

/// The statement ends with the `LIMIT` clause and the `OFFSET` clause. Each
/// of the two is there exactly if its count is set, and then holds the count
/// in decimal.
pub proof fn lemma_limit_offset_when_set(query: QueryView)
    ensures
        select_sql(query) == select_sql(QueryView { limit: None, offset: None, ..query })
            + limit_clause(query) + offset_clause(query),
        query.limit is None <==> limit_clause(query).len() == 0,
        query.offset is None <==> offset_clause(query).len() == 0,
        query.limit matches Some(count) ==> limit_clause(query) == " LIMIT "@ + decimal_nat(count),
        query.offset matches Some(count) ==> offset_clause(query) == " OFFSET "@ + decimal_nat(
            count,
        ),
{
    reveal_strlit(" LIMIT ");
    reveal_strlit(" OFFSET ");
    let bare = QueryView { limit: None, offset: None, ..query };
    assert(select_sql(bare) =~= select_clause(query) + from_clause(query) + where_clause(query)
        + group_by_clause(query) + having_clause(query) + order_by_clause(query));
}

/// An ordering without entries compiles to no `ORDER BY` clause: the
/// statement is that of the configuration without an ordering.
pub proof fn lemma_empty_order_by(query: QueryView)
    requires
        query.order_by matches Some(terms) && terms.len() == 0,
    ensures
        order_by_clause(query) == Seq::<char>::empty(),
        select_sql(query) == select_sql(QueryView { order_by: None, ..query }),
{
}

/// The clauses of one `SELECT` statement, collected by chained calls and
/// compiled by [`QueryBuilder::build`].
pub struct QueryBuilder {
    table: Option<String>,
    columns: Vec<String>,
    where_condition: Option<Condition>,
    distinct: bool,
    group_by: Option<Vec<String>>,
    order_by: Option<OrderBy>,
    limit: Option<usize>,
    offset: Option<usize>,
    having_condition: Option<Condition>,
}

impl View for QueryBuilder {
    type V = QueryView;

    closed spec fn view(&self) -> QueryView {
        QueryView {
            table: match self.table {
                Some(name) => Some(name@),
                None => None,
            },
            columns: views(self.columns@),
            distinct: self.distinct,
            where_condition: match self.where_condition {
                Some(condition) => Some(condition@),
                None => None,
            },
            group_by: match self.group_by {
                Some(columns) => Some(views(columns@)),
                None => None,
            },
            having_condition: match self.having_condition {
                Some(condition) => Some(condition@),
                None => None,
            },
            order_by: match self.order_by {
                Some(order) => Some(order@),
                None => None,
            },
            limit: match self.limit {
                Some(count) => Some(count as nat),
                None => None,
            },
            offset: match self.offset {
                Some(count) => Some(count as nat),
                None => None,
            },
        }
    }
}

impl QueryBuilder {
    /// A configuration that selects `columns` and has no other clause set.
    pub fn new(columns: Vec<String>) -> (query: QueryBuilder)
        ensures
            query@ == (QueryView {
                table: None,
                columns: views(columns@),
                distinct: false,
                where_condition: None,
                group_by: None,
                having_condition: None,
                order_by: None,
                limit: None,
                offset: None,
            }),
    {
        QueryBuilder {
            table: None,
            columns,
            where_condition: None,
            distinct: false,
            group_by: None,
            order_by: None,
            limit: None,
            offset: None,
            having_condition: None,
        }
    }

    /// Replaces the selected columns.
    pub fn select(self, columns: Vec<String>) -> (query: QueryBuilder)
        ensures
            query@ == (QueryView { columns: views(columns@), ..self@ }),
    {
        let mut query = self;
        query.columns = columns;
        query
    }

    /// Asks for distinct rows.
    pub fn distinct(self) -> (query: QueryBuilder)
        ensures
            query@ == (QueryView { distinct: true, ..self@ }),
    {
        let mut query = self;
        query.distinct = true;
        query
    }

    /// Selects from the table that `table` names.
    pub fn from<T: Table + ?Sized>(self, table: &T) -> (query: QueryBuilder)
        ensures
            exists|name: &str| #[trigger]
                call_ensures(T::get_name, (table,), name) && query@ == (QueryView {
                    table: Some(name@),
                    ..self@
                }),
    {
        let name = table.get_name();
        let query = self.from_name(name);
        assert(call_ensures(T::get_name, (table,), name));
        query
    }

    /// Selects from the table called `name`.
    pub fn from_name(self, name: &str) -> (query: QueryBuilder)
        ensures
            query@ == (QueryView { table: Some(name@), ..self@ }),
    {
        let mut query = self;
        query.table = Some(String::from_str(name));
        query
    }

    /// Keeps the rows for which `condition` holds.
    pub fn where_clause(self, condition: Condition) -> (query: QueryBuilder)
        ensures
            query@ == (QueryView { where_condition: Some(condition@), ..self@ }),
    {
        let mut query = self;
        query.where_condition = Some(condition);
        query
    }

    /// Groups the rows by `columns`.
    pub fn group_by(self, columns: Vec<String>) -> (query: QueryBuilder)
        ensures
            query@ == (QueryView { group_by: Some(views(columns@)), ..self@ }),
    {
        let mut query = self;
        query.group_by = Some(columns);
        query
    }

    /// Orders the rows by the entries of `col_and_order`, which maps each
    /// of its column groups to one direction.
    pub fn order_by(self, col_and_order: OrderBy) -> (query: QueryBuilder)
        ensures
            query@ == (QueryView { order_by: Some(col_and_order@), ..self@ }),
            distinct_groups(col_and_order@),
    {
        proof {
            use_type_invariant(&col_and_order);
        }
        let mut query = self;
        query.order_by = Some(col_and_order);
        query
    }

    /// Returns at most `count` rows.
    pub fn limit(self, count: usize) -> (query: QueryBuilder)
        ensures
            query@ == (QueryView { limit: Some(count as nat), ..self@ }),
    {
        let mut query = self;
        query.limit = Some(count);
        query
    }

    /// Skips the first `offset` rows.
    pub fn offset(self, offset: usize) -> (query: QueryBuilder)
        ensures
            query@ == (QueryView { offset: Some(offset as nat), ..self@ }),
    {
        let mut query = self;
        query.offset = Some(offset);
        query
    }

    /// Keeps the groups for which `condition` holds. The predicate takes
    /// effect only together with a grouping.
    pub fn having(self, condition: Condition) -> (query: QueryBuilder)
        ensures
            query@ == (QueryView { having_condition: Some(condition@), ..self@ }),
    {
        let mut query = self;
        query.having_condition = Some(condition);
        query
    }

    fn push_select(&self, out: &mut String)
        ensures
            final(out)@ == old(out)@ + select_clause(self@),
    {
        let ghost before = out@;
        out.append("SELECT ");
        if self.distinct {
            out.append("DISTINCT ");
        }
        let columns = join_strings(&self.columns, ", ");
        out.append(columns.as_str());
        assert(out@ =~= before + select_clause(self@));
    }

    fn push_from(&self, out: &mut String)
        ensures
            final(out)@ == old(out)@ + from_clause(self@),
    {
        let ghost before = out@;
        out.append(" FROM ");
        match &self.table {
            Some(name) => {
                out.append(name.as_str());
            },
            None => {},
        }
        assert(out@ =~= before + from_clause(self@));
    }

    fn push_where(&self, out: &mut String)
        ensures
            final(out)@ == old(out)@ + where_clause(self@),
    {
        let ghost before = out@;
        match &self.where_condition {
            Some(condition) => {
                out.append(" WHERE ");
                condition.push_sql(out);
            },
            None => {},
        }
        assert(out@ =~= before + where_clause(self@));
    }

    fn push_group_by(&self, out: &mut String)
        ensures
            final(out)@ == old(out)@ + group_by_clause(self@),
    {
        let ghost before = out@;
        match &self.group_by {
            Some(columns) => {
                out.append(" GROUP BY ");
                let grouped = join_strings(columns, ", ");
                out.append(grouped.as_str());
            },
            None => {},
        }
        assert(out@ =~= before + group_by_clause(self@));
    }

    fn push_having(&self, out: &mut String)
        ensures
            final(out)@ == old(out)@ + having_clause(self@),
    {
        let ghost before = out@;
        if self.group_by.is_some() {
            match &self.having_condition {
                Some(condition) => {
                    out.append(" HAVING ");
                    condition.push_sql(out);
                },
                None => {},
            }
        }
        assert(out@ =~= before + having_clause(self@));
    }

    fn push_order_by(&self, out: &mut String)
        ensures
            final(out)@ == old(out)@ + order_by_clause(self@),
    {
        let ghost before = out@;
        match &self.order_by {
            Some(order) => {
                if !order.is_empty() {
                    out.append(" ORDER BY ");
                    let ordered = order.build();
                    out.append(ordered.as_str());
                }
            },
            None => {},
        }
        assert(out@ =~= before + order_by_clause(self@));
    }

    fn push_limit(&self, out: &mut String)
        ensures
            final(out)@ == old(out)@ + limit_clause(self@),
    {
        let ghost before = out@;
        match self.limit {
            Some(count) => {
                out.append(" LIMIT ");
                push_decimal_nat(out, count as u64);
            },
            None => {},
        }
        assert(out@ =~= before + limit_clause(self@));
    }

    fn push_offset(&self, out: &mut String)
        ensures
            final(out)@ == old(out)@ + offset_clause(self@),
    {
        let ghost before = out@;
        match self.offset {
            Some(count) => {
                out.append(" OFFSET ");
                push_decimal_nat(out, count as u64);
            },
            None => {},
        }
        assert(out@ =~= before + offset_clause(self@));
    }

    /// Compiles the configuration into one `SELECT` statement.
    pub fn build(self) -> (sql: String)
        ensures
            sql@ == select_sql(self@),
    {
        let mut sql = String::new();
        self.push_select(&mut sql);
        assert(sql@ =~= select_clause(self@));
        self.push_from(&mut sql);
        self.push_where(&mut sql);
        self.push_group_by(&mut sql);
        self.push_having(&mut sql);
        self.push_order_by(&mut sql);
        self.push_limit(&mut sql);
        self.push_offset(&mut sql);
        sql
    }
}

} // verus!
