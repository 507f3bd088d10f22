//! Predicates for `WHERE` and `HAVING`.

use vstd::prelude::*;
use vstd::string::*;
use crate::value::{literal, Value, ValueView};

verus! {

/// How a column is compared with a value.
#[derive(Debug, Clone, Copy, PartialEq, Eq)]
pub enum Operator {
    /// `=`
    Eq,
    /// `<>`
    Ne,
    /// `<`
    Lt,
    /// `<=`
    Le,
    /// `>`
    Gt,
    /// `>=`
    Ge,
}

/// A predicate: a tree whose leaves compare a column with a value and whose
/// inner nodes join two predicates with `AND` or `OR`.
#[derive(Debug, PartialEq, Eq)]
pub enum Condition {
    /// `column operator value`
    Compare { column: String, operator: Operator, value: Value },
    /// Both predicates hold.
    And(Box<Condition>, Box<Condition>),
    /// At least one of the predicates holds.
    Or(Box<Condition>, Box<Condition>),
}

/// What a [`Condition`] stands for.
pub enum ConditionView {
    Compare { column: Seq<char>, operator: Operator, value: ValueView },
    And(Box<ConditionView>, Box<ConditionView>),
    Or(Box<ConditionView>, Box<ConditionView>),
}

impl Condition {
    /// The tree that `self` stands for.
    pub open spec fn model(&self) -> ConditionView
        decreases self,
    {
        match self {
            Condition::Compare { column, operator, value } => ConditionView::Compare {
                column: column@,
                operator: *operator,
                value: value@,
            },
            Condition::And(left, right) => ConditionView::And(
                Box::new(left.model()),
                Box::new(right.model()),
            ),
            Condition::Or(left, right) => ConditionView::Or(
                Box::new(left.model()),
                Box::new(right.model()),
            ),
        }
    }
}

impl View for Condition {
    type V = ConditionView;

    open spec fn view(&self) -> ConditionView {
        self.model()
    }
}

/// The symbol of a comparison.
pub open spec fn operator_sql(operator: Operator) -> Seq<char> {
    match operator {
        Operator::Eq => "="@,
        Operator::Ne => "<>"@,
        Operator::Lt => "<"@,
        Operator::Le => "<="@,
        Operator::Gt => ">"@,
        Operator::Ge => ">="@,
    }
}

/// The text of a predicate.
///
/// A comparison is the column, the symbol and the value's literal with one
/// space between them. An inner node is its two sides around `AND` or `OR`,
/// the whole between parentheses, so that the grouping of the tree stays
/// whatever stands around the text.
pub open spec fn condition_sql(condition: ConditionView) -> Seq<char>
    decreases condition,
{
    match condition {
        ConditionView::Compare { column, operator, value } => column + " "@ + operator_sql(operator)
            + " "@ + literal(value),
        ConditionView::And(left, right) => "("@ + condition_sql(*left) + " AND "@ + condition_sql(
            *right,
        ) + ")"@,
        ConditionView::Or(left, right) => "("@ + condition_sql(*left) + " OR "@ + condition_sql(
            *right,
        ) + ")"@,
    }
}

impl Operator {
    /// The symbol of the comparison.
    pub fn symbol(&self) -> (text: &'static str)
        ensures
            text@ == operator_sql(*self),
    {
        match self {
            Operator::Eq => "=",
            Operator::Ne => "<>",
            Operator::Lt => "<",
            Operator::Le => "<=",
            Operator::Gt => ">",
            Operator::Ge => ">=",
        }
    }
}

impl Clone for Condition {
    fn clone(&self) -> (copy: Self)
        ensures
            copy@ == self@,
        decreases self,
    {
        match self {
            Condition::Compare { column, operator, value } => Condition::Compare {
                column: column.clone(),
                operator: *operator,
                value: value.clone(),
            },
            Condition::And(left, right) => Condition::And(
                Box::new((&**left).clone()),
                Box::new((&**right).clone()),
            ),
            Condition::Or(left, right) => Condition::Or(
                Box::new((&**left).clone()),
                Box::new((&**right).clone()),
            ),
        }
    }
}

impl Condition {
    /// The comparison of `column` with `value`.
    pub fn compare(column: &str, operator: Operator, value: Value) -> (condition: Condition)
        ensures
            condition@ == (ConditionView::Compare { column: column@, operator, value: value@ }),
    {
        Condition::Compare { column: String::from_str(column), operator, value }
    }

    /// The predicate that holds where both `self` and `other` hold.
    pub fn and(self, other: Condition) -> (condition: Condition)
        ensures
            condition@ == ConditionView::And(Box::new(self@), Box::new(other@)),
    {
        Condition::And(Box::new(self), Box::new(other))
    }

    /// The predicate that holds where `self` or `other` holds.
    pub fn or(self, other: Condition) -> (condition: Condition)
        ensures
            condition@ == ConditionView::Or(Box::new(self@), Box::new(other@)),
    {
        Condition::Or(Box::new(self), Box::new(other))
    }

    /// Appends the text of the predicate to `out`.
    pub fn push_sql(&self, out: &mut String)
        ensures
            final(out)@ == old(out)@ + condition_sql(self@),
        decreases self,
    {
        match self {
            Condition::Compare { column, operator, value } => {
                out.append(column.as_str());
                out.append(" ");
                out.append(operator.symbol());
                out.append(" ");
                value.push_literal(out);
            },
            Condition::And(left, right) => {
                out.append("(");
                left.push_sql(out);
                out.append(" AND ");
                right.push_sql(out);
                out.append(")");
            },
            Condition::Or(left, right) => {
                out.append("(");
                left.push_sql(out);
                out.append(" OR ");
                right.push_sql(out);
                out.append(")");
            },
        }
    }

    /// The text of the predicate.
    pub fn build(&self) -> (text: String)
        ensures
            text@ == condition_sql(self@),
    {
        let mut text = String::new();
        self.push_sql(&mut text);
        text
    }
}

} // verus!
