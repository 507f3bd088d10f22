//! The ordering of a result set.

use vstd::prelude::*;
use vstd::string::*;
use crate::text::{join, join_strings, views};

verus! {

/// One entry of an ordering: a group of columns and the direction it is
/// sorted in.
pub struct OrderTermView {
    pub columns: Seq<Seq<char>>,
    pub direction: Seq<char>,
}

struct OrderTerm {
    columns: Vec<String>,
    direction: String,
}

/// A mapping from column groups to directions that keeps its entries in the
/// order in which their groups were first inserted.
pub struct OrderBy {
    terms: Vec<OrderTerm>,
}

/// No two entries are for the same column group.
pub open spec fn distinct_groups(terms: Seq<OrderTermView>) -> bool {
    forall|i: int, j: int| 0 <= i < j < terms.len() ==> terms[i].columns != terms[j].columns
}

/// Some entry is for the group `columns`.
pub open spec fn has_group(terms: Seq<OrderTermView>, columns: Seq<Seq<char>>) -> bool {
    exists|i: int| 0 <= i < terms.len() && #[trigger] terms[i].columns == columns
}

/// The entries after `columns` has been mapped to `direction`: the entry of
/// the group gets the new direction where there is one, and otherwise a new
/// entry goes to the end.
pub open spec fn with_term(
    terms: Seq<OrderTermView>,
    columns: Seq<Seq<char>>,
    direction: Seq<char>,
) -> Seq<OrderTermView> {
    if has_group(terms, columns) {
        Seq::new(
            terms.len(),
            |i: int|
                if terms[i].columns == columns {
                    OrderTermView { columns, direction }
                } else {
                    terms[i]
                },
        )
    } else {
        terms.push(OrderTermView { columns, direction })
    }
}

/// The text of one entry: its columns joined with `, `, a space and the
/// direction.
pub open spec fn order_term_sql(term: OrderTermView) -> Seq<char> {
    join(term.columns, ", "@) + " "@ + term.direction
}

/// The texts of the entries joined with `, `, in the order of the entries.
pub open spec fn order_terms_sql(terms: Seq<OrderTermView>) -> Seq<char> {
    join(Seq::new(terms.len(), |i: int| order_term_sql(terms[i])), ", "@)
}

impl View for OrderTerm {
    type V = OrderTermView;

    closed spec fn view(&self) -> OrderTermView {
        OrderTermView { columns: views(self.columns@), direction: self.direction@ }
    }
}

spec fn term_views(terms: Seq<OrderTerm>) -> Seq<OrderTermView> {
    Seq::new(terms.len(), |i: int| terms[i]@)
}

impl View for OrderBy {
    type V = Seq<OrderTermView>;

    closed spec fn view(&self) -> Seq<OrderTermView> {
        term_views(self.terms@)
    }
}

fn same_group(left: &Vec<String>, right: &Vec<String>) -> (same: bool)
    ensures
        same == (views(left@) == views(right@)),
{
    if left.len() != right.len() {
        assert(views(left@).len() != views(right@).len());
        return false;
    }
    let mut i: usize = 0;
    while i < left.len()
        invariant
            i <= left.len(),
            left.len() == right.len(),
            forall|k: int| 0 <= k < i ==> left@[k]@ == right@[k]@,
        decreases left.len() - i,
    {
        if left[i] != right[i] {
            assert(views(left@)[i as int] != views(right@)[i as int]);
            return false;
        }
        i = i + 1;
    }
    assert(views(left@) =~= views(right@));
    true
}

impl OrderBy {
    /// An ordering holds no column group twice.
    #[verifier::type_invariant]
    pub open spec fn well_formed(self) -> bool {
        distinct_groups(self@)
    }

    /// The ordering without entries.
    pub fn new() -> (order: OrderBy)
        ensures
            order@ == Seq::<OrderTermView>::empty(),
    {
        let order = OrderBy { terms: Vec::new() };
        assert(order@ =~= Seq::<OrderTermView>::empty());
        order
    }

    /// The number of entries.
    pub fn len(&self) -> (count: usize)
        ensures
            count == self@.len(),
    {
        self.terms.len()
    }

    /// Whether there is no entry.
    pub fn is_empty(&self) -> (empty: bool)
        ensures
            empty == (self@.len() == 0),
    {
        self.terms.len() == 0
    }

    /// The entries as they stand behind `ORDER BY`.
    pub fn build(&self) -> (text: String)
        ensures
            text@ == order_terms_sql(self@),
    {
        let mut parts: Vec<String> = Vec::new();
        let mut i: usize = 0;
        while i < self.terms.len()
            invariant
                i <= self.terms.len(),
                parts.len() == i,
                forall|k: int| 0 <= k < i ==> (#[trigger] parts@[k])@ == order_term_sql(self@[k]),
            decreases self.terms.len() - i,
        {
            let mut part = join_strings(&self.terms[i].columns, ", ");
            part.append(" ");
            part.append(self.terms[i].direction.as_str());
            parts.push(part);
            i = i + 1;
        }
        proof {
            assert(views(parts@) =~= Seq::new(self@.len(), |i: int| order_term_sql(self@[i])));
        }
        join_strings(&parts, ", ")
    }

    /// Maps the group `columns` to `direction`.
    pub fn insert(&mut self, columns: Vec<String>, direction: String)
        ensures
            final(self)@ == with_term(old(self)@, views(columns@), direction@),
            distinct_groups(final(self)@),
    {
        proof {
            use_type_invariant(&*self);
        }
        let mut terms: Vec<OrderTerm> = Vec::new();
        assert(term_views(terms@) =~= Seq::<OrderTermView>::empty());
        core::mem::swap(&mut terms, &mut self.terms);
        let ghost before = term_views(terms@);
        let ghost group = views(columns@);
        let ghost heading = direction@;
        let mut i: usize = 0;
        let mut found: bool = false;
        while i < terms.len() && !found
            invariant
                i <= terms.len(),
                term_views(terms@) == before,
                group == views(columns@),
                found ==> i < terms.len() && before[i as int].columns == group,
                forall|k: int| 0 <= k < i ==> (#[trigger] before[k]).columns != group,
            decreases terms.len() - i + if found { 0int } else { 1int },
        {
            if same_group(&terms[i].columns, &columns) {
                found = true;
            } else {
                i = i + 1;
            }
        }
        if found {
            terms.set(i, OrderTerm { columns, direction });
            proof {
                assert(has_group(before, group));
                assert(term_views(terms@) =~= with_term(before, group, heading));
            }
        } else {
            terms.push(OrderTerm { columns, direction });
            proof {
                assert(!has_group(before, group));
                assert(term_views(terms@) =~= with_term(before, group, heading));
            }
        }
        core::mem::swap(&mut terms, &mut self.terms);
    }
}

} // verus!
