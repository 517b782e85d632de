//! The order in which the engine carries out a plan.
use vstd::prelude::*;
use crate::plan::{Expr, Plan};

verus! {

/// One operation of the engine on the loaded table.
#[derive(Debug, PartialEq)]
pub enum Step {
    /// Keep the rows for which the condition holds.
    Filter(Expr),
    /// One stable sort on several columns: the first key orders the rows,
    /// each later key orders the ties of the keys before it. A key is a
    /// column name and whether it sorts descending.
    Sort(Vec<(String, bool)>),
    /// Skip `offset` rows, then keep at most `limit` (all when `None`).
    Slice { offset: i64, limit: Option<usize> },
    /// The final projection.
    Select(Vec<Expr>),
}

pub open spec fn filter_steps(condition: Option<Expr>) -> Seq<Step> {
    match condition {
        Some(c) => seq![Step::Filter(c)],
        None => Seq::empty(),
    }
}

pub open spec fn sort_steps(keys: Vec<(String, bool)>) -> Seq<Step> {
    if keys@.len() == 0 {
        Seq::empty()
    } else {
        seq![Step::Sort(keys)]
    }
}

pub open spec fn spec_steps(p: Plan) -> Seq<Step> {
    filter_steps(p.condition) + sort_steps(p.order_by) + seq![
        Step::Slice { offset: p.offset, limit: p.limit },
        Step::Select(p.selection),
    ]
}

/// The plan as engine operations: filter, then sort, then slice, then
/// project. Steps that would do nothing (no condition, no sort key) are left
/// out. The source is not part of it.
pub fn execution_steps(p: Plan) -> (r: Vec<Step>)
    ensures
        r@ == spec_steps(p),
{
    let Plan { selection, condition, source: _, order_by, offset, limit } = p;
    let mut steps: Vec<Step> = Vec::new();
    match condition {
        Some(c) => steps.push(Step::Filter(c)),
        None => {},
    }
    if order_by.len() > 0 {
        steps.push(Step::Sort(order_by));
    }
    steps.push(Step::Slice { offset, limit });
    steps.push(Step::Select(selection));
    assert(steps@ =~= spec_steps(p));
    steps
}

/// Projection comes last and the slice just before it; the filter comes
/// first and the one sort, with all the ORDER BY keys in their order, between
/// them. So a column that only ORDER BY names orders the rows before it is
/// projected away, and OFFSET and LIMIT count filtered, sorted rows.
pub proof fn lemma_project_after_sort(p: Plan)
    ensures
        ({
            let s = spec_steps(p);
            let f = filter_steps(p.condition).len() as int;
            &&& s.len() == f + sort_steps(p.order_by).len() + 2
            &&& s[s.len() - 1] == Step::Select(p.selection)
            &&& s[s.len() - 2] == (Step::Slice { offset: p.offset, limit: p.limit })
            &&& p.condition is Some ==> s[0] == Step::Filter(p.condition->Some_0)
            &&& p.order_by@.len() > 0 ==> s[f] == Step::Sort(p.order_by)
            &&& forall|i: int| 0 <= i < s.len() && (#[trigger] s[i]) is Sort ==> i == f && i < s.len() - 2
            &&& forall|i: int| 0 <= i < s.len() && (#[trigger] s[i]) is Filter ==> i == 0
        }),
{
    let s = spec_steps(p);
    let f = filter_steps(p.condition).len() as int;
    assert forall|i: int| 0 <= i < s.len() && (#[trigger] s[i]) is Sort implies i == f && i < s.len() - 2 by {
        if i < f {
            assert(s[i] == filter_steps(p.condition)[i]);
        }
    }
    assert forall|i: int| 0 <= i < s.len() && (#[trigger] s[i]) is Filter implies i == 0 by {
        if i >= f && i < s.len() - 2 {
            assert(s[i] == sort_steps(p.order_by)[i - f]);
        }
    }
}

} // verus!
