//! Binding and outcome of the point operations: which values go to the
//! placeholders of a statement, in which order, and what a lookup without
//! a row means.

use vstd::prelude::*;

verus! {

/// The value that identifies one row: one component for a key of one
/// column, two for a composite key, in configured order.
#[derive(Debug, Clone, PartialEq, Eq)]
pub enum Key<V> {
    Single(V),
    Pair(V, V),
}

/// Why a point operation gave no result.
#[derive(Debug, Clone, PartialEq, Eq)]
pub enum ExecError<E> {
    /// A lookup by key found no row.
    NotFound,
    /// The executor failed; its own failure is carried along.
    Executor(E),
}

/// The components of a key in the order of the key placeholders: the first
/// goes to the first key column, the second to the second.
pub open spec fn key_binds<V>(key: Key<V>) -> Seq<V> {
    match key {
        Key::Single(a) => seq![a],
        Key::Pair(a, b) => seq![a, b],
    }
}

/// Whether every field of a binding plan is a field of a record with `n`
/// fields.
pub open spec fn plan_fits(plan: Seq<usize>, n: nat) -> bool {
    forall|k: int| 0 <= k < plan.len() ==> (#[trigger] plan[k]) < n
}

impl<V> Key<V> {
    /// The number of components.
    pub fn arity(&self) -> (n: usize)
        ensures
            n == key_binds(*self).len(),
            1 <= n <= 2,
    {
        match self {
            Key::Single(_) => 1,
            Key::Pair(_, _) => 2,
        }
    }

    /// The components in the order in which they are bound.
    pub fn into_binds(self) -> (out: Vec<V>)
        ensures
            out@ == key_binds(self),
    {
        let mut out: Vec<V> = Vec::new();
        match self {
            Key::Single(a) => {
                out.push(a);
                proof {
                    assert(out@ =~= seq![a]);
                }
            },
            Key::Pair(a, b) => {
                out.push(a);
                out.push(b);
                proof {
                    assert(out@ =~= seq![a, b]);
                }
            },
        }
        out
    }
}

/// The current values of a record's fields in the order of a binding plan:
/// the value at position `k` belongs to placeholder `k + 1`. There is none
/// if the plan names a field that the record does not have.
pub fn bind_order<'a, V>(plan: &Vec<usize>, values: &'a Vec<V>) -> (r: Option<Vec<&'a V>>)
    ensures
        r is Some <==> plan_fits(plan@, values@.len()),
        r is Some ==> r->0@.len() == plan@.len() && forall|k: int|
            0 <= k < plan@.len() ==> *(#[trigger] r->0@[k]) == values@[plan@[k] as int],
{
    let mut out: Vec<&'a V> = Vec::new();
    let mut k: usize = 0;
    while k < plan.len()
        invariant
            k <= plan.len(),
            out@.len() == k,
            forall|j: int| 0 <= j < k ==> (#[trigger] plan@[j]) < values@.len(),
            forall|j: int| 0 <= j < k ==> *(#[trigger] out@[j]) == values@[plan@[j] as int],
        decreases plan.len() - k,
    {
        if plan[k] >= values.len() {
            return None;
        }
        out.push(&values[plan[k]]);
        k += 1;
    }
    Some(out)
}

/// The outcome of a lookup by key: the row, or `NotFound` where the
/// executor returned none.
pub fn found<R, E>(row: Option<R>) -> (r: Result<R, ExecError<E>>)
    ensures
        r == match row {
            Some(record) => Ok::<R, ExecError<E>>(record),
            None => Err::<R, ExecError<E>>(ExecError::NotFound),
        },
{
    match row {
        Some(record) => Ok(record),
        None => Err(ExecError::NotFound),
    }
}

} // verus!
