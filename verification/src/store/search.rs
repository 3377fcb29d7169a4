//! Finding the first row of a table that meets a condition.

use vstd::prelude::*;

verus! {

/// The position of the first row at or after `start` that meets `wanted`,
/// or the length of the table when there is none.
pub open spec fn first_from<T>(rows: Seq<T>, wanted: spec_fn(T) -> bool, start: int) -> int
    decreases rows.len() - start,
{
    if start >= rows.len() {
        rows.len() as int
    } else if wanted(rows[start]) {
        start
    } else {
        first_from(rows, wanted, start + 1)
    }
}

/// The position of the first row that meets `wanted`, or the length of the
/// table when there is none.
pub open spec fn position<T>(rows: Seq<T>, wanted: spec_fn(T) -> bool) -> int {
    first_from(rows, wanted, 0)
}

/// The first row that meets `wanted`, if any.
pub open spec fn first_match<T>(rows: Seq<T>, wanted: spec_fn(T) -> bool) -> Option<T> {
    let at = position(rows, wanted);
    if at < rows.len() {
        Some(rows[at])
    } else {
        None
    }
}

/// Whether some row meets `wanted`.
pub open spec fn any_match<T>(rows: Seq<T>, wanted: spec_fn(T) -> bool) -> bool {
    exists|k: int| 0 <= k < rows.len() && wanted(#[trigger] rows[k])
}

/// `first_from` finds the least position from `start` on, and only a row
/// that meets the condition.
pub proof fn lemma_first_from<T>(rows: Seq<T>, wanted: spec_fn(T) -> bool, start: int)
    requires
        0 <= start <= rows.len(),
    ensures
        start <= first_from(rows, wanted, start) <= rows.len(),
        first_from(rows, wanted, start) < rows.len() ==> wanted(
            rows[first_from(rows, wanted, start)],
        ),
        forall|j: int| start <= j < first_from(rows, wanted, start) ==> !wanted(#[trigger] rows[j]),
    decreases rows.len() - start,
{
    if start < rows.len() && !wanted(rows[start]) {
        lemma_first_from(rows, wanted, start + 1);
    }
}

/// `position` is the least position of a matching row, and the length of
/// the table exactly when no row matches.
pub proof fn lemma_position<T>(rows: Seq<T>, wanted: spec_fn(T) -> bool)
    ensures
        0 <= position(rows, wanted) <= rows.len(),
        position(rows, wanted) < rows.len() ==> wanted(rows[position(rows, wanted)]),
        forall|j: int| 0 <= j < position(rows, wanted) ==> !wanted(#[trigger] rows[j]),
        position(rows, wanted) < rows.len() <==> any_match(rows, wanted),
        first_match(rows, wanted) is Some <==> any_match(rows, wanted),
{
    lemma_first_from(rows, wanted, 0);
}

/// A position whose row matches, with no match before it, is the position
/// that `position` names.
pub proof fn lemma_position_is<T>(rows: Seq<T>, wanted: spec_fn(T) -> bool, at: int)
    requires
        0 <= at <= rows.len(),
        at < rows.len() ==> wanted(rows[at]),
        forall|j: int| 0 <= j < at ==> !wanted(#[trigger] rows[j]),
    ensures
        position(rows, wanted) == at,
{
    lemma_first_from(rows, wanted, 0);
}

/// Where at most one row can match, any matching row is the first match.
pub proof fn lemma_only_match<T>(rows: Seq<T>, wanted: spec_fn(T) -> bool, at: int)
    requires
        0 <= at < rows.len(),
        wanted(rows[at]),
        forall|i: int, j: int|
            0 <= i < j < rows.len() ==> !(wanted(#[trigger] rows[i]) && wanted(#[trigger] rows[j])),
    ensures
        position(rows, wanted) == at,
        first_match(rows, wanted) == Some(rows[at]),
{
    lemma_first_from(rows, wanted, 0);
    let p = position(rows, wanted);
    if p < at {
        assert(wanted(rows[p]) && wanted(rows[at]));
    }
}

/// Two conditions that agree on every row of two tables of one length find
/// the same position.
pub proof fn lemma_position_agrees<T>(
    rows: Seq<T>,
    wanted: spec_fn(T) -> bool,
    other_rows: Seq<T>,
    other_wanted: spec_fn(T) -> bool,
)
    requires
        rows.len() == other_rows.len(),
        forall|k: int|
            0 <= k < rows.len() ==> wanted(#[trigger] rows[k]) == other_wanted(other_rows[k]),
    ensures
        position(rows, wanted) == position(other_rows, other_wanted),
{
    lemma_first_from(rows, wanted, 0);
    lemma_first_from(other_rows, other_wanted, 0);
    let p = position(rows, wanted);
    let q = position(other_rows, other_wanted);
    if p < q {
        assert(wanted(rows[p]) == other_wanted(other_rows[p]));
    }
    if q < p {
        assert(wanted(rows[q]) == other_wanted(other_rows[q]));
    }
}

/// Adding a row at the end leaves an earlier first match in place; with
/// none, the new row is found exactly when it matches.
pub proof fn lemma_first_match_push<T>(rows: Seq<T>, row: T, wanted: spec_fn(T) -> bool)
    ensures
        first_match(rows.push(row), wanted) == if first_match(rows, wanted) is Some {
            first_match(rows, wanted)
        } else if wanted(row) {
            Some(row)
        } else {
            None
        },
{
    let longer = rows.push(row);
    lemma_first_from(rows, wanted, 0);
    let at = position(rows, wanted);
    assert forall|j: int| 0 <= j < at implies !wanted(#[trigger] longer[j]) by {
        assert(longer[j] == rows[j]);
    }
    if at < rows.len() {
        assert(longer[at] == rows[at]);
        lemma_position_is(longer, wanted, at);
    } else if wanted(row) {
        assert(longer[at] == row);
        lemma_position_is(longer, wanted, at);
    } else {
        assert(longer[at] == row);
        assert forall|j: int| 0 <= j < at + 1 implies !wanted(#[trigger] longer[j]) by {}
        lemma_position_is(longer, wanted, at + 1);
    }
}

/// Removing a row that does not match leaves the first match as it was.
pub proof fn lemma_first_match_remove<T>(rows: Seq<T>, gone: int, wanted: spec_fn(T) -> bool)
    requires
        0 <= gone < rows.len(),
        !wanted(rows[gone]),
    ensures
        first_match(rows.remove(gone), wanted) == first_match(rows, wanted),
{
    let shorter = rows.remove(gone);
    lemma_first_from(rows, wanted, 0);
    let at = position(rows, wanted);
    let new_at = if at < gone {
        at
    } else {
        at - 1
    };
    assert forall|j: int| 0 <= j < new_at implies !wanted(#[trigger] shorter[j]) by {
        if j < gone {
            assert(shorter[j] == rows[j]);
        } else {
            assert(shorter[j] == rows[j + 1]);
        }
    }
    if at < rows.len() {
        assert(shorter[new_at] == rows[at]);
    }
    lemma_position_is(shorter, wanted, new_at);
}

} // verus!
