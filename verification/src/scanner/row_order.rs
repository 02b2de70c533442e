//! The order in which the rows of a sequence of batches are visited, and
//! what a row limit leaves of it.

use vstd::prelude::*;

verus! {

/// The place of a row: the index of its batch and its index in the batch.
pub struct RowPlace {
    pub batch: int,
    pub row: int,
}

/// The rows of batches with the given row counts, from a place on: the rest
/// of that batch, then every later batch from its first row. A batch
/// without rows contributes nothing.
pub open spec fn rows_from(counts: Seq<nat>, batch: int, row: int) -> Seq<RowPlace>
    decreases counts.len() - batch, counts[batch] - row,
{
    if batch < 0 || batch >= counts.len() {
        Seq::empty()
    } else if row < 0 || row >= counts[batch] {
        rows_from(counts, batch + 1, 0)
    } else {
        seq![RowPlace { batch, row }] + rows_from(counts, batch, row + 1)
    }
}

/// Every row of every batch, batch by batch and row by row.
pub open spec fn all_rows(counts: Seq<nat>) -> Seq<RowPlace> {
    rows_from(counts, 0, 0)
}

/// The number of rows that a limit admits out of `available`: all of them
/// without a limit, none under a limit that is not positive.
pub open spec fn admitted(limit: Option<i64>, available: nat) -> nat {
    match limit {
        None => available,
        Some(l) => if l <= 0 {
            0
        } else if l <= available {
            l as nat
        } else {
            available
        },
    }
}

/// The rows that a scan with an optional limit yields: the first rows in
/// order, as many as the limit admits.
pub open spec fn bounded_rows(counts: Seq<nat>, limit: Option<i64>) -> Seq<RowPlace> {
    all_rows(counts).take(admitted(limit, all_rows(counts).len()) as int)
}

/// The rows of all batches from the given batch on, added up.
pub open spec fn total_rows(counts: Seq<nat>, batch: int) -> nat
    decreases counts.len() - batch,
{
    if batch < 0 || batch >= counts.len() {
        0
    } else {
        counts[batch] + total_rows(counts, batch + 1)
    }
}

/// One place comes before another in batch-then-row order.
pub open spec fn precedes(a: RowPlace, b: RowPlace) -> bool {
    a.batch < b.batch || (a.batch == b.batch && a.row < b.row)
}

/// A place names a row of one of the batches.
pub open spec fn is_row(counts: Seq<nat>, place: RowPlace) -> bool {
    0 <= place.batch < counts.len() && 0 <= place.row < counts[place.batch]
}

/// From a place on there are as many rows as the batch has left and the
/// later batches hold.
pub proof fn lemma_rows_from_len(counts: Seq<nat>, batch: int, row: int)
    requires
        0 <= batch <= counts.len(),
        batch < counts.len() ==> 0 <= row <= counts[batch],
    ensures
        rows_from(counts, batch, row).len() == (if batch < counts.len() {
            counts[batch] - row + total_rows(counts, batch + 1)
        } else {
            0
        }),
    decreases counts.len() - batch, counts[batch] - row,
{
    if batch < counts.len() {
        if row >= counts[batch] {
            lemma_rows_from_len(counts, batch + 1, 0);
        } else {
            lemma_rows_from_len(counts, batch, row + 1);
        }
    }
}

/// Every place in the order from a place on names a row at or after that
/// place, and the order is strictly rising, so that no row comes twice.
pub proof fn lemma_rows_from_sorted(counts: Seq<nat>, batch: int, row: int)
    requires
        0 <= batch <= counts.len(),
        0 <= row,
    ensures
        forall|i: int|
            0 <= i < rows_from(counts, batch, row).len() ==> {
                &&& is_row(counts, #[trigger] rows_from(counts, batch, row)[i])
                &&& !precedes(rows_from(counts, batch, row)[i], RowPlace { batch, row })
            },
        forall|i: int, j: int|
            0 <= i < j < rows_from(counts, batch, row).len() ==> precedes(
                #[trigger] rows_from(counts, batch, row)[i],
                #[trigger] rows_from(counts, batch, row)[j],
            ),
    decreases counts.len() - batch, counts[batch] - row,
{
    let here = rows_from(counts, batch, row);
    if batch < counts.len() {
        if row >= counts[batch] {
            lemma_rows_from_sorted(counts, batch + 1, 0);
            let next = rows_from(counts, batch + 1, 0);
            assert(here == next);
            assert forall|i: int| 0 <= i < here.len() implies {
                &&& is_row(counts, #[trigger] here[i])
                &&& !precedes(here[i], RowPlace { batch, row })
            } by {
                assert(is_row(counts, next[i]));
                assert(!precedes(next[i], RowPlace { batch: batch + 1, row: 0 }));
            }
            assert forall|i: int, j: int| 0 <= i < j < here.len() implies precedes(
                #[trigger] here[i],
                #[trigger] here[j],
            ) by {
                assert(precedes(next[i], next[j]));
            }
        } else {
            lemma_rows_from_sorted(counts, batch, row + 1);
            let rest = rows_from(counts, batch, row + 1);
            assert forall|i: int| 0 <= i < here.len() implies {
                &&& is_row(counts, #[trigger] here[i])
                &&& !precedes(here[i], RowPlace { batch, row })
            } by {
                if i > 0 {
                    assert(here[i] == rest[i - 1]);
                    assert(is_row(counts, rest[i - 1]));
                    assert(!precedes(rest[i - 1], RowPlace { batch, row: row + 1 }));
                }
            }
            assert forall|i: int, j: int| 0 <= i < j < here.len() implies precedes(
                #[trigger] here[i],
                #[trigger] here[j],
            ) by {
                assert(here[j] == rest[j - 1]);
                assert(!precedes(rest[j - 1], RowPlace { batch, row: row + 1 }));
                if i > 0 {
                    assert(here[i] == rest[i - 1]);
                    assert(precedes(rest[i - 1], rest[j - 1]));
                }
            }
        }
    }
}

/// Every row at or after a place occurs in the order from that place on.
pub proof fn lemma_rows_from_complete(counts: Seq<nat>, batch: int, row: int, place: RowPlace)
    requires
        0 <= batch <= counts.len(),
        0 <= row,
        is_row(counts, place),
        !precedes(place, RowPlace { batch, row }),
    ensures
        exists|i: int|
            0 <= i < rows_from(counts, batch, row).len() && #[trigger] rows_from(
                counts,
                batch,
                row,
            )[i] == place,
    decreases counts.len() - batch, counts[batch] - row,
{
    let here = rows_from(counts, batch, row);
    if row >= counts[batch] {
        lemma_rows_from_complete(counts, batch + 1, 0, place);
    } else if place == (RowPlace { batch, row }) {
        assert(here[0] == place);
    } else {
        lemma_rows_from_complete(counts, batch, row + 1, place);
        let rest = rows_from(counts, batch, row + 1);
        let i = choose|i: int| 0 <= i < rest.len() && #[trigger] rest[i] == place;
        assert(here[i + 1] == place);
    }
}

/// Without a limit a scan yields every row of every batch exactly once, in
/// batch-then-row order: each place in the order names a row, each row has
/// a place in it, and the order is strictly rising.
pub proof fn lemma_all_rows_once_in_order(counts: Seq<nat>)
    ensures
        bounded_rows(counts, None) == all_rows(counts),
        all_rows(counts).len() == total_rows(counts, 0),
        forall|i: int|
            0 <= i < all_rows(counts).len() ==> is_row(counts, #[trigger] all_rows(counts)[i]),
        forall|place: RowPlace|
            is_row(counts, place) ==> exists|i: int|
                0 <= i < all_rows(counts).len() && #[trigger] all_rows(counts)[i] == place,
        forall|i: int, j: int|
            0 <= i < j < all_rows(counts).len() ==> precedes(
                #[trigger] all_rows(counts)[i],
                #[trigger] all_rows(counts)[j],
            ),
{
    lemma_rows_from_len(counts, 0, 0);
    lemma_rows_from_sorted(counts, 0, 0);
    assert forall|place: RowPlace| is_row(counts, place) implies exists|i: int|
        0 <= i < all_rows(counts).len() && #[trigger] all_rows(counts)[i] == place by {
        lemma_rows_from_complete(counts, 0, 0, place);
        let i = choose|i: int|
            0 <= i < rows_from(counts, 0, 0).len() && #[trigger] rows_from(counts, 0, 0)[i]
                == place;
        assert(all_rows(counts)[i] == place);
    }
    assert(all_rows(counts).take(all_rows(counts).len() as int) =~= all_rows(counts));
}

/// Every place that a scan yields names a row of one of the batches.
pub proof fn lemma_bounded_in_range(counts: Seq<nat>, limit: Option<i64>, i: int)
    requires
        0 <= i < bounded_rows(counts, limit).len(),
    ensures
        is_row(counts, bounded_rows(counts, limit)[i]),
        bounded_rows(counts, limit)[i] == all_rows(counts)[i],
{
    lemma_rows_from_sorted(counts, 0, 0);
    assert(is_row(counts, all_rows(counts)[i]));
}

/// A scan yields the first rows of the order and stops: as many as the
/// limit, or all where there are fewer or there is no limit; none under a
/// limit that is not positive.
pub proof fn lemma_bounded_rows(counts: Seq<nat>, limit: Option<i64>)
    ensures
        bounded_rows(counts, limit).len() == admitted(limit, total_rows(counts, 0)),
        forall|i: int|
            0 <= i < bounded_rows(counts, limit).len() ==> bounded_rows(counts, limit)[i]
                == all_rows(counts)[i],
{
    lemma_rows_from_len(counts, 0, 0);
}

} // verus!
