use vstd::prelude::*;

use crate::error::IngestError;
use crate::payload::{pairs_view, payload_of, project_payload};
use crate::table::Table;

verus! {

/// Number of points sent in one upsert call.
pub const BATCH_SIZE: usize = 100;

/// The row ranges `[from, to)` that the upload sends, from row `start` on, for
/// `n` rows and batches of `b`.
pub open spec fn batches(start: int, n: int, b: int) -> Seq<(int, int)>
    decreases (if start < n {
        n - start
    } else {
        0
    }),
{
    if start >= n || b <= 0 {
        Seq::empty()
    } else {
        let to = if start + b <= n {
            start + b
        } else {
            n
        };
        seq![(start, to)] + batches(start + b, n, b)
    }
}

pub open spec fn spans_view(v: Seq<(usize, usize)>) -> Seq<(int, int)> {
    v.map_values(|p: (usize, usize)| (p.0 as int, p.1 as int))
}

/// The ranges of rows that `n` points are upserted in, with batches of
/// `batch_size`: points gather in a buffer, which is flushed when it is full
/// or when the last point has joined it.
pub fn plan_batches(n: usize, batch_size: usize) -> (r: Vec<(usize, usize)>)
    requires
        batch_size > 0,
    ensures
        spans_view(r@) == batches(0, n as int, batch_size as int),
{
    let mut spans: Vec<(usize, usize)> = Vec::new();
    let mut start: usize = 0;
    let mut idx: usize = 0;
    assert(spans_view(spans@) =~= Seq::empty());
    while idx < n
        invariant
            batch_size > 0,
            start <= idx <= n,
            idx - start < batch_size,
            start == idx || idx < n,
            spans_view(spans@) + batches(start as int, n as int, batch_size as int) == batches(
                0,
                n as int,
                batch_size as int,
            ),
        decreases n - idx,
    {
        // point `idx` joins the buffer of rows `start..idx + 1`
        if idx + 1 - start >= batch_size || idx + 1 == n {
            let ghost before = spans@;
            proof {
                if start + batch_size <= n && idx + 1 - start >= batch_size {
                    assert(idx + 1 == start + batch_size);
                } else {
                    assert(idx + 1 == n);
                    assert(batches(start + batch_size, n as int, batch_size as int) =~= Seq::empty());
                    assert(batches(idx + 1, n as int, batch_size as int) =~= Seq::empty());
                }
            }
            spans.push((start, idx + 1));
            assert(spans_view(spans@) =~= spans_view(before).push((start as int, idx + 1)));
            assert(batches(start as int, n as int, batch_size as int) =~= seq![
                (start as int, idx + 1),
            ] + batches(idx + 1, n as int, batch_size as int));
            assert(spans_view(spans@) + batches(idx + 1, n as int, batch_size as int)
                =~= spans_view(before) + batches(start as int, n as int, batch_size as int));
            start = idx + 1;
        }
        idx += 1;
    }
    assert(spans_view(spans@) =~= spans_view(spans@) + batches(start as int, n as int, batch_size as int));
    spans
}

pub proof fn lemma_batches_from(s: int, n: int, b: int)
    requires
        0 <= s <= n,
        b > 0,
    ensures
        batches(s, n, b).len() == (n - s + b - 1) / b,
        forall|k: int|
            0 <= k < batches(s, n, b).len() ==> {
                &&& batches(s, n, b)[k].0 == s + k * b
                &&& batches(s, n, b)[k].0 < batches(s, n, b)[k].1 <= n
                &&& batches(s, n, b)[k].1 - batches(s, n, b)[k].0 <= b
            },
        s < n ==> batches(s, n, b).last().1 == n,
        s < n ==> batches(s, n, b).last().1 - batches(s, n, b).last().0 == if (n - s) % b == 0 {
            b
        } else {
            (n - s) % b
        },
    decreases n - s,
{
    if s < n {
        if s + b <= n {
            lemma_batches_from(s + b, n, b);
            let rest = batches(s + b, n, b);
            let all = batches(s, n, b);
            assert(all == seq![(s, s + b)] + rest);
            assert(all.len() == rest.len() + 1);
            let x = n - s - 1;
            assert((n - s + b - 1) / b == (n - (s + b) + b - 1) / b + 1) by {
                vstd::arithmetic::div_mod::lemma_div_plus_one(x, b);
                assert(n - s + b - 1 == b + x);
                assert(n - (s + b) + b - 1 == x);
            }
            assert forall|k: int| 0 <= k < all.len() implies {
                &&& all[k].0 == s + k * b
                &&& all[k].0 < all[k].1 <= n
                &&& all[k].1 - all[k].0 <= b
            } by {
                if k > 0 {
                    assert(all[k] == rest[k - 1]);
                    assert(s + b + (k - 1) * b == s + k * b) by (nonlinear_arith);
                }
            }
            if s + b < n {
                assert(all.last() == rest.last());
                assert((n - s) % b == (n - (s + b)) % b) by {
                    vstd::arithmetic::div_mod::lemma_mod_sub_multiples_vanish(n - s, b);
                assert(-b + (n - s) == n - (s + b));
                }
            } else {
                assert((n - s) % b == 0) by {
                    vstd::arithmetic::div_mod::lemma_mod_self_0(b);
                }
            }
        } else {
            assert(batches(s + b, n, b) == Seq::<(int, int)>::empty());
            assert(batches(s, n, b) =~= seq![(s, n)]);
            assert((n - s + b - 1) / b == 1) by {
                vstd::arithmetic::div_mod::lemma_fundamental_div_mod_converse(
                    n - s + b - 1,
                    b,
                    1,
                    n - s - 1,
                );
            }
            assert((n - s) % b == n - s) by {
                vstd::arithmetic::div_mod::lemma_small_mod((n - s) as nat, b as nat);
            }
        }
    } else {
        vstd::arithmetic::div_mod::lemma_basic_div_specific_divisor(b);
        assert((n - s + b - 1) / b == 0);
    }
}

/// Upload batching: `n` points in batches of `b` take `ceil(n / b)` upsert
/// calls, each of at most `b` points, covering the rows in order; the last call
/// holds `n mod b` points, or `b` when `b` divides `n`.
pub proof fn lemma_upload_batching(n: int, b: int)
    requires
        n >= 0,
        b > 0,
    ensures
        batches(0, n, b).len() == (n + b - 1) / b,
        forall|k: int|
            0 <= k < batches(0, n, b).len() ==> {
                &&& batches(0, n, b)[k].0 == k * b
                &&& 0 < batches(0, n, b)[k].1 - batches(0, n, b)[k].0 <= b
            },
        forall|k: int|
            0 < k < batches(0, n, b).len() ==> batches(0, n, b)[k].0 == batches(0, n, b)[k - 1].1,
        n > 0 ==> batches(0, n, b).last().1 == n,
        n > 0 ==> batches(0, n, b).last().1 - batches(0, n, b).last().0 == if n % b == 0 {
            b
        } else {
            n % b
        },
{
    lemma_batches_from(0, n, b);
    let all = batches(0, n, b);
    assert forall|k: int| 0 < k < all.len() implies all[k].0 == all[k - 1].1 by {
        lemma_batch_adjacent(0, n, b, k);
    }
}

proof fn lemma_batch_adjacent(s: int, n: int, b: int, k: int)
    requires
        0 <= s <= n,
        b > 0,
        0 < k < batches(s, n, b).len(),
    ensures
        batches(s, n, b)[k].0 == batches(s, n, b)[k - 1].1,
    decreases n - s,
{
    if k > 1 {
        lemma_batch_adjacent(s + b, n, b, k - 1);
    } else {
        assert(batches(s + b, n, b).len() > 0);
    }
}

/// What the upload sends for one row, besides its embedding: the point id,
/// which is the row index, and the row's payload.
#[derive(Debug)]
pub struct PointMeta {
    pub id: u64,
    pub payload: Vec<(String, String)>,
}

/// The points of rows `start..end`, in row order; `RowIndex` for the first row
/// of the range that lies outside the table.
pub fn batch_points(t: &Table, start: usize, end: usize) -> (r: Result<Vec<PointMeta>, IngestError>)
    requires
        t.wf(),
    ensures
        r is Err <==> start < end && end > t.rows,
        r is Err ==> r == Err::<Vec<PointMeta>, IngestError>(
            IngestError::RowIndex { row: if start > t.rows { start } else { t.rows }, rows: t.rows },
        ),
        r matches Ok(ps) ==> ps@.len() == (if start < end { end - start } else { 0 }) && forall|k: int|
            0 <= k < ps@.len() ==> ps@[k].id == start + k && pairs_view(ps@[k].payload@)
                == payload_of(*t, start + k),
{
    let mut points: Vec<PointMeta> = Vec::new();
    let mut row: usize = start;
    while row < end
        invariant
            t.wf(),
            start <= row,
            row <= end || start >= end,
            start >= end ==> row == start,
            row <= t.rows || row == start,
            points@.len() == row - start,
            forall|k: int|
                0 <= k < points@.len() ==> points@[k].id == start + k && pairs_view(
                    points@[k].payload@,
                ) == payload_of(*t, start + k),
        decreases end - row,
    {
        match project_payload(t, row) {
            Err(e) => {
                return Err(e);
            },
            Ok(payload) => {
                points.push(PointMeta { id: row as u64, payload });
            },
        }
        row += 1;
    }
    Ok(points)
}

/// What the index holds after the points are upserted in order: each point is
/// stored under its id, replacing what was there.
pub open spec fn upserted<P>(store: Map<u64, P>, points: Seq<(u64, P)>) -> Map<u64, P>
    decreases points.len(),
{
    if points.len() == 0 {
        store
    } else {
        upserted(store, points.drop_last()).insert(points.last().0, points.last().1)
    }
}

/// The points an upload of rows `0..n` sends, in order: row `k` under id `k`,
/// with the vector `vectors[k]`.
pub open spec fn row_points<P>(n: nat, vectors: Seq<P>) -> Seq<(u64, P)> {
    Seq::new(n, |k: int| (k as u64, vectors[k]))
}

/// Upsert is idempotent under id: whatever the index held before, among it the
/// points of an earlier upload with other embeddings, uploading rows `0..n`
/// leaves the ids it held and the ids `0..n`, one point each, with every row's
/// id carrying that row's vector and every other id untouched.
pub proof fn lemma_upload_overwrites<P>(store: Map<u64, P>, n: nat, vectors: Seq<P>)
    requires
        n <= vectors.len(),
        n <= u64::MAX + 1,
    ensures
        upserted(store, row_points(n, vectors)).dom() == store.dom().union(
            Set::new(|id: u64| (id as int) < n),
        ),
        forall|id: u64|
            (id as int) < n ==> #[trigger] upserted(store, row_points(n, vectors))[id]
                == vectors[id as int],
        forall|id: u64|
            store.dom().contains(id) && (id as int) >= n ==> #[trigger] upserted(
                store,
                row_points(n, vectors),
            )[id] == store[id],
    decreases n,
{
    let pts = row_points(n, vectors);
    if n == 0 {
        assert(pts =~= Seq::<(u64, P)>::empty());
        assert(store.dom().union(Set::new(|id: u64| (id as int) < n)) =~= store.dom());
    } else {
        let m = (n - 1) as nat;
        lemma_upload_overwrites(store, m, vectors);
        assert(pts.drop_last() =~= row_points(m, vectors));
        assert(pts.last() == ((m as u64), vectors[m as int]));
        let before = upserted(store, row_points(m, vectors));
        assert(upserted(store, pts) == before.insert(m as u64, vectors[m as int]));
        assert(upserted(store, pts).dom() =~= store.dom().union(
            Set::new(|id: u64| (id as int) < n),
        ));
    }
}

/// The points of rows `from..to`, in order.
pub open spec fn rows_between<P>(from: int, to: int, vectors: Seq<P>) -> Seq<(u64, P)> {
    Seq::new((to - from) as nat, |k: int| ((from + k) as u64, vectors[from + k]))
}

/// The points the upserts of `spans` send, one batch after the other.
pub open spec fn batched_points<P>(spans: Seq<(int, int)>, vectors: Seq<P>) -> Seq<(u64, P)>
    decreases spans.len(),
{
    if spans.len() == 0 {
        Seq::empty()
    } else {
        batched_points(spans.drop_last(), vectors) + rows_between(
            spans.last().0,
            spans.last().1,
            vectors,
        )
    }
}

proof fn lemma_batched_prefix<P>(n: int, b: int, vectors: Seq<P>, k: int)
    requires
        n >= 0,
        b > 0,
        0 < k <= batches(0, n, b).len(),
    ensures
        batched_points(batches(0, n, b).take(k), vectors) == row_points(
            batches(0, n, b)[k - 1].1 as nat,
            vectors,
        ),
    decreases k,
{
    lemma_upload_batching(n, b);
    let all = batches(0, n, b);
    let pre = all.take(k);
    assert(pre.drop_last() =~= all.take(k - 1));
    assert(pre.last() == all[k - 1]);
    if k == 1 {
        assert(all.take(0) =~= Seq::<(int, int)>::empty());
        assert(batched_points(all.take(0), vectors) =~= Seq::<(u64, P)>::empty());
        assert(batched_points(pre, vectors) =~= row_points(all[0].1 as nat, vectors));
    } else {
        lemma_batched_prefix(n, b, vectors, k - 1);
        assert(all[k - 1].0 == all[k - 2].1);
        assert(batched_points(pre, vectors) =~= row_points(all[k - 1].1 as nat, vectors));
    }
}

/// Upserting the batches of the upload plan one after the other leaves the
/// index as upserting the points of rows `0..n` in order does: batching
/// changes nothing of what is stored.
pub proof fn lemma_batched_upload<P>(store: Map<u64, P>, n: nat, b: nat, vectors: Seq<P>)
    requires
        b > 0,
    ensures
        batched_points(batches(0, n as int, b as int), vectors) == row_points(n, vectors),
        upserted(store, batched_points(batches(0, n as int, b as int), vectors)) == upserted(
            store,
            row_points(n, vectors),
        ),
{
    lemma_upload_batching(n as int, b as int);
    let all = batches(0, n as int, b as int);
    if n == 0 {
        assert(all.len() == 0) by {
            vstd::arithmetic::div_mod::lemma_basic_div_specific_divisor(b as int);
        }
        assert(row_points(n, vectors) =~= Seq::<(u64, P)>::empty());
    } else {
        assert(all.len() > 0);
        lemma_batched_prefix(n as int, b as int, vectors, all.len() as int);
        assert(all.take(all.len() as int) =~= all);
    }
}

} // verus!
