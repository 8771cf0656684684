//! The merge applied to the accelerator by one refresh cycle, modelled on the
//! time-column values of its rows.
//!
//! A full cycle replaces the accelerator's contents with the federated rows.
//! A windowed append cycle computes a watermark — the maximum time value
//! already present, shifted earlier by the configured overlap — and appends
//! the federated rows whose time value lies strictly above it, without
//! deleting or deduplicating anything: rows at or below the watermark are
//! never inserted, while duplicates above it are kept as fetched (a
//! documented limitation, not a guarantee).

use vstd::prelude::*;

verus! {

/// The largest value of a sequence (zero for an empty one, where it is never
/// used).
pub open spec fn seq_max(s: Seq<u64>) -> u64
    decreases s.len(),
{
    if s.len() == 0 {
        0
    } else if s.len() == 1 {
        s[0]
    } else if s.last() >= seq_max(s.drop_last()) {
        s.last()
    } else {
        seq_max(s.drop_last())
    }
}

/// The watermark of an append cycle: the maximum time value already present,
/// shifted earlier by the overlap (saturating at zero); none when the
/// accelerator is empty, in which case everything is fetched.
pub open spec fn spec_watermark(existing: Seq<u64>, overlap: u64) -> Option<u64> {
    if existing.len() == 0 {
        None
    } else if seq_max(existing) >= overlap {
        Some((seq_max(existing) - overlap) as u64)
    } else {
        Some(0u64)
    }
}

/// The rows whose time value lies strictly above the watermark, in order.
pub open spec fn rows_above(incoming: Seq<u64>, watermark: u64) -> Seq<u64>
    decreases incoming.len(),
{
    if incoming.len() == 0 {
        Seq::empty()
    } else if incoming.last() > watermark {
        rows_above(incoming.drop_last(), watermark).push(incoming.last())
    } else {
        rows_above(incoming.drop_last(), watermark)
    }
}

/// Law: an append cycle inserts no row at or below the watermark. Duplicates
/// can therefore only ever enter above it; values at or below, duplicated or
/// not, are never inserted.
pub proof fn lemma_rows_above_exceed_watermark(incoming: Seq<u64>, watermark: u64)
    ensures
        forall|k: int|
            0 <= k < rows_above(incoming, watermark).len() ==> #[trigger] rows_above(
                incoming,
                watermark,
            )[k] > watermark,
    decreases incoming.len(),
{
    if incoming.len() == 0 {
    } else {
        lemma_rows_above_exceed_watermark(incoming.drop_last(), watermark);
        let rows = rows_above(incoming, watermark);
        let prev = rows_above(incoming.drop_last(), watermark);
        assert forall|k: int| 0 <= k < rows.len() implies #[trigger] rows[k] > watermark by {
            if k < prev.len() {
                assert(rows[k] == prev[k]);
            } else {
                assert(rows[k] == incoming.last());
            }
        }
    }
}

/// The overlap to shift the watermark by: the configured one, or no shift.
pub open spec fn spec_overlap(append_overlap: Option<u64>) -> u64 {
    match append_overlap {
        Some(o) => o,
        None => 0,
    }
}

/// The accelerator's contents after one append cycle: everything it held,
/// followed by the incoming rows above the watermark — or by all incoming
/// rows when it held nothing.
pub open spec fn spec_append(existing: Seq<u64>, incoming: Seq<u64>, overlap: u64) -> Seq<u64> {
    match spec_watermark(existing, overlap) {
        None => existing + incoming,
        Some(w) => existing + rows_above(incoming, w),
    }
}

/// The maximum time value present in the accelerator, if any.
pub fn max_time_value(existing: &Vec<u64>) -> (m: Option<u64>)
    ensures
        existing@.len() == 0 ==> m is None,
        existing@.len() > 0 ==> m == Some(seq_max(existing@)),
{
    let n = existing.len();
    if n == 0 {
        return None;
    }
    let mut best: u64 = existing[0];
    let mut i: usize = 1;
    while i < n
        invariant
            1 <= i <= n,
            n == existing@.len(),
            best == seq_max(existing@.subrange(0, i as int)),
        decreases n - i,
    {
        assert(existing@.subrange(0, i + 1).drop_last() =~= existing@.subrange(0, i as int));
        assert(existing@.subrange(0, i + 1).last() == existing@[i as int]);
        if existing[i] > best {
            best = existing[i];
        }
        i += 1;
    }
    assert(existing@.subrange(0, n as int) =~= existing@);
    Some(best)
}

/// The watermark of an append cycle against this accelerator.
pub fn compute_watermark(existing: &Vec<u64>, overlap: u64) -> (w: Option<u64>)
    ensures
        w == spec_watermark(existing@, overlap),
{
    match max_time_value(existing) {
        Some(m) => {
            if m >= overlap {
                Some(m - overlap)
            } else {
                Some(0)
            }
        },
        None => None,
    }
}

/// One full refresh cycle: replace the accelerator's contents with the
/// federated rows — a full replace, not a merge.
pub fn full_refresh(accelerator: &mut Vec<u64>, incoming: &Vec<u64>)
    ensures
        final(accelerator)@ == incoming@,
{
    accelerator.clear();
    let n = incoming.len();
    let mut i: usize = 0;
    while i < n
        invariant
            i <= n,
            n == incoming@.len(),
            accelerator@ == incoming@.subrange(0, i as int),
        decreases n - i,
    {
        accelerator.push(incoming[i]);
        assert(accelerator@ =~= incoming@.subrange(0, i + 1));
        i += 1;
    }
    assert(incoming@.subrange(0, n as int) =~= incoming@);
}

/// One windowed append cycle: append the federated rows above the watermark
/// to the accelerator, keeping everything already present.
pub fn append_refresh(accelerator: &mut Vec<u64>, incoming: &Vec<u64>, append_overlap: Option<u64>)
    ensures
        final(accelerator)@ == spec_append(
            old(accelerator)@,
            incoming@,
            spec_overlap(append_overlap),
        ),
{
    let overlap = match append_overlap {
        Some(o) => o,
        None => 0,
    };
    let watermark = compute_watermark(accelerator, overlap);
    let n = incoming.len();
    let mut i: usize = 0;
    match watermark {
        None => {
            while i < n
                invariant
                    i <= n,
                    n == incoming@.len(),
                    accelerator@ == old(accelerator)@ + incoming@.subrange(0, i as int),
                decreases n - i,
            {
                accelerator.push(incoming[i]);
                assert(accelerator@ =~= old(accelerator)@ + incoming@.subrange(0, i + 1));
                i += 1;
            }
            assert(incoming@.subrange(0, n as int) =~= incoming@);
        },
        Some(w) => {
            while i < n
                invariant
                    i <= n,
                    n == incoming@.len(),
                    accelerator@ == old(accelerator)@ + rows_above(
                        incoming@.subrange(0, i as int),
                        w,
                    ),
                decreases n - i,
            {
                assert(incoming@.subrange(0, i + 1).drop_last() =~= incoming@.subrange(
                    0,
                    i as int,
                ));
                assert(incoming@.subrange(0, i + 1).last() == incoming@[i as int]);
                if incoming[i] > w {
                    accelerator.push(incoming[i]);
                }
                i += 1;
            }
            assert(incoming@.subrange(0, n as int) =~= incoming@);
        },
    }
}

} // verus!
