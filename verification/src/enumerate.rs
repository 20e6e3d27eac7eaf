//! Chunked enumeration of an inclusive ID range into ordered batches.
use vstd::prelude::*;

verus! {

/// How many IDs the inclusive range holds; zero when it is reversed.
pub open spec fn id_count(start_id: u64, end_id: u64) -> nat {
    if end_id < start_id {
        0
    } else {
        (end_id - start_id + 1) as nat
    }
}

/// The effective batch length: a chunk size of zero (or one past the total)
/// means a single batch of everything.
pub open spec fn effective_chunk(chunk_size: usize, total: nat) -> nat {
    if chunk_size == 0 || chunk_size as nat > total {
        total
    } else {
        chunk_size as nat
    }
}

/// Splits `start_id..=end_id` into batches of `chunk_size` ascending,
/// contiguous IDs; the last batch may be shorter. A reversed range yields no
/// batches at all.
pub fn enumerate_batches(start_id: u64, end_id: u64, chunk_size: usize) -> (r: Vec<Vec<u64>>)
    requires
        end_id < start_id || end_id - start_id < usize::MAX as u64,
    ensures
        ({
            let total = id_count(start_id, end_id);
            let cs = effective_chunk(chunk_size, total);
            &&& (end_id < start_id ==> r@.len() == 0)
            &&& (total == 0 <==> r@.len() == 0)
            &&& forall|i: int|
                0 <= i < r@.len() ==> (#[trigger] r@[i])@.len() == (if i * cs + cs <= total {
                    cs as int
                } else {
                    total - i * cs
                })
            &&& forall|i: int|
                0 <= i < r@.len() ==> (#[trigger] r@[i])@.len() > 0
            &&& forall|i: int, j: int| #![trigger r@[i]@[j]]
                0 <= i < r@.len() && 0 <= j < r@[i]@.len() ==> r@[i]@[j] == start_id + i * cs + j
            &&& (total > 0 ==> r@.len() * cs >= total && (r@.len() - 1) * cs < total)
        }),
{
    let mut r: Vec<Vec<u64>> = Vec::new();
    if end_id < start_id {
        return r;
    }
    let total: u64 = end_id - start_id + 1;
    let cs64: u64 = if chunk_size == 0 || chunk_size as u64 > total {
        total
    } else {
        chunk_size as u64
    };
    proof {
        assert(cs64 as nat == effective_chunk(chunk_size, id_count(start_id, end_id)));
        assert(cs64 >= 1);
    }
    let mut covered: u64 = 0;
    while covered < total
        invariant
            start_id <= end_id,
            total == id_count(start_id, end_id),
            1 <= cs64 <= total,
            cs64 as nat == effective_chunk(chunk_size, id_count(start_id, end_id)),
            covered <= total,
            covered < total ==> covered == r@.len() * cs64,
            covered == r@.len() * cs64 || (covered == total && r@.len() > 0 && (r@.len() - 1)
                * cs64 < total && r@.len() * cs64 >= total),
            forall|i: int|
                0 <= i < r@.len() ==> (#[trigger] r@[i])@.len() == (if i * cs64 + cs64 <= total {
                    cs64 as int
                } else {
                    total - i * cs64
                }),
            forall|i: int| 0 <= i < r@.len() ==> (#[trigger] r@[i])@.len() > 0,
            forall|i: int, j: int| #![trigger r@[i]@[j]]
                0 <= i < r@.len() && 0 <= j < r@[i]@.len() ==> r@[i]@[j] == start_id + i * cs64
                    + j,
        decreases total - covered,
    {
        let len: u64 = if total - covered < cs64 {
            total - covered
        } else {
            cs64
        };
        let mut batch: Vec<u64> = Vec::new();
        let mut j: u64 = 0;
        while j < len
            invariant
                covered + len <= total,
                total == id_count(start_id, end_id),
                start_id <= end_id,
                0 <= j <= len,
                batch@.len() == j,
                forall|k: int|
                    0 <= k < batch@.len() ==> #[trigger] batch@[k] == start_id + covered + k,
            decreases len - j,
        {
            batch.push(start_id + covered + j);
            j = j + 1;
        }
        let ghost old_r = r@;
        r.push(batch);
        proof {
            let i = old_r.len() as int;
            assert(r@[i]@.len() == len);
            assert(i * cs64 == covered);
            assert(forall|k: int|
                0 <= k < r@[i]@.len() ==> #[trigger] r@[i]@[k] == start_id + i * cs64 + k);
        }
        let ghost covered_old = covered;
        covered = covered + len;
        proof {
            assert((r@.len() as int) * cs64 == (old_r.len() as int) * cs64 + cs64)
                by (nonlinear_arith)
                requires
                    r@.len() == old_r.len() + 1,
            ;
            if len == cs64 {
                assert(covered == r@.len() * cs64);
            } else {
                assert(covered == total);
                assert((r@.len() - 1) * cs64 == covered_old) by (nonlinear_arith)
                    requires
                        r@.len() == old_r.len() + 1,
                        covered_old == old_r.len() * cs64,
                ;
                assert(r@.len() * cs64 == covered_old + cs64);
                assert(covered_old + len == total && len < cs64);
            }
        }
    }
    proof {
        let total_g = id_count(start_id, end_id);
        let cs = effective_chunk(chunk_size, total_g);
        assert(covered == total);
        if covered == r@.len() * cs64 {
            assert(r@.len() > 0) by (nonlinear_arith)
                requires
                    r@.len() * cs64 == total,
                    total > 0,
            ;
            assert((r@.len() - 1) * cs64 == r@.len() * cs64 - cs64) by (nonlinear_arith);
            assert((r@.len() - 1) * cs64 < total);
        }
    }
    r
}

} // verus!
