//! The chunk planner: how many fixed-size chunks an object of a given byte
//! length needs, validated against the policy ceiling on chunk count.

use vstd::prelude::*;
use vstd::arithmetic::div_mod::{lemma_fundamental_div_mod, lemma_fundamental_div_mod_converse};
use crate::errors::ApiError;

verus! {

/// The fixed chunk size used by the coordinator: 5 MiB.
pub const CHUNK_SIZE: u64 = 5 * 1024 * 1024;

/// The hard ceiling on the number of chunks of one upload.
pub const MAX_CHUNKS: u64 = 10000;

/// The number of chunks an object of `total_size` bytes needs at `chunk_size`
/// bytes per chunk: the ceiling of `total_size / chunk_size`.
pub open spec fn chunks_needed(total_size: u64, chunk_size: u64) -> int
    recommends
        chunk_size > 0,
{
    (total_size as int + chunk_size as int - 1) / (chunk_size as int)
}

/// A plan for one multipart upload: all chunks have `chunk_size` bytes except
/// the last, which has `last_chunk_size` bytes; together they cover
/// `total_size` exactly.
#[derive(Debug, Clone, Copy, PartialEq, Eq, Structural)]
pub struct UploadPlan {
    pub total_size: u64,
    pub chunk_size: u64,
    pub chunk_count: u64,
    pub last_chunk_size: u64,
}

impl UploadPlan {
    /// The total number of bytes the plan's chunks cover: `chunk_count - 1`
    /// full chunks plus the last chunk.
    pub open spec fn sum_of_chunk_sizes(self) -> int {
        (self.chunk_count - 1) * self.chunk_size + self.last_chunk_size
    }

    /// Well-formedness: the plan is for a non-empty object, keeps within the
    /// chunk ceiling, its count is exactly the ceiling of the division, its
    /// last chunk is non-empty and no larger than a full chunk, and its chunks
    /// sum to the total.
    pub open spec fn wf(self) -> bool {
        &&& self.total_size > 0
        &&& self.chunk_size > 0
        &&& 1 <= self.chunk_count <= MAX_CHUNKS
        &&& self.chunk_count == chunks_needed(self.total_size, self.chunk_size)
        &&& 1 <= self.last_chunk_size <= self.chunk_size
        &&& self.sum_of_chunk_sizes() == self.total_size
    }
}

/// Law: a well-formed plan covers its object exactly — the chunk sizes sum to
/// `total_size` — and its chunk count is exactly the ceiling of
/// `total_size / chunk_size`; in particular an evenly-divisible size gets no
/// spurious trailing chunk.
pub proof fn lemma_plan_covers_total(p: UploadPlan)
    requires
        p.wf(),
    ensures
        p.sum_of_chunk_sizes() == p.total_size,
        p.chunk_count == chunks_needed(p.total_size, p.chunk_size),
        p.total_size % p.chunk_size == 0 ==> p.chunk_count * p.chunk_size == p.total_size,
{
    if p.total_size % p.chunk_size == 0 {
        let t = p.total_size as int;
        let c = p.chunk_size as int;
        lemma_fundamental_div_mod(t, c);
        assert(t == c * (t / c));
        assert((t + c - 1) / c == t / c) by {
            lemma_fundamental_div_mod_converse(t + c - 1, c, t / c, c - 1);
        };
        assert(p.chunk_count * c == (p.chunk_count - 1) * c + c) by (nonlinear_arith);
        assert(p.last_chunk_size == c) by {
            assert(p.sum_of_chunk_sizes() == t);
            assert((p.chunk_count - 1) * c == (t / c - 1) * c);
            assert((t / c - 1) * c == c * (t / c) - c) by (nonlinear_arith);
        };
    }
}

/// Computes the upload plan for an object of `total_size` bytes, split into
/// chunks of `chunk_size` bytes. Rejects an empty object with `InvalidSize`
/// and a plan of more than `MAX_CHUNKS` chunks with `TooManyChunks`, in both
/// cases before any backend work.
pub fn plan(total_size: u64, chunk_size: u64) -> (r: Result<UploadPlan, ApiError>)
    requires
        chunk_size > 0,
    ensures
        r is Ok <==> 0 < total_size && chunks_needed(total_size, chunk_size) <= MAX_CHUNKS,
        r matches Ok(p) ==> p.wf() && p.total_size == total_size && p.chunk_size == chunk_size,
        total_size == 0 ==> r == Err::<UploadPlan, ApiError>(ApiError::InvalidSize),
        total_size > 0 && chunks_needed(total_size, chunk_size) > MAX_CHUNKS ==> r == Err::<
            UploadPlan,
            ApiError,
        >(ApiError::TooManyChunks),
{
    if total_size == 0 {
        return Err(ApiError::InvalidSize);
    }
    let quotient: u64 = total_size / chunk_size;
    let remainder: u64 = total_size % chunk_size;

    proof {
        lemma_fundamental_div_mod(total_size as int, chunk_size as int);
    }

    let (chunk_count, last_chunk_size): (u64, u64) = if remainder == 0 {
        proof {
            lemma_fundamental_div_mod_converse(
                total_size as int + chunk_size as int - 1,
                chunk_size as int,
                quotient as int,
                chunk_size as int - 1,
            );
        }
        (quotient, chunk_size)
    } else {
        proof {
            // total == c * q + r with r >= 1, so c * q <= total - 1; and
            // q <= c * q since c >= 1. Hence q + 1 <= total and never overflows.
            assert(quotient as int <= chunk_size as int * quotient as int) by (nonlinear_arith)
                requires
                    chunk_size as int >= 1,
                    quotient as int >= 0,
            ;
            assert((quotient as int + 1) * chunk_size as int == quotient as int * chunk_size as int
                + chunk_size as int) by (nonlinear_arith);
            lemma_fundamental_div_mod_converse(
                total_size as int + chunk_size as int - 1,
                chunk_size as int,
                quotient as int + 1,
                remainder as int - 1,
            );
        }
        (quotient + 1, remainder)
    };

    if chunk_count > MAX_CHUNKS {
        return Err(ApiError::TooManyChunks);
    }

    let p = UploadPlan { total_size, chunk_size, chunk_count, last_chunk_size };
    proof {
        let t = total_size as int;
        let c = chunk_size as int;
        let q = quotient as int;
        assert(t == c * q + remainder);
        if remainder == 0 {
            assert(p.sum_of_chunk_sizes() == (q - 1) * c + c);
            assert((q - 1) * c + c == c * q) by (nonlinear_arith);
            assert(q >= 1) by {
                if q <= 0 {
                    assert(c * q <= 0) by (nonlinear_arith)
                        requires
                            c >= 1,
                            q <= 0,
                    ;
                }
            };
        } else {
            assert(p.sum_of_chunk_sizes() == (q + 1 - 1) * c + remainder);
            assert((q + 1 - 1) * c == c * q) by (nonlinear_arith);
        }
        assert(p.sum_of_chunk_sizes() == p.total_size);
    }
    Ok(p)
}

} // verus!
