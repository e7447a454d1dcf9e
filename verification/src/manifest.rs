//! The completion assembler: validates the part proofs a client submits to
//! finalize a multipart upload, and orders them ascending by part number
//! before anything is sent to the backend. A manifest with a gap, a
//! duplicate, an out-of-range part number or an empty integrity tag is
//! rejected locally, since a mis-ordered or incomplete manifest would
//! assemble a corrupt object rather than fail.

use vstd::prelude::*;
use crate::errors::ApiError;

verus! {

/// One client-submitted proof that a part was uploaded: the 1-based part
/// number and the backend-issued integrity tag for that part.
pub struct PartProof {
    pub part_number: u32,
    pub etag: String,
}

/// Some submitted proof carries part number `k`.
pub open spec fn covers(s: Seq<PartProof>, k: int) -> bool {
    exists|i: int| 0 <= i < s.len() && s[i].part_number == k
}

/// A submitted manifest is valid when it is non-empty, every integrity tag is
/// non-empty, and every part number in `1..=len` is covered. Since there are
/// exactly `len` proofs, each part number is then covered exactly once.
pub open spec fn valid_manifest(s: Seq<PartProof>) -> bool {
    &&& s.len() >= 1
    &&& forall|i: int| 0 <= i < s.len() ==> (#[trigger] s[i]).etag@.len() > 0
    &&& forall|k: int| 1 <= k <= s.len() ==> covers(s, k)
}

/// `p` is one of the submitted proofs.
pub open spec fn from_input(input: Seq<PartProof>, p: PartProof) -> bool {
    exists|i: int| 0 <= i < input.len() && input[i] == p
}

/// `out` is `input` reordered for the backend: same length, the proof at
/// position `j` carries part number `j + 1`, and every entry is one of the
/// submitted proofs.
pub open spec fn assembled(input: Seq<PartProof>, out: Seq<PartProof>) -> bool {
    &&& out.len() == input.len()
    &&& forall|j: int| 0 <= j < out.len() ==> (#[trigger] out[j]).part_number == j + 1
    &&& forall|j: int| 0 <= j < out.len() ==> from_input(input, #[trigger] out[j])
}

/// Law: a valid manifest carries each part number exactly once — no two
/// submitted proofs share one. All `len` part numbers are drawn from
/// `1..=len` and every value there is covered, so a duplicate would leave
/// some value uncovered.
pub proof fn lemma_valid_manifest_parts_distinct(s: Seq<PartProof>)
    requires
        valid_manifest(s),
    ensures
        forall|i: int, j: int|
            0 <= i < j < s.len() ==> s[i].part_number != s[j].part_number,
{
    broadcast use vstd::seq_lib::seq_to_set_is_finite;
    broadcast use vstd::set::group_set_axioms;

    let n = s.len() as int;
    let pns = Seq::new(s.len(), |i: int| s[i].part_number as int);
    let range = vstd::set_lib::set_int_range(1, n + 1);
    vstd::set_lib::lemma_int_range(1, n + 1);
    assert(range.subset_of(pns.to_set())) by {
        assert forall|k: int| range.contains(k) implies pns.to_set().contains(k) by {
            assert(covers(s, k));
            let w = choose|w: int| 0 <= w < s.len() && s[w].part_number == k;
            assert(pns[w] == k);
            assert(pns.contains(k));
        }
    }
    vstd::set_lib::lemma_len_subset(range, pns.to_set());
    assert forall|i: int, j: int|
        0 <= i < j < s.len() implies s[i].part_number != s[j].part_number by {
        if s[i].part_number == s[j].part_number {
            let t = pns.remove(j);
            pns.remove_ensures(j);
            assert(pns.to_set().subset_of(t.to_set())) by {
                assert forall|x: int| pns.to_set().contains(x) implies t.to_set().contains(x) by {
                    let idx = choose|idx: int| 0 <= idx < pns.len() && pns[idx] == x;
                    if idx < j {
                        assert(t[idx] == x);
                    } else if idx == j {
                        assert(pns[i] == x);
                        assert(t[i] == x);
                    } else {
                        assert(t[idx - 1] == x);
                    }
                    assert(t.contains(x));
                }
            }
            vstd::set_lib::lemma_len_subset(pns.to_set(), t.to_set());
            t.lemma_cardinality_of_set();
        }
    }
}

/// Validates the submitted proofs and returns them ordered ascending by part
/// number, exactly the sequence `1..=len`. Fails with
/// `InvalidCompletionManifest` — before any backend call — if the manifest is
/// empty, a tag is empty, or the part numbers are not exactly `1..=len`.
pub fn assemble_parts(proofs: &Vec<PartProof>) -> (r: Result<Vec<PartProof>, ApiError>)
    ensures
        r is Ok <==> valid_manifest(proofs@),
        r matches Ok(out) ==> assembled(proofs@, out@),
        r matches Err(e) ==> e == ApiError::InvalidCompletionManifest,
{
    let n = proofs.len();
    if n == 0 {
        return Err(ApiError::InvalidCompletionManifest);
    }
    for i in 0..n
        invariant
            n == proofs@.len(),
            forall|j: int| 0 <= j < i ==> (#[trigger] proofs@[j]).etag@.len() > 0,
    {
        if proofs[i].etag.as_str().is_empty() {
            return Err(ApiError::InvalidCompletionManifest);
        }
    }
    let mut out: Vec<PartProof> = Vec::new();
    for k in 0..n
        invariant
            n == proofs@.len(),
            n >= 1,
            out@.len() == k,
            forall|i: int| 0 <= i < n ==> (#[trigger] proofs@[i]).etag@.len() > 0,
            forall|j: int| 0 <= j < k ==> (#[trigger] out@[j]).part_number == j + 1,
            forall|j: int| 0 <= j < k ==> from_input(proofs@, #[trigger] out@[j]),
            forall|kk: int| 1 <= kk <= k ==> covers(proofs@, kk),
    {
        let mut found: Option<usize> = None;
        let mut j: usize = 0;
        while j < n && found.is_none()
            invariant
                j <= n,
                n == proofs@.len(),
                k < n,
                found matches Some(i) ==> i < n && proofs@[i as int].part_number == k + 1,
                found is None ==> forall|jj: int|
                    0 <= jj < j ==> (#[trigger] proofs@[jj]).part_number != k + 1,
            decreases n - j,
        {
            if proofs[j].part_number as usize == k + 1 {
                found = Some(j);
            }
            j = j + 1;
        }
        match found {
            None => {
                proof {
                    assert(!covers(proofs@, k + 1));
                }
                return Err(ApiError::InvalidCompletionManifest);
            },
            Some(i) => {
                let entry = PartProof {
                    part_number: proofs[i].part_number,
                    etag: proofs[i].etag.clone(),
                };
                proof {
                    assert(entry == proofs@[i as int]);
                    assert(covers(proofs@, k + 1));
                    assert(from_input(proofs@, entry));
                }
                out.push(entry);
                proof {
                    assert(out@[k as int] == entry);
                }
            },
        }
    }
    proof {
        assert(valid_manifest(proofs@));
    }
    Ok(out)
}

/// The validated, ordered finalization request for one multipart upload: the
/// object key, the backend-issued upload identifier, and the part proofs in
/// strictly ascending, gap-free part-number order.
pub struct CompleteCommand {
    pub key: String,
    pub upload_id: String,
    pub parts: Vec<PartProof>,
}

/// Builds the finalization request for the backend from the client's
/// submitted proofs: validates the manifest and orders the parts ascending by
/// part number. Fails with `InvalidCompletionManifest`, before any backend
/// call, exactly when the manifest is invalid.
pub fn complete_multipart_upload(key: String, upload_id: String, proofs: &Vec<PartProof>) -> (r:
    Result<CompleteCommand, ApiError>)
    ensures
        r is Ok <==> valid_manifest(proofs@),
        r matches Ok(cmd) ==> cmd.key == key && cmd.upload_id == upload_id && assembled(
            proofs@,
            cmd.parts@,
        ),
        r matches Err(e) ==> e == ApiError::InvalidCompletionManifest,
{
    match assemble_parts(proofs) {
        Ok(parts) => Ok(CompleteCommand { key, upload_id, parts }),
        Err(e) => Err(e),
    }
}

} // verus!
