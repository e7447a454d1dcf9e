//! The upload session for the initiate phase: one in-progress multipart
//! upload, from the chunk plan through the backend-issued upload identifier to
//! the per-part signed URLs. The coordinator decides here what to ask the
//! backend next; the surrounding binary performs the calls and hands each
//! result back. The returned sequence of signed URLs is ordered by part
//! number, `1..=chunk_count`, with no gaps.

use vstd::prelude::*;
use crate::errors::ApiError;
use crate::planner::{plan, chunks_needed, UploadPlan, MAX_CHUNKS};

verus! {

/// The validity window of each per-part signed URL, in seconds.
pub const PART_URL_TTL_SECS: u64 = 600;

/// One backend call the coordinator asks for during initiation.
pub enum GatewayAction {
    /// Open a multipart upload for `key`; the backend answers with an upload
    /// identifier.
    InitiateMultipart { key: String },
    /// Issue a signed URL authorizing the upload of part `part_number`, valid
    /// for `ttl_secs` seconds.
    AuthorizePart { key: String, upload_id: String, part_number: u32, ttl_secs: u64 },
}

/// What the initiate phase hands back to the client: the upload identifier
/// and one signed URL per part, ordered by part number.
pub struct MultiPartUploadResponse {
    pub upload_id: String,
    pub signed_urls: Vec<String>,
}

/// One initiation in progress. `urls[i]` is the signed URL issued for part
/// `i + 1`; authorization is asked for in ascending part order, so the
/// response sequence is ordered by part number.
pub struct InitiateFlow {
    pub key: String,
    pub plan: UploadPlan,
    pub upload_id: Option<String>,
    pub urls: Vec<String>,
}

impl InitiateFlow {
    /// Well-formedness: the plan is valid, no URL was collected before the
    /// upload identifier arrived, and never more URLs than chunks.
    pub open spec fn wf(self) -> bool {
        &&& self.plan.wf()
        &&& self.urls@.len() <= self.plan.chunk_count
        &&& (self.upload_id is None ==> self.urls@.len() == 0)
    }

    /// All parts are authorized and the flow is ready to finish.
    pub open spec fn spec_complete(self) -> bool {
        self.upload_id is Some && self.urls@.len() == self.plan.chunk_count
    }

    /// Starts an initiation for an object of `total_size` bytes under `key`:
    /// runs the chunk planner and rejects a zero size or an oversized plan
    /// before any backend work.
    pub fn begin(key: String, total_size: u64, chunk_size: u64) -> (r: Result<
        InitiateFlow,
        ApiError,
    >)
        requires
            chunk_size > 0,
        ensures
            r is Ok <==> 0 < total_size && chunks_needed(total_size, chunk_size) <= MAX_CHUNKS,
            r matches Ok(f) ==> f.wf() && f.key == key && f.plan.total_size == total_size
                && f.plan.chunk_size == chunk_size && f.upload_id is None && f.urls@.len() == 0,
            total_size == 0 ==> r == Err::<InitiateFlow, ApiError>(ApiError::InvalidSize),
            total_size > 0 && chunks_needed(total_size, chunk_size) > MAX_CHUNKS ==> r == Err::<
                InitiateFlow,
                ApiError,
            >(ApiError::TooManyChunks),
    {
        match plan(total_size, chunk_size) {
            Ok(p) => Ok(InitiateFlow { key, plan: p, upload_id: None, urls: Vec::new() }),
            Err(e) => Err(e),
        }
    }

    /// The next backend call this flow needs: open the upload while no upload
    /// identifier is held; then authorize parts `1..=chunk_count` in ascending
    /// order; `None` once every part is authorized.
    pub fn next_action(&self) -> (a: Option<GatewayAction>)
        requires
            self.wf(),
        ensures
            self.upload_id is None ==> (a matches Some(act) && (act matches
                GatewayAction::InitiateMultipart { key } && key == self.key)),
            self.upload_id is Some && self.urls@.len() < self.plan.chunk_count ==> (
            a matches Some(act) && (act matches GatewayAction::AuthorizePart {
                key,
                upload_id,
                part_number,
                ttl_secs,
            } && key == self.key && upload_id == self.upload_id->0 && part_number == self.urls@.len()
                + 1 && ttl_secs == PART_URL_TTL_SECS)),
            self.spec_complete() ==> a is None,
    {
        match &self.upload_id {
            None => Some(GatewayAction::InitiateMultipart { key: self.key.clone() }),
            Some(id) => {
                if (self.urls.len() as u64) < self.plan.chunk_count {
                    Some(
                        GatewayAction::AuthorizePart {
                            key: self.key.clone(),
                            upload_id: id.clone(),
                            part_number: (self.urls.len() + 1) as u32,
                            ttl_secs: PART_URL_TTL_SECS,
                        },
                    )
                } else {
                    None
                }
            },
        }
    }

    /// Records the upload identifier the backend issued when the upload was
    /// opened.
    pub fn supply_upload_id(&mut self, id: String)
        requires
            old(self).wf(),
            old(self).upload_id is None,
        ensures
            final(self).wf(),
            *final(self) == (InitiateFlow { upload_id: Some(id), ..*old(self) }),
    {
        self.upload_id = Some(id);
    }

    /// Records the signed URL issued for the next part, in ascending part
    /// order: after the call it stands for part `urls.len()`.
    pub fn supply_part_url(&mut self, url: String)
        requires
            old(self).wf(),
            old(self).upload_id is Some,
            old(self).urls@.len() < old(self).plan.chunk_count,
        ensures
            final(self).wf(),
            final(self).urls@ == old(self).urls@.push(url),
            final(self).key == old(self).key,
            final(self).plan == old(self).plan,
            final(self).upload_id == old(self).upload_id,
    {
        self.urls.push(url);
    }

    /// Whether every part of the plan has its signed URL.
    pub fn is_complete(&self) -> (b: bool)
        requires
            self.wf(),
        ensures
            b == self.spec_complete(),
    {
        self.upload_id.is_some() && self.urls.len() as u64 == self.plan.chunk_count
    }

    /// Hands the finished session to the client: the upload identifier and
    /// the signed URLs ordered by part number, one per chunk of the plan.
    pub fn finish(self) -> (r: MultiPartUploadResponse)
        requires
            self.wf(),
            self.spec_complete(),
        ensures
            Some(r.upload_id) == self.upload_id,
            r.signed_urls@ == self.urls@,
            r.signed_urls@.len() == self.plan.chunk_count,
    {
        match self.upload_id {
            Some(id) => MultiPartUploadResponse { upload_id: id, signed_urls: self.urls },
            None => {
                proof {
                    assert(false);
                }
                MultiPartUploadResponse { upload_id: String::new(), signed_urls: self.urls }
            },
        }
    }
}

} // verus!
