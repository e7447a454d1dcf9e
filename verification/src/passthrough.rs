//! The thin request/response mappers over the object-store gateway: presigned
//! URL requests for single objects, the key listing, query-parameter
//! normalization, and the byte tally of a streamed download. Each function
//! here decides what one gateway call should be asked; the surrounding binary
//! performs it.

use vstd::prelude::*;
use crate::errors::ApiError;

verus! {

/// The validity window of a single-object presigned URL, in seconds.
pub const PRESIGN_TTL_SECS: u64 = 3600;

/// The operation a presigned URL authorizes.
#[derive(Debug, Clone, Copy, PartialEq, Eq, Structural)]
pub enum PresignAction {
    GetObject,
    PutObject,
    DeleteObject,
}

/// One validated presign request for the gateway: which operation, on which
/// key, valid for how long.
pub struct PresignCommand {
    pub action: PresignAction,
    pub key: String,
    pub ttl_secs: u64,
}

/// Relies on `str`'s `PartialEq`: equality of two string slices is equality
/// of their characters.
#[verifier::external_body]
fn str_eq(a: &str, b: &str) -> (r: bool)
    ensures
        r == (a@ == b@),
{
    a == b
}

/// Parses the client-supplied action name. Exactly the three object
/// operations are accepted; anything else is `InvalidAction`.
pub fn parse_action(action: &str) -> (r: Result<PresignAction, ApiError>)
    ensures
        r == Ok::<PresignAction, ApiError>(PresignAction::GetObject) <==> action@ == "GetObject"@,
        r == Ok::<PresignAction, ApiError>(PresignAction::PutObject) <==> action@ == "PutObject"@,
        r == Ok::<PresignAction, ApiError>(PresignAction::DeleteObject) <==> action@
            == "DeleteObject"@,
        r is Err <==> action@ != "GetObject"@ && action@ != "PutObject"@ && action@
            != "DeleteObject"@,
        r matches Err(e) ==> e == ApiError::InvalidAction,
{
    proof {
        reveal_strlit("GetObject");
        reveal_strlit("PutObject");
        reveal_strlit("DeleteObject");
        assert("GetObject"@[0] == 'G' && "PutObject"@[0] == 'P' && "DeleteObject"@[0] == 'D');
        assert("GetObject"@ != "PutObject"@ && "GetObject"@ != "DeleteObject"@ && "PutObject"@
            != "DeleteObject"@);
    }
    if str_eq(action, "GetObject") {
        Ok(PresignAction::GetObject)
    } else if str_eq(action, "PutObject") {
        Ok(PresignAction::PutObject)
    } else if str_eq(action, "DeleteObject") {
        Ok(PresignAction::DeleteObject)
    } else {
        Err(ApiError::InvalidAction)
    }
}

/// Builds the presign request for one object: the parsed action, the key, and
/// the fixed one-hour validity window. Fails with `InvalidAction` exactly
/// when the action name is unknown.
pub fn presign_command(action: &str, key: String) -> (r: Result<PresignCommand, ApiError>)
    ensures
        r is Ok <==> (action@ == "GetObject"@ || action@ == "PutObject"@ || action@
            == "DeleteObject"@),
        r matches Ok(cmd) ==> cmd.key == key && cmd.ttl_secs == PRESIGN_TTL_SECS && Ok::<
            PresignAction,
            ApiError,
        >(cmd.action) == parse_action_spec(action@),
        r matches Err(e) ==> e == ApiError::InvalidAction,
{
    match parse_action(action) {
        Ok(a) => Ok(PresignCommand { action: a, key, ttl_secs: PRESIGN_TTL_SECS }),
        Err(e) => Err(e),
    }
}

/// What `parse_action` returns, as a function of the characters alone.
pub open spec fn parse_action_spec(action: Seq<char>) -> Result<PresignAction, ApiError> {
    if action == "GetObject"@ {
        Ok(PresignAction::GetObject)
    } else if action == "PutObject"@ {
        Ok(PresignAction::PutObject)
    } else if action == "DeleteObject"@ {
        Ok(PresignAction::DeleteObject)
    } else {
        Err(ApiError::InvalidAction)
    }
}

/// Requires the object key to be present: a missing key is rejected with
/// `MissingParameter` before any backend work.
pub fn require_key(key: Option<String>) -> (r: Result<String, ApiError>)
    ensures
        key matches Some(k) ==> r == Ok::<String, ApiError>(k),
        key is None ==> r == Err::<String, ApiError>(ApiError::MissingParameter),
{
    match key {
        Some(k) => Ok(k),
        None => Err(ApiError::MissingParameter),
    }
}

/// Normalizes an optional query parameter: an absent or empty string is no
/// value at all.
pub fn empty_string_as_none(value: Option<String>) -> (r: Option<String>)
    ensures
        value is None ==> r is None,
        value matches Some(s) ==> ((s@.len() == 0 ==> r is None) && (s@.len() > 0 ==> r == Some(
            s,
        ))),
{
    match value {
        None => None,
        Some(s) => {
            if s.as_str().is_empty() {
                None
            } else {
                Some(s)
            }
        },
    }
}

/// Where a keyless read request is routed: with a key it is a presigned read
/// of that object; without one it is the bucket listing.
pub enum GetDispatch {
    Presign(PresignCommand),
    ListObjects,
}

/// Routes a read request: a key means a presigned `GetObject` URL for it, no
/// key means the listing of all keys.
pub fn dispatch_get(key: Option<String>) -> (r: GetDispatch)
    ensures
        key matches Some(k) ==> (r matches GetDispatch::Presign(cmd) && cmd.key == k && cmd.action
            == PresignAction::GetObject && cmd.ttl_secs == PRESIGN_TTL_SECS),
        key is None ==> r is ListObjects,
{
    match key {
        Some(k) => GetDispatch::Presign(
            PresignCommand {
                action: PresignAction::GetObject,
                key: k,
                ttl_secs: PRESIGN_TTL_SECS,
            },
        ),
        None => GetDispatch::ListObjects,
    }
}

/// The keys present in a listing: each object's key, in listing order,
/// skipping objects that carry none.
pub open spec fn present_keys(s: Seq<Option<String>>) -> Seq<String>
    decreases s.len(),
{
    if s.len() == 0 {
        Seq::empty()
    } else {
        match s.last() {
            Some(k) => present_keys(s.drop_last()).push(k),
            None => present_keys(s.drop_last()),
        }
    }
}

/// Collects the keys of a bucket listing. An empty backend — no contents at
/// all, or no objects — yields the empty key sequence, never an error.
pub fn collect_keys(contents: Option<Vec<Option<String>>>) -> (keys: Vec<String>)
    ensures
        contents matches Some(objects) ==> keys@ == present_keys(objects@),
        contents is None ==> keys@.len() == 0,
{
    match contents {
        None => Vec::new(),
        Some(objects) => {
            let mut keys: Vec<String> = Vec::new();
            let n = objects.len();
            let mut i: usize = 0;
            while i < n
                invariant
                    i <= n,
                    n == objects@.len(),
                    keys@ == present_keys(objects@.take(i as int)),
                decreases n - i,
            {
                let entry = &objects[i];
                match entry {
                    Some(k) => keys.push(k.clone()),
                    None => (),
                }
                proof {
                    assert(objects@.take(i + 1).drop_last() =~= objects@.take(i as int));
                    assert(objects@.take(i + 1).last() == objects@[i as int]);
                }
                i = i + 1;
            }
            proof {
                assert(objects@.take(n as int) =~= objects@);
            }
            keys
        },
    }
}

/// A running tally of a streamed download: how many bytes and how many stream
/// events have been observed.
pub struct StreamTally {
    pub byte_count: u64,
    pub events: u64,
}

impl StreamTally {
    /// A fresh tally: nothing observed yet.
    pub fn new() -> (t: StreamTally)
        ensures
            t.byte_count == 0,
            t.events == 0,
    {
        StreamTally { byte_count: 0, events: 0 }
    }

    /// Observes one stream chunk of `len` bytes: the byte count grows by
    /// `len` and the event count by one.
    pub fn observe(&mut self, len: u64)
        requires
            old(self).byte_count + len <= u64::MAX,
            old(self).events < u64::MAX,
        ensures
            final(self).byte_count == old(self).byte_count + len,
            final(self).events == old(self).events + 1,
    {
        self.byte_count = self.byte_count + len;
        self.events = self.events + 1;
    }
}

} // verus!
