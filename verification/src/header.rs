use crate::consensus::{clone_digest, frontier_logs, HashesView};
use crate::primitives::{Failed, Hash256, SyncError};
use sp_runtime::generic::Digest;
use vstd::prelude::*;

verus! {

/// What the engine reads of one header of the host chain.
#[derive(Debug, PartialEq, Eq)]
pub struct Header {
    /// The hash of the header itself.
    pub hash: Hash256,
    /// The hash of the header one below it.
    pub parent_hash: Hash256,
    /// Its height; the genesis header stands at zero.
    pub number: u64,
    /// Its digest, which carries the claims of the embedded chain.
    pub digest: Digest<sp_core::H256>,
}

pub ghost struct HeaderView {
    pub hash: Hash256,
    pub parent_hash: Hash256,
    pub number: u64,
    /// The claims that the digest carries, in order.
    pub logs: Seq<HashesView>,
}

impl View for Header {
    type V = HeaderView;

    open spec fn view(&self) -> HeaderView {
        HeaderView {
            hash: self.hash,
            parent_hash: self.parent_hash,
            number: self.number,
            logs: frontier_logs(self.digest),
        }
    }
}

impl Header {
    /// A copy of the header.
    pub fn duplicate(&self) -> (r: Header)
        ensures
            r@ == self@,
    {
        Header {
            hash: self.hash,
            parent_hash: self.parent_hash,
            number: self.number,
            digest: clone_digest(&self.digest),
        }
    }
}

impl Clone for Header {
    fn clone(&self) -> (r: Self)
        ensures
            r@ == self@,
    {
        self.duplicate()
    }
}

/// The view of what the host backend answered to a lookup.
pub open spec fn lookup_view(lookup: Result<Option<Header>, Failed>) -> Result<
    Option<HeaderView>,
    Failed,
> {
    match lookup {
        Ok(Some(header)) => Ok(Some(header@)),
        Ok(None) => Ok(None),
        Err(e) => Err(e),
    }
}

/// The view of a header that may be absent, or of the failure in its place.
pub open spec fn fetched_view(fetched: Result<Option<Header>, SyncError>) -> Result<
    Option<HeaderView>,
    SyncError,
> {
    match fetched {
        Ok(Some(header)) => Ok(Some(header@)),
        Ok(None) => Ok(None),
        Err(e) => Err(e),
    }
}

/// What a tip that is not yet indexed comes to, given what the host backend
/// answered when asked for its header: the header itself when it stands at
/// or above the floor, nothing when it stands below, and a failure when the
/// backend has no such header or could not look.
pub open spec fn fetch_header_spec(lookup: Result<Option<HeaderView>, Failed>, sync_from: u64)
    -> Result<Option<HeaderView>, SyncError> {
    match lookup {
        Ok(Some(header)) => if header.number >= sync_from {
            Ok(Some(header))
        } else {
            Ok(None)
        },
        Ok(None) => Err(SyncError::HeaderUnresolvable),
        Err(_) => Err(SyncError::HeaderUnresolvable),
    }
}

/// Decides what becomes of a tip that is not yet indexed, once the host
/// backend has answered the lookup of its header.
pub fn fetch_header(lookup: Result<Option<Header>, Failed>, sync_from: u64) -> (r: Result<
    Option<Header>,
    SyncError,
>)
    ensures
        fetched_view(r) == fetch_header_spec(lookup_view(lookup), sync_from),
{
    match lookup {
        Ok(Some(checking_header)) => {
            if checking_header.number >= sync_from {
                Ok(Some(checking_header))
            } else {
                Ok(None)
            }
        },
        Ok(None) => Err(SyncError::HeaderUnresolvable),
        Err(_) => Err(SyncError::HeaderUnresolvable),
    }
}

} // verus!
