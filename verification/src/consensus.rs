use crate::primitives::{copy_of, Hash256};
use sp_runtime::generic::Digest;
use vstd::prelude::*;

verus! {

/// `sp_core::H256`, the hash type of the host chain. Nothing of its inside
/// is known here: it only stands as the parameter of `Digest`.
#[verifier::external_type_specification]
#[verifier::external_body]
pub struct ExH256(sp_core::H256);

/// `sp_runtime::generic::Digest`, the list of the digest items of a header.
/// A digest is carried through as it is; of what it holds, only the claims
/// are spoken of (`frontier_logs`).
#[verifier::external_type_specification]
#[verifier::external_body]
#[verifier::reject_recursive_types(Hash)]
pub struct ExDigest<Hash>(Digest<Hash>);

/// The identity that one consensus log claims for the embedded block of a
/// host block: the embedded block's hash and the hashes of its transactions,
/// in the order in which the block holds them.
#[derive(Clone, Debug, PartialEq, Eq)]
pub struct Hashes {
    pub block_hash: Hash256,
    pub transaction_hashes: Vec<Hash256>,
}

pub ghost struct HashesView {
    pub block_hash: Hash256,
    pub transaction_hashes: Seq<Hash256>,
}

impl View for Hashes {
    type V = HashesView;

    open spec fn view(&self) -> HashesView {
        HashesView { block_hash: self.block_hash, transaction_hashes: self.transaction_hashes@ }
    }
}

impl Hashes {
    /// A copy of the claim.
    pub fn duplicate(&self) -> (r: Hashes)
        ensures
            r@ == self@,
    {
        Hashes {
            block_hash: self.block_hash,
            transaction_hashes: copy_of(&self.transaction_hashes),
        }
    }
}

/// Why a digest yields no single claim.
#[derive(Clone, Copy, Debug, PartialEq, Eq, Structural)]
pub enum FindLogError {
    /// No item of the digest carries a claim.
    NotFound,
    /// More than one item of the digest carries a claim.
    MultipleLogs,
}

/// The claims that a digest carries, in the order of its items. An item
/// carries a claim when it is a pre-runtime or a consensus item of the
/// Frontier engine whose payload decodes as a log of that kind; the claim is
/// what `Log::into_hashes` makes of the decoded log.
pub uninterp spec fn frontier_logs(digest: Digest<sp_core::H256>) -> Seq<HashesView>;

/// What a search for the single claim among `logs` gives.
pub open spec fn single_log(logs: Seq<HashesView>) -> Result<HashesView, FindLogError> {
    if logs.len() == 0 {
        Err(FindLogError::NotFound)
    } else if logs.len() == 1 {
        Ok(logs[0])
    } else {
        Err(FindLogError::MultipleLogs)
    }
}

/// The view of what a search for a claim returned.
pub open spec fn found_view(found: Result<Hashes, FindLogError>) -> Result<
    HashesView,
    FindLogError,
> {
    match found {
        Ok(claim) => Ok(claim@),
        Err(e) => Err(e),
    }
}

/// Calls `fp_consensus::find_log` on the digest and `Log::into_hashes` on the
/// log it finds. The contract claims what the source of `find_log` shows: it
/// walks the items in order, fails with `MultipleLogs` at the second item
/// that carries a claim, with `NotFound` when none does, and otherwise
/// returns the only one.
#[verifier::external_body]
pub(crate) fn find_log(digest: &Digest<sp_core::H256>) -> (r: Result<Hashes, FindLogError>)
    ensures
        found_view(r) == single_log(frontier_logs(*digest)),
{
    match fp_consensus::find_log(digest) {
        Ok(log) => {
            let found = log.into_hashes();
            Ok(Hashes {
                block_hash: Hash256 { bytes: found.block_hash.0 },
                transaction_hashes: found.transaction_hashes.iter().map(|t| Hash256 { bytes: t.0 }).collect(),
            })
        },
        Err(fp_consensus::FindLogError::NotFound) => Err(FindLogError::NotFound),
        Err(fp_consensus::FindLogError::MultipleLogs) => Err(FindLogError::MultipleLogs),
    }
}

/// Calls `Clone::clone` on the digest. The contract claims that the copy
/// carries the claims of the digest it was made from.
#[verifier::external_body]
pub(crate) fn clone_digest(digest: &Digest<sp_core::H256>) -> (r: Digest<sp_core::H256>)
    ensures
        frontier_logs(r) == frontier_logs(*digest),
{
    digest.clone()
}

} // verus!
