use vstd::prelude::*;

verus! {

/// A 32-byte identity: the hash of a host block, of an embedded block or of
/// an embedded transaction.
#[derive(Clone, Copy, Debug, PartialEq, Eq)]
pub struct Hash256 {
    pub bytes: [u8; 32],
}

impl Hash256 {
    /// Whether two hashes hold the same 32 bytes.
    pub fn same(&self, other: &Hash256) -> (r: bool)
        ensures
            r == (*self == *other),
    {
        let mut i: usize = 0;
        while i < 32
            invariant
                i <= 32,
                forall|j: int| 0 <= j < i ==> self.bytes[j] == other.bytes[j],
            decreases 32 - i,
        {
            if self.bytes[i] != other.bytes[i] {
                return false;
            }
            i += 1;
        }
        assert(self.bytes =~= other.bytes);
        true
    }
}

/// A 20-byte account address of the embedded chain.
#[derive(Clone, Copy, Debug, PartialEq, Eq)]
pub struct Address {
    pub bytes: [u8; 20],
}

impl Address {
    /// Whether two addresses hold the same 20 bytes.
    pub fn same(&self, other: &Address) -> (r: bool)
        ensures
            r == (*self == *other),
    {
        let mut i: usize = 0;
        while i < 20
            invariant
                i <= 20,
                forall|j: int| 0 <= j < i ==> self.bytes[j] == other.bytes[j],
            decreases 20 - i,
        {
            if self.bytes[i] != other.bytes[i] {
                return false;
            }
            i += 1;
        }
        assert(self.bytes =~= other.bytes);
        true
    }
}

/// An unsigned integer of 256 bits, as four words of 64 bits, the least
/// significant first.
#[derive(Clone, Copy, Debug, PartialEq, Eq)]
pub struct Uint256 {
    pub limbs: [u64; 4],
}

/// A copy of a list of plain values.
pub fn copy_of<T: Copy>(items: &Vec<T>) -> (r: Vec<T>)
    ensures
        r@ == items@,
{
    let mut out: Vec<T> = Vec::new();
    let mut i: usize = 0;
    while i < items.len()
        invariant
            i <= items.len(),
            out@ == items@.take(i as int),
        decreases items.len() - i,
    {
        out.push(items[i]);
        assert(items@.take(i + 1) == items@.take(i as int).push(items@[i as int]));
        i += 1;
    }
    assert(items@.take(items@.len() as int) == items@);
    out
}

/// How far ahead of the host chain's best block the index may run.
#[derive(Clone, Copy, Debug, PartialEq, Eq, Structural)]
pub enum SyncStrategy {
    /// The host chain stands alone: every header above the floor is indexed
    /// as soon as the walk reaches it.
    Standalone,
    /// The host chain is a parachain that a relay chain secures: a header
    /// above the best block that the host backend reports is left alone.
    RelayDependent,
}

/// A collaborator could not do what it was asked.
#[derive(Clone, Copy, Debug, PartialEq, Eq, Structural)]
pub struct Failed;

/// Why a run of the engine failed.
#[derive(Clone, Copy, Debug, PartialEq, Eq, Structural)]
pub enum SyncError {
    /// The index store or the progress store refused a write.
    StoreWriteFailed,
    /// The progress store or the host backend could not hand out the
    /// frontier or the leaves.
    StoreReadFailed,
    /// The host backend has no header for a hash of the frontier, or failed
    /// to look it up.
    HeaderUnresolvable,
    /// The digest of a header carries more than one claim.
    AmbiguousLog,
    /// The runtime could not be asked for its genesis block.
    CapabilityProbeFailed,
}

impl SyncError {
    /// A short description of the failure.
    pub fn message(&self) -> (r: &'static str)
        ensures
            r@ == match *self {
                SyncError::StoreWriteFailed => "Store write failed"@,
                SyncError::StoreReadFailed => "Store read failed"@,
                SyncError::HeaderUnresolvable => "Header not found"@,
                SyncError::AmbiguousLog => "Multiple logs found"@,
                SyncError::CapabilityProbeFailed => "Runtime query failed"@,
            },
    {
        match self {
            SyncError::StoreWriteFailed => "Store write failed",
            SyncError::StoreReadFailed => "Store read failed",
            SyncError::HeaderUnresolvable => "Header not found",
            SyncError::AmbiguousLog => "Multiple logs found",
            SyncError::CapabilityProbeFailed => "Runtime query failed",
        }
    }
}

} // verus!
