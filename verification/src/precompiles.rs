use crate::primitives::{Address, Failed};
use vstd::prelude::*;

verus! {

/// The 20 bytes of the address whose low eight bytes hold `a`, the most
/// significant first, and whose other bytes are zero.
pub open spec fn low_u64_be(a: u64) -> Seq<u8> {
    Seq::new(
        20,
        |i: int|
            if i < 12 {
                0u8
            } else {
                ((a >> ((8 * (19 - i)) as u64)) & 0xff) as u8
            },
    )
}

/// Whether `address` is the address with the number `a`.
pub open spec fn is_number(address: Address, a: u64) -> bool {
    address.bytes@ == low_u64_be(a)
}

/// Calls `H160::from_low_u64_be` of `sp_core`. The contract claims what its
/// source shows: the eight bytes of `a`, the most significant first, fill
/// the end of the address, and the twelve bytes before them are zero.
#[verifier::external_body]
pub(crate) fn hash(a: u64) -> (r: Address)
    ensures
        is_number(r, a),
{
    Address { bytes: sp_core::H160::from_low_u64_be(a).0 }
}

/// The precompiled contracts of the embedded chain.
#[derive(Clone, Copy, Debug, PartialEq, Eq, Structural)]
pub enum Precompile {
    ECRecover,
    Sha256,
    Ripemd160,
    Identity,
    Modexp,
    Sha3FIPS256,
    ECRecoverPublicKey,
    AnemoiJive,
    AnonymousVerifier,
}

/// The precompiled contract that lives at `address`, if any.
pub open spec fn precompile_at(address: Address) -> Option<Precompile> {
    if is_number(address, 1) {
        Some(Precompile::ECRecover)
    } else if is_number(address, 2) {
        Some(Precompile::Sha256)
    } else if is_number(address, 3) {
        Some(Precompile::Ripemd160)
    } else if is_number(address, 4) {
        Some(Precompile::Identity)
    } else if is_number(address, 5) {
        Some(Precompile::Modexp)
    } else if is_number(address, 1024) {
        Some(Precompile::Sha3FIPS256)
    } else if is_number(address, 1025) {
        Some(Precompile::ECRecoverPublicKey)
    } else if is_number(address, 5000) {
        Some(Precompile::AnemoiJive)
    } else if is_number(address, 5001) {
        Some(Precompile::AnonymousVerifier)
    } else {
        None
    }
}

/// The numbers of the addresses in use, in the order of `used_addresses`.
pub open spec fn used_numbers() -> Seq<u64> {
    seq![1u64, 2u64, 3u64, 4u64, 5u64, 1024u64, 1025u64, 5000u64, 5001u64]
}

/// The table of the precompiled contracts: which address holds which.
#[derive(Clone, Copy, Debug, PartialEq, Eq, Structural)]
pub struct FrontierPrecompiles;

/// Whether `address` is the address numbered `a`.
fn at(address: &Address, a: u64) -> (r: bool)
    ensures
        r == is_number(*address, a),
{
    let numbered = hash(a);
    let r = address.same(&numbered);
    proof {
        if is_number(*address, a) {
            assert(address.bytes =~= numbered.bytes);
        }
    }
    r
}

impl FrontierPrecompiles {
    pub fn new() -> (r: Self)
        ensures
            r == FrontierPrecompiles,
    {
        FrontierPrecompiles
    }

    /// The addresses that hold a precompiled contract.
    pub fn used_addresses() -> (r: [Address; 9])
        ensures
            forall|i: int| 0 <= i < 9 ==> is_number(#[trigger] r@[i], used_numbers()[i]),
    {
        [
            hash(1),
            hash(2),
            hash(3),
            hash(4),
            hash(5),
            hash(1024),
            hash(1025),
            hash(5000),
            hash(5001),
        ]
    }

    /// The precompiled contract to run for a call to `address`, if there is
    /// one.
    pub fn select(&self, address: Address) -> (r: Option<Precompile>)
        ensures
            r == precompile_at(address),
    {
        if at(&address, 1) {
            Some(Precompile::ECRecover)
        } else if at(&address, 2) {
            Some(Precompile::Sha256)
        } else if at(&address, 3) {
            Some(Precompile::Ripemd160)
        } else if at(&address, 4) {
            Some(Precompile::Identity)
        } else if at(&address, 5) {
            Some(Precompile::Modexp)
        } else if at(&address, 1024) {
            Some(Precompile::Sha3FIPS256)
        } else if at(&address, 1025) {
            Some(Precompile::ECRecoverPublicKey)
        } else if at(&address, 5000) {
            Some(Precompile::AnemoiJive)
        } else if at(&address, 5001) {
            Some(Precompile::AnonymousVerifier)
        } else {
            None
        }
    }

    /// Whether `address` holds a precompiled contract: whether it is one of
    /// the addresses in use.
    pub fn is_precompile(&self, address: Address) -> (r: bool)
        ensures
            r == precompile_at(address).is_some(),
            r == exists|i: int| 0 <= i < 9 && is_number(address, #[trigger] used_numbers()[i]),
    {
        let used = Self::used_addresses();
        let mut i: usize = 0;
        while i < 9
            invariant
                i <= 9,
                forall|j: int| 0 <= j < 9 ==> is_number(#[trigger] used@[j], used_numbers()[j]),
                forall|j: int| 0 <= j < i ==> !is_number(address, #[trigger] used_numbers()[j]),
            decreases 9 - i,
        {
            if address.same(&used[i]) {
                assert(is_number(used@[i as int], used_numbers()[i as int]));
                assert(is_number(address, used_numbers()[i as int]));
                return true;
            }
            proof {
                if is_number(address, used_numbers()[i as int]) {
                    assert(is_number(used@[i as int], used_numbers()[i as int]));
                    assert(address.bytes =~= used@[i as int].bytes);
                }
            }
            i += 1;
        }
        assert(!is_number(address, used_numbers()[0]));
        assert(!is_number(address, used_numbers()[1]));
        assert(!is_number(address, used_numbers()[2]));
        assert(!is_number(address, used_numbers()[3]));
        assert(!is_number(address, used_numbers()[4]));
        assert(!is_number(address, used_numbers()[5]));
        assert(!is_number(address, used_numbers()[6]));
        assert(!is_number(address, used_numbers()[7]));
        assert(!is_number(address, used_numbers()[8]));
        false
    }
}

/// What a call of a native routine comes to: its output where it returned a
/// status of zero or more, and a failure where the status is negative.
pub open spec fn native_outcome(status: i32, output: Seq<u8>) -> Result<Seq<u8>, Failed> {
    if status < 0 {
        Err(Failed)
    } else {
        Ok(output)
    }
}

/// The view of an output, or of the failure in its place.
pub open spec fn output_view(outcome: Result<Vec<u8>, Failed>) -> Result<Seq<u8>, Failed> {
    match outcome {
        Ok(output) => Ok(output@),
        Err(e) => Err(e),
    }
}

/// The precompiled contract that evaluates the Anemoi-Jive hash.
#[derive(Clone, Copy, Debug, PartialEq, Eq, Structural)]
pub struct AnemoiJive;

impl AnemoiJive {
    /// The gas that every call costs.
    pub const BASE: u64 = 0;

    /// The gas that each word of input costs.
    pub const WORD: u64 = 0;

    /// Turns the status that the native routine returned, and the output
    /// that it filled, into the result of the call.
    pub fn conclude(status: i32, output: Vec<u8>) -> (r: Result<Vec<u8>, Failed>)
        ensures
            output_view(r) == native_outcome(status, output@),
    {
        if status < 0 {
            Err(Failed)
        } else {
            Ok(output)
        }
    }
}

/// The precompiled contract that verifies an anonymous transaction.
#[derive(Clone, Copy, Debug, PartialEq, Eq, Structural)]
pub struct AnonymousVerifier;

impl AnonymousVerifier {
    /// The gas that every call costs.
    pub const BASE: u64 = 0;

    /// The gas that each word of input costs.
    pub const WORD: u64 = 0;

    /// Turns the status that the native routine returned, and the output
    /// that it filled, into the result of the call.
    pub fn conclude(status: i32, output: Vec<u8>) -> (r: Result<Vec<u8>, Failed>)
        ensures
            output_view(r) == native_outcome(status, output@),
    {
        if status < 0 {
            Err(Failed)
        } else {
            Ok(output)
        }
    }
}

} // verus!
