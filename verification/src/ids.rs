//! Derivation of a treasury's account identity from its index.
//!
//! The system owns a namespace of account identifiers: every account at or
//! above [`SUPERSIG_ID_BASE`] belongs to it.  Encoding adds the base to the
//! treasury index; decoding subtracts it and rejects identifiers outside the
//! namespace.  The two directions form a bijection on the index range the
//! registry can ever allocate, so a treasury's identity is stable for its
//! whole life.

use vstd::prelude::*;
use crate::types::{AccountId, SigIndex};

verus! {

/// First account identifier of the treasury namespace (2^120).
pub const SUPERSIG_ID_BASE: u128 = 1329227995784915872903807060280344576;

/// Exclusive upper bound on treasury indices (2^64); the global counter
/// never reaches it in any feasible execution.
pub const MAX_SIG_INDEX: u128 = 18446744073709551616;

/// Exclusive upper bound on per-treasury call indices (2^64).
pub const MAX_CALL_INDEX: u128 = 18446744073709551616;

/// The account identity of the treasury with the given index.
pub open spec fn spec_supersig_id(index: SigIndex) -> AccountId
    recommends
        index <= MAX_SIG_INDEX,
{
    (SUPERSIG_ID_BASE + index) as u128
}

/// The treasury index an account identity decodes to, if the identity lies
/// inside this system's namespace.
pub open spec fn spec_try_index(id: AccountId) -> Option<SigIndex> {
    if id >= SUPERSIG_ID_BASE {
        Some((id - SUPERSIG_ID_BASE) as u128)
    } else {
        None
    }
}

/// Derives the account identity of the treasury with the given index.
pub fn supersig_account_id(index: SigIndex) -> (id: AccountId)
    requires
        index <= MAX_SIG_INDEX,
    ensures
        id == spec_supersig_id(index),
{
    SUPERSIG_ID_BASE + index
}

/// Inverts the derivation; `None` for identities outside the namespace.
pub fn try_index_from_id(id: AccountId) -> (r: Option<SigIndex>)
    ensures
        r == spec_try_index(id),
{
    if id >= SUPERSIG_ID_BASE {
        Some(id - SUPERSIG_ID_BASE)
    } else {
        None
    }
}

/// Law: identity derivation is a bijection between the allocatable indices
/// and the namespace of treasury identities.  Decoding inverts encoding,
/// encoding inverts decoding, and distinct indices never share an identity.
pub proof fn lemma_identity_round_trip(index: SigIndex, id: AccountId)
    requires
        index <= MAX_SIG_INDEX,
        id >= SUPERSIG_ID_BASE,
    ensures
        spec_try_index(spec_supersig_id(index)) == Some(index),
        spec_try_index(id) matches Some(i) && spec_supersig_id(i) == id,
        forall|j: SigIndex|
            j <= MAX_SIG_INDEX && j != index ==> #[trigger] spec_supersig_id(j)
                != spec_supersig_id(index),
{
}

} // verus!
