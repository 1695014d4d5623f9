//! System-wide laws, stated and proved over the views the operation
//! contracts use.

use vstd::prelude::*;
use vstd::seq_lib::seq_to_set_is_finite;
use vstd::set_lib::lemma_len_subset;
use crate::arith::{spec_max, spec_members_price};
use crate::ids::spec_supersig_id;
use crate::state::{Pallet, wf_call, wf_sig};
use crate::types::{AccountId, CallIndex, DispatchError, Error, SigIndex};

verus! {

/// Law: creation reserves the full deposit.  The deposit transferred to a
/// new treasury is `max(minimum_balance, price)` and the amount then
/// reserved out of it is `price`, the cost of the member list; whenever
/// that price covers the existential minimum the two coincide, so creation
/// reserves exactly `max(minimum_balance, n * unit * price_per_byte)`.
/// (With a price below the existential minimum only the price itself is
/// reserved; the difference stays free in the treasury's account.)
pub proof fn lemma_creation_reserves_full_deposit(n: u128, ppb: u128, minimum: u128)
    requires
        minimum <= spec_members_price(n, ppb),
    ensures
        spec_max(minimum, spec_members_price(n, ppb)) == spec_members_price(n, ppb),
{
}

/// Law: vote records are unique.  In every well-formed state no account
/// holds two true vote records for the same call, and the stored tally is
/// exactly the number of true vote records.
pub proof fn lemma_vote_records_unique(p: Pallet, s: SigIndex, c: CallIndex)
    requires
        p.inv(),
    ensures
        p.voters_of(s, c).no_duplicates(),
        p.tally_of(s, c) == p.voters_of(s, c).len(),
{
    if p.has_call(s, c) {
        assert(wf_sig(p.sigs@[s]));
        assert(wf_call(p.sigs@[s].calls@[c]));
    }
}

/// Law: the tally of a call never exceeds the treasury's member count at
/// the moment of evaluation, as long as every recorded voter is still a
/// member.  (Member churn after a vote can invalidate the premise: votes
/// of accounts that later left or were removed stay recorded.)
pub proof fn lemma_tally_bounded_by_members(p: Pallet, s: SigIndex, c: CallIndex)
    requires
        p.inv(),
        p.has_call(s, c),
        forall|v: AccountId| #[trigger] p.voters_of(s, c).contains(v) ==> p.members_of(
            s,
        ).contains(v),
    ensures
        p.tally_of(s, c) <= p.members_of(s).len(),
{
    broadcast use vstd::set::group_set_axioms;

    let voters = p.voters_of(s, c);
    let members = p.members_of(s);
    assert(wf_sig(p.sigs@[s]));
    assert(wf_call(p.sigs@[s].calls@[c]));
    voters.unique_seq_to_set();
    members.lemma_cardinality_of_set();
    seq_to_set_is_finite(members);
    assert(voters.to_set().subset_of(members.to_set())) by {
        assert forall|v: AccountId| voters.to_set().contains(v) implies members.to_set().contains(
            v,
        ) by {
            assert(voters.contains(v));
            assert(members.contains(v));
        }
    }
    lemma_len_subset(voters.to_set(), members.to_set());
}

/// Law: a treasury's identity is stable.  The identity is derived from the
/// index and never stored, so in every well-formed state the treasury at
/// index `s` answers to exactly `spec_supersig_id(s)` — the identity it
/// was created under — and no other identity resolves to it.  Because no
/// operation renumbers a surviving treasury (the `sigs_same_except` frame
/// of every contract), the identity returned at creation keeps resolving
/// to the same treasury, through every membership change, until the
/// treasury is removed.
pub proof fn lemma_identity_stable(p: Pallet, s: SigIndex)
    requires
        p.inv(),
        p.is_sig(s),
    ensures
        p.spec_lookup(spec_supersig_id(s)) == Some(s),
        forall|id: AccountId| p.spec_lookup(id) == Some(s) ==> id == spec_supersig_id(s),
{
}

/// Law: a purged call stays gone.  Where a treasury lives but no call is
/// stored at an index — as after an execution or a removal — any further
/// approval by a member, and any further removal attempt, reports
/// `CallNotFound`.
pub proof fn lemma_purged_call_not_found(p: Pallet, s: SigIndex, c: CallIndex, who: AccountId)
    requires
        p.inv(),
        p.is_sig(s),
        !p.has_call(s, c),
    ensures
        p.members_of(s).contains(who) ==> p.approve_outcome(who, spec_supersig_id(s), c)
            == Some(DispatchError::Module(Error::CallNotFound)),
        p.remove_call_outcome(who, spec_supersig_id(s), c) == Some(
            DispatchError::Module(Error::CallNotFound),
        ),
{
}

} // verus!
