use supersig::ids::SUPERSIG_ID_BASE;
use supersig::{CallDispatcher, Config, DispatchError, Error, Event, NoopDispatcher, Pallet};

const ALICE: u128 = 1;
const BOB: u128 = 2;
const CHARLIE: u128 = 3;
const DAVE: u128 = 4;
const EVE: u128 = 5;
const PAUPER: u128 = 9;

fn sid(index: u128) -> u128 {
    SUPERSIG_ID_BASE + index
}

fn new_pallet() -> Pallet {
    let mut p = Pallet::new(Config { price_per_byte: 1, minimum_balance: 5 });
    for who in [ALICE, BOB, CHARLIE, DAVE, EVE] {
        p.set_free_balance(who, 1_000_000);
    }
    p
}

/// A host that records every dispatched payload and answers as told.
struct Recorder {
    dispatched: Vec<(Vec<u8>, u128)>,
    reply: Option<bool>,
}

impl CallDispatcher for Recorder {
    fn dispatch_call(&mut self, data: &Vec<u8>, origin: u128) -> Option<bool> {
        self.dispatched.push((data.clone(), origin));
        self.reply
    }
}

#[test]
fn creation_reserves_full_deposit_and_stable_identity() {
    let mut p = new_pallet();
    assert!(p.create_supersig(ALICE, vec![ALICE, BOB, CHARLIE]).is_ok());
    // price = 16 bytes * 3 members * 1 per byte = 48, above the minimum of 5.
    assert_eq!(p.reserved_balance(sid(0)), 48);
    assert_eq!(p.free_balance(sid(0)), 0);
    assert_eq!(p.free_balance(ALICE), 1_000_000 - 48);
    assert_eq!(p.get_supersig_index_from_id(sid(0)), Ok(0));
    assert_eq!(p.events().last(), Some(&Event::SupersigCreated(sid(0))));
    // the identity keeps resolving after later operations
    p.set_free_balance(sid(0), 100);
    assert!(p.add_members(sid(0), sid(0), vec![DAVE]).is_ok());
    assert_eq!(p.get_supersig_index_from_id(sid(0)), Ok(0));
}

#[test]
fn creation_charges_per_member_at_configured_price() {
    let mut p = Pallet::new(Config { price_per_byte: 2, minimum_balance: 1 });
    p.set_free_balance(ALICE, 1_000);
    assert!(p.create_supersig(ALICE, vec![ALICE, BOB]).is_ok());
    // 16 bytes * 2 members * 2 per byte = 64
    assert_eq!(p.reserved_balance(sid(0)), 64);
    assert_eq!(p.free_balance(ALICE), 1_000 - 64);
}

#[test]
fn creation_below_minimum_transfers_minimum_but_reserves_price() {
    let mut p = Pallet::new(Config { price_per_byte: 0, minimum_balance: 10 });
    p.set_free_balance(ALICE, 100);
    assert!(p.create_supersig(ALICE, vec![ALICE, BOB]).is_ok());
    // price = 0, deposit = max(10, 0) = 10: the difference stays free.
    assert_eq!(p.free_balance(ALICE), 90);
    assert_eq!(p.free_balance(sid(0)), 10);
    assert_eq!(p.reserved_balance(sid(0)), 0);
}

#[test]
fn creation_does_not_deduplicate_members() {
    let mut p = new_pallet();
    assert!(p.create_supersig(ALICE, vec![ALICE, ALICE]).is_ok());
    assert_eq!(p.supersigs(0).unwrap().members, vec![ALICE, ALICE]);
    // both occurrences are paid for
    assert_eq!(p.reserved_balance(sid(0)), 32);
}

#[test]
fn creation_errors() {
    let mut p = new_pallet();
    assert_eq!(
        p.create_supersig(ALICE, vec![]),
        Err(DispatchError::Module(Error::InvalidSupersig))
    );
    assert_eq!(
        p.create_supersig(PAUPER, vec![ALICE, BOB]),
        Err(DispatchError::InsufficientBalance)
    );
    p.set_free_balance(sid(0), u128::MAX);
    assert_eq!(
        p.create_supersig(ALICE, vec![ALICE, BOB]),
        Err(DispatchError::Overflow)
    );
}

#[test]
fn submit_reserves_payload_deposit_from_submitter() {
    let mut p = new_pallet();
    assert!(p.create_supersig(ALICE, vec![ALICE, BOB, CHARLIE]).is_ok());
    let free_before = p.free_balance(ALICE);
    assert!(p.submit_call(ALICE, sid(0), vec![7, 8, 9]).is_ok());
    assert_eq!(p.free_balance(ALICE), free_before - 3);
    assert_eq!(p.reserved_balance(ALICE), 3);
    let call = p.calls(0, 0).unwrap();
    assert_eq!(call.data, vec![7, 8, 9]);
    assert_eq!(call.provider, ALICE);
    assert_eq!(call.deposit, 3);
    assert_eq!(p.nonce_call(0), 1);
    assert_eq!(p.events().last(), Some(&Event::CallSubmitted(sid(0), 0, ALICE)));
}

#[test]
fn submit_errors() {
    let mut p = new_pallet();
    p.set_free_balance(PAUPER, 1);
    assert!(p.create_supersig(ALICE, vec![ALICE, BOB, PAUPER]).is_ok());
    assert_eq!(
        p.submit_call(ALICE, sid(7), vec![1]),
        Err(DispatchError::Module(Error::SupersigNotFound))
    );
    assert_eq!(
        p.submit_call(DAVE, sid(0), vec![1]),
        Err(DispatchError::Module(Error::NotMember))
    );
    assert_eq!(
        p.submit_call(PAUPER, sid(0), vec![1, 2]),
        Err(DispatchError::InsufficientBalance)
    );
}

#[test]
fn majority_vote_executes_call() {
    let mut p = new_pallet();
    let mut host = Recorder { dispatched: Vec::new(), reply: Some(true) };
    assert!(p.create_supersig(ALICE, vec![ALICE, BOB, CHARLIE]).is_ok());
    assert!(p.submit_call(ALICE, sid(0), vec![1, 2, 3]).is_ok());
    let alice_free = p.free_balance(ALICE);

    // threshold is 3 / 2 + 1 = 2
    assert!(p.approve_call(BOB, sid(0), 0, &mut host).is_ok());
    assert_eq!(p.votes(0, 0), 1);
    assert!(p.users_votes(0, 0, BOB));
    assert!(p.calls(0, 0).is_some());
    assert!(host.dispatched.is_empty());
    assert_eq!(p.events().last(), Some(&Event::CallVoted(sid(0), 0, BOB)));

    assert!(p.approve_call(CHARLIE, sid(0), 0, &mut host).is_ok());
    // dispatched once, as the treasury, with the stored payload
    assert_eq!(host.dispatched, vec![(vec![1, 2, 3], sid(0))]);
    // proposer's deposit returned in full
    assert_eq!(p.free_balance(ALICE), alice_free + 3);
    assert_eq!(p.reserved_balance(ALICE), 0);
    // proposal, tally and vote records purged
    assert!(p.calls(0, 0).is_none());
    assert_eq!(p.votes(0, 0), 0);
    assert!(!p.users_votes(0, 0, BOB));
    assert!(!p.users_votes(0, 0, CHARLIE));
    assert_eq!(p.events().last(), Some(&Event::CallExecuted(sid(0), 0, true)));
}

#[test]
fn double_vote_is_rejected() {
    let mut p = new_pallet();
    let mut host = NoopDispatcher;
    assert!(p.create_supersig(ALICE, vec![ALICE, BOB, CHARLIE]).is_ok());
    assert!(p.submit_call(ALICE, sid(0), vec![1]).is_ok());
    assert!(p.approve_call(BOB, sid(0), 0, &mut host).is_ok());
    assert_eq!(
        p.approve_call(BOB, sid(0), 0, &mut host),
        Err(DispatchError::Module(Error::AlreadyVoted))
    );
    assert_eq!(p.votes(0, 0), 1);
    assert!(p.users_votes(0, 0, BOB));
}

#[test]
fn non_member_vote_is_rejected() {
    let mut p = new_pallet();
    let mut host = NoopDispatcher;
    assert!(p.create_supersig(ALICE, vec![ALICE, BOB, CHARLIE]).is_ok());
    assert!(p.submit_call(ALICE, sid(0), vec![1]).is_ok());
    assert_eq!(
        p.approve_call(DAVE, sid(0), 0, &mut host),
        Err(DispatchError::Module(Error::NotMember))
    );
    assert_eq!(p.votes(0, 0), 0);
    assert!(!p.users_votes(0, 0, DAVE));
}

#[test]
fn vote_on_missing_call_is_rejected() {
    let mut p = new_pallet();
    let mut host = NoopDispatcher;
    assert!(p.create_supersig(ALICE, vec![ALICE, BOB]).is_ok());
    assert_eq!(
        p.approve_call(ALICE, sid(0), 3, &mut host),
        Err(DispatchError::Module(Error::CallNotFound))
    );
    assert_eq!(
        p.approve_call(ALICE, sid(9), 0, &mut host),
        Err(DispatchError::Module(Error::SupersigNotFound))
    );
}

#[test]
fn undecodable_payload_leaves_proposal_open() {
    let mut p = new_pallet();
    let mut host = NoopDispatcher;
    assert!(p.create_supersig(ALICE, vec![ALICE, BOB, CHARLIE]).is_ok());
    assert!(p.submit_call(ALICE, sid(0), vec![1]).is_ok());
    assert!(p.approve_call(BOB, sid(0), 0, &mut host).is_ok());
    // threshold reached, but the payload does not decode: votes stay, the
    // proposal stays, no execution event
    assert!(p.approve_call(CHARLIE, sid(0), 0, &mut host).is_ok());
    assert_eq!(p.votes(0, 0), 2);
    assert!(p.calls(0, 0).is_some());
    assert_eq!(p.reserved_balance(ALICE), 1);
    assert_eq!(p.events().last(), Some(&Event::CallVoted(sid(0), 0, CHARLIE)));
    // the stuck proposal can still be removed, returning the deposit
    assert!(p.remove_call(ALICE, sid(0), 0).is_ok());
    assert_eq!(p.reserved_balance(ALICE), 0);
    assert!(p.calls(0, 0).is_none());
}

#[test]
fn membership_churn_moves_the_threshold() {
    let mut p = new_pallet();
    let mut host = Recorder { dispatched: Vec::new(), reply: Some(false) };
    assert!(p
        .create_supersig(ALICE, vec![ALICE, BOB, CHARLIE, DAVE, EVE])
        .is_ok());
    assert!(p.submit_call(ALICE, sid(0), vec![5]).is_ok());
    // threshold over 5 members is 3
    assert!(p.approve_call(ALICE, sid(0), 0, &mut host).is_ok());
    assert!(p.approve_call(BOB, sid(0), 0, &mut host).is_ok());
    assert!(host.dispatched.is_empty());
    // two members leave: the threshold is now evaluated over 3 members
    assert!(p.remove_members(sid(0), sid(0), vec![DAVE, EVE]).is_ok());
    assert!(p.approve_call(CHARLIE, sid(0), 0, &mut host).is_ok());
    assert_eq!(host.dispatched.len(), 1);
    assert!(p.calls(0, 0).is_none());
    // a failed dispatch is reported in the event, not as an error
    assert_eq!(p.events().last(), Some(&Event::CallExecuted(sid(0), 0, false)));
}

#[test]
fn remove_call_returns_exact_deposit_and_leaves_no_residue() {
    let mut p = new_pallet();
    let mut host = NoopDispatcher;
    assert!(p.create_supersig(ALICE, vec![ALICE, BOB, CHARLIE]).is_ok());
    let free_before = p.free_balance(ALICE);
    assert!(p.submit_call(ALICE, sid(0), vec![1, 2, 3, 4, 5]).is_ok());
    assert!(p.approve_call(BOB, sid(0), 0, &mut host).is_ok());
    assert!(p.remove_call(ALICE, sid(0), 0).is_ok());
    assert_eq!(p.free_balance(ALICE), free_before);
    assert_eq!(p.reserved_balance(ALICE), 0);
    assert!(p.calls(0, 0).is_none());
    assert_eq!(p.votes(0, 0), 0);
    assert!(!p.users_votes(0, 0, BOB));
    assert_eq!(p.events().last(), Some(&Event::CallRemoved(sid(0), 0)));
    // the purged index stays unusable
    assert_eq!(
        p.remove_call(ALICE, sid(0), 0),
        Err(DispatchError::Module(Error::CallNotFound))
    );
    assert_eq!(
        p.approve_call(BOB, sid(0), 0, &mut host),
        Err(DispatchError::Module(Error::CallNotFound))
    );
}

#[test]
fn remove_call_authorization() {
    let mut p = new_pallet();
    assert!(p.create_supersig(ALICE, vec![ALICE, BOB, CHARLIE]).is_ok());
    assert!(p.submit_call(ALICE, sid(0), vec![1]).is_ok());
    assert_eq!(
        p.remove_call(BOB, sid(0), 0),
        Err(DispatchError::Module(Error::NotAllowed))
    );
    // the treasury itself may remove any call
    assert!(p.remove_call(sid(0), sid(0), 0).is_ok());
}

#[test]
fn add_members_filters_existing_and_reserves_for_new_only() {
    let mut p = new_pallet();
    assert!(p.create_supersig(ALICE, vec![ALICE, BOB]).is_ok());
    p.set_free_balance(sid(0), 100);
    let reserved_before = p.reserved_balance(sid(0));
    assert!(p.add_members(sid(0), sid(0), vec![BOB, DAVE]).is_ok());
    assert_eq!(p.supersigs(0).unwrap().members, vec![ALICE, BOB, DAVE]);
    assert_eq!(p.reserved_balance(sid(0)), reserved_before + 16);
    // the event reports only the members actually appended
    assert_eq!(p.events().last(), Some(&Event::UsersAdded(sid(0), vec![DAVE])));
    assert_eq!(
        p.add_members(ALICE, sid(0), vec![EVE]),
        Err(DispatchError::Module(Error::NotAllowed))
    );
}

#[test]
fn add_members_keeps_duplicates_within_the_request() {
    let mut p = new_pallet();
    assert!(p.create_supersig(ALICE, vec![ALICE]).is_ok());
    p.set_free_balance(sid(0), 100);
    assert!(p.add_members(sid(0), sid(0), vec![EVE, EVE]).is_ok());
    assert_eq!(p.supersigs(0).unwrap().members, vec![ALICE, EVE, EVE]);
    assert_eq!(p.reserved_balance(sid(0)), 16 + 32);
}

#[test]
fn remove_members_refunds_per_removed_member() {
    let mut p = new_pallet();
    assert!(p.create_supersig(ALICE, vec![ALICE, BOB, CHARLIE]).is_ok());
    assert_eq!(p.reserved_balance(sid(0)), 48);
    assert!(p.remove_members(sid(0), sid(0), vec![BOB]).is_ok());
    assert_eq!(p.supersigs(0).unwrap().members, vec![ALICE, CHARLIE]);
    assert_eq!(p.reserved_balance(sid(0)), 48 - 16);
}

#[test]
fn remove_members_reports_the_requested_list() {
    let mut p = new_pallet();
    assert!(p.create_supersig(ALICE, vec![ALICE, BOB]).is_ok());
    // EVE is absent: ignored in effect, reported in the event regardless
    assert!(p.remove_members(sid(0), sid(0), vec![BOB, EVE]).is_ok());
    assert_eq!(p.supersigs(0).unwrap().members, vec![ALICE]);
    assert_eq!(p.reserved_balance(sid(0)), 32 - 16);
    assert_eq!(
        p.events().last(),
        Some(&Event::UsersRemoved(sid(0), vec![BOB, EVE]))
    );
}

#[test]
fn remove_members_that_would_empty_membership_changes_nothing() {
    let mut p = new_pallet();
    assert!(p.create_supersig(ALICE, vec![ALICE, BOB]).is_ok());
    let reserved_before = p.reserved_balance(sid(0));
    let free_before = p.free_balance(sid(0));
    assert_eq!(
        p.remove_members(sid(0), sid(0), vec![ALICE, BOB]),
        Err(DispatchError::Module(Error::CannotRemoveUsers))
    );
    assert_eq!(p.supersigs(0).unwrap().members, vec![ALICE, BOB]);
    assert_eq!(p.reserved_balance(sid(0)), reserved_before);
    assert_eq!(p.free_balance(sid(0)), free_before);
}

#[test]
fn sole_member_cannot_leave() {
    let mut p = new_pallet();
    assert!(p.create_supersig(ALICE, vec![ALICE]).is_ok());
    assert_eq!(
        p.leave_supersig(ALICE, sid(0)),
        Err(DispatchError::Module(Error::CannotRemoveUsers))
    );
    assert_eq!(p.supersigs(0).unwrap().members, vec![ALICE]);
}

#[test]
fn leave_removes_every_occurrence_of_the_caller() {
    let mut p = new_pallet();
    assert!(p.create_supersig(ALICE, vec![ALICE, ALICE, BOB]).is_ok());
    assert!(p.leave_supersig(ALICE, sid(0)).is_ok());
    assert_eq!(p.supersigs(0).unwrap().members, vec![BOB]);
    assert_eq!(p.events().last(), Some(&Event::SupersigLeaved(sid(0), ALICE)));
    // a departure that would empty the treasury is refused, duplicates
    // included
    let mut q = new_pallet();
    assert!(q.create_supersig(ALICE, vec![ALICE, ALICE]).is_ok());
    assert_eq!(
        q.leave_supersig(ALICE, sid(0)),
        Err(DispatchError::Module(Error::CannotRemoveUsers))
    );
    assert_eq!(q.supersigs(0).unwrap().members, vec![ALICE, ALICE]);
    // no deposit is released on leave
    assert_eq!(p.reserved_balance(sid(0)), 48);
}

#[test]
fn leave_by_non_member_is_rejected() {
    let mut p = new_pallet();
    assert!(p.create_supersig(ALICE, vec![ALICE, BOB]).is_ok());
    assert_eq!(
        p.leave_supersig(EVE, sid(0)),
        Err(DispatchError::Module(Error::NotMember))
    );
}

#[test]
fn remove_supersig_pays_out_and_leaves_no_residue() {
    let mut p = new_pallet();
    assert!(p.create_supersig(ALICE, vec![ALICE, BOB, CHARLIE]).is_ok());
    assert!(p.submit_call(ALICE, sid(0), vec![1, 2]).is_ok());
    let bob_free = p.free_balance(BOB);
    assert!(p.remove_supersig(sid(0), sid(0), BOB).is_ok());
    // the whole balance of the treasury — its reserved 48 released — goes
    // to the beneficiary
    assert_eq!(p.free_balance(BOB), bob_free + 48);
    assert_eq!(p.free_balance(sid(0)), 0);
    assert_eq!(p.reserved_balance(sid(0)), 0);
    // no residual entries of any kind
    assert!(p.supersigs(0).is_none());
    assert!(p.calls(0, 0).is_none());
    assert_eq!(p.votes(0, 0), 0);
    assert_eq!(p.nonce_call(0), 0);
    assert_eq!(
        p.get_supersig_index_from_id(sid(0)),
        Err(Error::SupersigNotFound)
    );
    assert_eq!(p.events().last(), Some(&Event::SupersigRemoved(sid(0))));
    // indices are never reused
    assert!(p.create_supersig(ALICE, vec![ALICE]).is_ok());
    assert_eq!(p.nonce_supersig(), 2);
    assert!(p.supersigs(1).is_some());
}

#[test]
fn remove_supersig_refused_while_extra_balance_is_reserved() {
    let mut p = new_pallet();
    assert!(p.create_supersig(ALICE, vec![ALICE, BOB, CHARLIE]).is_ok());
    // a member's departure shrinks the expected membership deposit below
    // what is actually reserved
    assert!(p.leave_supersig(ALICE, sid(0)).is_ok());
    assert_eq!(
        p.remove_supersig(sid(0), sid(0), BOB),
        Err(DispatchError::Module(Error::CannotDeleteSupersig))
    );
    assert!(p.supersigs(0).is_some());
    assert_eq!(
        p.remove_supersig(ALICE, sid(0), BOB),
        Err(DispatchError::Module(Error::NotAllowed))
    );
}

#[test]
fn remove_supersig_overflowing_beneficiary_changes_nothing() {
    let mut p = new_pallet();
    assert!(p.create_supersig(ALICE, vec![ALICE, BOB]).is_ok());
    p.set_free_balance(EVE, u128::MAX);
    assert_eq!(
        p.remove_supersig(sid(0), sid(0), EVE),
        Err(DispatchError::Overflow)
    );
    assert!(p.supersigs(0).is_some());
    assert_eq!(p.reserved_balance(sid(0)), 32);
}

#[test]
fn lookup_and_membership_queries() {
    let mut p = new_pallet();
    assert!(p.create_supersig(ALICE, vec![ALICE, BOB]).is_ok());
    assert_eq!(p.get_supersig_index_from_id(ALICE), Err(Error::SupersigNotFound));
    assert_eq!(p.get_supersig_index_from_id(sid(3)), Err(Error::SupersigNotFound));
    assert_eq!(p.get_supersig_index_from_id(sid(0)), Ok(0));
    assert!(p.is_user_in_supersig(0, ALICE));
    assert!(!p.is_user_in_supersig(0, EVE));
    assert!(!p.is_user_in_supersig(4, ALICE));
}

#[test]
fn unchecked_remove_call_purges_votes_and_tally() {
    let mut p = new_pallet();
    let mut host = NoopDispatcher;
    assert!(p.create_supersig(ALICE, vec![ALICE, BOB, CHARLIE]).is_ok());
    assert!(p.submit_call(ALICE, sid(0), vec![1]).is_ok());
    assert!(p.approve_call(BOB, sid(0), 0, &mut host).is_ok());
    p.unchecked_remove_call(0, 0);
    assert!(p.calls(0, 0).is_none());
    assert_eq!(p.votes(0, 0), 0);
    assert!(!p.users_votes(0, 0, BOB));
    // unlike remove_call, no deposit is released and no event is emitted
    assert_eq!(p.reserved_balance(ALICE), 1);
    assert_eq!(p.events().last(), Some(&Event::CallVoted(sid(0), 0, BOB)));
}

#[test]
fn stale_votes_survive_membership_churn() {
    let mut p = new_pallet();
    let mut host = NoopDispatcher;
    assert!(p
        .create_supersig(ALICE, vec![ALICE, BOB, CHARLIE, DAVE, EVE])
        .is_ok());
    assert!(p.submit_call(ALICE, sid(0), vec![1]).is_ok());
    // threshold 3 is reached but the payload does not decode: the call
    // stays open with three recorded votes
    assert!(p.approve_call(ALICE, sid(0), 0, &mut host).is_ok());
    assert!(p.approve_call(BOB, sid(0), 0, &mut host).is_ok());
    assert!(p.approve_call(CHARLIE, sid(0), 0, &mut host).is_ok());
    assert_eq!(p.votes(0, 0), 3);
    // the voters other than ALICE are removed: their vote records persist,
    // so the tally may exceed the member count once voters are gone
    assert!(p
        .remove_members(sid(0), sid(0), vec![BOB, CHARLIE, DAVE, EVE])
        .is_ok());
    assert_eq!(p.supersigs(0).unwrap().members, vec![ALICE]);
    assert_eq!(p.votes(0, 0), 3);
    assert!(p.users_votes(0, 0, BOB));
}
