//! The treasury system's state: the registry of treasuries, the pending
//! calls with their tallies and vote records, the modelled account balances,
//! and the append-only event log — together with its well-formedness
//! invariant and the mathematical views the operation contracts speak of.

use vstd::prelude::*;
use vstd::hash_map::HashMapWithView;
use crate::ids::{MAX_CALL_INDEX, MAX_SIG_INDEX, SUPERSIG_ID_BASE};
use crate::types::{AccountId, Balance, CallIndex, Config, Event, EventV, PreimageCall,
    SigIndex, Supersig, ev_view};

verus! {

broadcast use vstd::std_specs::hash::group_hash_axioms;

/// One pending call, with its tally and the voters that approved it.
///
/// The voters list holds exactly the accounts whose vote record is true;
/// the tally is a table of its own, kept alongside it, and the state
/// invariant ties the two together.
pub struct CallEntry {
    /// Payload, provider and provider's deposit.
    pub call: PreimageCall,
    /// Number of positive votes.
    pub tally: u128,
    /// The accounts holding a true vote record, each at most once.
    pub voters: Vec<AccountId>,
}

/// Everything stored under one treasury index: the member list, the
/// per-treasury call counter, and the pending calls.  Removing a treasury
/// removes this whole record, so calls, tallies and vote records are always
/// destroyed together with it.
pub struct SigEntry {
    /// The treasury's member list.
    pub supersig: Supersig,
    /// Next call index to allocate; monotonic while the treasury lives.
    pub next_call: CallIndex,
    /// Pending calls by call index.
    pub calls: HashMapWithView<CallIndex, CallEntry>,
}

/// The modelled ledger record of one account.  An absent record means zero
/// balances; `total = free + reserved` holds by construction.
#[derive(Clone, Copy, Debug)]
pub struct AccountData {
    /// Spendable balance.
    pub free: Balance,
    /// Balance earmarked against the account, excluded from spending.
    pub reserved: Balance,
    /// Liveness marker: prevents pruning while a treasury uses the account.
    pub alive: bool,
}

/// The whole system state.
pub struct Pallet {
    /// Genesis configuration.
    pub config: Config,
    /// Global treasury counter; monotonic, indices are never reused.
    pub nonce_supersig: SigIndex,
    /// Live treasuries by index.
    pub sigs: HashMapWithView<SigIndex, SigEntry>,
    /// Account balances and liveness markers.
    pub accounts: HashMapWithView<AccountId, AccountData>,
    /// Append-only event log.
    pub events: Vec<Event>,
}

/// The mathematical value of the event log.
pub open spec fn log_of(s: Seq<Event>) -> Seq<EventV>
    decreases s.len(),
{
    if s.len() == 0 {
        Seq::empty()
    } else {
        log_of(s.drop_last()).push(ev_view(s.last()))
    }
}

/// Appending an event appends its value to the log.
pub proof fn lemma_log_push(s: Seq<Event>, e: Event)
    ensures
        log_of(s.push(e)) == log_of(s).push(ev_view(e)),
{
    assert(s.push(e).drop_last() =~= s);
    assert(s.push(e).last() == e);
}

/// A call entry is well formed: the tally equals the number of vote
/// records, and no voter holds two of them.
pub open spec fn wf_call(e: CallEntry) -> bool {
    &&& e.voters@.no_duplicates()
    &&& e.tally == e.voters@.len()
}

/// A treasury record is well formed: members never empty, call indices
/// below the monotonic per-treasury counter, every call well formed.
pub open spec fn wf_sig(e: SigEntry) -> bool {
    &&& e.supersig.members@.len() > 0
    &&& e.next_call <= MAX_CALL_INDEX
    &&& forall|c: CallIndex| #[trigger] e.calls@.contains_key(c) ==> c < e.next_call
    &&& forall|c: CallIndex| e.calls@.contains_key(c) ==> wf_call(#[trigger] e.calls@[c])
}

impl Pallet {
    /// Well-formedness of the whole state, established at genesis and
    /// preserved by every operation.
    pub open spec fn inv(self) -> bool {
        &&& self.nonce_supersig <= MAX_SIG_INDEX
        &&& forall|s: SigIndex| #[trigger] self.sigs@.contains_key(s) ==> s
            < self.nonce_supersig
        &&& forall|s: SigIndex| self.sigs@.contains_key(s) ==> wf_sig(#[trigger] self.sigs@[s])
        &&& forall|a: AccountId| #[trigger] self.accounts@.contains_key(a)
            ==> self.accounts@[a].free + self.accounts@[a].reserved <= u128::MAX
    }

    /// Deposit charged per byte of stored data.
    pub open spec fn price_per_byte(self) -> Balance {
        self.config.price_per_byte
    }

    /// Minimum amount an account must hold to exist on the ledger.
    pub open spec fn minimum_balance(self) -> Balance {
        self.config.minimum_balance
    }

    /// Whether a treasury lives at index `s`.
    pub open spec fn is_sig(self, s: SigIndex) -> bool {
        self.sigs@.contains_key(s)
    }

    /// The treasury index an account identity resolves to, if it lies in
    /// the namespace and a treasury lives there.
    pub open spec fn spec_lookup(self, id: AccountId) -> Option<SigIndex> {
        if id >= SUPERSIG_ID_BASE && self.is_sig((id - SUPERSIG_ID_BASE) as u128) {
            Some((id - SUPERSIG_ID_BASE) as u128)
        } else {
            None
        }
    }

    /// Member list of treasury `s`.
    pub open spec fn members_of(self, s: SigIndex) -> Seq<AccountId>
        recommends
            self.is_sig(s),
    {
        self.sigs@[s].supersig.members@
    }

    /// Next call index of treasury `s`; zero where no treasury lives.
    pub open spec fn next_call_of(self, s: SigIndex) -> CallIndex {
        if self.is_sig(s) {
            self.sigs@[s].next_call
        } else {
            0
        }
    }

    /// Whether a pending call lives at `(s, c)`.
    pub open spec fn has_call(self, s: SigIndex, c: CallIndex) -> bool {
        self.is_sig(s) && self.sigs@[s].calls@.contains_key(c)
    }

    /// Payload bytes of the call at `(s, c)`.
    pub open spec fn call_data(self, s: SigIndex, c: CallIndex) -> Seq<u8>
        recommends
            self.has_call(s, c),
    {
        self.sigs@[s].calls@[c].call.data@
    }

    /// Proposer of the call at `(s, c)`.
    pub open spec fn call_provider(self, s: SigIndex, c: CallIndex) -> AccountId
        recommends
            self.has_call(s, c),
    {
        self.sigs@[s].calls@[c].call.provider
    }

    /// Deposit reserved from the proposer of the call at `(s, c)`.
    pub open spec fn call_deposit(self, s: SigIndex, c: CallIndex) -> Balance
        recommends
            self.has_call(s, c),
    {
        self.sigs@[s].calls@[c].call.deposit
    }

    /// Vote tally of the call at `(s, c)`; zero where no call lives.
    pub open spec fn tally_of(self, s: SigIndex, c: CallIndex) -> u128 {
        if self.has_call(s, c) {
            self.sigs@[s].calls@[c].tally
        } else {
            0
        }
    }

    /// The accounts holding a true vote record for the call at `(s, c)`.
    pub open spec fn voters_of(self, s: SigIndex, c: CallIndex) -> Seq<AccountId> {
        if self.has_call(s, c) {
            self.sigs@[s].calls@[c].voters@
        } else {
            Seq::empty()
        }
    }

    /// Whether `who` holds a true vote record for the call at `(s, c)`.
    pub open spec fn voted(self, s: SigIndex, c: CallIndex, who: AccountId) -> bool {
        self.voters_of(s, c).contains(who)
    }

    /// Free balance of `who`; zero for absent accounts.
    pub open spec fn free_of(self, who: AccountId) -> Balance {
        if self.accounts@.contains_key(who) {
            self.accounts@[who].free
        } else {
            0
        }
    }

    /// Reserved balance of `who`; zero for absent accounts.
    pub open spec fn reserved_of(self, who: AccountId) -> Balance {
        if self.accounts@.contains_key(who) {
            self.accounts@[who].reserved
        } else {
            0
        }
    }

    /// Total balance of `who`: free plus reserved.
    pub open spec fn total_of(self, who: AccountId) -> int {
        self.free_of(who) + self.reserved_of(who)
    }

    /// Whether `who` carries the liveness marker.
    pub open spec fn alive_of(self, who: AccountId) -> bool {
        if self.accounts@.contains_key(who) {
            self.accounts@[who].alive
        } else {
            false
        }
    }

    /// The event log's mathematical value.
    pub open spec fn log(self) -> Seq<EventV> {
        log_of(self.events@)
    }

    /// Majority threshold over `n` members.
    pub open spec fn spec_threshold(n: int) -> int {
        n / 2 + 1
    }
}

/// The genesis configuration is never touched by an operation.
pub open spec fn config_unchanged(a: Pallet, b: Pallet) -> bool {
    b.config == a.config
}

/// No treasury other than `s` is touched: the same indices hold treasuries,
/// and every record but the one at `s` keeps its exact value.
pub open spec fn sigs_same_except(a: Pallet, b: Pallet, s: SigIndex) -> bool {
    &&& forall|s2: SigIndex| s2 != s ==> #[trigger] b.sigs@.contains_key(s2)
        == a.sigs@.contains_key(s2)
    &&& forall|s2: SigIndex| s2 != s && a.sigs@.contains_key(s2) ==> #[trigger] b.sigs@[s2]
        == a.sigs@[s2]
}

/// Within treasury `s`, no call other than `c` is touched.
pub open spec fn calls_same_except(a: Pallet, b: Pallet, s: SigIndex, c: CallIndex) -> bool {
    &&& b.is_sig(s) == a.is_sig(s)
    &&& forall|c2: CallIndex| c2 != c ==> #[trigger] b.has_call(s, c2) == a.has_call(s, c2)
    &&& forall|c2: CallIndex| c2 != c && a.has_call(s, c2) ==> #[trigger] b.call_data(s, c2)
        == a.call_data(s, c2) && b.call_provider(s, c2) == a.call_provider(s, c2)
        && b.call_deposit(s, c2) == a.call_deposit(s, c2) && b.tally_of(s, c2) == a.tally_of(
        s,
        c2,
    ) && b.voters_of(s, c2) == a.voters_of(s, c2)
}

/// Within treasury `s`, no call at all is touched.
pub open spec fn calls_unchanged_in(a: Pallet, b: Pallet, s: SigIndex) -> bool {
    &&& forall|c: CallIndex| #[trigger] b.has_call(s, c) == a.has_call(s, c)
    &&& forall|c: CallIndex| a.has_call(s, c) ==> #[trigger] b.call_data(s, c) == a.call_data(
        s,
        c,
    ) && b.call_provider(s, c) == a.call_provider(s, c) && b.call_deposit(s, c)
        == a.call_deposit(s, c) && b.tally_of(s, c) == a.tally_of(s, c) && b.voters_of(s, c)
        == a.voters_of(s, c)
}

/// Exactly one new true vote record by `who` on the call at `(s, c)`:
/// the tally grows by one, the voter list gains `who`, and nothing else in
/// the whole state changes.
pub open spec fn vote_recorded(a: Pallet, b: Pallet, s: SigIndex, c: CallIndex, who: AccountId)
    -> bool {
    &&& b.is_sig(s)
    &&& b.members_of(s) == a.members_of(s)
    &&& b.next_call_of(s) == a.next_call_of(s)
    &&& b.has_call(s, c)
    &&& b.call_data(s, c) == a.call_data(s, c)
    &&& b.call_provider(s, c) == a.call_provider(s, c)
    &&& b.call_deposit(s, c) == a.call_deposit(s, c)
    &&& b.voters_of(s, c) == a.voters_of(s, c).push(who)
    &&& b.tally_of(s, c) == a.tally_of(s, c) + 1
    &&& calls_same_except(a, b, s, c)
    &&& sigs_same_except(a, b, s)
    &&& b.nonce_supersig == a.nonce_supersig
    &&& accounts_unchanged(a, b)
}

/// The call at `(s, c)` was executed and purged: the proposer's deposit is
/// unreserved, the call with its tally and vote records no longer exists,
/// and nothing else changes.
pub open spec fn call_executed(a: Pallet, b: Pallet, s: SigIndex, c: CallIndex) -> bool {
    let p = a.call_provider(s, c);
    let dep = a.call_deposit(s, c);
    let released = spec_min(dep, a.reserved_of(p));
    &&& b.is_sig(s)
    &&& b.members_of(s) == a.members_of(s)
    &&& b.next_call_of(s) == a.next_call_of(s)
    &&& !b.has_call(s, c)
    &&& calls_same_except(a, b, s, c)
    &&& sigs_same_except(a, b, s)
    &&& b.nonce_supersig == a.nonce_supersig
    &&& b.free_of(p) == a.free_of(p) + released
    &&& b.reserved_of(p) == a.reserved_of(p) - released
    &&& b.alive_of(p) == a.alive_of(p)
    &&& accounts_same_except(a, b, set![p])
}

/// No account outside `except` changes its free balance, reserved balance,
/// or liveness marker.
pub open spec fn accounts_same_except(a: Pallet, b: Pallet, except: Set<AccountId>) -> bool {
    forall|w: AccountId|
        !except.contains(w) ==> #[trigger] b.free_of(w) == a.free_of(w) && b.reserved_of(w)
            == a.reserved_of(w) && b.alive_of(w) == a.alive_of(w)
}

/// No account at all changes.
pub open spec fn accounts_unchanged(a: Pallet, b: Pallet) -> bool {
    accounts_same_except(a, b, Set::empty())
}

/// The elements of `src` that occur nowhere in `listed`, in order.
pub open spec fn except_listed(src: Seq<AccountId>, listed: Seq<AccountId>) -> Seq<AccountId> {
    src.filter(|m: AccountId| !listed.contains(m))
}

/// The list of genuinely new members an add request appends: the requested
/// ones not already present, kept in request order (duplicates inside the
/// request itself are all kept: only presence in the member list filters).
pub open spec fn added_list(requested: Seq<AccountId>, existing: Seq<AccountId>) -> Seq<
    AccountId,
> {
    except_listed(requested, existing)
}

/// The member list a removal request leaves behind: everyone not listed.
pub open spec fn retained_list(members: Seq<AccountId>, removed: Seq<AccountId>) -> Seq<
    AccountId,
> {
    except_listed(members, removed)
}

/// The member list after `who` leaves: every occurrence of `who` is gone.
pub open spec fn remaining_list(members: Seq<AccountId>, who: AccountId) -> Seq<AccountId> {
    members.filter(|m: AccountId| m != who)
}

/// The smaller of `a` and `b`; an unreserve releases at most what is
/// actually reserved.
pub open spec fn spec_min(a: u128, b: u128) -> u128 {
    if a <= b {
        a
    } else {
        b
    }
}

} // verus!
