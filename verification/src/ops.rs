//! The public operations of the treasury system, with small verified
//! helpers for list filtering and account book-keeping.

use vstd::prelude::*;
use vstd::hash_map::HashMapWithView;
use crate::arith::{bytes_price, max_balance, members_price, spec_bytes_price, spec_max,
    spec_members_price};
use crate::ids::{MAX_CALL_INDEX, MAX_SIG_INDEX, spec_supersig_id, supersig_account_id,
    try_index_from_id};
use crate::state::{AccountData, CallEntry, Pallet, SigEntry, accounts_same_except,
    accounts_unchanged, added_list, call_executed, calls_same_except, calls_unchanged_in,
    config_unchanged, except_listed, lemma_log_push, remaining_list, retained_list,
    sigs_same_except, spec_min, vote_recorded};
use crate::types::{AccountId, Balance, CallDispatcher, CallIndex, Config, DispatchError,
    Error, Event, EventV, PreimageCall, SigIndex, Supersig};

verus! {

broadcast use vstd::std_specs::hash::group_hash_axioms, vstd::seq_lib::group_filter_ensures,
    vstd::seq::Seq::lemma_filter_push;

/// Whether `x` occurs in `v`.
fn vec_contains(v: &Vec<AccountId>, x: AccountId) -> (r: bool)
    ensures
        r == v@.contains(x),
{
    let mut i: usize = 0;
    while i < v.len()
        invariant
            i <= v@.len(),
            forall|j: int| 0 <= j < i ==> v@[j] != x,
        decreases v@.len() - i,
    {
        if v[i] == x {
            return true;
        }
        i += 1;
    }
    false
}

/// A copy of an account list.
fn copy_accounts(v: &Vec<AccountId>) -> (r: Vec<AccountId>)
    ensures
        r@ == v@,
{
    let mut r: Vec<AccountId> = Vec::new();
    let mut i: usize = 0;
    while i < v.len()
        invariant
            i <= v@.len(),
            r@ == v@.take(i as int),
        decreases v@.len() - i,
    {
        r.push(v[i]);
        proof {
            assert(v@.take(i + 1 as int) =~= v@.take(i as int).push(v@[i as int]));
        }
        i += 1;
    }
    proof {
        assert(v@.take(v@.len() as int) =~= v@);
    }
    r
}

/// A copy of a payload.
fn copy_bytes(v: &Vec<u8>) -> (r: Vec<u8>)
    ensures
        r@ == v@,
{
    let mut r: Vec<u8> = Vec::new();
    let mut i: usize = 0;
    while i < v.len()
        invariant
            i <= v@.len(),
            r@ == v@.take(i as int),
        decreases v@.len() - i,
    {
        r.push(v[i]);
        proof {
            assert(v@.take(i + 1 as int) =~= v@.take(i as int).push(v@[i as int]));
        }
        i += 1;
    }
    proof {
        assert(v@.take(v@.len() as int) =~= v@);
    }
    r
}

/// The elements of `src` that do not occur in `listed`, in order.
fn filter_not_listed(src: &Vec<AccountId>, listed: &Vec<AccountId>) -> (r: Vec<AccountId>)
    ensures
        r@ == except_listed(src@, listed@),
{
    let mut r: Vec<AccountId> = Vec::new();
    let mut i: usize = 0;
    while i < src.len()
        invariant
            i <= src@.len(),
            r@ == except_listed(src@.take(i as int), listed@),
        decreases src@.len() - i,
    {
        proof {
            assert(src@.take(i + 1 as int) =~= src@.take(i as int).push(src@[i as int]));
        }
        if !vec_contains(listed, src[i]) {
            r.push(src[i]);
        }
        i += 1;
    }
    proof {
        assert(src@.take(src@.len() as int) =~= src@);
    }
    r
}

/// The elements of `src` other than `who`, in order.
fn filter_without(src: &Vec<AccountId>, who: AccountId) -> (r: Vec<AccountId>)
    ensures
        r@ == remaining_list(src@, who),
{
    let mut r: Vec<AccountId> = Vec::new();
    let mut i: usize = 0;
    while i < src.len()
        invariant
            i <= src@.len(),
            r@ == remaining_list(src@.take(i as int), who),
        decreases src@.len() - i,
    {
        proof {
            assert(src@.take(i + 1 as int) =~= src@.take(i as int).push(src@[i as int]));
        }
        if src[i] != who {
            r.push(src[i]);
        }
        i += 1;
    }
    proof {
        assert(src@.take(src@.len() as int) =~= src@);
    }
    r
}

impl Pallet {
    /// The ledger record of `who`; zero balances for absent accounts.
    fn account_of(&self, who: AccountId) -> (a: AccountData)
        ensures
            a.free == self.free_of(who),
            a.reserved == self.reserved_of(who),
            a.alive == self.alive_of(who),
    {
        match self.accounts.get(&who) {
            Some(r) => *r,
            None => AccountData { free: 0, reserved: 0, alive: false },
        }
    }

    /// Writes the ledger record of `who`; nothing else changes.
    fn set_account(&mut self, who: AccountId, a: AccountData)
        ensures
            final(self).accounts@ == old(self).accounts@.insert(who, a),
            final(self).config == old(self).config,
            final(self).nonce_supersig == old(self).nonce_supersig,
            final(self).sigs == old(self).sigs,
            final(self).events == old(self).events,
    {
        self.accounts.insert(who, a);
    }

    /// An empty system with the given genesis configuration.
    pub fn new(config: Config) -> (p: Pallet)
        ensures
            p.inv(),
            p.config == config,
            p.nonce_supersig == 0,
            forall|s: SigIndex| !#[trigger] p.is_sig(s),
            forall|w: AccountId|
                #[trigger] p.free_of(w) == 0 && p.reserved_of(w) == 0 && !p.alive_of(w),
            p.log() == Seq::<EventV>::empty(),
    {
        Pallet {
            config,
            nonce_supersig: 0,
            sigs: HashMapWithView::new(),
            accounts: HashMapWithView::new(),
            events: Vec::new(),
        }
    }

    /// Sets the free balance of `who`, as a genesis endowment would.
    pub fn set_free_balance(&mut self, who: AccountId, amount: Balance)
        requires
            old(self).inv(),
            amount + old(self).reserved_of(who) <= u128::MAX,
        ensures
            final(self).inv(),
            final(self).free_of(who) == amount,
            final(self).reserved_of(who) == old(self).reserved_of(who),
            final(self).alive_of(who) == old(self).alive_of(who),
            accounts_same_except(*old(self), *final(self), set![who]),
            final(self).config == old(self).config,
            final(self).nonce_supersig == old(self).nonce_supersig,
            final(self).sigs == old(self).sigs,
            final(self).events == old(self).events,
    {
        let mut a = self.account_of(who);
        a.free = amount;
        self.set_account(who, a);
    }

    /// The global treasury counter.
    pub fn nonce_supersig(&self) -> (r: SigIndex)
        ensures
            r == self.nonce_supersig,
    {
        self.nonce_supersig
    }

    /// The member list of the treasury at `s`, if one lives there.
    pub fn supersigs(&self, s: SigIndex) -> (r: Option<Supersig>)
        ensures
            match r {
                Some(sig) => self.is_sig(s) && sig.members@ == self.members_of(s),
                None => !self.is_sig(s),
            },
    {
        match self.sigs.get(&s) {
            Some(e) => Some(Supersig { members: copy_accounts(&e.supersig.members) }),
            None => None,
        }
    }

    /// The next call index of the treasury at `s`; zero where none lives.
    pub fn nonce_call(&self, s: SigIndex) -> (r: CallIndex)
        ensures
            r == self.next_call_of(s),
    {
        match self.sigs.get(&s) {
            Some(e) => e.next_call,
            None => 0,
        }
    }

    /// The pending call at `(s, c)`, if any.
    pub fn calls(&self, s: SigIndex, c: CallIndex) -> (r: Option<PreimageCall>)
        ensures
            match r {
                Some(p) => self.has_call(s, c) && p.data@ == self.call_data(s, c) && p.provider
                    == self.call_provider(s, c) && p.deposit == self.call_deposit(s, c),
                None => !self.has_call(s, c),
            },
    {
        match self.sigs.get(&s) {
            Some(e) => match e.calls.get(&c) {
                Some(entry) => Some(
                    PreimageCall {
                        data: copy_bytes(&entry.call.data),
                        provider: entry.call.provider,
                        deposit: entry.call.deposit,
                    },
                ),
                None => None,
            },
            None => None,
        }
    }

    /// The vote tally at `(s, c)`; zero where no call lives.
    pub fn votes(&self, s: SigIndex, c: CallIndex) -> (r: u128)
        ensures
            r == self.tally_of(s, c),
    {
        match self.sigs.get(&s) {
            Some(e) => match e.calls.get(&c) {
                Some(entry) => entry.tally,
                None => 0,
            },
            None => 0,
        }
    }

    /// Whether `who` holds a true vote record at `(s, c)`.
    pub fn users_votes(&self, s: SigIndex, c: CallIndex, who: AccountId) -> (r: bool)
        ensures
            r == self.voted(s, c, who),
    {
        match self.sigs.get(&s) {
            Some(e) => match e.calls.get(&c) {
                Some(entry) => vec_contains(&entry.voters, who),
                None => false,
            },
            None => false,
        }
    }

    /// Free balance of `who`.
    pub fn free_balance(&self, who: AccountId) -> (r: Balance)
        ensures
            r == self.free_of(who),
    {
        self.account_of(who).free
    }

    /// Reserved balance of `who`.
    pub fn reserved_balance(&self, who: AccountId) -> (r: Balance)
        ensures
            r == self.reserved_of(who),
    {
        self.account_of(who).reserved
    }

    /// Total balance of `who`: free plus reserved.
    pub fn total_balance(&self, who: AccountId) -> (r: Balance)
        requires
            self.inv(),
        ensures
            r == self.total_of(who),
    {
        let a = self.account_of(who);
        a.free + a.reserved
    }

    /// The event log.
    pub fn events(&self) -> (r: &Vec<Event>)
        ensures
            r@ == self.events@,
    {
        &self.events
    }

    /// Resolves a treasury identity to its index; `SupersigNotFound` for
    /// identities outside the namespace or without a live treasury.
    pub fn get_supersig_index_from_id(&self, id: AccountId) -> (r: Result<SigIndex, Error>)
        ensures
            r == match self.spec_lookup(id) {
                Some(s) => Ok::<SigIndex, Error>(s),
                None => Err::<SigIndex, Error>(Error::SupersigNotFound),
            },
    {
        match try_index_from_id(id) {
            Some(index) => {
                if self.sigs.contains_key(&index) {
                    Ok(index)
                } else {
                    Err(Error::SupersigNotFound)
                }
            },
            None => Err(Error::SupersigNotFound),
        }
    }

    /// Whether `user` is a current member of the treasury at
    /// `supersig_index`; false where no treasury lives.
    pub fn is_user_in_supersig(&self, supersig_index: SigIndex, user: AccountId) -> (r: bool)
        ensures
            r == (self.is_sig(supersig_index) && self.members_of(supersig_index).contains(
                user,
            )),
    {
        match self.sigs.get(&supersig_index) {
            Some(e) => vec_contains(&e.supersig.members, user),
            None => false,
        }
    }
}

impl Pallet {
    /// The failure `create_supersig` reports for a creator `who` and a
    /// member list of length `n_members`, if any: an empty list is invalid,
    /// the creator must afford the deposit, and the treasury account must
    /// be able to receive it.
    pub open spec fn create_outcome(self, who: AccountId, n_members: nat) -> Option<
        DispatchError,
    > {
        let sid = spec_supersig_id(self.nonce_supersig);
        let price = spec_members_price(n_members as u128, self.price_per_byte());
        let deposit = spec_max(self.minimum_balance(), price);
        if n_members == 0 {
            Some(DispatchError::Module(Error::InvalidSupersig))
        } else if self.free_of(who) < deposit {
            Some(DispatchError::InsufficientBalance)
        } else if who != sid && self.total_of(sid) + deposit > u128::MAX {
            Some(DispatchError::Overflow)
        } else {
            None
        }
    }

    /// Creates a treasury over `members`.
    ///
    /// Allocates the next index, derives the treasury identity from it,
    /// transfers `max(minimum_balance, price)` from the creator to the
    /// treasury — where `price` pays for the member list — reserves `price`
    /// out of the treasury's own balance, marks the treasury account alive,
    /// and stores the record.  The member list is not deduplicated.
    pub fn create_supersig(&mut self, who: AccountId, members: Vec<AccountId>) -> (r: Result<
        (),
        DispatchError,
    >)
        requires
            old(self).inv(),
            old(self).nonce_supersig < MAX_SIG_INDEX,
        ensures
            final(self).inv(),
            config_unchanged(*old(self), *final(self)),
            ({
                let index = old(self).nonce_supersig;
                let sid = spec_supersig_id(index);
                let price = spec_members_price(
                    members@.len() as u128,
                    old(self).price_per_byte(),
                );
                let deposit = spec_max(old(self).minimum_balance(), price);
                match r {
                    Err(e) => old(self).create_outcome(who, members@.len()) == Some(e)
                        && *final(self) == *old(self),
                    Ok(()) => old(self).create_outcome(who, members@.len()) is None && {
                        &&& final(self).nonce_supersig == index + 1
                        &&& final(self).is_sig(index)
                        &&& final(self).members_of(index) == members@
                        &&& final(self).next_call_of(index) == 0
                        &&& forall|c: CallIndex| !final(self).has_call(index, c)
                        &&& sigs_same_except(*old(self), *final(self), index)
                        &&& final(self).alive_of(sid)
                        &&& final(self).reserved_of(sid) == old(self).reserved_of(sid) + price
                        &&& (who == sid ==> final(self).free_of(sid) == old(self).free_of(sid)
                            - price)
                        &&& (who != sid ==> final(self).free_of(sid) == old(self).free_of(sid)
                            + deposit - price && final(self).free_of(who) == old(self).free_of(
                            who,
                        ) - deposit && final(self).reserved_of(who) == old(self).reserved_of(
                            who,
                        ) && final(self).alive_of(who) == old(self).alive_of(who))
                        &&& accounts_same_except(*old(self), *final(self), set![who, sid])
                        &&& final(self).log() == old(self).log().push(
                            EventV::SupersigCreated(sid),
                        )
                    },
                }
            }),
    {
        if members.len() == 0 {
            return Err(DispatchError::Module(Error::InvalidSupersig));
        }
        let index = self.nonce_supersig;
        let supersig_id = supersig_account_id(index);
        let n: u128 = members.len() as u128;
        let price = members_price(n, self.config.price_per_byte);
        let deposit = max_balance(self.config.minimum_balance, price);

        let src = self.account_of(who);
        if src.free < deposit {
            return Err(DispatchError::InsufficientBalance);
        }
        if who != supersig_id {
            let dst = self.account_of(supersig_id);
            if u128::MAX - dst.free - dst.reserved < deposit {
                return Err(DispatchError::Overflow);
            }
            self.set_account(who, AccountData { free: src.free - deposit, ..src });
            let received = dst.free + deposit;
            self.set_account(
                supersig_id,
                AccountData {
                    free: received - price,
                    reserved: dst.reserved + price,
                    alive: true,
                },
            );
        } else {
            self.set_account(
                who,
                AccountData {
                    free: src.free - price,
                    reserved: src.reserved + price,
                    alive: true,
                },
            );
        }
        let entry = SigEntry {
            supersig: Supersig { members },
            next_call: 0,
            calls: HashMapWithView::new(),
        };
        self.sigs.insert(index, entry);
        self.nonce_supersig = index + 1;
        let ghost pre_events = self.events@;
        self.events.push(Event::SupersigCreated(supersig_id));
        proof {
            lemma_log_push(pre_events, Event::SupersigCreated(supersig_id));
        }
        Ok(())
    }

    /// The failure `submit_call` reports for a submitter `who`, a treasury
    /// identity, and a payload of length `len`, if any: the identity must
    /// resolve, the submitter must be a member and must afford the
    /// per-byte deposit.
    pub open spec fn submit_outcome(self, who: AccountId, supersig_id: AccountId, len: nat)
        -> Option<DispatchError> {
        match self.spec_lookup(supersig_id) {
            None => Some(DispatchError::Module(Error::SupersigNotFound)),
            Some(s) => if !self.members_of(s).contains(who) {
                Some(DispatchError::Module(Error::NotMember))
            } else if self.free_of(who) < spec_bytes_price(
                len as u128,
                self.price_per_byte(),
            ) {
                Some(DispatchError::InsufficientBalance)
            } else {
                None
            },
        }
    }

    /// Submits a call proposal to a treasury.
    ///
    /// Reserves a deposit proportional to the payload length from the
    /// submitter, stores the payload under the next per-treasury call
    /// index, and advances that counter.
    pub fn submit_call(&mut self, who: AccountId, supersig_id: AccountId, data: Vec<u8>) -> (r:
        Result<(), DispatchError>)
        requires
            old(self).inv(),
            old(self).spec_lookup(supersig_id) matches Some(s) ==> old(self).next_call_of(s)
                < MAX_CALL_INDEX,
        ensures
            final(self).inv(),
            config_unchanged(*old(self), *final(self)),
            match r {
                Err(e) => old(self).submit_outcome(who, supersig_id, data@.len()) == Some(e)
                    && *final(self) == *old(self),
                Ok(()) => old(self).submit_outcome(who, supersig_id, data@.len()) is None && {
                    let s = old(self).spec_lookup(supersig_id)->Some_0;
                    let c = old(self).next_call_of(s);
                    let dep = spec_bytes_price(data@.len() as u128, old(self).price_per_byte());
                    &&& final(self).is_sig(s)
                    &&& final(self).members_of(s) == old(self).members_of(s)
                    &&& final(self).next_call_of(s) == c + 1
                    &&& final(self).has_call(s, c)
                    &&& final(self).call_data(s, c) == data@
                    &&& final(self).call_provider(s, c) == who
                    &&& final(self).call_deposit(s, c) == dep
                    &&& final(self).tally_of(s, c) == 0
                    &&& final(self).voters_of(s, c) == Seq::<AccountId>::empty()
                    &&& calls_same_except(*old(self), *final(self), s, c)
                    &&& sigs_same_except(*old(self), *final(self), s)
                    &&& final(self).nonce_supersig == old(self).nonce_supersig
                    &&& final(self).free_of(who) == old(self).free_of(who) - dep
                    &&& final(self).reserved_of(who) == old(self).reserved_of(who) + dep
                    &&& final(self).alive_of(who) == old(self).alive_of(who)
                    &&& accounts_same_except(*old(self), *final(self), set![who])
                    &&& final(self).log() == old(self).log().push(
                        EventV::CallSubmitted(supersig_id, c, who),
                    )
                },
            },
    {
        let s = match self.get_supersig_index_from_id(supersig_id) {
            Ok(s) => s,
            Err(e) => { return Err(DispatchError::Module(e)) },
        };
        if !self.is_user_in_supersig(s, who) {
            return Err(DispatchError::Module(Error::NotMember));
        }
        let dep = bytes_price(data.len() as u128, self.config.price_per_byte);
        let a = self.account_of(who);
        if a.free < dep {
            return Err(DispatchError::InsufficientBalance);
        }
        self.set_account(
            who,
            AccountData { free: a.free - dep, reserved: a.reserved + dep, alive: a.alive },
        );
        let mut entry = match self.sigs.remove(&s) {
            Some(e) => e,
            None => { return Err(DispatchError::Module(Error::SupersigNotFound)) },
        };
        let c = entry.next_call;
        entry.calls.insert(
            c,
            CallEntry {
                call: PreimageCall { data, provider: who, deposit: dep },
                tally: 0,
                voters: Vec::new(),
            },
        );
        entry.next_call = c + 1;
        self.sigs.insert(s, entry);
        let ghost pre_events = self.events@;
        self.events.push(Event::CallSubmitted(supersig_id, c, who));
        proof {
            lemma_log_push(pre_events, Event::CallSubmitted(supersig_id, c, who));
        }
        Ok(())
    }

    /// The failure `add_members` reports, if any: only the treasury itself
    /// may add members, the identity must resolve, and the treasury must
    /// afford the deposit for the genuinely new members.
    pub open spec fn add_members_outcome(
        self,
        who: AccountId,
        supersig_id: AccountId,
        requested: Seq<AccountId>,
    ) -> Option<DispatchError> {
        if who != supersig_id {
            Some(DispatchError::Module(Error::NotAllowed))
        } else {
            match self.spec_lookup(supersig_id) {
                None => Some(DispatchError::Module(Error::SupersigNotFound)),
                Some(s) => {
                    let added = added_list(requested, self.members_of(s));
                    if self.free_of(supersig_id) < spec_members_price(
                        added.len() as u128,
                        self.price_per_byte(),
                    ) {
                        Some(DispatchError::InsufficientBalance)
                    } else {
                        None
                    }
                },
            }
        }
    }

    /// Appends new members to a treasury.
    ///
    /// Members already present are silently ignored; the treasury reserves
    /// a deposit for the members actually appended, and the emitted event
    /// carries exactly that filtered list.
    pub fn add_members(
        &mut self,
        who: AccountId,
        supersig_id: AccountId,
        new_members: Vec<AccountId>,
    ) -> (r: Result<(), DispatchError>)
        requires
            old(self).inv(),
        ensures
            final(self).inv(),
            config_unchanged(*old(self), *final(self)),
            match r {
                Err(e) => old(self).add_members_outcome(who, supersig_id, new_members@)
                    == Some(e) && *final(self) == *old(self),
                Ok(()) => old(self).add_members_outcome(who, supersig_id, new_members@)
                    is None && {
                    let s = old(self).spec_lookup(supersig_id)->Some_0;
                    let added = added_list(new_members@, old(self).members_of(s));
                    let dep = spec_members_price(
                        added.len() as u128,
                        old(self).price_per_byte(),
                    );
                    &&& final(self).is_sig(s)
                    &&& final(self).members_of(s) == old(self).members_of(s) + added
                    &&& final(self).next_call_of(s) == old(self).next_call_of(s)
                    &&& calls_unchanged_in(*old(self), *final(self), s)
                    &&& sigs_same_except(*old(self), *final(self), s)
                    &&& final(self).nonce_supersig == old(self).nonce_supersig
                    &&& final(self).free_of(supersig_id) == old(self).free_of(supersig_id)
                        - dep
                    &&& final(self).reserved_of(supersig_id) == old(self).reserved_of(
                        supersig_id,
                    ) + dep
                    &&& final(self).alive_of(supersig_id) == old(self).alive_of(supersig_id)
                    &&& accounts_same_except(*old(self), *final(self), set![supersig_id])
                    &&& final(self).log() == old(self).log().push(
                        EventV::UsersAdded(supersig_id, added),
                    )
                },
            },
    {
        if who != supersig_id {
            return Err(DispatchError::Module(Error::NotAllowed));
        }
        let s = match self.get_supersig_index_from_id(supersig_id) {
            Ok(s) => s,
            Err(e) => { return Err(DispatchError::Module(e)) },
        };
        let mut added = match self.sigs.get(&s) {
            Some(e) => filter_not_listed(&new_members, &e.supersig.members),
            None => { return Err(DispatchError::Module(Error::SupersigNotFound)) },
        };
        let dep = members_price(added.len() as u128, self.config.price_per_byte);
        let a = self.account_of(supersig_id);
        if a.free < dep {
            return Err(DispatchError::InsufficientBalance);
        }
        self.set_account(
            supersig_id,
            AccountData { free: a.free - dep, reserved: a.reserved + dep, alive: a.alive },
        );
        let event_list = copy_accounts(&added);
        let mut entry = match self.sigs.remove(&s) {
            Some(e) => e,
            None => { return Err(DispatchError::Module(Error::SupersigNotFound)) },
        };
        entry.supersig.members.append(&mut added);
        self.sigs.insert(s, entry);
        let ghost pre_events = self.events@;
        self.events.push(Event::UsersAdded(supersig_id, event_list));
        proof {
            lemma_log_push(pre_events, Event::UsersAdded(supersig_id, event_list));
        }
        Ok(())
    }

    /// The failure `remove_members` reports, if any: only the treasury
    /// itself may remove members, the identity must resolve, and the
    /// removal must not empty the member list.
    pub open spec fn remove_members_outcome(
        self,
        who: AccountId,
        supersig_id: AccountId,
        requested: Seq<AccountId>,
    ) -> Option<DispatchError> {
        if who != supersig_id {
            Some(DispatchError::Module(Error::NotAllowed))
        } else {
            match self.spec_lookup(supersig_id) {
                None => Some(DispatchError::Module(Error::SupersigNotFound)),
                Some(s) => if retained_list(self.members_of(s), requested).len() == 0 {
                    Some(DispatchError::Module(Error::CannotRemoveUsers))
                } else {
                    None
                },
            }
        }
    }

    /// Removes the listed members from a treasury, all or nothing.
    ///
    /// Absent entries are silently ignored; the treasury's deposit for the
    /// members actually removed is unreserved; the emitted event carries
    /// the original requested list.  A removal that would empty the member
    /// list is refused and changes nothing.
    pub fn remove_members(
        &mut self,
        who: AccountId,
        supersig_id: AccountId,
        members_to_remove: Vec<AccountId>,
    ) -> (r: Result<(), DispatchError>)
        requires
            old(self).inv(),
        ensures
            final(self).inv(),
            config_unchanged(*old(self), *final(self)),
            match r {
                Err(e) => old(self).remove_members_outcome(
                    who,
                    supersig_id,
                    members_to_remove@,
                ) == Some(e) && *final(self) == *old(self),
                Ok(()) => old(self).remove_members_outcome(
                    who,
                    supersig_id,
                    members_to_remove@,
                ) is None && {
                    let s = old(self).spec_lookup(supersig_id)->Some_0;
                    let retained = retained_list(old(self).members_of(s), members_to_remove@);
                    let removed_count = old(self).members_of(s).len() - retained.len();
                    let refund = spec_members_price(
                        removed_count as u128,
                        old(self).price_per_byte(),
                    );
                    let released = spec_min(refund, old(self).reserved_of(supersig_id));
                    &&& final(self).is_sig(s)
                    &&& final(self).members_of(s) == retained
                    &&& final(self).next_call_of(s) == old(self).next_call_of(s)
                    &&& calls_unchanged_in(*old(self), *final(self), s)
                    &&& sigs_same_except(*old(self), *final(self), s)
                    &&& final(self).nonce_supersig == old(self).nonce_supersig
                    &&& final(self).free_of(supersig_id) == old(self).free_of(supersig_id)
                        + released
                    &&& final(self).reserved_of(supersig_id) == old(self).reserved_of(
                        supersig_id,
                    ) - released
                    &&& final(self).alive_of(supersig_id) == old(self).alive_of(supersig_id)
                    &&& accounts_same_except(*old(self), *final(self), set![supersig_id])
                    &&& final(self).log() == old(self).log().push(
                        EventV::UsersRemoved(supersig_id, members_to_remove@),
                    )
                },
            },
    {
        if who != supersig_id {
            return Err(DispatchError::Module(Error::NotAllowed));
        }
        let s = match self.get_supersig_index_from_id(supersig_id) {
            Ok(s) => s,
            Err(e) => { return Err(DispatchError::Module(e)) },
        };
        let (retained, old_len) = match self.sigs.get(&s) {
            Some(e) => (
                filter_not_listed(&e.supersig.members, &members_to_remove),
                e.supersig.members.len(),
            ),
            None => { return Err(DispatchError::Module(Error::SupersigNotFound)) },
        };
        if retained.len() == 0 {
            return Err(DispatchError::Module(Error::CannotRemoveUsers));
        }
        let removed_count = old_len - retained.len();
        let refund = members_price(removed_count as u128, self.config.price_per_byte);
        let a = self.account_of(supersig_id);
        let released = if refund <= a.reserved {
            refund
        } else {
            a.reserved
        };
        self.set_account(
            supersig_id,
            AccountData {
                free: a.free + released,
                reserved: a.reserved - released,
                alive: a.alive,
            },
        );
        let mut entry = match self.sigs.remove(&s) {
            Some(e) => e,
            None => { return Err(DispatchError::Module(Error::SupersigNotFound)) },
        };
        entry.supersig.members = retained;
        self.sigs.insert(s, entry);
        let ghost pre_events = self.events@;
        self.events.push(Event::UsersRemoved(supersig_id, members_to_remove));
        proof {
            lemma_log_push(pre_events, Event::UsersRemoved(supersig_id, members_to_remove));
        }
        Ok(())
    }

    /// Purges the call at `(supersig_index, call_index)` together with its
    /// tally and all its vote records, unconditionally: no authorization
    /// check, no deposit release, no event.
    pub fn unchecked_remove_call(&mut self, supersig_index: SigIndex, call_index: CallIndex)
        requires
            old(self).inv(),
        ensures
            final(self).inv(),
            config_unchanged(*old(self), *final(self)),
            if old(self).has_call(supersig_index, call_index) {
                &&& !final(self).has_call(supersig_index, call_index)
                &&& final(self).is_sig(supersig_index)
                &&& final(self).members_of(supersig_index) == old(self).members_of(
                    supersig_index,
                )
                &&& final(self).next_call_of(supersig_index) == old(self).next_call_of(
                    supersig_index,
                )
                &&& calls_same_except(*old(self), *final(self), supersig_index, call_index)
                &&& sigs_same_except(*old(self), *final(self), supersig_index)
                &&& final(self).nonce_supersig == old(self).nonce_supersig
                &&& final(self).accounts == old(self).accounts
                &&& final(self).events == old(self).events
            } else {
                *final(self) == *old(self)
            },
    {
        let present = match self.sigs.get(&supersig_index) {
            Some(e) => e.calls.contains_key(&call_index),
            None => false,
        };
        if !present {
            return ;
        }
        let mut entry = match self.sigs.remove(&supersig_index) {
            Some(e) => e,
            None => { return ; },
        };
        entry.calls.remove(&call_index);
        self.sigs.insert(supersig_index, entry);
    }

    /// The failure `remove_call` reports, if any: the identity must
    /// resolve, the call must exist, and only the treasury itself or the
    /// original proposer may remove it.
    pub open spec fn remove_call_outcome(
        self,
        who: AccountId,
        supersig_id: AccountId,
        call_index: CallIndex,
    ) -> Option<DispatchError> {
        match self.spec_lookup(supersig_id) {
            None => Some(DispatchError::Module(Error::SupersigNotFound)),
            Some(s) => if !self.has_call(s, call_index) {
                Some(DispatchError::Module(Error::CallNotFound))
            } else if who != supersig_id && who != self.call_provider(s, call_index) {
                Some(DispatchError::Module(Error::NotAllowed))
            } else {
                None
            },
        }
    }

    /// Removes a pending call from the poll.
    ///
    /// The call, its tally and all its vote records are purged, and the
    /// proposer's deposit is unreserved — in full whenever that much is
    /// still reserved.
    pub fn remove_call(
        &mut self,
        who: AccountId,
        supersig_id: AccountId,
        call_index: CallIndex,
    ) -> (r: Result<(), DispatchError>)
        requires
            old(self).inv(),
        ensures
            final(self).inv(),
            config_unchanged(*old(self), *final(self)),
            match r {
                Err(e) => old(self).remove_call_outcome(who, supersig_id, call_index)
                    == Some(e) && *final(self) == *old(self),
                Ok(()) => old(self).remove_call_outcome(who, supersig_id, call_index)
                    is None && {
                    let s = old(self).spec_lookup(supersig_id)->Some_0;
                    let p = old(self).call_provider(s, call_index);
                    let dep = old(self).call_deposit(s, call_index);
                    &&& call_executed(*old(self), *final(self), s, call_index)
                    &&& (old(self).reserved_of(p) >= dep ==> final(self).free_of(p) == old(
                        self,
                    ).free_of(p) + dep && final(self).reserved_of(p) == old(self).reserved_of(
                        p,
                    ) - dep)
                    &&& final(self).log() == old(self).log().push(
                        EventV::CallRemoved(supersig_id, call_index),
                    )
                },
            },
    {
        let s = match self.get_supersig_index_from_id(supersig_id) {
            Ok(s) => s,
            Err(e) => { return Err(DispatchError::Module(e)) },
        };
        let (present, provider, deposit) = match self.sigs.get(&s) {
            Some(e) => match e.calls.get(&call_index) {
                Some(ce) => (true, ce.call.provider, ce.call.deposit),
                None => (false, 0, 0),
            },
            None => (false, 0, 0),
        };
        if !present {
            return Err(DispatchError::Module(Error::CallNotFound));
        }
        if who != supersig_id && who != provider {
            return Err(DispatchError::Module(Error::NotAllowed));
        }
        let mut entry = match self.sigs.remove(&s) {
            Some(e) => e,
            None => { return Err(DispatchError::Module(Error::SupersigNotFound)) },
        };
        entry.calls.remove(&call_index);
        self.sigs.insert(s, entry);
        let a = self.account_of(provider);
        let released = if deposit <= a.reserved {
            deposit
        } else {
            a.reserved
        };
        self.set_account(
            provider,
            AccountData {
                free: a.free + released,
                reserved: a.reserved - released,
                alive: a.alive,
            },
        );
        let ghost pre_events = self.events@;
        self.events.push(Event::CallRemoved(supersig_id, call_index));
        proof {
            lemma_log_push(pre_events, Event::CallRemoved(supersig_id, call_index));
        }
        Ok(())
    }

    /// The failure `remove_supersig` reports, if any: only the treasury
    /// itself may remove itself, the identity must resolve, the treasury
    /// must hold no reserved balance beyond its membership deposit, and
    /// the beneficiary must be able to receive the remaining funds.
    pub open spec fn remove_supersig_outcome(
        self,
        who: AccountId,
        supersig_id: AccountId,
        beneficiary: AccountId,
    ) -> Option<DispatchError> {
        if who != supersig_id {
            Some(DispatchError::Module(Error::NotAllowed))
        } else {
            match self.spec_lookup(supersig_id) {
                None => Some(DispatchError::Module(Error::SupersigNotFound)),
                Some(s) => {
                    let expected = spec_members_price(
                        self.members_of(s).len() as u128,
                        self.price_per_byte(),
                    );
                    if self.reserved_of(supersig_id) > expected {
                        Some(DispatchError::Module(Error::CannotDeleteSupersig))
                    } else if beneficiary != supersig_id && self.total_of(beneficiary)
                        + self.total_of(supersig_id) > u128::MAX {
                        Some(DispatchError::Overflow)
                    } else {
                        None
                    }
                },
            }
        }
    }

    /// Removes a treasury: unreserves its membership deposit, purges the
    /// record and every call, tally and vote record under it, clears the
    /// liveness marker, and transfers the entire remaining balance to the
    /// beneficiary.  Refused while the treasury holds reserved balance
    /// beyond its membership deposit.
    pub fn remove_supersig(
        &mut self,
        who: AccountId,
        supersig_id: AccountId,
        beneficiary: AccountId,
    ) -> (r: Result<(), DispatchError>)
        requires
            old(self).inv(),
        ensures
            final(self).inv(),
            config_unchanged(*old(self), *final(self)),
            match r {
                Err(e) => old(self).remove_supersig_outcome(who, supersig_id, beneficiary)
                    == Some(e) && *final(self) == *old(self),
                Ok(()) => old(self).remove_supersig_outcome(who, supersig_id, beneficiary)
                    is None && {
                    let s = old(self).spec_lookup(supersig_id)->Some_0;
                    let bal = old(self).total_of(supersig_id);
                    &&& !final(self).is_sig(s)
                    &&& forall|c: CallIndex| !final(self).has_call(s, c)
                    &&& final(self).next_call_of(s) == 0
                    &&& sigs_same_except(*old(self), *final(self), s)
                    &&& final(self).nonce_supersig == old(self).nonce_supersig
                    &&& final(self).reserved_of(supersig_id) == 0
                    &&& !final(self).alive_of(supersig_id)
                    &&& (beneficiary != supersig_id ==> final(self).free_of(supersig_id) == 0
                        && final(self).free_of(beneficiary) == old(self).free_of(beneficiary)
                        + bal && final(self).reserved_of(beneficiary) == old(self).reserved_of(
                        beneficiary,
                    ) && final(self).alive_of(beneficiary) == old(self).alive_of(beneficiary))
                    &&& (beneficiary == supersig_id ==> final(self).free_of(supersig_id)
                        == bal)
                    &&& accounts_same_except(
                        *old(self),
                        *final(self),
                        set![supersig_id, beneficiary],
                    )
                    &&& final(self).log() == old(self).log().push(
                        EventV::SupersigRemoved(supersig_id),
                    )
                },
            },
    {
        if who != supersig_id {
            return Err(DispatchError::Module(Error::NotAllowed));
        }
        let s = match self.get_supersig_index_from_id(supersig_id) {
            Ok(s) => s,
            Err(e) => { return Err(DispatchError::Module(e)) },
        };
        let expected = match self.sigs.get(&s) {
            Some(e) => members_price(
                e.supersig.members.len() as u128,
                self.config.price_per_byte,
            ),
            None => { return Err(DispatchError::Module(Error::SupersigNotFound)) },
        };
        let t = self.account_of(supersig_id);
        if t.reserved > expected {
            return Err(DispatchError::Module(Error::CannotDeleteSupersig));
        }
        let bal = t.free + t.reserved;
        if beneficiary != supersig_id {
            let b = self.account_of(beneficiary);
            if u128::MAX - b.free - b.reserved < bal {
                return Err(DispatchError::Overflow);
            }
            self.set_account(supersig_id, AccountData { free: 0, reserved: 0, alive: false });
            self.set_account(
                beneficiary,
                AccountData { free: b.free + bal, reserved: b.reserved, alive: b.alive },
            );
        } else {
            self.set_account(
                supersig_id,
                AccountData { free: bal, reserved: 0, alive: false },
            );
        }
        self.sigs.remove(&s);
        let ghost pre_events = self.events@;
        self.events.push(Event::SupersigRemoved(supersig_id));
        proof {
            lemma_log_push(pre_events, Event::SupersigRemoved(supersig_id));
        }
        Ok(())
    }

    /// The failure `approve_call` reports, if any: the identity must
    /// resolve, the voter must be a member, the call must exist, and the
    /// voter must not already hold a true vote record for it.
    pub open spec fn approve_outcome(
        self,
        who: AccountId,
        supersig_id: AccountId,
        call_index: CallIndex,
    ) -> Option<DispatchError> {
        match self.spec_lookup(supersig_id) {
            None => Some(DispatchError::Module(Error::SupersigNotFound)),
            Some(s) => if !self.members_of(s).contains(who) {
                Some(DispatchError::Module(Error::NotMember))
            } else if !self.has_call(s, call_index) {
                Some(DispatchError::Module(Error::CallNotFound))
            } else if self.voted(s, call_index, who) {
                Some(DispatchError::Module(Error::AlreadyVoted))
            } else {
                None
            },
        }
    }

    /// Adds a positive, unique vote to a pending call; on reaching the
    /// majority threshold, executes and purges it.
    ///
    /// The vote record is set and the tally incremented; the threshold
    /// `members / 2 + 1` is then evaluated against the current member
    /// count.  At or above it, the stored payload goes to the host, and the
    /// host's answer — `spec_dispatch` of the dispatcher's state before the
    /// call — selects the branch: on `None` (the payload does not decode)
    /// the proposal simply stays, votes recorded; on `Some(res)` the
    /// proposer's deposit is unreserved and the call is purged with its
    /// tally and vote records, whatever `res` says of the dispatch, and the
    /// executed event reports exactly `res`.
    #[verifier::rlimit(60)]
    pub fn approve_call<D: CallDispatcher>(
        &mut self,
        who: AccountId,
        supersig_id: AccountId,
        call_index: CallIndex,
        dispatcher: &mut D,
    ) -> (r: Result<(), DispatchError>)
        requires
            old(self).inv(),
        ensures
            final(self).inv(),
            config_unchanged(*old(self), *final(self)),
            match r {
                Err(e) => old(self).approve_outcome(who, supersig_id, call_index) == Some(e)
                    && *final(self) == *old(self),
                Ok(()) => old(self).approve_outcome(who, supersig_id, call_index) is None && {
                    let s = old(self).spec_lookup(supersig_id)->Some_0;
                    let c = call_index;
                    let thr = Pallet::spec_threshold(old(self).members_of(s).len() as int);
                    let answer = old(dispatcher).spec_dispatch(
                        old(self).call_data(s, c),
                        supersig_id,
                    );
                    let still_open = vote_recorded(*old(self), *final(self), s, c, who);
                    let voted_log = old(self).log().push(EventV::CallVoted(supersig_id, c, who));
                    &&& (old(self).tally_of(s, c) + 1 < thr ==> still_open && final(self).log()
                        == voted_log)
                    &&& (old(self).tally_of(s, c) + 1 >= thr ==> match answer {
                        None => still_open && final(self).log() == voted_log,
                        Some(res) => call_executed(*old(self), *final(self), s, c)
                            && final(self).log() == voted_log.push(
                            EventV::CallExecuted(supersig_id, c, res),
                        ),
                    })
                },
            },
    {
        let s = match self.get_supersig_index_from_id(supersig_id) {
            Ok(s) => s,
            Err(e) => { return Err(DispatchError::Module(e)) },
        };
        if !self.is_user_in_supersig(s, who) {
            return Err(DispatchError::Module(Error::NotMember));
        }
        let (present, already) = match self.sigs.get(&s) {
            Some(e) => match e.calls.get(&call_index) {
                Some(ce) => (true, vec_contains(&ce.voters, who)),
                None => (false, false),
            },
            None => (false, false),
        };
        if !present {
            return Err(DispatchError::Module(Error::CallNotFound));
        }
        if already {
            return Err(DispatchError::Module(Error::AlreadyVoted));
        }
        let mut entry = match self.sigs.remove(&s) {
            Some(e) => e,
            None => { return Err(DispatchError::Module(Error::SupersigNotFound)) },
        };
        let mut ce = match entry.calls.remove(&call_index) {
            Some(ce) => ce,
            None => {
                self.sigs.insert(s, entry);
                return Err(DispatchError::Module(Error::CallNotFound));
            },
        };
        let n_voters = ce.voters.len();
        proof {
            assert(ce.voters@.push(who).no_duplicates());
        }
        ce.voters.push(who);
        ce.tally = ce.tally + 1;
        let total_votes = ce.tally;
        let members_len = entry.supersig.members.len();
        let threshold: u128 = members_len as u128 / 2 + 1;
        if total_votes >= threshold {
            match dispatcher.dispatch_call(&ce.call.data, supersig_id) {
                Some(res) => {
                    let provider = ce.call.provider;
                    let deposit = ce.call.deposit;
                    self.sigs.insert(s, entry);
                    let a = self.account_of(provider);
                    let released = if deposit <= a.reserved {
                        deposit
                    } else {
                        a.reserved
                    };
                    self.set_account(
                        provider,
                        AccountData {
                            free: a.free + released,
                            reserved: a.reserved - released,
                            alive: a.alive,
                        },
                    );
                    let ghost ev1 = self.events@;
                    self.events.push(Event::CallVoted(supersig_id, call_index, who));
                    let ghost ev2 = self.events@;
                    self.events.push(Event::CallExecuted(supersig_id, call_index, res));
                    proof {
                        lemma_log_push(ev1, Event::CallVoted(supersig_id, call_index, who));
                        lemma_log_push(
                            ev2,
                            Event::CallExecuted(supersig_id, call_index, res),
                        );
                        assert(call_executed(*old(self), *self, s, call_index));
                        assert(self.log() == old(self).log().push(
                            EventV::CallVoted(supersig_id, call_index, who),
                        ).push(EventV::CallExecuted(supersig_id, call_index, res)));
                    }
                    Ok(())
                },
                None => {
                    entry.calls.insert(call_index, ce);
                    self.sigs.insert(s, entry);
                    let ghost ev1 = self.events@;
                    self.events.push(Event::CallVoted(supersig_id, call_index, who));
                    proof {
                        lemma_log_push(ev1, Event::CallVoted(supersig_id, call_index, who));
                        assert(vote_recorded(*old(self), *self, s, call_index, who));
                        assert(self.log() == old(self).log().push(
                            EventV::CallVoted(supersig_id, call_index, who),
                        ));
                    }
                    Ok(())
                },
            }
        } else {
            entry.calls.insert(call_index, ce);
            self.sigs.insert(s, entry);
            let ghost ev1 = self.events@;
            self.events.push(Event::CallVoted(supersig_id, call_index, who));
            proof {
                lemma_log_push(ev1, Event::CallVoted(supersig_id, call_index, who));
                assert(vote_recorded(*old(self), *self, s, call_index, who));
                assert(self.log() == old(self).log().push(
                    EventV::CallVoted(supersig_id, call_index, who),
                ));
            }
            Ok(())
        }
    }

    /// The failure `leave_supersig` reports, if any: the identity must
    /// resolve, the caller must be a member, and the caller's departure
    /// must not leave the treasury without members.
    pub open spec fn leave_outcome(self, who: AccountId, supersig_id: AccountId) -> Option<
        DispatchError,
    > {
        match self.spec_lookup(supersig_id) {
            None => Some(DispatchError::Module(Error::SupersigNotFound)),
            Some(s) => if !self.members_of(s).contains(who) {
                Some(DispatchError::Module(Error::NotMember))
            } else if remaining_list(self.members_of(s), who).len() == 0 {
                Some(DispatchError::Module(Error::CannotRemoveUsers))
            } else {
                None
            },
        }
    }

    /// Removes the caller from the treasury's member list.
    ///
    /// Every occurrence of the caller leaves the list; the departure is
    /// refused when it would empty the treasury.  No deposit is released.
    pub fn leave_supersig(&mut self, who: AccountId, supersig_id: AccountId) -> (r: Result<
        (),
        DispatchError,
    >)
        requires
            old(self).inv(),
        ensures
            final(self).inv(),
            config_unchanged(*old(self), *final(self)),
            match r {
                Err(e) => old(self).leave_outcome(who, supersig_id) == Some(e) && *final(self)
                    == *old(self),
                Ok(()) => old(self).leave_outcome(who, supersig_id) is None && {
                    let s = old(self).spec_lookup(supersig_id)->Some_0;
                    &&& final(self).is_sig(s)
                    &&& final(self).members_of(s) == remaining_list(
                        old(self).members_of(s),
                        who,
                    )
                    &&& final(self).next_call_of(s) == old(self).next_call_of(s)
                    &&& calls_unchanged_in(*old(self), *final(self), s)
                    &&& sigs_same_except(*old(self), *final(self), s)
                    &&& final(self).nonce_supersig == old(self).nonce_supersig
                    &&& accounts_unchanged(*old(self), *final(self))
                    &&& final(self).log() == old(self).log().push(
                        EventV::SupersigLeaved(supersig_id, who),
                    )
                },
            },
    {
        let s = match self.get_supersig_index_from_id(supersig_id) {
            Ok(s) => s,
            Err(e) => { return Err(DispatchError::Module(e)) },
        };
        if !self.is_user_in_supersig(s, who) {
            return Err(DispatchError::Module(Error::NotMember));
        }
        let remaining = match self.sigs.get(&s) {
            Some(e) => filter_without(&e.supersig.members, who),
            None => { return Err(DispatchError::Module(Error::SupersigNotFound)) },
        };
        if remaining.len() == 0 {
            return Err(DispatchError::Module(Error::CannotRemoveUsers));
        }
        let entry = match self.sigs.remove(&s) {
            Some(e) => e,
            None => { return Err(DispatchError::Module(Error::SupersigNotFound)) },
        };
        let new_entry = SigEntry { supersig: Supersig { members: remaining }, ..entry };
        self.sigs.insert(s, new_entry);
        let ghost pre_events = self.events@;
        self.events.push(Event::SupersigLeaved(supersig_id, who));
        proof {
            lemma_log_push(pre_events, Event::SupersigLeaved(supersig_id, who));
        }
        Ok(())
    }
}

} // verus!
