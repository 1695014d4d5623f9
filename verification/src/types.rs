//! Core data types: indices, errors, events, and the records stored for a
//! treasury and for a pending call.

use vstd::prelude::*;

verus! {

/// An account on the ledger, member accounts and treasury accounts alike.
pub type AccountId = u128;

/// An amount of currency.
pub type Balance = u128;

/// The global index of a treasury.
pub type SigIndex = u128;

/// The per-treasury index of a pending call.
pub type CallIndex = u128;

/// Configuration fixed at genesis.
#[derive(Clone, Copy, Debug)]
pub struct Config {
    /// Deposit charged per byte of stored data.
    pub price_per_byte: Balance,
    /// Minimum amount an account must hold to exist on the ledger.
    pub minimum_balance: Balance,
}

/// The failures the treasury operations themselves detect.
#[derive(Clone, Copy, Debug, PartialEq, Eq, Structural)]
pub enum Error {
    /// A treasury was requested with an empty member list.
    InvalidSupersig,
    /// The account does not resolve to a live treasury.
    SupersigNotFound,
    /// No pending call exists at the given index.
    CallNotFound,
    /// The caller is not a current member of the treasury.
    NotMember,
    /// The caller already holds a vote record for this call.
    AlreadyVoted,
    /// The caller lacks authorization for a privileged action.
    NotAllowed,
    /// The treasury holds reserved balance beyond its membership deposit.
    CannotDeleteSupersig,
    /// The requested removal would leave the treasury without members.
    CannotRemoveUsers,
}

/// Everything an operation can return on failure: one of the treasury's own
/// errors, or a failure of the modelled currency primitive.
#[derive(Clone, Copy, Debug, PartialEq, Eq, Structural)]
pub enum DispatchError {
    /// A failure detected by the treasury logic itself.
    Module(Error),
    /// A balance transfer or reservation found too little free balance.
    InsufficientBalance,
    /// A balance movement would push an account past the largest
    /// representable balance.
    Overflow,
}

/// One entry of the append-only event log.
#[derive(Clone, Debug, PartialEq, Eq)]
pub enum Event {
    /// A treasury has been created: (treasury).
    SupersigCreated(AccountId),
    /// A call has been submitted: (treasury, call index, submitter).
    CallSubmitted(AccountId, CallIndex, AccountId),
    /// A call has received a vote: (treasury, call index, voter).
    CallVoted(AccountId, CallIndex, AccountId),
    /// A call has been executed: (treasury, call index, dispatch outcome).
    CallExecuted(AccountId, CallIndex, bool),
    /// A call has been removed from the poll: (treasury, call index).
    CallRemoved(AccountId, CallIndex),
    /// Members added to a treasury, already-present ones filtered out:
    /// (treasury, added members).
    UsersAdded(AccountId, Vec<AccountId>),
    /// Members removed from a treasury, reported as requested:
    /// (treasury, requested removals).
    UsersRemoved(AccountId, Vec<AccountId>),
    /// A treasury has been removed: (treasury).
    SupersigRemoved(AccountId),
    /// A member left a treasury: (treasury, member).
    SupersigLeaved(AccountId, AccountId),
}

/// The mathematical value of one event log entry.
pub enum EventV {
    SupersigCreated(AccountId),
    CallSubmitted(AccountId, CallIndex, AccountId),
    CallVoted(AccountId, CallIndex, AccountId),
    CallExecuted(AccountId, CallIndex, bool),
    CallRemoved(AccountId, CallIndex),
    UsersAdded(AccountId, Seq<AccountId>),
    UsersRemoved(AccountId, Seq<AccountId>),
    SupersigRemoved(AccountId),
    SupersigLeaved(AccountId, AccountId),
}

/// The mathematical value of an event.
pub open spec fn ev_view(e: Event) -> EventV {
    match e {
        Event::SupersigCreated(t) => EventV::SupersigCreated(t),
        Event::CallSubmitted(t, c, s) => EventV::CallSubmitted(t, c, s),
        Event::CallVoted(t, c, v) => EventV::CallVoted(t, c, v),
        Event::CallExecuted(t, c, o) => EventV::CallExecuted(t, c, o),
        Event::CallRemoved(t, c) => EventV::CallRemoved(t, c),
        Event::UsersAdded(t, l) => EventV::UsersAdded(t, l@),
        Event::UsersRemoved(t, l) => EventV::UsersRemoved(t, l@),
        Event::SupersigRemoved(t) => EventV::SupersigRemoved(t),
        Event::SupersigLeaved(t, m) => EventV::SupersigLeaved(t, m),
    }
}

/// The member list of one treasury.
#[derive(Debug)]
pub struct Supersig {
    /// Current members; never empty, duplicates permitted.
    pub members: Vec<AccountId>,
}

impl Supersig {
    /// A treasury record over `members`; rejected when the list is empty.
    pub fn new(members: Vec<AccountId>) -> (r: Option<Supersig>)
        ensures
            match r {
                Some(s) => members@.len() > 0 && s.members@ == members@,
                None => members@.len() == 0,
            },
    {
        if members.len() == 0 {
            None
        } else {
            Some(Supersig { members })
        }
    }
}

/// A pending call: the raw payload, who proposed it, and the deposit that
/// was reserved from the proposer when it was stored.
#[derive(Debug)]
pub struct PreimageCall {
    /// The encoded call, kept as raw bytes until execution.
    pub data: Vec<u8>,
    /// The member that submitted the call.
    pub provider: AccountId,
    /// The amount reserved from the provider for storing the payload.
    pub deposit: Balance,
}

/// The host's call-decoding and dispatch primitive.
///
/// When a proposal reaches its threshold the engine hands the stored payload
/// to the host.  `None` means the payload did not decode into an executable
/// call; `Some(outcome)` means the call was dispatched under `origin` and
/// reports whether it succeeded.  The answer is specified by
/// [`CallDispatcher::spec_dispatch`], a function of the host's state before
/// the call, so the voting engine's contract can say which branch — still
/// open, or executed with exactly that outcome — the operation takes.  A
/// host whose outcome depends on the outside world models that dependence
/// in its own state.
pub trait CallDispatcher {
    /// The answer this host gives for `data` dispatched under `origin`, as
    /// a function of the host's state before the call.  A host that
    /// decodes nothing may keep the default; every other host says here
    /// what it answers, and its `dispatch_call` is held to it.
    open spec fn spec_dispatch(&self, data: Seq<u8>, origin: AccountId) -> Option<bool> {
        None
    }

    /// Try to decode `data` and, on success, dispatch it with `origin` as
    /// the signed caller.
    fn dispatch_call(&mut self, data: &Vec<u8>, origin: AccountId) -> (r: Option<bool>)
        ensures
            r == old(self).spec_dispatch(data@, origin),
    ;
}

/// A host with no executable calls: every payload fails to decode.
pub struct NoopDispatcher;

impl CallDispatcher for NoopDispatcher {
    /// No payload ever decodes.
    open spec fn spec_dispatch(&self, data: Seq<u8>, origin: AccountId) -> Option<bool> {
        None
    }

    fn dispatch_call(&mut self, _data: &Vec<u8>, _origin: AccountId) -> (r: Option<bool>) {
        None
    }
}

} // verus!
