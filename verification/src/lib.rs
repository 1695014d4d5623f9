//! A multi-party treasury ("supersig"): a collective account whose funds and
//! whose permission to issue ledger calls are jointly controlled by a set of
//! member accounts through majority voting.
//!
//! The whole state-transition logic is verified: treasury lifecycle,
//! membership management, proposal submission, voting and threshold
//! execution, and the deposit accounting that ties reserved balances to the
//! size of the stored data.  The host ledger's currency book-keeping is part
//! of the model (plain balances per account); only the decoding and dispatch
//! of a proposal's raw payload is delegated to the host through the
//! [`types::CallDispatcher`] trait.

pub mod arith;
pub mod ids;
pub mod types;
pub mod state;
pub mod ops;
pub mod laws;

pub use types::{AccountId, Balance, CallIndex, SigIndex};
pub use types::{CallDispatcher, Config, DispatchError, Error, Event, NoopDispatcher};
pub use types::{PreimageCall, Supersig};
pub use state::Pallet;
