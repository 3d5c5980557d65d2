//! A verified take ledger: the decrease-only mutation of the "take" rate a
//! delegate (identified by a hotkey) charges on stake delegated to it.
//!
//! The ledger stores at most one take value per hotkey and enforces two
//! invariants on the decrease path: a new take must be strictly lower than
//! any existing value, and no take may fall below the configured global
//! minimum. Authorization of the caller (coldkey controls hotkey, hotkey
//! registered) is performed by an external collaborator; its outcome is
//! handed to the mutation, which orders it before the take checks. The
//! success notification is returned as a value rather than emitted into an
//! ambient event sink.

mod laws;
mod ledger;

pub use laws::{
    lemma_authorization_precedence, lemma_floor_invariant, lemma_idempotent_rejection,
    lemma_monotonic_decrease, lemma_rejection_unchanged, lemma_take_check_precedes_floor,
};
pub use ledger::{
    decrease_outcome, decrease_post, AuthOutcome, TakeDecreased, TakeError, TakeLedger,
    TAKE_DENOMINATOR,
};
