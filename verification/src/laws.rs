use crate::ledger::{decrease_outcome, decrease_post, AuthOutcome, TakeError};
use vstd::prelude::*;

verus! {

/// Floor invariant: a successful decrease stores exactly the requested
/// take, which is at least the global minimum; and a ledger in which every
/// record already meets the floor still meets it afterwards.
pub proof fn lemma_floor_invariant(
    delegates: Map<u64, u16>,
    min_take: u16,
    auth: AuthOutcome,
    hotkey: u64,
    take: u16,
)
    requires
        decrease_outcome(delegates, min_take, auth, hotkey, take) is Ok,
    ensures
        decrease_post(delegates, min_take, auth, hotkey, take).contains_key(hotkey),
        decrease_post(delegates, min_take, auth, hotkey, take)[hotkey] == take,
        take >= min_take,
        (forall|h: u64| #[trigger] delegates.contains_key(h) ==> delegates[h] >= min_take)
            ==> (forall|h: u64|
                #[trigger] decrease_post(delegates, min_take, auth, hotkey, take).contains_key(h)
                ==> decrease_post(delegates, min_take, auth, hotkey, take)[h] >= min_take),
{
}

/// Monotonic decrease: when a record existed before a successful decrease,
/// the stored take strictly shrank.
pub proof fn lemma_monotonic_decrease(
    delegates: Map<u64, u16>,
    min_take: u16,
    auth: AuthOutcome,
    hotkey: u64,
    take: u16,
)
    requires
        delegates.contains_key(hotkey),
        decrease_outcome(delegates, min_take, auth, hotkey, take) is Ok,
    ensures
        decrease_post(delegates, min_take, auth, hotkey, take)[hotkey] < delegates[hotkey],
{
}

/// No partial effect on failure: a rejected request leaves every delegate
/// record exactly as it was. (That no notification accompanies a rejection
/// is part of the mutation's own contract: the notification value exists
/// only in its success result.)
pub proof fn lemma_rejection_unchanged(
    delegates: Map<u64, u16>,
    min_take: u16,
    auth: AuthOutcome,
    hotkey: u64,
    take: u16,
)
    requires
        decrease_outcome(delegates, min_take, auth, hotkey, take) is Err,
    ensures
        decrease_post(delegates, min_take, auth, hotkey, take) == delegates,
{
}

/// Idempotent rejection: repeating an identical failing request against
/// the state the failed request left behind yields the identical error.
pub proof fn lemma_idempotent_rejection(
    delegates: Map<u64, u16>,
    min_take: u16,
    auth: AuthOutcome,
    hotkey: u64,
    take: u16,
)
    requires
        decrease_outcome(delegates, min_take, auth, hotkey, take) is Err,
    ensures
        decrease_outcome(
            decrease_post(delegates, min_take, auth, hotkey, take),
            min_take,
            auth,
            hotkey,
            take,
        ) == decrease_outcome(delegates, min_take, auth, hotkey, take),
{
}

/// Authorization precedence: a failed authorization is what the request
/// reports, whatever the requested take and whatever is stored — the take
/// checks are never reached.
pub proof fn lemma_authorization_precedence(
    delegates: Map<u64, u16>,
    min_take: u16,
    auth: AuthOutcome,
    hotkey: u64,
    take: u16,
)
    requires
        !(auth is Authorized),
    ensures
        auth is HotkeyNotRegistered ==> decrease_outcome(delegates, min_take, auth, hotkey, take)
            == Err::<(), TakeError>(TakeError::NotRegistered),
        auth is CallerNotOwner ==> decrease_outcome(delegates, min_take, auth, hotkey, take)
            == Err::<(), TakeError>(TakeError::UnauthorizedCaller),
{
}

/// The strict-decrease check precedes the floor check: when an authorized
/// request fails to decrease an existing record, that is the error
/// reported, even if the requested take is also below the minimum.
pub proof fn lemma_take_check_precedes_floor(
    delegates: Map<u64, u16>,
    min_take: u16,
    hotkey: u64,
    take: u16,
)
    requires
        delegates.contains_key(hotkey),
        take >= delegates[hotkey],
    ensures
        decrease_outcome(delegates, min_take, AuthOutcome::Authorized, hotkey, take)
            == Err::<(), TakeError>(TakeError::TakeNotDecreasing),
{
}

} // verus!
