use std::collections::HashMap;
use vstd::prelude::*;

verus! {

broadcast use vstd::std_specs::hash::group_hash_axioms;

/// The fixed denominator of every take value: a stored numerator `t` stands
/// for the fraction `t / TAKE_DENOMINATOR` of delegated-stake rewards.
pub const TAKE_DENOMINATOR: u16 = 65535;

/// Outcome of the external authorization check for a `(coldkey, hotkey)`
/// pair. The check itself (signature verification, registration lookup,
/// ownership lookup) lives outside this component; the ledger only orders
/// its verdict ahead of the take checks.
#[derive(Clone, Copy, Debug, PartialEq, Eq, Structural)]
pub enum AuthOutcome {
    /// The hotkey is registered and the calling coldkey controls it.
    Authorized,
    /// The hotkey is not a registered delegate.
    HotkeyNotRegistered,
    /// The hotkey is registered but not controlled by the calling coldkey.
    CallerNotOwner,
}

/// Why a decrease request was rejected.
#[derive(Clone, Copy, Debug, PartialEq, Eq, Structural)]
pub enum TakeError {
    /// The target hotkey is not a registered delegate.
    NotRegistered,
    /// The calling coldkey does not control the target hotkey.
    UnauthorizedCaller,
    /// A record exists and the requested take is not strictly lower than it.
    TakeNotDecreasing,
    /// The requested take is below the global minimum.
    TakeBelowMinimum,
}

/// The notification a successful decrease hands back to the caller, in
/// place of an ambient event emission, for observers to consume.
#[derive(Clone, Copy, Debug, PartialEq, Eq, Structural)]
pub struct TakeDecreased {
    /// The coldkey that requested the decrease.
    pub coldkey: u64,
    /// The hotkey whose take was decreased.
    pub hotkey: u64,
    /// The take value now stored for the hotkey.
    pub take: u16,
}

/// The exact result of a decrease request against a given ledger state:
/// authorization failures come first, then the strict-decrease check
/// (only when a record exists), then the floor check.
pub open spec fn decrease_outcome(
    delegates: Map<u64, u16>,
    min_take: u16,
    auth: AuthOutcome,
    hotkey: u64,
    take: u16,
) -> Result<(), TakeError> {
    if auth is HotkeyNotRegistered {
        Err(TakeError::NotRegistered)
    } else if auth is CallerNotOwner {
        Err(TakeError::UnauthorizedCaller)
    } else if delegates.contains_key(hotkey) && take >= delegates[hotkey] {
        Err(TakeError::TakeNotDecreasing)
    } else if take < min_take {
        Err(TakeError::TakeBelowMinimum)
    } else {
        Ok(())
    }
}

/// The delegate records after a decrease request: the requested take is
/// written over any prior record exactly when the request succeeds; a
/// rejected request leaves every record unchanged.
pub open spec fn decrease_post(
    delegates: Map<u64, u16>,
    min_take: u16,
    auth: AuthOutcome,
    hotkey: u64,
    take: u16,
) -> Map<u64, u16> {
    if decrease_outcome(delegates, min_take, auth, hotkey, take) is Ok {
        delegates.insert(hotkey, take)
    } else {
        delegates
    }
}

/// The take storage together with the global minimum-take parameter. The
/// view of a ledger is its map from hotkey to stored take; a hotkey absent
/// from the map has no explicit take set, which is distinct from a take
/// of zero.
///
/// Callers must serialize invocations per hotkey themselves: the ledger
/// performs no locking of its own.
pub struct TakeLedger {
    delegates: HashMap<u64, u16>,
    min_take: u16,
}

impl View for TakeLedger {
    type V = Map<u64, u16>;

    closed spec fn view(&self) -> Map<u64, u16> {
        self.delegates@
    }
}

impl TakeLedger {
    /// The global floor below which no delegate's take may fall.
    pub closed spec fn spec_min_take(&self) -> u16 {
        self.min_take
    }

    /// A ledger with no delegate records and the given global minimum.
    pub fn new(min_take: u16) -> (ledger: TakeLedger)
        ensures
            ledger@ == Map::<u64, u16>::empty(),
            ledger.spec_min_take() == min_take,
    {
        TakeLedger { delegates: HashMap::new(), min_take }
    }

    /// Reads the global minimum-take parameter.
    #[verifier::when_used_as_spec(spec_min_take)]
    pub fn min_take(&self) -> (m: u16)
        ensures
            m == self.spec_min_take(),
    {
        self.min_take
    }

    /// Reads the take currently stored for `hotkey`, or `None` when the
    /// hotkey has no record.
    pub fn get_take(&self, hotkey: u64) -> (r: Option<u16>)
        ensures
            r == if self@.contains_key(hotkey) {
                Some(self@[hotkey])
            } else {
                None::<u16>
            },
    {
        match self.delegates.get(&hotkey) {
            Some(current) => Some(*current),
            None => None,
        }
    }

    /// Writes `take` for `hotkey` unconditionally, overwriting any prior
    /// record. This is the raw storage write that external take-setting
    /// paths (initial registration, the increase path) use to create or
    /// replace a record; it applies none of the decrease-path checks.
    pub fn set_take(&mut self, hotkey: u64, take: u16)
        ensures
            final(self)@ == old(self)@.insert(hotkey, take),
            final(self).spec_min_take() == old(self).spec_min_take(),
    {
        self.delegates.insert(hotkey, take);
    }

    /// The decrease-path mutation. `auth` is the external authorization
    /// check's verdict for `(coldkey, hotkey)`; it is examined before any
    /// take check. When a record exists, the requested take must be
    /// strictly lower than it; in every case the requested take must be at
    /// least the global minimum. All checks are read-only: the single
    /// write happens only once every check has passed, and a successful
    /// call returns the notification for observers in place of emitting an
    /// event.
    pub fn do_decrease_take(
        &mut self,
        auth: AuthOutcome,
        coldkey: u64,
        hotkey: u64,
        take: u16,
    ) -> (r: Result<TakeDecreased, TakeError>)
        ensures
            final(self).spec_min_take() == old(self).spec_min_take(),
            final(self)@ == decrease_post(old(self)@, old(self).spec_min_take(), auth, hotkey, take),
            (match r {
                Ok(event) => decrease_outcome(old(self)@, old(self).spec_min_take(), auth, hotkey, take) is Ok
                    && event == (TakeDecreased { coldkey, hotkey, take }),
                Err(e) => decrease_outcome(old(self)@, old(self).spec_min_take(), auth, hotkey, take)
                    == Err::<(), TakeError>(e),
            }),
    {
        match auth {
            AuthOutcome::HotkeyNotRegistered => {
                return Err(TakeError::NotRegistered);
            },
            AuthOutcome::CallerNotOwner => {
                return Err(TakeError::UnauthorizedCaller);
            },
            AuthOutcome::Authorized => {},
        }

        if let Some(current) = self.delegates.get(&hotkey) {
            if take >= *current {
                return Err(TakeError::TakeNotDecreasing);
            }
        }

        if take < self.min_take {
            return Err(TakeError::TakeBelowMinimum);
        }

        self.delegates.insert(hotkey, take);
        Ok(TakeDecreased { coldkey, hotkey, take })
    }
}

} // verus!
