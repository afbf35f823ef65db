//! The single-campaign escrow: one record per deployment, a deadline, and a
//! deadline/target-gated release of the collected funds.

use vstd::prelude::*;

use crate::amounts::{
    lemma_permutation_keeps_positivity, lemma_sum_of_permutation, lemma_sum_of_positives_nonneg,
    sum_of,
};
use crate::types::{Error, Identity, Party, Transfer};

verus! {

/// The escrow record persisted at initialization and credited by donations.
#[derive(Clone, Copy, PartialEq, Eq, Structural, Debug)]
pub struct EscrowRecord {
    /// The only identity allowed to trigger the release.
    pub recipient: Identity,
    /// The token whose balances the fund-transfer service moves.
    pub asset: Identity,
    /// Donations are accepted while `now <= deadline`; withdrawal only once
    /// `now >= deadline`.
    pub deadline: u64,
    /// Funding goal; always positive.
    pub target: i128,
    /// Total credited so far; never negative, only ever grows.
    pub raised: i128,
}

/// The single-campaign escrow contract: its persisted state (one optional
/// record), and its entry points as atomic steps on that state.
///
/// The host supplies `auth_ok` (the authorization oracle's verdict), `now`
/// (the ledger timestamp) and, for withdrawal, the contract's live balance
/// of the configured asset. A successful donation or withdrawal returns the
/// [`Transfer`] the host must perform; the host commits the new state only
/// together with that transfer, so a failed transfer leaves no partial
/// credit.
#[derive(Clone, Copy, Debug)]
pub struct EscrowContract {
    pub record: Option<EscrowRecord>,
}

impl EscrowContract {
    /// Invariant of every reachable escrow state.
    pub open spec fn wf(self) -> bool {
        self.record matches Some(rec) ==> rec.target > 0 && rec.raised >= 0
    }

    /// Outcome of `initialize`: persists the record exactly once, with a
    /// zeroed total. The stored guard decides before anything else, so a
    /// second call fails with `AlreadyInitialized` whatever its arguments.
    pub open spec fn spec_initialize(
        self,
        recipient: Identity,
        asset: Identity,
        deadline: u64,
        target: i128,
    ) -> (Self, Result<(), Error>) {
        if self.record is Some {
            (self, Err(Error::AlreadyInitialized))
        } else if target <= 0 {
            (self, Err(Error::InvalidAmount))
        } else {
            (
                EscrowContract {
                    record: Some(
                        EscrowRecord { recipient, asset, deadline, target, raised: 0 },
                    ),
                },
                Ok(()),
            )
        }
    }

    /// Outcome of `donate`: on success, the total grows by `amount` and the
    /// host owes the transfer of `amount` from the donor into the contract's
    /// custody; every failure leaves the state unchanged.
    pub open spec fn spec_donate(
        self,
        donor: Identity,
        amount: i128,
        now: u64,
        auth_ok: bool,
    ) -> (Self, Result<Transfer, Error>) {
        if !auth_ok {
            (self, Err(Error::Unauthorized))
        } else if amount <= 0 {
            (self, Err(Error::InvalidAmount))
        } else if self.record is None {
            (self, Err(Error::NotFound))
        } else {
            let rec = self.record->Some_0;
            if now > rec.deadline {
                (self, Err(Error::CampaignExpired))
            } else if rec.raised + amount > i128::MAX {
                (self, Err(Error::ArithmeticOverflow))
            } else {
                (
                    EscrowContract {
                        record: Some(
                            EscrowRecord { raised: (rec.raised + amount) as i128, ..rec },
                        ),
                    },
                    Ok(
                        Transfer {
                            from: Party::Account(donor),
                            to: Party::Contract,
                            asset: rec.asset,
                            amount,
                        },
                    ),
                )
            }
        }
    }

    /// Outcome of `withdraw`: never changes the stored record. Release is
    /// owed exactly when the recipient is confirmed, the deadline has passed
    /// and the target is met; it then moves the contract's entire live
    /// balance — not the bookkeeping total — to the recipient. Nothing marks
    /// the record released: a repeat withdrawal is a transfer of the balance
    /// that is left, which is zero after a successful release.
    pub open spec fn spec_withdraw(self, auth_ok: bool, now: u64, contract_balance: i128) -> Result<
        Transfer,
        Error,
    > {
        match self.record {
            None => Err(Error::NotFound),
            Some(rec) => {
                if !auth_ok {
                    Err(Error::Unauthorized)
                } else if now < rec.deadline {
                    Err(Error::DeadlineNotReached)
                } else if rec.raised < rec.target {
                    Err(Error::TargetNotMet)
                } else {
                    Ok(
                        Transfer {
                            from: Party::Contract,
                            to: Party::Account(rec.recipient),
                            asset: rec.asset,
                            amount: contract_balance,
                        },
                    )
                }
            },
        }
    }

    /// What `get_campaign_info` reports: the stored figures, or all zeroes
    /// while no escrow was set up (this read, alone, raises no error).
    pub open spec fn spec_info(self) -> (i128, i128, u64) {
        match self.record {
            Some(rec) => (rec.raised, rec.target, rec.deadline),
            None => (0, 0, 0),
        }
    }

    /// The state of a fresh deployment: nothing persisted yet.
    pub fn new() -> (r: Self)
        ensures
            r == (EscrowContract { record: None::<EscrowRecord> }),
            r.wf(),
    {
        EscrowContract { record: None }
    }

    /// Persist recipient, asset, deadline and target, with `raised = 0`,
    /// exactly once. The deployed source asks no authorization of this call —
    /// an asymmetry with the registry variant that is kept, not fixed.
    pub fn initialize(
        &mut self,
        recipient: Identity,
        asset: Identity,
        deadline: u64,
        target: i128,
    ) -> (r: Result<(), Error>)
        requires
            old(self).wf(),
        ensures
            final(self).wf(),
            (*final(self), r) == old(self).spec_initialize(recipient, asset, deadline, target),
    {
        if self.record.is_some() {
            return Err(Error::AlreadyInitialized);
        }
        if target <= 0 {
            return Err(Error::InvalidAmount);
        }
        self.record = Some(EscrowRecord { recipient, asset, deadline, target, raised: 0 });
        Ok(())
    }

    /// Credit a donation and return the transfer the host owes the
    /// fund-transfer service: `amount` moves from the donor into the
    /// contract's custody. Fails closed — expired deadline, non-positive
    /// amount, missing record, unconfirmed donor or accumulator overflow
    /// leave the record exactly as it was.
    pub fn donate(&mut self, donor: Identity, amount: i128, now: u64, auth_ok: bool) -> (r: Result<
        Transfer,
        Error,
    >)
        requires
            old(self).wf(),
        ensures
            final(self).wf(),
            (*final(self), r) == old(self).spec_donate(donor, amount, now, auth_ok),
    {
        if !auth_ok {
            return Err(Error::Unauthorized);
        }
        if amount <= 0 {
            return Err(Error::InvalidAmount);
        }
        match self.record {
            None => Err(Error::NotFound),
            Some(rec) => {
                if now > rec.deadline {
                    return Err(Error::CampaignExpired);
                }
                if amount > i128::MAX - rec.raised {
                    return Err(Error::ArithmeticOverflow);
                }
                self.record = Some(EscrowRecord { raised: rec.raised + amount, ..rec });
                Ok(
                    Transfer {
                        from: Party::Account(donor),
                        to: Party::Contract,
                        asset: rec.asset,
                        amount,
                    },
                )
            },
        }
    }

    /// Report `(raised, target, deadline)`, all zero while uninitialized.
    pub fn get_campaign_info(&self) -> (r: (i128, i128, u64))
        ensures
            r == self.spec_info(),
    {
        match self.record {
            Some(rec) => (rec.raised, rec.target, rec.deadline),
            None => (0, 0, 0),
        }
    }

    /// Release the funds: confirm the recipient, require the deadline passed
    /// and the target met, then hand back the transfer of the contract's
    /// entire live balance of the configured asset to the recipient. The
    /// stored record is not changed and nothing marks it released.
    pub fn withdraw(&self, auth_ok: bool, now: u64, contract_balance: i128) -> (r: Result<
        Transfer,
        Error,
    >)
        ensures
            r == self.spec_withdraw(auth_ok, now, contract_balance),
    {
        match self.record {
            None => Err(Error::NotFound),
            Some(rec) => {
                if !auth_ok {
                    return Err(Error::Unauthorized);
                }
                if now < rec.deadline {
                    return Err(Error::DeadlineNotReached);
                }
                if rec.raised < rec.target {
                    return Err(Error::TargetNotMet);
                }
                Ok(
                    Transfer {
                        from: Party::Contract,
                        to: Party::Account(rec.recipient),
                        asset: rec.asset,
                        amount: contract_balance,
                    },
                )
            },
        }
    }
}

/// Initialization is exactly-once: once an `initialize` has succeeded, every
/// further `initialize` fails with `AlreadyInitialized`, whatever its
/// arguments, and leaves the record untouched.
pub proof fn lemma_initialize_exactly_once(
    pre: EscrowContract,
    recipient1: Identity,
    asset1: Identity,
    deadline1: u64,
    target1: i128,
    recipient2: Identity,
    asset2: Identity,
    deadline2: u64,
    target2: i128,
)
    requires
        pre.spec_initialize(recipient1, asset1, deadline1, target1).1 is Ok,
    ensures
        ({
            let mid = pre.spec_initialize(recipient1, asset1, deadline1, target1).0;
            mid.spec_initialize(recipient2, asset2, deadline2, target2) == (
                mid,
                Err::<(), Error>(Error::AlreadyInitialized),
            )
        }),
{
}

/// The deadline gates donations: a confirmed, positive donation to a live
/// escrow fails with `CampaignExpired` exactly when the clock is past the
/// deadline, and otherwise succeeds, credits exactly `amount`, and asks the
/// fund-transfer service for exactly the donor-to-custody move of `amount`.
pub proof fn lemma_donate_deadline_gate(
    pre: EscrowContract,
    donor: Identity,
    amount: i128,
    now: u64,
)
    requires
        pre.wf(),
        pre.record is Some,
        amount > 0,
        pre.record->Some_0.raised + amount <= i128::MAX,
    ensures
        now > pre.record->Some_0.deadline ==> pre.spec_donate(donor, amount, now, true) == (
            pre,
            Err::<Transfer, Error>(Error::CampaignExpired),
        ),
        now <= pre.record->Some_0.deadline ==> ({
            let rec = pre.record->Some_0;
            pre.spec_donate(donor, amount, now, true) == (
                EscrowContract {
                    record: Some(EscrowRecord { raised: (rec.raised + amount) as i128, ..rec }),
                },
                Ok::<Transfer, Error>(
                    Transfer {
                        from: Party::Account(donor),
                        to: Party::Contract,
                        asset: rec.asset,
                        amount,
                    },
                ),
            )
        }),
{
}

/// The release gate, checked in order on a live escrow: an unconfirmed
/// recipient is turned away first; before the deadline nothing is released,
/// however much was raised; past the deadline a total below target is
/// refused; and only past the deadline with the target met does the
/// withdrawal go through — as a transfer of the contract's entire live
/// balance to the recipient, the record staying as it was.
pub proof fn lemma_withdraw_release_gate(
    pre: EscrowContract,
    auth_ok: bool,
    now: u64,
    contract_balance: i128,
)
    requires
        pre.record is Some,
    ensures
        ({
            let rec = pre.record->Some_0;
            let r = pre.spec_withdraw(auth_ok, now, contract_balance);
            &&& !auth_ok ==> r == Err::<Transfer, Error>(Error::Unauthorized)
            &&& auth_ok && now < rec.deadline ==> r == Err::<Transfer, Error>(
                Error::DeadlineNotReached,
            )
            &&& auth_ok && now >= rec.deadline && rec.raised < rec.target ==> r == Err::<
                Transfer,
                Error,
            >(Error::TargetNotMet)
            &&& auth_ok && now >= rec.deadline && rec.raised >= rec.target ==> r == Ok::<
                Transfer,
                Error,
            >(
                Transfer {
                    from: Party::Contract,
                    to: Party::Account(rec.recipient),
                    asset: rec.asset,
                    amount: contract_balance,
                },
            )
        }),
{
}

/// The state after donating each amount of a batch in turn, all by confirmed
/// donors at one ledger timestamp.
pub open spec fn donate_all(
    pre: EscrowContract,
    donor: Identity,
    amounts: Seq<i128>,
    now: u64,
) -> EscrowContract
    decreases amounts.len(),
{
    if amounts.len() == 0 {
        pre
    } else {
        donate_all(pre.spec_donate(donor, amounts[0], now, true).0, donor, amounts.drop_first(), now)
    }
}

/// Donations accumulate in the escrow exactly as in the registry: a batch of
/// positive donations in time grows the total by exactly the sum of the
/// batch, every donation in the batch is accepted, and the recipient, asset,
/// deadline and target stay as they were.
pub proof fn lemma_donations_accumulate(
    pre: EscrowContract,
    donor: Identity,
    amounts: Seq<i128>,
    now: u64,
)
    requires
        pre.wf(),
        pre.record is Some,
        now <= pre.record->Some_0.deadline,
        forall|i: int| 0 <= i < amounts.len() ==> #[trigger] amounts[i] > 0,
        pre.record->Some_0.raised + sum_of(amounts) <= i128::MAX,
    ensures
        ({
            let rec = pre.record->Some_0;
            donate_all(pre, donor, amounts, now) == (EscrowContract {
                record: Some(
                    EscrowRecord { raised: (rec.raised + sum_of(amounts)) as i128, ..rec },
                ),
            })
        }),
    decreases amounts.len(),
{
    let rec = pre.record->Some_0;
    if amounts.len() == 0 {
        assert(pre == (EscrowContract {
            record: Some(EscrowRecord { raised: (rec.raised + 0) as i128, ..rec }),
        }));
    } else {
        let rest = amounts.drop_first();
        assert(forall|i: int| 0 <= i < rest.len() ==> #[trigger] rest[i] == amounts[i + 1]);
        lemma_sum_of_positives_nonneg(rest);
        let mid = pre.spec_donate(donor, amounts[0], now, true).0;
        lemma_donations_accumulate(mid, donor, rest, now);
    }
}

/// Escrow accumulation is order-independent: two batches of positive
/// donations holding the same amounts, in any order, drive the escrow to
/// the same state.
pub proof fn lemma_donations_order_independent(
    pre: EscrowContract,
    donor: Identity,
    amounts1: Seq<i128>,
    amounts2: Seq<i128>,
    now: u64,
)
    requires
        pre.wf(),
        pre.record is Some,
        now <= pre.record->Some_0.deadline,
        forall|i: int| 0 <= i < amounts1.len() ==> #[trigger] amounts1[i] > 0,
        amounts1.to_multiset() == amounts2.to_multiset(),
        pre.record->Some_0.raised + sum_of(amounts1) <= i128::MAX,
    ensures
        donate_all(pre, donor, amounts1, now) == donate_all(pre, donor, amounts2, now),
{
    lemma_permutation_keeps_positivity(amounts1, amounts2);
    lemma_sum_of_permutation(amounts1, amounts2);
    lemma_donations_accumulate(pre, donor, amounts1, now);
    lemma_donations_accumulate(pre, donor, amounts2, now);
}

/// The escrow total never shrinks: whatever a `donate` call's inputs and
/// outcome, the stored total is at least what it was before the call.
pub proof fn lemma_donate_never_decreases_raised(
    pre: EscrowContract,
    donor: Identity,
    amount: i128,
    now: u64,
    auth_ok: bool,
)
    requires
        pre.record is Some,
    ensures
        pre.spec_donate(donor, amount, now, auth_ok).0.record is Some,
        pre.spec_donate(donor, amount, now, auth_ok).0.record->Some_0.raised
            >= pre.record->Some_0.raised,
{
}

} // verus!
