//! The multi-campaign registry: many campaigns, strictly sequential ids,
//! one shared donation ledger, no withdrawal logic.

use vstd::prelude::*;

use crate::amounts::{
    lemma_permutation_keeps_positivity, lemma_sum_of_permutation, lemma_sum_of_positives_nonneg,
    sum_of,
};
use crate::types::{Error, Identity};

verus! {

/// A funding goal record with accumulated contributions.
pub struct Campaign {
    /// Unique id, assigned sequentially from 1 and never reused.
    pub id: u32,
    /// Who created the campaign.
    pub creator: Identity,
    /// Free-form campaign title.
    pub title: String,
    /// Funding goal in the asset's smallest unit; always positive.
    pub target: i128,
    /// Total donated so far; never negative, only ever grows.
    pub raised: i128,
}

/// The mathematical value of a [`Campaign`]: the same fields, with the title
/// as a sequence of characters.
#[verifier::ext_equal]
pub ghost struct CampaignView {
    pub id: u32,
    pub creator: Identity,
    pub title: Seq<char>,
    pub target: i128,
    pub raised: i128,
}

impl View for Campaign {
    type V = CampaignView;

    open spec fn view(&self) -> CampaignView {
        CampaignView {
            id: self.id,
            creator: self.creator,
            title: self.title@,
            target: self.target,
            raised: self.raised,
        }
    }
}

impl Clone for Campaign {
    fn clone(&self) -> (r: Self)
        ensures
            r@ == self@,
    {
        Campaign {
            id: self.id,
            creator: self.creator,
            title: self.title.clone(),
            target: self.target,
            raised: self.raised,
        }
    }
}

/// The slots the host's persistent store keeps for the registry variant.
/// The deployment persists the admin and the campaign counter under the two
/// instance slots and each campaign record under its id.
#[derive(Clone, Copy, PartialEq, Eq, PartialOrd, Ord, Hash, Debug)]
pub enum DataKey {
    Admin,
    CampaignCount,
    Campaign(u32),
}

/// The registry's whole persisted state: the mathematical model that the
/// contracts below speak of.
///
/// The campaign counter of the stored layout is implicit here: campaign
/// `id` sits at index `id - 1`, so the counter is always `campaigns.len()`.
#[verifier::ext_equal]
pub ghost struct RegistryView {
    pub admin: Option<Identity>,
    pub campaigns: Seq<CampaignView>,
}

/// What well-formedness asks of the campaign stored at index `i`.
pub open spec fn slot_ok(c: CampaignView, i: int) -> bool {
    &&& c.id == i + 1
    &&& c.target > 0
    &&& c.raised >= 0
}

impl RegistryView {
    /// Invariant of every reachable registry state: ids are exactly
    /// `1..=counter` in order, targets are positive, totals are non-negative.
    pub open spec fn wf(self) -> bool {
        &&& self.campaigns.len() <= u32::MAX
        &&& forall|i: int|
            0 <= i < self.campaigns.len() ==> #[trigger] slot_ok(self.campaigns[i], i)
    }

    /// The campaign counter the store would hold: the number of campaigns
    /// created so far, which is also the last id handed out.
    pub open spec fn counter(self) -> int {
        self.campaigns.len() as int
    }

    /// Whether a record exists under `id`.
    pub open spec fn has_campaign(self, id: u32) -> bool {
        1 <= id <= self.campaigns.len()
    }

    /// The record stored under `id`.
    pub open spec fn campaign(self, id: u32) -> CampaignView
        recommends
            self.has_campaign(id),
    {
        self.campaigns[id - 1]
    }

    /// Outcome of `initialize`: sets the admin exactly once.
    pub open spec fn spec_initialize(self, admin: Identity, auth_ok: bool) -> (Self, Result<
        (),
        Error,
    >) {
        if self.admin is Some {
            (self, Err(Error::AlreadyInitialized))
        } else if !auth_ok {
            (self, Err(Error::Unauthorized))
        } else {
            (RegistryView { admin: Some(admin), ..self }, Ok(()))
        }
    }

    /// Outcome of `create_campaign`: on success, appends a record with the
    /// supplied fields verbatim, `raised = 0` and id `counter + 1`, and the
    /// counter moves to that id. The id space is a 32-bit counter; the call
    /// fails closed when it is spent rather than reuse an id.
    pub open spec fn spec_create_campaign(
        self,
        creator: Identity,
        title: Seq<char>,
        target: i128,
        auth_ok: bool,
    ) -> (Self, Result<u32, Error>) {
        if !auth_ok {
            (self, Err(Error::Unauthorized))
        } else if target <= 0 {
            (self, Err(Error::InvalidAmount))
        } else if self.campaigns.len() >= u32::MAX {
            (self, Err(Error::ArithmeticOverflow))
        } else {
            let id = (self.campaigns.len() + 1) as u32;
            (
                RegistryView {
                    campaigns: self.campaigns.push(
                        CampaignView { id, creator, title, target, raised: 0 },
                    ),
                    ..self
                },
                Ok(id),
            )
        }
    }

    /// Outcome of `donate`: on success, exactly the chosen campaign's total
    /// grows by `amount`; every failure leaves the whole state unchanged.
    pub open spec fn spec_donate(
        self,
        campaign_id: u32,
        donor: Identity,
        amount: i128,
        auth_ok: bool,
    ) -> (Self, Result<(), Error>) {
        if !auth_ok {
            (self, Err(Error::Unauthorized))
        } else if amount <= 0 {
            (self, Err(Error::InvalidAmount))
        } else if !self.has_campaign(campaign_id) {
            (self, Err(Error::NotFound))
        } else {
            let c = self.campaign(campaign_id);
            if c.raised + amount > i128::MAX {
                (self, Err(Error::ArithmeticOverflow))
            } else {
                (
                    RegistryView {
                        campaigns: self.campaigns.update(
                            campaign_id - 1,
                            CampaignView { raised: (c.raised + amount) as i128, ..c },
                        ),
                        ..self
                    },
                    Ok(()),
                )
            }
        }
    }

    /// What `get_campaign` reports: the record under `id`, or `NotFound`.
    pub open spec fn spec_get_campaign(self, id: u32) -> Result<CampaignView, Error> {
        if self.has_campaign(id) {
            Ok(self.campaign(id))
        } else {
            Err(Error::NotFound)
        }
    }
}

/// The multi-campaign crowdfunding contract: its persisted state, and its
/// entry points as atomic read-modify-write steps on that state.
///
/// The host supplies `auth_ok`, the authorization oracle's verdict on the
/// identity each entry point names; an entry point that gets `false` fails
/// with [`Error::Unauthorized`] and changes nothing.
pub struct NovaFundContract {
    pub admin: Option<Identity>,
    pub campaigns: Vec<Campaign>,
}

impl View for NovaFundContract {
    type V = RegistryView;

    open spec fn view(&self) -> RegistryView {
        RegistryView {
            admin: self.admin,
            campaigns: self.campaigns@.map_values(|c: Campaign| c@),
        }
    }
}

impl NovaFundContract {
    /// The state of a fresh deployment: nothing persisted yet.
    pub fn new() -> (r: Self)
        ensures
            r@ == (RegistryView { admin: None, campaigns: Seq::<CampaignView>::empty() }),
            r@.wf(),
    {
        let r = NovaFundContract { admin: None, campaigns: Vec::new() };
        proof {
            assert(r@.campaigns =~= Seq::<CampaignView>::empty());
        }
        r
    }

    /// Set the admin, exactly once. A second call fails with
    /// `AlreadyInitialized` whatever its arguments, and the admin check comes
    /// before the authorization check, as the stored guard key decides first.
    pub fn initialize(&mut self, admin: Identity, auth_ok: bool) -> (r: Result<(), Error>)
        requires
            old(self)@.wf(),
        ensures
            final(self)@.wf(),
            (final(self)@, r) == old(self)@.spec_initialize(admin, auth_ok),
    {
        if self.admin.is_some() {
            return Err(Error::AlreadyInitialized);
        }
        if !auth_ok {
            return Err(Error::Unauthorized);
        }
        self.admin = Some(admin);
        Ok(())
    }

    /// Create a campaign with the supplied fields and a zeroed total, under
    /// the next sequential id, and return that id. Anyone confirmed by the
    /// oracle may create; the target must be positive.
    pub fn create_campaign(
        &mut self,
        creator: Identity,
        title: String,
        target: i128,
        auth_ok: bool,
    ) -> (r: Result<u32, Error>)
        requires
            old(self)@.wf(),
        ensures
            final(self)@.wf(),
            (final(self)@, r) == old(self)@.spec_create_campaign(creator, title@, target, auth_ok),
    {
        if !auth_ok {
            return Err(Error::Unauthorized);
        }
        if target <= 0 {
            return Err(Error::InvalidAmount);
        }
        if self.campaigns.len() >= u32::MAX as usize {
            return Err(Error::ArithmeticOverflow);
        }
        let new_id: u32 = (self.campaigns.len() as u32) + 1;
        let campaign = Campaign { id: new_id, creator, title, target, raised: 0 };
        let ghost cv = campaign@;
        self.campaigns.push(campaign);
        proof {
            let f = |c: Campaign| c@;
            assert(self.campaigns@.map_values(f) =~= old(self).campaigns@.map_values(f).push(cv));
            assert forall|i: int| 0 <= i < self@.campaigns.len() implies #[trigger] slot_ok(
                self@.campaigns[i],
                i,
            ) by {
                if i < old(self)@.campaigns.len() {
                    assert(slot_ok(old(self)@.campaigns[i], i));
                }
            }
        }
        Ok(new_id)
    }

    /// Credit a donation of `amount` to the campaign under `campaign_id`.
    /// Fails closed — an unconfirmed donor, a non-positive amount, an unknown
    /// id or accumulator overflow leave every record exactly as it was.
    pub fn donate(&mut self, campaign_id: u32, donor: Identity, amount: i128, auth_ok: bool) -> (r:
        Result<(), Error>)
        requires
            old(self)@.wf(),
        ensures
            final(self)@.wf(),
            (final(self)@, r) == old(self)@.spec_donate(campaign_id, donor, amount, auth_ok),
    {
        if !auth_ok {
            return Err(Error::Unauthorized);
        }
        if amount <= 0 {
            return Err(Error::InvalidAmount);
        }
        if campaign_id == 0 || campaign_id as usize > self.campaigns.len() {
            return Err(Error::NotFound);
        }
        let idx: usize = (campaign_id - 1) as usize;
        proof {
            assert(slot_ok(self@.campaigns[idx as int], idx as int));
        }
        let current: i128 = self.campaigns[idx].raised;
        if amount > i128::MAX - current {
            return Err(Error::ArithmeticOverflow);
        }
        let c = &mut self.campaigns[idx];
        c.raised = current + amount;
        proof {
            let f = |c: Campaign| c@;
            let ghost pre = old(self)@;
            let ghost cv = CampaignView {
                raised: (pre.campaign(campaign_id).raised + amount) as i128,
                ..pre.campaign(campaign_id)
            };
            assert(self.campaigns@.map_values(f) =~= pre.campaigns.update(idx as int, cv));
            assert forall|i: int| 0 <= i < self@.campaigns.len() implies #[trigger] slot_ok(
                self@.campaigns[i],
                i,
            ) by {
                assert(slot_ok(pre.campaigns[i], i));
            }
        }
        Ok(())
    }

    /// Return a copy of the record under `campaign_id`, or `NotFound`.
    /// A public read: no authorization is asked.
    pub fn get_campaign(&self, campaign_id: u32) -> (r: Result<Campaign, Error>)
        requires
            self@.wf(),
        ensures
            r matches Ok(c) ==> self@.spec_get_campaign(campaign_id) == Ok::<CampaignView, Error>(
                c@,
            ),
            r matches Err(e) ==> self@.spec_get_campaign(campaign_id) == Err::<CampaignView, Error>(
                e,
            ),
    {
        if campaign_id == 0 || campaign_id as usize > self.campaigns.len() {
            return Err(Error::NotFound);
        }
        let idx: usize = (campaign_id - 1) as usize;
        Ok(self.campaigns[idx].clone())
    }

    /// Return every campaign with id in `1..=counter`, in ascending id
    /// order. A public read: no authorization is asked.
    pub fn get_all_campaigns(&self) -> (r: Vec<Campaign>)
        requires
            self@.wf(),
        ensures
            r@.map_values(|c: Campaign| c@) == self@.campaigns,
    {
        let ghost f = |c: Campaign| c@;
        let mut out: Vec<Campaign> = Vec::new();
        let mut i: usize = 0;
        while i < self.campaigns.len()
            invariant
                i <= self.campaigns.len(),
                f == (|c: Campaign| c@),
                out@.map_values(f) =~= self@.campaigns.subrange(0, i as int),
            decreases self.campaigns.len() - i,
        {
            let ghost prev = out@;
            out.push(self.campaigns[i].clone());
            proof {
                assert(out@.map_values(f) =~= prev.map_values(f).push(self@.campaigns[i as int]));
                assert(self@.campaigns.subrange(0, i + 1) =~= self@.campaigns.subrange(
                    0,
                    i as int,
                ).push(self@.campaigns[i as int]));
            }
            i += 1;
        }
        proof {
            assert(out@.map_values(f) =~= self@.campaigns);
        }
        out
    }
}

/// Initialization is exactly-once: once an `initialize` has succeeded, every
/// further `initialize` fails with `AlreadyInitialized`, whatever its
/// arguments, and leaves the state untouched.
pub proof fn lemma_initialize_exactly_once(
    pre: RegistryView,
    admin1: Identity,
    auth1: bool,
    admin2: Identity,
    auth2: bool,
)
    requires
        pre.spec_initialize(admin1, auth1).1 is Ok,
    ensures
        pre.spec_initialize(admin1, auth1).0.spec_initialize(admin2, auth2) == (
            pre.spec_initialize(admin1, auth1).0,
            Err::<(), Error>(Error::AlreadyInitialized),
        ),
{
}

/// Campaign creation assigns id `counter + 1`: ids run 1, 2, 3, ... in
/// creation order, and the new record carries the supplied fields verbatim
/// with a zeroed total — which is exactly what `get_campaign` then reports
/// under the returned id.
pub proof fn lemma_create_campaign_next_id(
    pre: RegistryView,
    creator: Identity,
    title: Seq<char>,
    target: i128,
)
    requires
        pre.wf(),
        target > 0,
        pre.campaigns.len() < u32::MAX,
    ensures
        ({
            let (post, r) = pre.spec_create_campaign(creator, title, target, true);
            let id = (pre.counter() + 1) as u32;
            &&& r == Ok::<u32, Error>(id)
            &&& post.counter() == pre.counter() + 1
            &&& post.spec_get_campaign(id) == Ok::<CampaignView, Error>(
                CampaignView { id, creator, title, target, raised: 0 },
            )
            &&& forall|other: u32|
                pre.has_campaign(other) ==> #[trigger] post.campaign(other) == pre.campaign(other)
        }),
{
}

/// Ids strictly increase: of two consecutive successful creations, the
/// second returns exactly the first id plus one, and the first returned id
/// is never below 1.
pub proof fn lemma_create_campaign_ids_strictly_increase(
    pre: RegistryView,
    creator1: Identity,
    title1: Seq<char>,
    target1: i128,
    creator2: Identity,
    title2: Seq<char>,
    target2: i128,
)
    requires
        pre.wf(),
        target1 > 0,
        target2 > 0,
        pre.campaigns.len() + 2 <= u32::MAX,
    ensures
        ({
            let (mid, r1) = pre.spec_create_campaign(creator1, title1, target1, true);
            let (post, r2) = mid.spec_create_campaign(creator2, title2, target2, true);
            &&& r1 matches Ok(id1) && id1 >= 1
            &&& r1 matches Ok(id1) && r2 == Ok::<u32, Error>((id1 + 1) as u32)
        }),
{
}

/// The state after donating each amount of a batch in turn, all by confirmed
/// donors, to the one campaign under `id`.
pub open spec fn donate_all(
    pre: RegistryView,
    id: u32,
    donor: Identity,
    amounts: Seq<i128>,
) -> RegistryView
    decreases amounts.len(),
{
    if amounts.len() == 0 {
        pre
    } else {
        donate_all(pre.spec_donate(id, donor, amounts[0], true).0, id, donor, amounts.drop_first())
    }
}

/// One successful donation adds exactly `amount` to the chosen campaign's
/// total and changes nothing else — not the other campaigns, not the admin,
/// not the counter.
pub proof fn lemma_donate_adds_exactly(pre: RegistryView, id: u32, donor: Identity, amount: i128)
    requires
        pre.wf(),
        pre.has_campaign(id),
        amount > 0,
        pre.campaign(id).raised + amount <= i128::MAX,
    ensures
        ({
            let (post, r) = pre.spec_donate(id, donor, amount, true);
            &&& r == Ok::<(), Error>(())
            &&& post.wf()
            &&& post.admin == pre.admin
            &&& post.counter() == pre.counter()
            &&& post.campaign(id) == (CampaignView {
                raised: (pre.campaign(id).raised + amount) as i128,
                ..pre.campaign(id)
            })
            &&& forall|other: u32|
                pre.has_campaign(other) && other != id ==> #[trigger] post.campaign(other)
                    == pre.campaign(other)
        }),
{
    let (post, r) = pre.spec_donate(id, donor, amount, true);
    assert forall|i: int| 0 <= i < post.campaigns.len() implies #[trigger] slot_ok(
        post.campaigns[i],
        i,
    ) by {
        assert(slot_ok(pre.campaigns[i], i));
    }
}

/// Donations accumulate: after any batch of positive donations to one
/// campaign, its total has grown by exactly the sum of the batch, every
/// donation in the batch has been accepted, and nothing else has changed.
pub proof fn lemma_donations_accumulate(
    pre: RegistryView,
    id: u32,
    donor: Identity,
    amounts: Seq<i128>,
)
    requires
        pre.wf(),
        pre.has_campaign(id),
        forall|i: int| 0 <= i < amounts.len() ==> #[trigger] amounts[i] > 0,
        pre.campaign(id).raised + sum_of(amounts) <= i128::MAX,
    ensures
        ({
            let post = donate_all(pre, id, donor, amounts);
            &&& post.wf()
            &&& post.admin == pre.admin
            &&& post.counter() == pre.counter()
            &&& post.campaign(id) == (CampaignView {
                raised: (pre.campaign(id).raised + sum_of(amounts)) as i128,
                ..pre.campaign(id)
            })
            &&& forall|other: u32|
                pre.has_campaign(other) && other != id ==> #[trigger] donate_all(
                    pre,
                    id,
                    donor,
                    amounts,
                ).campaign(other) == pre.campaign(other)
        }),
    decreases amounts.len(),
{
    if amounts.len() == 0 {
        assert(donate_all(pre, id, donor, amounts) == pre);
        assert(pre.campaign(id) == (CampaignView {
            raised: (pre.campaign(id).raised + 0) as i128,
            ..pre.campaign(id)
        }));
    } else {
        let rest = amounts.drop_first();
        assert(forall|i: int| 0 <= i < rest.len() ==> #[trigger] rest[i] == amounts[i + 1]);
        lemma_sum_of_positives_nonneg(rest);
        lemma_donate_adds_exactly(pre, id, donor, amounts[0]);
        let mid = pre.spec_donate(id, donor, amounts[0], true).0;
        lemma_donations_accumulate(mid, id, donor, rest);
    }
}

/// Accumulation is order-independent: two donations to the same campaign,
/// applied in either order, reach the same state.
pub proof fn lemma_donate_commutes(
    pre: RegistryView,
    id: u32,
    donor1: Identity,
    amount1: i128,
    donor2: Identity,
    amount2: i128,
)
    requires
        pre.wf(),
        pre.has_campaign(id),
        amount1 > 0,
        amount2 > 0,
        pre.campaign(id).raised + amount1 + amount2 <= i128::MAX,
    ensures
        pre.spec_donate(id, donor1, amount1, true).0.spec_donate(id, donor2, amount2, true).0
            == pre.spec_donate(id, donor2, amount2, true).0.spec_donate(id, donor1, amount1, true).0,
{
    lemma_donate_adds_exactly(pre, id, donor1, amount1);
    lemma_donate_adds_exactly(pre, id, donor2, amount2);
    let one_two = pre.spec_donate(id, donor1, amount1, true).0.spec_donate(
        id,
        donor2,
        amount2,
        true,
    ).0;
    let two_one = pre.spec_donate(id, donor2, amount2, true).0.spec_donate(
        id,
        donor1,
        amount1,
        true,
    ).0;
    assert(one_two.campaigns =~= two_one.campaigns);
}

/// Accumulation is order-independent in full: two batches of positive
/// donations holding the same amounts, in any order, drive the registry to
/// the same state.
pub proof fn lemma_donations_order_independent(
    pre: RegistryView,
    id: u32,
    donor: Identity,
    amounts1: Seq<i128>,
    amounts2: Seq<i128>,
)
    requires
        pre.wf(),
        pre.has_campaign(id),
        forall|i: int| 0 <= i < amounts1.len() ==> #[trigger] amounts1[i] > 0,
        amounts1.to_multiset() == amounts2.to_multiset(),
        pre.campaign(id).raised + sum_of(amounts1) <= i128::MAX,
    ensures
        donate_all(pre, id, donor, amounts1) == donate_all(pre, id, donor, amounts2),
{
    lemma_permutation_keeps_positivity(amounts1, amounts2);
    lemma_sum_of_permutation(amounts1, amounts2);
    lemma_donations_accumulate(pre, id, donor, amounts1);
    lemma_donations_accumulate(pre, id, donor, amounts2);
    let post1 = donate_all(pre, id, donor, amounts1);
    let post2 = donate_all(pre, id, donor, amounts2);
    assert forall|i: int| 0 <= i < post1.campaigns.len() implies post1.campaigns[i]
        == post2.campaigns[i] by {
        let cid = (i + 1) as u32;
        assert(pre.has_campaign(cid));
        assert(post1.campaign(cid) == post2.campaign(cid));
    }
    assert(post1.campaigns =~= post2.campaigns);
    assert(post1 =~= post2);
}

/// A campaign's total never shrinks: whatever a `donate` call's inputs and
/// outcome, every stored total is at least what it was before the call.
pub proof fn lemma_donate_never_decreases_raised(
    pre: RegistryView,
    id: u32,
    donor: Identity,
    amount: i128,
    auth_ok: bool,
)
    requires
        pre.wf(),
    ensures
        forall|other: u32|
            pre.has_campaign(other) ==> #[trigger] pre.spec_donate(
                id,
                donor,
                amount,
                auth_ok,
            ).0.campaign(other).raised >= pre.campaign(other).raised,
{
}

} // verus!
