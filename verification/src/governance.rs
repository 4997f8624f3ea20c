//! The contract for the treasury, voting and referenda.

use crate::binder::{binds_required, lemma_supplied_slots_bound, supplies};
use crate::contract::{
    distinct_names, mark, Binding, BindingView, Category, Contract, ContractView, Slot, SlotView,
};
use crate::model::views;
use crate::profile::{supplied_views, Profile, Supplied};
use vstd::prelude::*;

verus! {

/// What a deployment supplies for the treasury, voting and referenda.
///
/// A slot without a default is a method that the deployment must write. A
/// slot with a default is a method that it may write: `None` leaves the
/// contract's default in place.
pub trait GovernanceConfig {
    /// `TreasuryBurn`; by default the unit type.
    fn treasury_burn(&self) -> (supplied: Option<Binding>)
        default_ensures
            supplied is None,
    {
        None
    }

    /// `TreasurySpendFunds`; by default the unit type.
    fn treasury_spend_funds(&self) -> (supplied: Option<Binding>)
        default_ensures
            supplied is None,
    {
        None
    }

    /// `TreasuryBurnDestination`; by default the unit type.
    fn treasury_burn_destination(&self) -> (supplied: Option<Binding>)
        default_ensures
            supplied is None,
    {
        None
    }

    /// `TreasuryMaxApprovals`; by default 100.
    fn treasury_max_approvals(&self) -> (supplied: Option<Binding>)
        default_ensures
            supplied is None,
    {
        None
    }

    /// `TreasuryInteriorLocation`.
    fn treasury_interior_location(&self) -> Binding;

    /// `TreasuryPalletId`.
    fn treasury_pallet_id(&self) -> Binding;

    /// `TreasurySpendPeriod`.
    fn treasury_spend_period(&self) -> Binding;

    /// `TreasuryPayoutSpendPeriod`.
    fn treasury_payout_spend_period(&self) -> Binding;

    /// `TreasuryRejectOrigin`.
    fn treasury_reject_origin(&self) -> Binding;

    /// `TreasurySpendOrigin`.
    fn treasury_spend_origin(&self) -> Binding;

    /// `ConvictionVoteLockingPeriod`.
    fn conviction_vote_locking_period(&self) -> Binding;

    /// `ConvictionMaxVotes`; by default 512.
    fn conviction_max_votes(&self) -> (supplied: Option<Binding>)
        default_ensures
            supplied is None,
    {
        None
    }

    /// `DispatchWhitelistedOrigin`.
    fn dispatch_whitelisted_origin(&self) -> Binding;

    /// `WhitelistOrigin`.
    fn whitelist_origin(&self) -> Binding;

    /// `ReferendaAlarmInterval`.
    fn referenda_alarm_interval(&self) -> Binding;

    /// `ReferendaCancelOrigin`.
    fn referenda_cancel_origin(&self) -> Binding;

    /// `ReferendaKillOrigin`.
    fn referenda_kill_origin(&self) -> Binding;

    /// `ReferendaMaxQueued`; by default 20.
    fn referenda_max_queued(&self) -> (supplied: Option<Binding>)
        default_ensures
            supplied is None,
    {
        None
    }

    /// `ReferendaSlash`.
    fn referenda_slash(&self) -> Binding;

    /// `ReferendaSubmissionDeposit`.
    fn referenda_submission_deposit(&self) -> Binding;

    /// `ReferendaSubmitOrigin`.
    fn referenda_submit_origin(&self) -> Binding;

    /// `ReferendaUndecidingTimeout`.
    fn referenda_undeciding_timeout(&self) -> Binding;
}

/// The slots of the contract, in the order of their declaration.
pub open spec fn governance_slots() -> Seq<SlotView> {
    Seq::empty()
        .push(SlotView::defaulted("TreasuryBurn"@, Category::TypeAlias, BindingView::Unit))
        .push(SlotView::defaulted("TreasurySpendFunds"@, Category::TypeAlias, BindingView::Unit))
        .push(SlotView::defaulted("TreasuryBurnDestination"@, Category::TypeAlias, BindingView::Unit))
        .push(SlotView::defaulted("TreasuryMaxApprovals"@, Category::Constant, BindingView::Constant(100)))
        .push(SlotView::required("TreasuryInteriorLocation"@, Category::TypeAlias))
        .push(SlotView::required("TreasuryPalletId"@, Category::TypeAlias))
        .push(SlotView::required("TreasurySpendPeriod"@, Category::TypeAlias))
        .push(SlotView::required("TreasuryPayoutSpendPeriod"@, Category::TypeAlias))
        .push(SlotView::required("TreasuryRejectOrigin"@, Category::Origin))
        .push(SlotView::required("TreasurySpendOrigin"@, Category::Origin))
        .push(SlotView::required("ConvictionVoteLockingPeriod"@, Category::TypeAlias))
        .push(SlotView::defaulted("ConvictionMaxVotes"@, Category::Constant, BindingView::Constant(512)))
        .push(SlotView::required("DispatchWhitelistedOrigin"@, Category::Origin))
        .push(SlotView::required("WhitelistOrigin"@, Category::Origin))
        .push(SlotView::required("ReferendaAlarmInterval"@, Category::TypeAlias))
        .push(SlotView::required("ReferendaCancelOrigin"@, Category::Origin))
        .push(SlotView::required("ReferendaKillOrigin"@, Category::Origin))
        .push(SlotView::defaulted("ReferendaMaxQueued"@, Category::Constant, BindingView::Constant(20)))
        .push(SlotView::required("ReferendaSlash"@, Category::TypeAlias))
        .push(SlotView::required("ReferendaSubmissionDeposit"@, Category::TypeAlias))
        .push(SlotView::required("ReferendaSubmitOrigin"@, Category::Origin))
        .push(SlotView::required("ReferendaUndecidingTimeout"@, Category::TypeAlias))
}

/// The schema of the contract.
pub open spec fn governance_schema() -> ContractView {
    ContractView {
        name: "GovernanceConfig"@,
        slots: governance_slots(),
        modules: Seq::empty(),
        benchmark: None,
    }
}

/// The slots of the contract have names of their own, so the schema is
/// well formed.
pub proof fn lemma_governance_schema()
    ensures
        distinct_names(governance_slots()),
        governance_schema().wf(),
{
    reveal_strlit("TreasuryBurn");
    reveal_strlit("TreasurySpendFunds");
    reveal_strlit("TreasuryBurnDestination");
    reveal_strlit("TreasuryMaxApprovals");
    reveal_strlit("TreasuryInteriorLocation");
    reveal_strlit("TreasuryPalletId");
    reveal_strlit("TreasurySpendPeriod");
    reveal_strlit("TreasuryPayoutSpendPeriod");
    reveal_strlit("TreasuryRejectOrigin");
    reveal_strlit("TreasurySpendOrigin");
    reveal_strlit("ConvictionVoteLockingPeriod");
    reveal_strlit("ConvictionMaxVotes");
    reveal_strlit("DispatchWhitelistedOrigin");
    reveal_strlit("WhitelistOrigin");
    reveal_strlit("ReferendaAlarmInterval");
    reveal_strlit("ReferendaCancelOrigin");
    reveal_strlit("ReferendaKillOrigin");
    reveal_strlit("ReferendaMaxQueued");
    reveal_strlit("ReferendaSlash");
    reveal_strlit("ReferendaSubmissionDeposit");
    reveal_strlit("ReferendaSubmitOrigin");
    reveal_strlit("ReferendaUndecidingTimeout");
    assert(mark("TreasuryBurn"@) == (12nat, 'a', 'u', ' '));
    assert(mark("TreasurySpendFunds"@) == (18nat, 'a', 'u', 'F'));
    assert(mark("TreasuryBurnDestination"@) == (23nat, 'a', 'u', 'e'));
    assert(mark("TreasuryMaxApprovals"@) == (20nat, 'a', 'u', 'p'));
    assert(mark("TreasuryInteriorLocation"@) == (24nat, 'a', 'u', 'i'));
    assert(mark("TreasuryPalletId"@) == (16nat, 'a', 'u', 't'));
    assert(mark("TreasurySpendPeriod"@) == (19nat, 'a', 'u', 'P'));
    assert(mark("TreasuryPayoutSpendPeriod"@) == (25nat, 'a', 'u', 't'));
    assert(mark("TreasuryRejectOrigin"@) == (20nat, 'a', 'u', 't'));
    assert(mark("TreasurySpendOrigin"@) == (19nat, 'a', 'u', 'O'));
    assert(mark("ConvictionVoteLockingPeriod"@) == (27nat, 'v', 'c', 'e'));
    assert(mark("ConvictionMaxVotes"@) == (18nat, 'v', 'c', 'V'));
    assert(mark("DispatchWhitelistedOrigin"@) == (25nat, 'p', 't', 'l'));
    assert(mark("WhitelistOrigin"@) == (15nat, 't', 'l', 'i'));
    assert(mark("ReferendaAlarmInterval"@) == (22nat, 'e', 'e', 'm'));
    assert(mark("ReferendaCancelOrigin"@) == (21nat, 'e', 'e', 'e'));
    assert(mark("ReferendaKillOrigin"@) == (19nat, 'e', 'e', 'O'));
    assert(mark("ReferendaMaxQueued"@) == (18nat, 'e', 'e', 'u'));
    assert(mark("ReferendaSlash"@) == (14nat, 'e', 'e', 'h'));
    assert(mark("ReferendaSubmissionDeposit"@) == (26nat, 'e', 'e', 'i'));
    assert(mark("ReferendaSubmitOrigin"@) == (21nat, 'e', 'e', 'i'));
    assert(mark("ReferendaUndecidingTimeout"@) == (26nat, 'e', 'e', 'c'));
}

/// Builds the contract.
pub fn governance_contract() -> (contract: Contract)
    ensures
        contract@ == governance_schema(),
        contract@.wf(),
{
    let mut slots: Vec<Slot> = Vec::new();
    slots.push(Slot::defaulted("TreasuryBurn", Category::TypeAlias, Binding::Unit));
    slots.push(Slot::defaulted("TreasurySpendFunds", Category::TypeAlias, Binding::Unit));
    slots.push(Slot::defaulted("TreasuryBurnDestination", Category::TypeAlias, Binding::Unit));
    slots.push(Slot::defaulted("TreasuryMaxApprovals", Category::Constant, Binding::Constant(100)));
    slots.push(Slot::required("TreasuryInteriorLocation", Category::TypeAlias));
    slots.push(Slot::required("TreasuryPalletId", Category::TypeAlias));
    slots.push(Slot::required("TreasurySpendPeriod", Category::TypeAlias));
    slots.push(Slot::required("TreasuryPayoutSpendPeriod", Category::TypeAlias));
    slots.push(Slot::required("TreasuryRejectOrigin", Category::Origin));
    slots.push(Slot::required("TreasurySpendOrigin", Category::Origin));
    slots.push(Slot::required("ConvictionVoteLockingPeriod", Category::TypeAlias));
    slots.push(Slot::defaulted("ConvictionMaxVotes", Category::Constant, Binding::Constant(512)));
    slots.push(Slot::required("DispatchWhitelistedOrigin", Category::Origin));
    slots.push(Slot::required("WhitelistOrigin", Category::Origin));
    slots.push(Slot::required("ReferendaAlarmInterval", Category::TypeAlias));
    slots.push(Slot::required("ReferendaCancelOrigin", Category::Origin));
    slots.push(Slot::required("ReferendaKillOrigin", Category::Origin));
    slots.push(Slot::defaulted("ReferendaMaxQueued", Category::Constant, Binding::Constant(20)));
    slots.push(Slot::required("ReferendaSlash", Category::TypeAlias));
    slots.push(Slot::required("ReferendaSubmissionDeposit", Category::TypeAlias));
    slots.push(Slot::required("ReferendaSubmitOrigin", Category::Origin));
    slots.push(Slot::required("ReferendaUndecidingTimeout", Category::TypeAlias));
    proof {
        assert(views(slots@) =~= governance_slots());
        lemma_governance_schema();
        ContractView::lemma_declare_all_distinct("GovernanceConfig"@, governance_slots());
    }
    let contract = Contract::new("GovernanceConfig").declare_all(&slots);
    assert(contract@.modules =~= governance_schema().modules);
    contract
}

/// Enters a deployment's implementation of the contract into a profile:
/// the profile claims the contract, and binds what the deployment supplies
/// for each slot, in the order of the slots.
///
/// Whatever the deployment supplies, the profile then binds every required
/// slot of the contract, and what it binds for other contracts is as
/// before.
pub fn claim_governance<T: GovernanceConfig>(deployment: &T, profile: Profile) -> (next: Profile)
    ensures
        exists|supplied: Seq<Supplied>|
            supplies(governance_slots(), supplied) && next@ == profile@.implement("GovernanceConfig"@).supply(
                "GovernanceConfig"@,
                supplied,
            ),
        next@.claims == profile@.implement("GovernanceConfig"@).claims,
        binds_required(governance_schema(), next@),
        forall|contract: Seq<char>, slot: Seq<char>|
            contract != "GovernanceConfig"@ ==> #[trigger] next@.binding(contract, slot) == profile@.binding(
                contract,
                slot,
            ),
{
    let mut supplied: Vec<(String, Option<Binding>)> = Vec::new();
    supplied.push(("TreasuryBurn".to_owned(), deployment.treasury_burn()));
    supplied.push(("TreasurySpendFunds".to_owned(), deployment.treasury_spend_funds()));
    supplied.push(("TreasuryBurnDestination".to_owned(), deployment.treasury_burn_destination()));
    supplied.push(("TreasuryMaxApprovals".to_owned(), deployment.treasury_max_approvals()));
    supplied.push(("TreasuryInteriorLocation".to_owned(), Some(deployment.treasury_interior_location())));
    supplied.push(("TreasuryPalletId".to_owned(), Some(deployment.treasury_pallet_id())));
    supplied.push(("TreasurySpendPeriod".to_owned(), Some(deployment.treasury_spend_period())));
    supplied.push(("TreasuryPayoutSpendPeriod".to_owned(), Some(deployment.treasury_payout_spend_period())));
    supplied.push(("TreasuryRejectOrigin".to_owned(), Some(deployment.treasury_reject_origin())));
    supplied.push(("TreasurySpendOrigin".to_owned(), Some(deployment.treasury_spend_origin())));
    supplied.push(("ConvictionVoteLockingPeriod".to_owned(), Some(deployment.conviction_vote_locking_period())));
    supplied.push(("ConvictionMaxVotes".to_owned(), deployment.conviction_max_votes()));
    supplied.push(("DispatchWhitelistedOrigin".to_owned(), Some(deployment.dispatch_whitelisted_origin())));
    supplied.push(("WhitelistOrigin".to_owned(), Some(deployment.whitelist_origin())));
    supplied.push(("ReferendaAlarmInterval".to_owned(), Some(deployment.referenda_alarm_interval())));
    supplied.push(("ReferendaCancelOrigin".to_owned(), Some(deployment.referenda_cancel_origin())));
    supplied.push(("ReferendaKillOrigin".to_owned(), Some(deployment.referenda_kill_origin())));
    supplied.push(("ReferendaMaxQueued".to_owned(), deployment.referenda_max_queued()));
    supplied.push(("ReferendaSlash".to_owned(), Some(deployment.referenda_slash())));
    supplied.push(("ReferendaSubmissionDeposit".to_owned(), Some(deployment.referenda_submission_deposit())));
    supplied.push(("ReferendaSubmitOrigin".to_owned(), Some(deployment.referenda_submit_origin())));
    supplied.push(("ReferendaUndecidingTimeout".to_owned(), Some(deployment.referenda_undeciding_timeout())));
    let claimed = profile.implement("GovernanceConfig");
    let next = claimed.supply("GovernanceConfig", &supplied);
    proof {
        let given = supplied_views(supplied@);
        assert(supplies(governance_slots(), given));
        lemma_supplied_slots_bound(claimed@, governance_schema(), given);
        claimed@.lemma_supply("GovernanceConfig"@, given);
    }
    next
}

} // verus!
