//! The contract for block authorship and the selection of collators.

use crate::binder::{binds_required, lemma_supplied_slots_bound, supplies};
use crate::contract::{
    distinct_names, mark, Binding, BindingView, Category, Contract, ContractView, Slot, SlotView,
};
use crate::model::views;
use crate::profile::{supplied_views, Profile, Supplied};
use vstd::prelude::*;

verus! {

/// What a deployment supplies for block authorship and the selection of collators.
///
/// A slot without a default is a method that the deployment must write. A
/// slot with a default is a method that it may write: `None` leaves the
/// contract's default in place.
pub trait ConsensusConfig {
    /// `DisabledValidators`; by default the unit type.
    fn disabled_validators(&self) -> (supplied: Option<Binding>)
        default_ensures
            supplied is None,
    {
        None
    }

    /// `MaxAuthorities`; by default 100000.
    fn max_authorities(&self) -> (supplied: Option<Binding>)
        default_ensures
            supplied is None,
    {
        None
    }

    /// `MaxCandidates`; by default 100.
    fn max_candidates(&self) -> (supplied: Option<Binding>)
        default_ensures
            supplied is None,
    {
        None
    }

    /// `MaxInvulnerables`; by default 20.
    fn max_invulnerables(&self) -> (supplied: Option<Binding>)
        default_ensures
            supplied is None,
    {
        None
    }

    /// `MinEligibleCollators`; by default 4.
    fn min_eligible_collators(&self) -> (supplied: Option<Binding>)
        default_ensures
            supplied is None,
    {
        None
    }

    /// `CollatorSelectionUpdateOrigin`.
    fn collator_selection_update_origin(&self) -> Binding;
}

/// The slots of the contract, in the order of their declaration.
pub open spec fn consensus_slots() -> Seq<SlotView> {
    Seq::empty()
        .push(SlotView::defaulted("DisabledValidators"@, Category::TypeAlias, BindingView::Unit))
        .push(SlotView::defaulted("MaxAuthorities"@, Category::Constant, BindingView::Constant(100_000)))
        .push(SlotView::defaulted("MaxCandidates"@, Category::Constant, BindingView::Constant(100)))
        .push(SlotView::defaulted("MaxInvulnerables"@, Category::Constant, BindingView::Constant(20)))
        .push(SlotView::defaulted("MinEligibleCollators"@, Category::Constant, BindingView::Constant(4)))
        .push(SlotView::required("CollatorSelectionUpdateOrigin"@, Category::Origin))
}

/// The schema of the contract.
pub open spec fn consensus_schema() -> ContractView {
    ContractView {
        name: "ConsensusConfig"@,
        slots: consensus_slots(),
        modules: Seq::empty(),
        benchmark: None,
    }
}

/// The slots of the contract have names of their own, so the schema is
/// well formed.
pub proof fn lemma_consensus_schema()
    ensures
        distinct_names(consensus_slots()),
        consensus_schema().wf(),
{
    reveal_strlit("DisabledValidators");
    reveal_strlit("MaxAuthorities");
    reveal_strlit("MaxCandidates");
    reveal_strlit("MaxInvulnerables");
    reveal_strlit("MinEligibleCollators");
    reveal_strlit("CollatorSelectionUpdateOrigin");
    assert(mark("DisabledValidators"@) == (18nat, 'a', 'l', 'a'));
    assert(mark("MaxAuthorities"@) == (14nat, 'A', 't', 's'));
    assert(mark("MaxCandidates"@) == (13nat, 'C', 'n', ' '));
    assert(mark("MaxInvulnerables"@) == (16nat, 'I', 'v', 'l'));
    assert(mark("MinEligibleCollators"@) == (20nat, 'E', 'i', 'l'));
    assert(mark("CollatorSelectionUpdateOrigin"@) == (29nat, 'l', 't', 't'));
}

/// Builds the contract.
pub fn consensus_contract() -> (contract: Contract)
    ensures
        contract@ == consensus_schema(),
        contract@.wf(),
{
    let mut slots: Vec<Slot> = Vec::new();
    slots.push(Slot::defaulted("DisabledValidators", Category::TypeAlias, Binding::Unit));
    slots.push(Slot::defaulted("MaxAuthorities", Category::Constant, Binding::Constant(100_000)));
    slots.push(Slot::defaulted("MaxCandidates", Category::Constant, Binding::Constant(100)));
    slots.push(Slot::defaulted("MaxInvulnerables", Category::Constant, Binding::Constant(20)));
    slots.push(Slot::defaulted("MinEligibleCollators", Category::Constant, Binding::Constant(4)));
    slots.push(Slot::required("CollatorSelectionUpdateOrigin", Category::Origin));
    proof {
        assert(views(slots@) =~= consensus_slots());
        lemma_consensus_schema();
        ContractView::lemma_declare_all_distinct("ConsensusConfig"@, consensus_slots());
    }
    let contract = Contract::new("ConsensusConfig").declare_all(&slots);
    assert(contract@.modules =~= consensus_schema().modules);
    contract
}

/// Enters a deployment's implementation of the contract into a profile:
/// the profile claims the contract, and binds what the deployment supplies
/// for each slot, in the order of the slots.
///
/// Whatever the deployment supplies, the profile then binds every required
/// slot of the contract, and what it binds for other contracts is as
/// before.
pub fn claim_consensus<T: ConsensusConfig>(deployment: &T, profile: Profile) -> (next: Profile)
    ensures
        exists|supplied: Seq<Supplied>|
            supplies(consensus_slots(), supplied) && next@ == profile@.implement("ConsensusConfig"@).supply(
                "ConsensusConfig"@,
                supplied,
            ),
        next@.claims == profile@.implement("ConsensusConfig"@).claims,
        binds_required(consensus_schema(), next@),
        forall|contract: Seq<char>, slot: Seq<char>|
            contract != "ConsensusConfig"@ ==> #[trigger] next@.binding(contract, slot) == profile@.binding(
                contract,
                slot,
            ),
{
    let mut supplied: Vec<(String, Option<Binding>)> = Vec::new();
    supplied.push(("DisabledValidators".to_owned(), deployment.disabled_validators()));
    supplied.push(("MaxAuthorities".to_owned(), deployment.max_authorities()));
    supplied.push(("MaxCandidates".to_owned(), deployment.max_candidates()));
    supplied.push(("MaxInvulnerables".to_owned(), deployment.max_invulnerables()));
    supplied.push(("MinEligibleCollators".to_owned(), deployment.min_eligible_collators()));
    supplied.push(("CollatorSelectionUpdateOrigin".to_owned(), Some(deployment.collator_selection_update_origin())));
    let claimed = profile.implement("ConsensusConfig");
    let next = claimed.supply("ConsensusConfig", &supplied);
    proof {
        let given = supplied_views(supplied@);
        assert(supplies(consensus_slots(), given));
        lemma_supplied_slots_bound(claimed@, consensus_schema(), given);
        claimed@.lemma_supply("ConsensusConfig"@, given);
    }
    next
}

} // verus!
