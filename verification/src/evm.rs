//! The contract for compatibility with the EVM.

use crate::binder::{binds_required, lemma_supplied_slots_bound, supplies};
use crate::contract::{
    distinct_names, mark, Binding, Category, Contract, ContractView, Slot, SlotView,
};
use crate::model::views;
use crate::profile::{supplied_views, Profile, Supplied};
use vstd::prelude::*;

verus! {

/// What a deployment supplies for compatibility with the EVM.
///
/// A slot without a default is a method that the deployment must write. A
/// slot with a default is a method that it may write: `None` leaves the
/// contract's default in place.
pub trait EvmConfig {
    /// `AddressMapping`.
    fn address_mapping(&self) -> Binding;

    /// `FindAuthor`.
    fn find_author(&self) -> Binding;

    /// `CallOrigin`.
    fn call_origin(&self) -> Binding;

    /// `WithdrawOrigin`.
    fn withdraw_origin(&self) -> Binding;

    /// `PrecompilesType`.
    fn precompiles_type(&self) -> Binding;

    /// `PrecompilesValue`.
    fn precompiles_value(&self) -> Binding;

    /// `Erc20XcmBridgeTransferGasLimit`.
    fn erc20_xcm_bridge_transfer_gas_limit(&self) -> Binding;
}

/// The slots of the contract, in the order of their declaration.
pub open spec fn evm_slots() -> Seq<SlotView> {
    Seq::empty()
        .push(SlotView::required("AddressMapping"@, Category::TypeAlias))
        .push(SlotView::required("FindAuthor"@, Category::TypeAlias))
        .push(SlotView::required("CallOrigin"@, Category::Origin))
        .push(SlotView::required("WithdrawOrigin"@, Category::Origin))
        .push(SlotView::required("PrecompilesType"@, Category::TypeAlias))
        .push(SlotView::required("PrecompilesValue"@, Category::TypeAlias))
        .push(SlotView::required("Erc20XcmBridgeTransferGasLimit"@, Category::TypeAlias))
}

/// The schema of the contract.
pub open spec fn evm_schema() -> ContractView {
    ContractView {
        name: "EvmConfig"@,
        slots: evm_slots(),
        modules: Seq::empty(),
        benchmark: None,
    }
}

/// The slots of the contract have names of their own, so the schema is
/// well formed.
pub proof fn lemma_evm_schema()
    ensures
        distinct_names(evm_slots()),
        evm_schema().wf(),
{
    reveal_strlit("AddressMapping");
    reveal_strlit("FindAuthor");
    reveal_strlit("CallOrigin");
    reveal_strlit("WithdrawOrigin");
    reveal_strlit("PrecompilesType");
    reveal_strlit("PrecompilesValue");
    reveal_strlit("Erc20XcmBridgeTransferGasLimit");
    assert(mark("AddressMapping"@) == (14nat, 'r', 's', 'g'));
    assert(mark("FindAuthor"@) == (10nat, 'd', 'u', ' '));
    assert(mark("CallOrigin"@) == (10nat, 'l', 'r', ' '));
    assert(mark("WithdrawOrigin"@) == (14nat, 'h', 'r', 'n'));
    assert(mark("PrecompilesType"@) == (15nat, 'c', 'm', 'p'));
    assert(mark("PrecompilesValue"@) == (16nat, 'c', 'm', 'l'));
    assert(mark("Erc20XcmBridgeTransferGasLimit"@) == (30nat, '2', 'X', 'e'));
}

/// Builds the contract.
pub fn evm_contract() -> (contract: Contract)
    ensures
        contract@ == evm_schema(),
        contract@.wf(),
{
    let mut slots: Vec<Slot> = Vec::new();
    slots.push(Slot::required("AddressMapping", Category::TypeAlias));
    slots.push(Slot::required("FindAuthor", Category::TypeAlias));
    slots.push(Slot::required("CallOrigin", Category::Origin));
    slots.push(Slot::required("WithdrawOrigin", Category::Origin));
    slots.push(Slot::required("PrecompilesType", Category::TypeAlias));
    slots.push(Slot::required("PrecompilesValue", Category::TypeAlias));
    slots.push(Slot::required("Erc20XcmBridgeTransferGasLimit", Category::TypeAlias));
    proof {
        assert(views(slots@) =~= evm_slots());
        lemma_evm_schema();
        ContractView::lemma_declare_all_distinct("EvmConfig"@, evm_slots());
    }
    let contract = Contract::new("EvmConfig").declare_all(&slots);
    assert(contract@.modules =~= evm_schema().modules);
    contract
}

/// Enters a deployment's implementation of the contract into a profile:
/// the profile claims the contract, and binds what the deployment supplies
/// for each slot, in the order of the slots.
///
/// Whatever the deployment supplies, the profile then binds every required
/// slot of the contract, and what it binds for other contracts is as
/// before.
pub fn claim_evm<T: EvmConfig>(deployment: &T, profile: Profile) -> (next: Profile)
    ensures
        exists|supplied: Seq<Supplied>|
            supplies(evm_slots(), supplied) && next@ == profile@.implement("EvmConfig"@).supply(
                "EvmConfig"@,
                supplied,
            ),
        next@.claims == profile@.implement("EvmConfig"@).claims,
        binds_required(evm_schema(), next@),
        forall|contract: Seq<char>, slot: Seq<char>|
            contract != "EvmConfig"@ ==> #[trigger] next@.binding(contract, slot) == profile@.binding(
                contract,
                slot,
            ),
{
    let mut supplied: Vec<(String, Option<Binding>)> = Vec::new();
    supplied.push(("AddressMapping".to_owned(), Some(deployment.address_mapping())));
    supplied.push(("FindAuthor".to_owned(), Some(deployment.find_author())));
    supplied.push(("CallOrigin".to_owned(), Some(deployment.call_origin())));
    supplied.push(("WithdrawOrigin".to_owned(), Some(deployment.withdraw_origin())));
    supplied.push(("PrecompilesType".to_owned(), Some(deployment.precompiles_type())));
    supplied.push(("PrecompilesValue".to_owned(), Some(deployment.precompiles_value())));
    supplied.push(("Erc20XcmBridgeTransferGasLimit".to_owned(), Some(deployment.erc20_xcm_bridge_transfer_gas_limit())));
    let claimed = profile.implement("EvmConfig");
    let next = claimed.supply("EvmConfig", &supplied);
    proof {
        let given = supplied_views(supplied@);
        assert(supplies(evm_slots(), given));
        lemma_supplied_slots_bound(claimed@, evm_schema(), given);
        claimed@.lemma_supply("EvmConfig"@, given);
    }
    next
}

} // verus!
