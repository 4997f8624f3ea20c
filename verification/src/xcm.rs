//! The contract for cross-chain messaging.

use crate::binder::{binds_required, lemma_supplied_slots_bound, supplies};
use crate::contract::{
    distinct_names, mark, Binding, BindingView, Category, Contract, ContractView, Slot, SlotView,
};
use crate::model::views;
use crate::profile::{supplied_views, Profile, Supplied};
use vstd::prelude::*;

verus! {

/// What a deployment supplies for cross-chain messaging.
///
/// A slot without a default is a method that the deployment must write. A
/// slot with a default is a method that it may write: `None` leaves the
/// contract's default in place.
pub trait XcmConfig {
    /// `LocationToAccountId`.
    fn location_to_account_id(&self) -> Binding;

    /// `LocalOriginToLocation`.
    fn local_origin_to_location(&self) -> Binding;

    /// `AssetTransactors`.
    fn asset_transactors(&self) -> Binding;

    /// `XcmOriginToTransactDispatchOrigin`.
    fn xcm_origin_to_transact_dispatch_origin(&self) -> Binding;

    /// `FeeManager`.
    fn fee_manager(&self) -> Binding;

    /// `Trader`.
    fn trader(&self) -> Binding;

    /// `Reserves`.
    fn reserves(&self) -> Binding;

    /// `MessageQueueHeapSize`.
    fn message_queue_heap_size(&self) -> Binding;

    /// `MessageQueueMaxStale`.
    fn message_queue_max_stale(&self) -> Binding;

    /// `MessageQueueServiceWeight`.
    fn message_queue_service_weight(&self) -> Binding;

    /// `XcmpQueueControllerOrigin`.
    fn xcmp_queue_controller_origin(&self) -> Binding;

    /// `XcmpQueueMaxInboundSuspended`.
    fn xcmp_queue_max_inbound_suspended(&self) -> Binding;

    /// `XcmAdminOrigin`.
    fn xcm_admin_origin(&self) -> Binding;

    /// `MaxActiveOutboundChannels`; by default 128.
    fn max_active_outbound_channels(&self) -> (supplied: Option<Binding>)
        default_ensures
            supplied is None,
    {
        None
    }

    /// `MaxPageSize`; by default 65536.
    fn max_page_size(&self) -> (supplied: Option<Binding>)
        default_ensures
            supplied is None,
    {
        None
    }

    /// `MaxAssetsForTransfer`.
    fn max_assets_for_transfer(&self) -> Binding;

    /// `ParachainMinFee`.
    fn parachain_min_fee(&self) -> Binding;

    /// `XtokensReserveProviders`.
    fn xtokens_reserve_providers(&self) -> Binding;

    /// `AccountIdToLocation`.
    fn account_id_to_location(&self) -> Binding;

    /// `BaseXcmWeight`.
    fn base_xcm_weight(&self) -> Binding;

    /// `CurrencyId`.
    fn currency_id(&self) -> Binding;

    /// `CurrencyIdToLocation`.
    fn currency_id_to_location(&self) -> Binding;

    /// `DerivativeAddressRegistrationOrigin`.
    fn derivative_address_registration_origin(&self) -> Binding;

    /// `HrmpManipulatorOrigin`.
    fn hrmp_manipulator_origin(&self) -> Binding;

    /// `HrmpOpenOrigin`.
    fn hrmp_open_origin(&self) -> Binding;

    /// `MaxHrmpRelayFee`.
    fn max_hrmp_relay_fee(&self) -> Binding;

    /// `TransactorReserveProvider`.
    fn transactor_reserve_provider(&self) -> Binding;

    /// `SelfLocation`.
    fn self_location(&self) -> Binding;

    /// `SovereignAccountDispatcherOrigin`.
    fn sovereign_account_dispatcher_origin(&self) -> Binding;

    /// `Transactors`.
    fn transactors(&self) -> Binding;

    /// `UniversalLocation`.
    fn universal_location(&self) -> Binding;

    /// `XcmWeigher`.
    fn xcm_weigher(&self) -> Binding;

    /// `XcmSender`.
    fn xcm_sender(&self) -> Binding;

    /// `AddSupportedAssetOrigin`.
    fn add_supported_asset_origin(&self) -> Binding;

    /// `AssetFeesFilter`.
    fn asset_fees_filter(&self) -> Binding;

    /// `EditSupportedAssetOrigin`.
    fn edit_supported_asset_origin(&self) -> Binding;

    /// `SelfReserve`.
    fn self_reserve(&self) -> Binding;

    /// `RelayLocation`.
    fn relay_location(&self) -> Binding;

    /// `PauseSupportedAssetOrigin`.
    fn pause_supported_asset_origin(&self) -> Binding;

    /// `RemoveSupportedAssetOrigin`.
    fn remove_supported_asset_origin(&self) -> Binding;

    /// `ResumeSupportedAssetOrigin`.
    fn resume_supported_asset_origin(&self) -> Binding;

    /// `WeightToFee`.
    fn weight_to_fee(&self) -> Binding;

    /// `XcmFeesAccount`.
    fn xcm_fees_account(&self) -> Binding;
}

/// The slots of the contract, in the order of their declaration.
pub open spec fn xcm_slots() -> Seq<SlotView> {
    Seq::empty()
        .push(SlotView::required("LocationToAccountId"@, Category::TypeAlias))
        .push(SlotView::required("LocalOriginToLocation"@, Category::TypeAlias))
        .push(SlotView::required("AssetTransactors"@, Category::TypeAlias))
        .push(SlotView::required("XcmOriginToTransactDispatchOrigin"@, Category::Origin))
        .push(SlotView::required("FeeManager"@, Category::TypeAlias))
        .push(SlotView::required("Trader"@, Category::TypeAlias))
        .push(SlotView::required("Reserves"@, Category::TypeAlias))
        .push(SlotView::required("MessageQueueHeapSize"@, Category::TypeAlias))
        .push(SlotView::required("MessageQueueMaxStale"@, Category::TypeAlias))
        .push(SlotView::required("MessageQueueServiceWeight"@, Category::TypeAlias))
        .push(SlotView::required("XcmpQueueControllerOrigin"@, Category::Origin))
        .push(SlotView::required("XcmpQueueMaxInboundSuspended"@, Category::TypeAlias))
        .push(SlotView::required("XcmAdminOrigin"@, Category::Origin))
        .push(SlotView::defaulted("MaxActiveOutboundChannels"@, Category::Constant, BindingView::Constant(128)))
        .push(SlotView::defaulted("MaxPageSize"@, Category::Constant, BindingView::Constant(65536)))
        .push(SlotView::required("MaxAssetsForTransfer"@, Category::TypeAlias))
        .push(SlotView::required("ParachainMinFee"@, Category::TypeAlias))
        .push(SlotView::required("XtokensReserveProviders"@, Category::TypeAlias))
        .push(SlotView::required("AccountIdToLocation"@, Category::TypeAlias))
        .push(SlotView::required("BaseXcmWeight"@, Category::TypeAlias))
        .push(SlotView::required("CurrencyId"@, Category::TypeAlias))
        .push(SlotView::required("CurrencyIdToLocation"@, Category::TypeAlias))
        .push(SlotView::required("DerivativeAddressRegistrationOrigin"@, Category::Origin))
        .push(SlotView::required("HrmpManipulatorOrigin"@, Category::Origin))
        .push(SlotView::required("HrmpOpenOrigin"@, Category::Origin))
        .push(SlotView::required("MaxHrmpRelayFee"@, Category::TypeAlias))
        .push(SlotView::required("TransactorReserveProvider"@, Category::TypeAlias))
        .push(SlotView::required("SelfLocation"@, Category::TypeAlias))
        .push(SlotView::required("SovereignAccountDispatcherOrigin"@, Category::Origin))
        .push(SlotView::required("Transactors"@, Category::TypeAlias))
        .push(SlotView::required("UniversalLocation"@, Category::TypeAlias))
        .push(SlotView::required("XcmWeigher"@, Category::TypeAlias))
        .push(SlotView::required("XcmSender"@, Category::TypeAlias))
        .push(SlotView::required("AddSupportedAssetOrigin"@, Category::Origin))
        .push(SlotView::required("AssetFeesFilter"@, Category::TypeAlias))
        .push(SlotView::required("EditSupportedAssetOrigin"@, Category::Origin))
        .push(SlotView::required("SelfReserve"@, Category::TypeAlias))
        .push(SlotView::required("RelayLocation"@, Category::TypeAlias))
        .push(SlotView::required("PauseSupportedAssetOrigin"@, Category::Origin))
        .push(SlotView::required("RemoveSupportedAssetOrigin"@, Category::Origin))
        .push(SlotView::required("ResumeSupportedAssetOrigin"@, Category::Origin))
        .push(SlotView::required("WeightToFee"@, Category::TypeAlias))
        .push(SlotView::required("XcmFeesAccount"@, Category::TypeAlias))
}

/// The schema of the contract.
pub open spec fn xcm_schema() -> ContractView {
    ContractView {
        name: "XcmConfig"@,
        slots: xcm_slots(),
        modules: Seq::empty(),
        benchmark: None,
    }
}

/// The slots of the contract have names of their own, so the schema is
/// well formed.
pub proof fn lemma_xcm_schema()
    ensures
        distinct_names(xcm_slots()),
        xcm_schema().wf(),
{
    reveal_strlit("LocationToAccountId");
    reveal_strlit("LocalOriginToLocation");
    reveal_strlit("AssetTransactors");
    reveal_strlit("XcmOriginToTransactDispatchOrigin");
    reveal_strlit("FeeManager");
    reveal_strlit("Trader");
    reveal_strlit("Reserves");
    reveal_strlit("MessageQueueHeapSize");
    reveal_strlit("MessageQueueMaxStale");
    reveal_strlit("MessageQueueServiceWeight");
    reveal_strlit("XcmpQueueControllerOrigin");
    reveal_strlit("XcmpQueueMaxInboundSuspended");
    reveal_strlit("XcmAdminOrigin");
    reveal_strlit("MaxActiveOutboundChannels");
    reveal_strlit("MaxPageSize");
    reveal_strlit("MaxAssetsForTransfer");
    reveal_strlit("ParachainMinFee");
    reveal_strlit("XtokensReserveProviders");
    reveal_strlit("AccountIdToLocation");
    reveal_strlit("BaseXcmWeight");
    reveal_strlit("CurrencyId");
    reveal_strlit("CurrencyIdToLocation");
    reveal_strlit("DerivativeAddressRegistrationOrigin");
    reveal_strlit("HrmpManipulatorOrigin");
    reveal_strlit("HrmpOpenOrigin");
    reveal_strlit("MaxHrmpRelayFee");
    reveal_strlit("TransactorReserveProvider");
    reveal_strlit("SelfLocation");
    reveal_strlit("SovereignAccountDispatcherOrigin");
    reveal_strlit("Transactors");
    reveal_strlit("UniversalLocation");
    reveal_strlit("XcmWeigher");
    reveal_strlit("XcmSender");
    reveal_strlit("AddSupportedAssetOrigin");
    reveal_strlit("AssetFeesFilter");
    reveal_strlit("EditSupportedAssetOrigin");
    reveal_strlit("SelfReserve");
    reveal_strlit("RelayLocation");
    reveal_strlit("PauseSupportedAssetOrigin");
    reveal_strlit("RemoveSupportedAssetOrigin");
    reveal_strlit("ResumeSupportedAssetOrigin");
    reveal_strlit("WeightToFee");
    reveal_strlit("XcmFeesAccount");
    assert(mark("LocationToAccountId"@) == (19nat, 'a', 'i', 'o'));
    assert(mark("LocalOriginToLocation"@) == (21nat, 'a', 'O', 'L'));
    assert(mark("AssetTransactors"@) == (16nat, 'e', 'T', 'o'));
    assert(mark("XcmOriginToTransactDispatchOrigin"@) == (33nat, 'O', 'i', 'a'));
    assert(mark("FeeManager"@) == (10nat, 'M', 'n', ' '));
    assert(mark("Trader"@) == (6nat, 'd', 'r', ' '));
    assert(mark("Reserves"@) == (8nat, 'e', 'v', ' '));
    assert(mark("MessageQueueHeapSize"@) == (20nat, 's', 'g', 'e'));
    assert(mark("MessageQueueMaxStale"@) == (20nat, 's', 'g', 'a'));
    assert(mark("MessageQueueServiceWeight"@) == (25nat, 's', 'g', 'e'));
    assert(mark("XcmpQueueControllerOrigin"@) == (25nat, 'p', 'u', 'r'));
    assert(mark("XcmpQueueMaxInboundSuspended"@) == (28nat, 'p', 'u', 'n'));
    assert(mark("XcmAdminOrigin"@) == (14nat, 'A', 'm', 'n'));
    assert(mark("MaxActiveOutboundChannels"@) == (25nat, 'A', 't', 'o'));
    assert(mark("MaxPageSize"@) == (11nat, 'P', 'g', ' '));
    assert(mark("MaxAssetsForTransfer"@) == (20nat, 'A', 's', 'r'));
    assert(mark("ParachainMinFee"@) == (15nat, 'a', 'h', 'e'));
    assert(mark("XtokensReserveProviders"@) == (23nat, 'k', 'n', 'e'));
    assert(mark("AccountIdToLocation"@) == (19nat, 'o', 'n', 'c'));
    assert(mark("BaseXcmWeight"@) == (13nat, 'e', 'c', ' '));
    assert(mark("CurrencyId"@) == (10nat, 'r', 'n', ' '));
    assert(mark("CurrencyIdToLocation"@) == (20nat, 'r', 'n', 'o'));
    assert(mark("DerivativeAddressRegistrationOrigin"@) == (35nat, 'i', 'a', 'r'));
    assert(mark("HrmpManipulatorOrigin"@) == (21nat, 'p', 'a', 'o'));
    assert(mark("HrmpOpenOrigin"@) == (14nat, 'p', 'p', 'n'));
    assert(mark("MaxHrmpRelayFee"@) == (15nat, 'H', 'm', 'e'));
    assert(mark("TransactorReserveProvider"@) == (25nat, 'n', 'a', 'e'));
    assert(mark("SelfLocation"@) == (12nat, 'f', 'o', ' '));
    assert(mark("SovereignAccountDispatcherOrigin"@) == (32nat, 'e', 'e', 'u'));
    assert(mark("Transactors"@) == (11nat, 'n', 'a', ' '));
    assert(mark("UniversalLocation"@) == (17nat, 'v', 'r', 't'));
    assert(mark("XcmWeigher"@) == (10nat, 'W', 'i', ' '));
    assert(mark("XcmSender"@) == (9nat, 'S', 'n', ' '));
    assert(mark("AddSupportedAssetOrigin"@) == (23nat, 'S', 'p', 's'));
    assert(mark("AssetFeesFilter"@) == (15nat, 'e', 'F', 'e'));
    assert(mark("EditSupportedAssetOrigin"@) == (24nat, 't', 'u', 'A'));
    assert(mark("SelfReserve"@) == (11nat, 'f', 'e', ' '));
    assert(mark("RelayLocation"@) == (13nat, 'a', 'L', ' '));
    assert(mark("PauseSupportedAssetOrigin"@) == (25nat, 's', 'S', 'd'));
    assert(mark("RemoveSupportedAssetOrigin"@) == (26nat, 'o', 'e', 'e'));
    assert(mark("ResumeSupportedAssetOrigin"@) == (26nat, 'u', 'e', 'e'));
    assert(mark("WeightToFee"@) == (11nat, 'g', 't', ' '));
    assert(mark("XcmFeesAccount"@) == (14nat, 'F', 'e', 't'));
}

/// Builds the contract.
pub fn xcm_contract() -> (contract: Contract)
    ensures
        contract@ == xcm_schema(),
        contract@.wf(),
{
    let mut slots: Vec<Slot> = Vec::new();
    slots.push(Slot::required("LocationToAccountId", Category::TypeAlias));
    slots.push(Slot::required("LocalOriginToLocation", Category::TypeAlias));
    slots.push(Slot::required("AssetTransactors", Category::TypeAlias));
    slots.push(Slot::required("XcmOriginToTransactDispatchOrigin", Category::Origin));
    slots.push(Slot::required("FeeManager", Category::TypeAlias));
    slots.push(Slot::required("Trader", Category::TypeAlias));
    slots.push(Slot::required("Reserves", Category::TypeAlias));
    slots.push(Slot::required("MessageQueueHeapSize", Category::TypeAlias));
    slots.push(Slot::required("MessageQueueMaxStale", Category::TypeAlias));
    slots.push(Slot::required("MessageQueueServiceWeight", Category::TypeAlias));
    slots.push(Slot::required("XcmpQueueControllerOrigin", Category::Origin));
    slots.push(Slot::required("XcmpQueueMaxInboundSuspended", Category::TypeAlias));
    slots.push(Slot::required("XcmAdminOrigin", Category::Origin));
    slots.push(Slot::defaulted("MaxActiveOutboundChannels", Category::Constant, Binding::Constant(128)));
    slots.push(Slot::defaulted("MaxPageSize", Category::Constant, Binding::Constant(65536)));
    slots.push(Slot::required("MaxAssetsForTransfer", Category::TypeAlias));
    slots.push(Slot::required("ParachainMinFee", Category::TypeAlias));
    slots.push(Slot::required("XtokensReserveProviders", Category::TypeAlias));
    slots.push(Slot::required("AccountIdToLocation", Category::TypeAlias));
    slots.push(Slot::required("BaseXcmWeight", Category::TypeAlias));
    slots.push(Slot::required("CurrencyId", Category::TypeAlias));
    slots.push(Slot::required("CurrencyIdToLocation", Category::TypeAlias));
    slots.push(Slot::required("DerivativeAddressRegistrationOrigin", Category::Origin));
    slots.push(Slot::required("HrmpManipulatorOrigin", Category::Origin));
    slots.push(Slot::required("HrmpOpenOrigin", Category::Origin));
    slots.push(Slot::required("MaxHrmpRelayFee", Category::TypeAlias));
    slots.push(Slot::required("TransactorReserveProvider", Category::TypeAlias));
    slots.push(Slot::required("SelfLocation", Category::TypeAlias));
    slots.push(Slot::required("SovereignAccountDispatcherOrigin", Category::Origin));
    slots.push(Slot::required("Transactors", Category::TypeAlias));
    slots.push(Slot::required("UniversalLocation", Category::TypeAlias));
    slots.push(Slot::required("XcmWeigher", Category::TypeAlias));
    slots.push(Slot::required("XcmSender", Category::TypeAlias));
    slots.push(Slot::required("AddSupportedAssetOrigin", Category::Origin));
    slots.push(Slot::required("AssetFeesFilter", Category::TypeAlias));
    slots.push(Slot::required("EditSupportedAssetOrigin", Category::Origin));
    slots.push(Slot::required("SelfReserve", Category::TypeAlias));
    slots.push(Slot::required("RelayLocation", Category::TypeAlias));
    slots.push(Slot::required("PauseSupportedAssetOrigin", Category::Origin));
    slots.push(Slot::required("RemoveSupportedAssetOrigin", Category::Origin));
    slots.push(Slot::required("ResumeSupportedAssetOrigin", Category::Origin));
    slots.push(Slot::required("WeightToFee", Category::TypeAlias));
    slots.push(Slot::required("XcmFeesAccount", Category::TypeAlias));
    proof {
        assert(views(slots@) =~= xcm_slots());
        lemma_xcm_schema();
        ContractView::lemma_declare_all_distinct("XcmConfig"@, xcm_slots());
    }
    let contract = Contract::new("XcmConfig").declare_all(&slots);
    assert(contract@.modules =~= xcm_schema().modules);
    contract
}

/// Enters a deployment's implementation of the contract into a profile:
/// the profile claims the contract, and binds what the deployment supplies
/// for each slot, in the order of the slots.
///
/// Whatever the deployment supplies, the profile then binds every required
/// slot of the contract, and what it binds for other contracts is as
/// before.
pub fn claim_xcm<T: XcmConfig>(deployment: &T, profile: Profile) -> (next: Profile)
    ensures
        exists|supplied: Seq<Supplied>|
            supplies(xcm_slots(), supplied) && next@ == profile@.implement("XcmConfig"@).supply(
                "XcmConfig"@,
                supplied,
            ),
        next@.claims == profile@.implement("XcmConfig"@).claims,
        binds_required(xcm_schema(), next@),
        forall|contract: Seq<char>, slot: Seq<char>|
            contract != "XcmConfig"@ ==> #[trigger] next@.binding(contract, slot) == profile@.binding(
                contract,
                slot,
            ),
{
    let mut supplied: Vec<(String, Option<Binding>)> = Vec::new();
    supplied.push(("LocationToAccountId".to_owned(), Some(deployment.location_to_account_id())));
    supplied.push(("LocalOriginToLocation".to_owned(), Some(deployment.local_origin_to_location())));
    supplied.push(("AssetTransactors".to_owned(), Some(deployment.asset_transactors())));
    supplied.push(("XcmOriginToTransactDispatchOrigin".to_owned(), Some(deployment.xcm_origin_to_transact_dispatch_origin())));
    supplied.push(("FeeManager".to_owned(), Some(deployment.fee_manager())));
    supplied.push(("Trader".to_owned(), Some(deployment.trader())));
    supplied.push(("Reserves".to_owned(), Some(deployment.reserves())));
    supplied.push(("MessageQueueHeapSize".to_owned(), Some(deployment.message_queue_heap_size())));
    supplied.push(("MessageQueueMaxStale".to_owned(), Some(deployment.message_queue_max_stale())));
    supplied.push(("MessageQueueServiceWeight".to_owned(), Some(deployment.message_queue_service_weight())));
    supplied.push(("XcmpQueueControllerOrigin".to_owned(), Some(deployment.xcmp_queue_controller_origin())));
    supplied.push(("XcmpQueueMaxInboundSuspended".to_owned(), Some(deployment.xcmp_queue_max_inbound_suspended())));
    supplied.push(("XcmAdminOrigin".to_owned(), Some(deployment.xcm_admin_origin())));
    supplied.push(("MaxActiveOutboundChannels".to_owned(), deployment.max_active_outbound_channels()));
    supplied.push(("MaxPageSize".to_owned(), deployment.max_page_size()));
    supplied.push(("MaxAssetsForTransfer".to_owned(), Some(deployment.max_assets_for_transfer())));
    supplied.push(("ParachainMinFee".to_owned(), Some(deployment.parachain_min_fee())));
    supplied.push(("XtokensReserveProviders".to_owned(), Some(deployment.xtokens_reserve_providers())));
    supplied.push(("AccountIdToLocation".to_owned(), Some(deployment.account_id_to_location())));
    supplied.push(("BaseXcmWeight".to_owned(), Some(deployment.base_xcm_weight())));
    supplied.push(("CurrencyId".to_owned(), Some(deployment.currency_id())));
    supplied.push(("CurrencyIdToLocation".to_owned(), Some(deployment.currency_id_to_location())));
    supplied.push(("DerivativeAddressRegistrationOrigin".to_owned(), Some(deployment.derivative_address_registration_origin())));
    supplied.push(("HrmpManipulatorOrigin".to_owned(), Some(deployment.hrmp_manipulator_origin())));
    supplied.push(("HrmpOpenOrigin".to_owned(), Some(deployment.hrmp_open_origin())));
    supplied.push(("MaxHrmpRelayFee".to_owned(), Some(deployment.max_hrmp_relay_fee())));
    supplied.push(("TransactorReserveProvider".to_owned(), Some(deployment.transactor_reserve_provider())));
    supplied.push(("SelfLocation".to_owned(), Some(deployment.self_location())));
    supplied.push(("SovereignAccountDispatcherOrigin".to_owned(), Some(deployment.sovereign_account_dispatcher_origin())));
    supplied.push(("Transactors".to_owned(), Some(deployment.transactors())));
    supplied.push(("UniversalLocation".to_owned(), Some(deployment.universal_location())));
    supplied.push(("XcmWeigher".to_owned(), Some(deployment.xcm_weigher())));
    supplied.push(("XcmSender".to_owned(), Some(deployment.xcm_sender())));
    supplied.push(("AddSupportedAssetOrigin".to_owned(), Some(deployment.add_supported_asset_origin())));
    supplied.push(("AssetFeesFilter".to_owned(), Some(deployment.asset_fees_filter())));
    supplied.push(("EditSupportedAssetOrigin".to_owned(), Some(deployment.edit_supported_asset_origin())));
    supplied.push(("SelfReserve".to_owned(), Some(deployment.self_reserve())));
    supplied.push(("RelayLocation".to_owned(), Some(deployment.relay_location())));
    supplied.push(("PauseSupportedAssetOrigin".to_owned(), Some(deployment.pause_supported_asset_origin())));
    supplied.push(("RemoveSupportedAssetOrigin".to_owned(), Some(deployment.remove_supported_asset_origin())));
    supplied.push(("ResumeSupportedAssetOrigin".to_owned(), Some(deployment.resume_supported_asset_origin())));
    supplied.push(("WeightToFee".to_owned(), Some(deployment.weight_to_fee())));
    supplied.push(("XcmFeesAccount".to_owned(), Some(deployment.xcm_fees_account())));
    let claimed = profile.implement("XcmConfig");
    let next = claimed.supply("XcmConfig", &supplied);
    proof {
        let given = supplied_views(supplied@);
        assert(supplies(xcm_slots(), given));
        lemma_supplied_slots_bound(claimed@, xcm_schema(), given);
        claimed@.lemma_supply("XcmConfig"@, given);
    }
    next
}

} // verus!
