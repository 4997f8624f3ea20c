//! The contract for fungible assets and the fees paid in them.

use crate::binder::{
    binds_required, expand, expansion_of, lemma_complete_profile_expands, lemma_supplied_slots_bound,
    supplies, EntryView, Expansion, ExpansionView,
};
use crate::contract::{
    distinct_names, mark, Adapter, Binding, BindingView, Category, Contract, ContractView, Field,
    FieldView, ModuleTemplate, ModuleTemplateView, SharedKind, Slot, SlotView, Source, SourceView,
};
use crate::error::GenErrorView;
use crate::model::views;
use crate::profile::{
    supplied_views, Profile, ProfileView, SharedTypes, SharedTypesView, Supplied,
};
use vstd::prelude::*;

verus! {

/// What a deployment supplies for fungible assets and the fees paid in them.
///
/// A slot without a default is a method that the deployment must write. A
/// slot with a default is a method that it may write: `None` leaves the
/// contract's default in place.
pub trait AssetsConfig {
    /// `ApprovalDeposit`.
    fn approval_deposit(&self) -> Binding;

    /// `AssetAccountDeposit`.
    fn asset_account_deposit(&self) -> Binding;

    /// `AssetDeposit`.
    fn asset_deposit(&self) -> Binding;

    /// `AssetId`.
    fn asset_id(&self) -> Binding;

    /// `AssetType`.
    fn asset_type(&self) -> Binding;

    /// `BenchmarkHelper`; by default the unit type.
    fn benchmark_helper(&self) -> (supplied: Option<Binding>)
        default_ensures
            supplied is None,
    {
        None
    }

    /// `CreateOrigin`.
    fn create_origin(&self) -> Binding;

    /// `ForceOrigin`.
    fn force_origin(&self) -> Binding;

    /// `ForeignAssetModifierOrigin`.
    fn foreign_asset_modifier_origin(&self) -> Binding;

    /// `AssetRegistrar`.
    fn asset_registrar(&self) -> Binding;

    /// `AssetRegistrarMetadata`.
    fn asset_registrar_metadata(&self) -> Binding;

    /// `WeightToFee`.
    fn weight_to_fee(&self) -> Binding;
}

/// The weights that a deployment supplies for the modules of the assets
/// contract.
pub trait AssetsWeight {
    /// The weights of the ledger.
    fn assets(&self) -> Binding;

    /// The weights of the registry of foreign assets.
    fn asset_manager(&self) -> Binding;
}

/// The slots of the contract, in the order of their declaration.
pub open spec fn assets_slots() -> Seq<SlotView> {
    Seq::empty()
        .push(SlotView::required("ApprovalDeposit"@, Category::TypeAlias))
        .push(SlotView::required("AssetAccountDeposit"@, Category::TypeAlias))
        .push(SlotView::required("AssetDeposit"@, Category::TypeAlias))
        .push(SlotView::required("AssetId"@, Category::TypeAlias))
        .push(SlotView::required("AssetType"@, Category::TypeAlias))
        .push(SlotView::defaulted("BenchmarkHelper"@, Category::TypeAlias, BindingView::Unit))
        .push(SlotView::required("CreateOrigin"@, Category::Origin))
        .push(SlotView::required("ForceOrigin"@, Category::Origin))
        .push(SlotView::required("ForeignAssetModifierOrigin"@, Category::Origin))
        .push(SlotView::required("AssetRegistrar"@, Category::TypeAlias))
        .push(SlotView::required("AssetRegistrarMetadata"@, Category::TypeAlias))
        .push(SlotView::required("WeightToFee"@, Category::TypeAlias))
        .push(SlotView::defaulted("StringLimit"@, Category::Constant, BindingView::Constant(50)))
        .push(SlotView::defaulted("MetadataDepositBase"@, Category::Constant, BindingView::Verbatim("deposit(1, 68)"@)))
        .push(SlotView::defaulted("MetadataDepositPerByte"@, Category::Constant, BindingView::Verbatim("deposit(0, 1)"@)))
        .push(SlotView::defaulted("RemoveItemsLimit"@, Category::Constant, BindingView::Constant(1000)))
        .push(SlotView::defaulted("TransactionByteFee"@, Category::Constant, BindingView::Verbatim("10 * MICROCENTS"@)))
        .push(SlotView::defaulted("OperationalFeeMultiplier"@, Category::Constant, BindingView::Constant(5)))
        .push(SlotView::required("AssetsWeight"@, Category::WeightInfo))
        .push(SlotView::required("AssetManagerWeight"@, Category::WeightInfo))
}

/// The wiring of the ledger of assets.
pub open spec fn ledger_wiring() -> ModuleTemplateView {
    ModuleTemplateView::empty("Assets"@, "pallet_assets"@)
        .with_field(FieldView::slot("ApprovalDeposit"@, "ApprovalDeposit"@))
        .with_field(FieldView::slot("AssetAccountDeposit"@, "AssetAccountDeposit"@))
        .with_field(FieldView::slot("AssetDeposit"@, "AssetDeposit"@))
        .with_field(FieldView::slot("AssetId"@, "AssetId"@))
        .with_field(FieldView::adapted("AssetIdParameter"@, SourceView::Slot("AssetId"@), Adapter::Compact))
        .with_field(FieldView::shared("Balance"@, SharedKind::Balance))
        .with_field(FieldView::fixed("CallbackHandle"@, BindingView::Unit))
        .with_field(FieldView::slot("CreateOrigin"@, "CreateOrigin"@))
        .with_field(FieldView::shared("Currency"@, SharedKind::Currency))
        .with_field(FieldView::fixed("Extra"@, BindingView::Unit))
        .with_field(FieldView::slot("ForceOrigin"@, "ForceOrigin"@))
        .with_field(FieldView::fixed("Freezer"@, BindingView::Unit))
        .with_field(FieldView::slot("MetadataDepositBase"@, "MetadataDepositBase"@))
        .with_field(FieldView::slot("MetadataDepositPerByte"@, "MetadataDepositPerByte"@))
        .with_field(FieldView::slot("RemoveItemsLimit"@, "RemoveItemsLimit"@))
        .with_field(FieldView::shared("RuntimeEvent"@, SharedKind::Event))
        .with_field(FieldView::slot("StringLimit"@, "StringLimit"@))
        .with_field(FieldView::slot("WeightInfo"@, "AssetsWeight"@))
}

/// Builds the wiring of the ledger of assets.
pub fn ledger() -> (module: ModuleTemplate)
    ensures
        module@ == ledger_wiring(),
{
    ModuleTemplate::new("Assets", "pallet_assets")
        .with_field(Field::slot("ApprovalDeposit", "ApprovalDeposit"))
        .with_field(Field::slot("AssetAccountDeposit", "AssetAccountDeposit"))
        .with_field(Field::slot("AssetDeposit", "AssetDeposit"))
        .with_field(Field::slot("AssetId", "AssetId"))
        .with_field(Field::adapted("AssetIdParameter", Source::Slot("AssetId".to_owned()), Adapter::Compact))
        .with_field(Field::shared("Balance", SharedKind::Balance))
        .with_field(Field::fixed("CallbackHandle", Binding::Unit))
        .with_field(Field::slot("CreateOrigin", "CreateOrigin"))
        .with_field(Field::shared("Currency", SharedKind::Currency))
        .with_field(Field::fixed("Extra", Binding::Unit))
        .with_field(Field::slot("ForceOrigin", "ForceOrigin"))
        .with_field(Field::fixed("Freezer", Binding::Unit))
        .with_field(Field::slot("MetadataDepositBase", "MetadataDepositBase"))
        .with_field(Field::slot("MetadataDepositPerByte", "MetadataDepositPerByte"))
        .with_field(Field::slot("RemoveItemsLimit", "RemoveItemsLimit"))
        .with_field(Field::shared("RuntimeEvent", SharedKind::Event))
        .with_field(Field::slot("StringLimit", "StringLimit"))
        .with_field(Field::slot("WeightInfo", "AssetsWeight"))
}

/// The wiring of the module that charges transaction fees.
pub open spec fn fees_wiring() -> ModuleTemplateView {
    ModuleTemplateView::empty("TransactionPayment"@, "pallet_transaction_payment"@)
        .with_field(FieldView::fixed("FeeMultiplierUpdate"@, BindingView::Verbatim("SlowAdjustingFeeUpdate<Self>"@)))
        .with_field(FieldView::adapted("LengthToFee"@, SourceView::Slot("TransactionByteFee"@), Adapter::ConstantMultiplier))
        .with_field(FieldView::adapted("OnChargeTransaction"@, SourceView::Shared(SharedKind::Currency), Adapter::FungibleAdapter))
        .with_field(FieldView::slot("OperationalFeeMultiplier"@, "OperationalFeeMultiplier"@))
        .with_field(FieldView::shared("RuntimeEvent"@, SharedKind::Event))
        .with_field(FieldView::slot("WeightToFee"@, "WeightToFee"@))
}

/// Builds the wiring of the module that charges transaction fees.
pub fn fees() -> (module: ModuleTemplate)
    ensures
        module@ == fees_wiring(),
{
    ModuleTemplate::new("TransactionPayment", "pallet_transaction_payment")
        .with_field(Field::fixed("FeeMultiplierUpdate", Binding::verbatim("SlowAdjustingFeeUpdate<Self>")))
        .with_field(Field::adapted("LengthToFee", Source::Slot("TransactionByteFee".to_owned()), Adapter::ConstantMultiplier))
        .with_field(Field::adapted("OnChargeTransaction", Source::Shared(SharedKind::Currency), Adapter::FungibleAdapter))
        .with_field(Field::slot("OperationalFeeMultiplier", "OperationalFeeMultiplier"))
        .with_field(Field::shared("RuntimeEvent", SharedKind::Event))
        .with_field(Field::slot("WeightToFee", "WeightToFee"))
}

/// The wiring of the registry of foreign assets.
pub open spec fn registry_wiring() -> ModuleTemplateView {
    ModuleTemplateView::empty("AssetManager"@, "pallet_asset_manager"@)
        .with_field(FieldView::fixed("AssetId"@, BindingView::Verbatim("AssetId"@)))
        .with_field(FieldView::slot("AssetRegistrar"@, "AssetRegistrar"@))
        .with_field(FieldView::slot("AssetRegistrarMetadata"@, "AssetRegistrarMetadata"@))
        .with_field(FieldView::shared("Balance"@, SharedKind::Balance))
        .with_field(FieldView::slot("ForeignAssetModifierOrigin"@, "ForeignAssetModifierOrigin"@))
        .with_field(FieldView::slot("ForeignAssetType"@, "AssetType"@))
        .with_field(FieldView::shared("RuntimeEvent"@, SharedKind::Event))
        .with_field(FieldView::slot("WeightInfo"@, "AssetManagerWeight"@))
}

/// Builds the wiring of the registry of foreign assets.
pub fn registry() -> (module: ModuleTemplate)
    ensures
        module@ == registry_wiring(),
{
    ModuleTemplate::new("AssetManager", "pallet_asset_manager")
        .with_field(Field::fixed("AssetId", Binding::verbatim("AssetId")))
        .with_field(Field::slot("AssetRegistrar", "AssetRegistrar"))
        .with_field(Field::slot("AssetRegistrarMetadata", "AssetRegistrarMetadata"))
        .with_field(Field::shared("Balance", SharedKind::Balance))
        .with_field(Field::slot("ForeignAssetModifierOrigin", "ForeignAssetModifierOrigin"))
        .with_field(Field::slot("ForeignAssetType", "AssetType"))
        .with_field(Field::shared("RuntimeEvent", SharedKind::Event))
        .with_field(Field::slot("WeightInfo", "AssetManagerWeight"))
}

/// The schema of the contract.
pub open spec fn assets_schema() -> ContractView {
    ContractView {
        name: "AssetsConfig"@,
        slots: assets_slots(),
        modules: Seq::empty().push(ledger_wiring()).push(fees_wiring()).push(registry_wiring()),
        benchmark: Some("AssetId"@),
    }
}

/// The slots of the contract have names of their own, so the schema is
/// well formed.
pub proof fn lemma_assets_schema()
    ensures
        distinct_names(assets_slots()),
        assets_schema().wf(),
{
    reveal_strlit("ApprovalDeposit");
    reveal_strlit("AssetAccountDeposit");
    reveal_strlit("AssetDeposit");
    reveal_strlit("AssetId");
    reveal_strlit("AssetType");
    reveal_strlit("BenchmarkHelper");
    reveal_strlit("CreateOrigin");
    reveal_strlit("ForceOrigin");
    reveal_strlit("ForeignAssetModifierOrigin");
    reveal_strlit("AssetRegistrar");
    reveal_strlit("AssetRegistrarMetadata");
    reveal_strlit("WeightToFee");
    reveal_strlit("StringLimit");
    reveal_strlit("MetadataDepositBase");
    reveal_strlit("MetadataDepositPerByte");
    reveal_strlit("RemoveItemsLimit");
    reveal_strlit("TransactionByteFee");
    reveal_strlit("OperationalFeeMultiplier");
    reveal_strlit("AssetsWeight");
    reveal_strlit("AssetManagerWeight");
    assert(mark("ApprovalDeposit"@) == (15nat, 'r', 'v', 'i'));
    assert(mark("AssetAccountDeposit"@) == (19nat, 'e', 'A', 'e'));
    assert(mark("AssetDeposit"@) == (12nat, 'e', 'D', ' '));
    assert(mark("AssetId"@) == (7nat, 'e', 'I', ' '));
    assert(mark("AssetType"@) == (9nat, 'e', 'T', ' '));
    assert(mark("BenchmarkHelper"@) == (15nat, 'c', 'm', 'e'));
    assert(mark("CreateOrigin"@) == (12nat, 'a', 'e', ' '));
    assert(mark("ForceOrigin"@) == (11nat, 'c', 'O', ' '));
    assert(mark("ForeignAssetModifierOrigin"@) == (26nat, 'e', 'g', 'o'));
    assert(mark("AssetRegistrar"@) == (14nat, 'e', 'R', 'r'));
    assert(mark("AssetRegistrarMetadata"@) == (22nat, 'e', 'R', 'r'));
    assert(mark("WeightToFee"@) == (11nat, 'g', 't', ' '));
    assert(mark("StringLimit"@) == (11nat, 'i', 'g', ' '));
    assert(mark("MetadataDepositBase"@) == (19nat, 'a', 'a', 'i'));
    assert(mark("MetadataDepositPerByte"@) == (22nat, 'a', 'a', 'i'));
    assert(mark("RemoveItemsLimit"@) == (16nat, 'o', 'e', 'm'));
    assert(mark("TransactionByteFee"@) == (18nat, 'n', 'a', 't'));
    assert(mark("OperationalFeeMultiplier"@) == (24nat, 'r', 't', 'e'));
    assert(mark("AssetsWeight"@) == (12nat, 'e', 's', ' '));
    assert(mark("AssetManagerWeight"@) == (18nat, 'e', 'M', 'e'));
    let slots = assets_slots();
    assert(slots[0].name == "ApprovalDeposit"@);
    assert(slots[1].name == "AssetAccountDeposit"@);
    assert(slots[2].name == "AssetDeposit"@);
    assert(slots[3].name == "AssetId"@);
    assert(slots[4].name == "AssetType"@);
    assert(slots[6].name == "CreateOrigin"@);
    assert(slots[7].name == "ForceOrigin"@);
    assert(slots[8].name == "ForeignAssetModifierOrigin"@);
    assert(slots[9].name == "AssetRegistrar"@);
    assert(slots[10].name == "AssetRegistrarMetadata"@);
    assert(slots[11].name == "WeightToFee"@);
    assert(slots[12].name == "StringLimit"@);
    assert(slots[13].name == "MetadataDepositBase"@);
    assert(slots[14].name == "MetadataDepositPerByte"@);
    assert(slots[15].name == "RemoveItemsLimit"@);
    assert(slots[16].name == "TransactionByteFee"@);
    assert(slots[17].name == "OperationalFeeMultiplier"@);
    assert(slots[18].name == "AssetsWeight"@);
    assert(slots[19].name == "AssetManagerWeight"@);
    assert(ledger_wiring().resolves_in(assets_schema()));
    assert(fees_wiring().resolves_in(assets_schema()));
    assert(registry_wiring().resolves_in(assets_schema()));
}

/// Builds the contract.
pub fn assets_contract() -> (contract: Contract)
    ensures
        contract@ == assets_schema(),
        contract@.wf(),
{
    let mut slots: Vec<Slot> = Vec::new();
    slots.push(Slot::required("ApprovalDeposit", Category::TypeAlias));
    slots.push(Slot::required("AssetAccountDeposit", Category::TypeAlias));
    slots.push(Slot::required("AssetDeposit", Category::TypeAlias));
    slots.push(Slot::required("AssetId", Category::TypeAlias));
    slots.push(Slot::required("AssetType", Category::TypeAlias));
    slots.push(Slot::defaulted("BenchmarkHelper", Category::TypeAlias, Binding::Unit));
    slots.push(Slot::required("CreateOrigin", Category::Origin));
    slots.push(Slot::required("ForceOrigin", Category::Origin));
    slots.push(Slot::required("ForeignAssetModifierOrigin", Category::Origin));
    slots.push(Slot::required("AssetRegistrar", Category::TypeAlias));
    slots.push(Slot::required("AssetRegistrarMetadata", Category::TypeAlias));
    slots.push(Slot::required("WeightToFee", Category::TypeAlias));
    slots.push(Slot::defaulted("StringLimit", Category::Constant, Binding::Constant(50)));
    slots.push(Slot::defaulted("MetadataDepositBase", Category::Constant, Binding::verbatim("deposit(1, 68)")));
    slots.push(Slot::defaulted("MetadataDepositPerByte", Category::Constant, Binding::verbatim("deposit(0, 1)")));
    slots.push(Slot::defaulted("RemoveItemsLimit", Category::Constant, Binding::Constant(1000)));
    slots.push(Slot::defaulted("TransactionByteFee", Category::Constant, Binding::verbatim("10 * MICROCENTS")));
    slots.push(Slot::defaulted("OperationalFeeMultiplier", Category::Constant, Binding::Constant(5)));
    slots.push(Slot::required("AssetsWeight", Category::WeightInfo));
    slots.push(Slot::required("AssetManagerWeight", Category::WeightInfo));
    proof {
        assert(views(slots@) =~= assets_slots());
        lemma_assets_schema();
        ContractView::lemma_declare_all_distinct("AssetsConfig"@, assets_slots());
    }
    let declared = Contract::new("AssetsConfig").declare_all(&slots);
    proof {
        let table = assets_slots();
        assert(table[0].name == "ApprovalDeposit"@);
        assert(table[1].name == "AssetAccountDeposit"@);
        assert(table[2].name == "AssetDeposit"@);
        assert(table[3].name == "AssetId"@);
        assert(table[4].name == "AssetType"@);
        assert(table[6].name == "CreateOrigin"@);
        assert(table[7].name == "ForceOrigin"@);
        assert(table[8].name == "ForeignAssetModifierOrigin"@);
        assert(table[9].name == "AssetRegistrar"@);
        assert(table[10].name == "AssetRegistrarMetadata"@);
        assert(table[11].name == "WeightToFee"@);
        assert(table[12].name == "StringLimit"@);
        assert(table[13].name == "MetadataDepositBase"@);
        assert(table[14].name == "MetadataDepositPerByte"@);
        assert(table[15].name == "RemoveItemsLimit"@);
        assert(table[16].name == "TransactionByteFee"@);
        assert(table[17].name == "OperationalFeeMultiplier"@);
        assert(table[18].name == "AssetsWeight"@);
        assert(table[19].name == "AssetManagerWeight"@);
        assert(ledger_wiring().resolves_in(declared@));
    }
    let one = declared.with_module(ledger());
    assert(fees_wiring().resolves_in(one@));
    let two = one.with_module(fees());
    assert(registry_wiring().resolves_in(two@));
    let three = two.with_module(registry());
    assert(three@.has_slot("AssetId"@));
    let contract = three.with_benchmark("AssetId");
    assert(contract@.modules =~= assets_schema().modules);
    contract
}

/// Enters a deployment's implementation of the contract into a profile:
/// the profile claims the contract, and binds what the deployment supplies
/// for each slot, in the order of the slots.
///
/// Whatever the deployment supplies, the profile then binds every required
/// slot of the contract, and what it binds for other contracts is as
/// before.
pub fn claim_assets<T: AssetsConfig + AssetsWeight>(deployment: &T, profile: Profile) -> (next: Profile)
    ensures
        exists|supplied: Seq<Supplied>|
            supplies(assets_slots(), supplied) && next@ == profile@.implement("AssetsConfig"@).supply(
                "AssetsConfig"@,
                supplied,
            ),
        next@.claims == profile@.implement("AssetsConfig"@).claims,
        binds_required(assets_schema(), next@),
        forall|contract: Seq<char>, slot: Seq<char>|
            contract != "AssetsConfig"@ ==> #[trigger] next@.binding(contract, slot) == profile@.binding(
                contract,
                slot,
            ),
{
    let mut supplied: Vec<(String, Option<Binding>)> = Vec::new();
    supplied.push(("ApprovalDeposit".to_owned(), Some(deployment.approval_deposit())));
    supplied.push(("AssetAccountDeposit".to_owned(), Some(deployment.asset_account_deposit())));
    supplied.push(("AssetDeposit".to_owned(), Some(deployment.asset_deposit())));
    supplied.push(("AssetId".to_owned(), Some(deployment.asset_id())));
    supplied.push(("AssetType".to_owned(), Some(deployment.asset_type())));
    supplied.push(("BenchmarkHelper".to_owned(), deployment.benchmark_helper()));
    supplied.push(("CreateOrigin".to_owned(), Some(deployment.create_origin())));
    supplied.push(("ForceOrigin".to_owned(), Some(deployment.force_origin())));
    supplied.push(("ForeignAssetModifierOrigin".to_owned(), Some(deployment.foreign_asset_modifier_origin())));
    supplied.push(("AssetRegistrar".to_owned(), Some(deployment.asset_registrar())));
    supplied.push(("AssetRegistrarMetadata".to_owned(), Some(deployment.asset_registrar_metadata())));
    supplied.push(("WeightToFee".to_owned(), Some(deployment.weight_to_fee())));
    supplied.push(("StringLimit".to_owned(), None));
    supplied.push(("MetadataDepositBase".to_owned(), None));
    supplied.push(("MetadataDepositPerByte".to_owned(), None));
    supplied.push(("RemoveItemsLimit".to_owned(), None));
    supplied.push(("TransactionByteFee".to_owned(), None));
    supplied.push(("OperationalFeeMultiplier".to_owned(), None));
    supplied.push(("AssetsWeight".to_owned(), Some(deployment.assets())));
    supplied.push(("AssetManagerWeight".to_owned(), Some(deployment.asset_manager())));
    let claimed = profile.implement("AssetsConfig");
    let next = claimed.supply("AssetsConfig", &supplied);
    proof {
        let given = supplied_views(supplied@);
        assert(supplies(assets_slots(), given));
        lemma_supplied_slots_bound(claimed@, assets_schema(), given);
        claimed@.lemma_supply("AssetsConfig"@, given);
    }
    next
}

/// Overrides reach the modules, and so do defaults: under a profile that
/// binds the required slots of the assets contract, the ledger takes its
/// string limit from the profile, or else the contract's 50, and the fees
/// take their operational multiplier from the profile, or else the
/// contract's 5.
pub proof fn lemma_assets_limits(profile: ProfileView, shared: SharedTypesView, benchmarks: bool)
    requires
        binds_required(assets_schema(), profile),
    ensures
        expansion_of(assets_schema(), profile, shared, benchmarks) is Ok,
        expansion_of(assets_schema(), profile, shared, benchmarks)->Ok_0.modules.len() == 3,
        expansion_of(assets_schema(), profile, shared, benchmarks)->Ok_0.modules[0].entries[16] == (EntryView {
            field: "StringLimit"@,
            value: match profile.binding("AssetsConfig"@, "StringLimit"@) {
                Some(limit) => limit,
                None => BindingView::Constant(50),
            },
            adapter: Adapter::Direct,
        }),
        expansion_of(assets_schema(), profile, shared, benchmarks)->Ok_0.modules[1].entries[3] == (EntryView {
            field: "OperationalFeeMultiplier"@,
            value: match profile.binding("AssetsConfig"@, "OperationalFeeMultiplier"@) {
                Some(multiplier) => multiplier,
                None => BindingView::Constant(5),
            },
            adapter: Adapter::Direct,
        }),
{
    lemma_assets_schema();
    lemma_complete_profile_expands(assets_schema(), profile, shared, benchmarks);
    let schema = assets_schema();
    assert(schema.slots[12].name == "StringLimit"@);
    assert(schema.slot_index("StringLimit"@) == 12);
    assert(schema.slots[17].name == "OperationalFeeMultiplier"@);
    assert(schema.slot_index("OperationalFeeMultiplier"@) == 17);
    assert(ledger_wiring().fields[16] == FieldView::slot("StringLimit"@, "StringLimit"@));
    assert(fees_wiring().fields[3] == FieldView::slot("OperationalFeeMultiplier"@, "OperationalFeeMultiplier"@));
}

/// Binds the modules of the assets contract for a deployment that
/// implements it.
///
/// This cannot fail: an implementation supplies every required slot. The
/// result is the expansion of the contract under the profile that the
/// implementation amounts to: one configuration each for the ledger, the
/// fees and the registry, all with the shared types given, and the
/// benchmark helper exactly where benchmarking support is on.
pub fn bind_assets<T: AssetsConfig + AssetsWeight>(deployment: &T, shared: &SharedTypes, benchmarks: bool) -> (expansion: Expansion)
    ensures
        exists|profile: ProfileView|
            binds_required(assets_schema(), profile) && #[trigger] expansion_of(
                assets_schema(),
                profile,
                shared@,
                benchmarks,
            ) == Ok::<ExpansionView, GenErrorView>(expansion@),
        expansion@.contract == "AssetsConfig"@,
        expansion@.modules.len() == 3,
        expansion@.modules[0].pallet == "Assets"@,
        expansion@.modules[1].pallet == "TransactionPayment"@,
        expansion@.modules[2].pallet == "AssetManager"@,
        forall|m: int| 0 <= m < 3 ==> (#[trigger] expansion@.modules[m]).shared == shared@,
        expansion@.helper is Some <==> benchmarks,
{
    let profile = claim_assets(deployment, Profile::new());
    let contract = assets_contract();
    proof {
        lemma_complete_profile_expands(contract@, profile@, shared@, benchmarks);
    }
    match expand(&contract, &profile, shared, benchmarks) {
        Ok(expansion) => expansion,
        Err(_) => unreached(),
    }
}

} // verus!
