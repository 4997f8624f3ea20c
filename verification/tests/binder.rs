use pallet_abstractions::{
    assets_contract, catalog, expand, generate, generate_with, resolve_all, Adapter, BenchmarkHelper,
    Binding, Category, Contract, Entry, Expansion, Field, GenError, ModuleConfig, ModuleTemplate,
    Profile, SharedKind, SharedTypes, Slot, Source,
};

fn shared() -> SharedTypes {
    SharedTypes::new("Balance", "AccountId", "Balances", "RuntimeEvent", "WeightToFee")
}

fn v(text: &str) -> Binding {
    Binding::verbatim(text)
}

fn entry(field: &str, value: Binding) -> Entry {
    Entry { field: field.to_string(), value, adapter: Adapter::Direct }
}

fn adapted(field: &str, value: Binding, adapter: Adapter) -> Entry {
    Entry { field: field.to_string(), value, adapter }
}

fn missing(contract: &str, slot: &str) -> GenError {
    GenError::MissingRequiredSlot { contract: contract.to_string(), slot: slot.to_string() }
}

fn bind_required(mut profile: Profile, contract: &Contract, except: Option<usize>) -> Profile {
    for (i, slot) in contract.slots().iter().enumerate() {
        if slot.default.is_none() && Some(i) != except {
            profile = profile.bind(contract.name(), &slot.name, v(&format!("My{}", slot.name)));
        }
    }
    profile
}

fn assets_profile() -> Profile {
    Profile::new()
        .implement("AssetsConfig")
        .bind("AssetsConfig", "ApprovalDeposit", v("ConstU128<MILLICENTS>"))
        .bind("AssetsConfig", "AssetAccountDeposit", v("ConstU128<{ deposit(1, 16) }>"))
        .bind("AssetsConfig", "AssetDeposit", v("ConstU128<{ 10 * CENTS }>"))
        .bind("AssetsConfig", "AssetId", v("u128"))
        .bind("AssetsConfig", "AssetType", v("AssetType"))
        .bind("AssetsConfig", "CreateOrigin", v("AsEnsureOriginWithArg<EnsureSigned<AccountId>>"))
        .bind("AssetsConfig", "ForceOrigin", v("EnsureRoot<AccountId>"))
        .bind("AssetsConfig", "ForeignAssetModifierOrigin", v("EnsureRoot<AccountId>"))
        .bind("AssetsConfig", "AssetRegistrar", v("AssetRegistrar"))
        .bind("AssetsConfig", "AssetRegistrarMetadata", v("AssetRegistrarMetadata"))
        .bind("AssetsConfig", "WeightToFee", v("WeightToFee"))
        .bind("AssetsConfig", "AssetsWeight", v("weights::pallet_assets::WeightInfo<Runtime>"))
        .bind("AssetsConfig", "AssetManagerWeight", v("weights::pallet_asset_manager::WeightInfo<Runtime>"))
}

fn ledger(string_limit: u32) -> ModuleConfig {
    ModuleConfig {
        pallet: "Assets".to_string(),
        krate: "pallet_assets".to_string(),
        shared: shared(),
        entries: vec![
            entry("ApprovalDeposit", v("ConstU128<MILLICENTS>")),
            entry("AssetAccountDeposit", v("ConstU128<{ deposit(1, 16) }>")),
            entry("AssetDeposit", v("ConstU128<{ 10 * CENTS }>")),
            entry("AssetId", v("u128")),
            adapted("AssetIdParameter", v("u128"), Adapter::Compact),
            entry("Balance", v("Balance")),
            entry("CallbackHandle", Binding::Unit),
            entry("CreateOrigin", v("AsEnsureOriginWithArg<EnsureSigned<AccountId>>")),
            entry("Currency", v("Balances")),
            entry("Extra", Binding::Unit),
            entry("ForceOrigin", v("EnsureRoot<AccountId>")),
            entry("Freezer", Binding::Unit),
            entry("MetadataDepositBase", v("deposit(1, 68)")),
            entry("MetadataDepositPerByte", v("deposit(0, 1)")),
            entry("RemoveItemsLimit", Binding::Constant(1000)),
            entry("RuntimeEvent", v("RuntimeEvent")),
            entry("StringLimit", Binding::Constant(string_limit)),
            entry("WeightInfo", v("weights::pallet_assets::WeightInfo<Runtime>")),
        ],
    }
}

fn fees() -> ModuleConfig {
    ModuleConfig {
        pallet: "TransactionPayment".to_string(),
        krate: "pallet_transaction_payment".to_string(),
        shared: shared(),
        entries: vec![
            entry("FeeMultiplierUpdate", v("SlowAdjustingFeeUpdate<Self>")),
            adapted("LengthToFee", v("10 * MICROCENTS"), Adapter::ConstantMultiplier),
            adapted("OnChargeTransaction", v("Balances"), Adapter::FungibleAdapter),
            entry("OperationalFeeMultiplier", Binding::Constant(5)),
            entry("RuntimeEvent", v("RuntimeEvent")),
            entry("WeightToFee", v("WeightToFee")),
        ],
    }
}

fn registry() -> ModuleConfig {
    ModuleConfig {
        pallet: "AssetManager".to_string(),
        krate: "pallet_asset_manager".to_string(),
        shared: shared(),
        entries: vec![
            entry("AssetId", v("AssetId")),
            entry("AssetRegistrar", v("AssetRegistrar")),
            entry("AssetRegistrarMetadata", v("AssetRegistrarMetadata")),
            entry("Balance", v("Balance")),
            entry("ForeignAssetModifierOrigin", v("EnsureRoot<AccountId>")),
            entry("ForeignAssetType", v("AssetType")),
            entry("RuntimeEvent", v("RuntimeEvent")),
            entry("WeightInfo", v("weights::pallet_asset_manager::WeightInfo<Runtime>")),
        ],
    }
}

#[test]
fn assets_expand_with_the_defaults() {
    let out = expand(&assets_contract(), &assets_profile(), &shared(), false);
    assert_eq!(
        out,
        Ok(Expansion {
            contract: "AssetsConfig".to_string(),
            modules: vec![ledger(50), fees(), registry()],
            helper: None,
        })
    );
}

#[test]
fn override_reaches_the_ledger_and_defaults_reach_the_fees() {
    let profile = assets_profile().bind("AssetsConfig", "StringLimit", Binding::Constant(64));
    let out = expand(&assets_contract(), &profile, &shared(), false).unwrap();
    assert_eq!(out.modules.len(), 3);
    assert_eq!(out.modules[0], ledger(64));
    assert_eq!(out.modules[0].entries[16], entry("StringLimit", Binding::Constant(64)));
    assert_eq!(out.modules[0].entries[14], entry("RemoveItemsLimit", Binding::Constant(1000)));
    assert_eq!(out.modules[1], fees());
    assert_eq!(out.modules[1].entries[3], entry("OperationalFeeMultiplier", Binding::Constant(5)));
    assert_eq!(out.modules[2], registry());
}

#[test]
fn override_replaces_a_default_whole() {
    let profile = assets_profile()
        .bind("AssetsConfig", "TransactionByteFee", v("MICROCENTS"))
        .bind("AssetsConfig", "OperationalFeeMultiplier", Binding::Constant(7))
        .bind("AssetsConfig", "MetadataDepositBase", Binding::Constant(0));
    let out = expand(&assets_contract(), &profile, &shared(), false).unwrap();
    assert_eq!(out.modules[1].entries[1], adapted("LengthToFee", v("MICROCENTS"), Adapter::ConstantMultiplier));
    assert_eq!(out.modules[1].entries[3], entry("OperationalFeeMultiplier", Binding::Constant(7)));
    assert_eq!(out.modules[0].entries[12], entry("MetadataDepositBase", Binding::Constant(0)));
    assert_eq!(out.modules[0].entries[13], entry("MetadataDepositPerByte", v("deposit(0, 1)")));
}

#[test]
fn every_slot_resolves_to_the_binding_or_the_default() {
    let profile = assets_profile().bind("AssetsConfig", "StringLimit", Binding::Constant(64));
    let values = resolve_all(&assets_contract(), &profile).unwrap();
    assert_eq!(values.len(), 20);
    assert_eq!(values[0], v("ConstU128<MILLICENTS>"));
    assert_eq!(values[3], v("u128"));
    assert_eq!(values[5], Binding::Unit);
    assert_eq!(values[12], Binding::Constant(64));
    assert_eq!(values[15], Binding::Constant(1000));
    assert_eq!(values[17], Binding::Constant(5));
    assert_eq!(values[19], v("weights::pallet_asset_manager::WeightInfo<Runtime>"));
}

#[test]
fn bindings_of_other_contracts_do_not_count() {
    let profile = Profile::new().bind("XcmConfig", "AssetId", v("u64"));
    let contract = Contract::new("Demo").with_slot(Slot::required("AssetId", Category::TypeAlias));
    assert_eq!(expand(&contract, &profile, &shared(), false), Err(missing("Demo", "AssetId")));
}

#[test]
fn bindings_of_unknown_slots_change_nothing() {
    let profile = assets_profile().bind("AssetsConfig", "NoSuchSlot", Binding::Constant(1));
    assert_eq!(
        expand(&assets_contract(), &profile, &shared(), false),
        expand(&assets_contract(), &assets_profile(), &shared(), false)
    );
}

#[test]
fn benchmark_helper_stands_beside_the_production_configuration() {
    let with = expand(&assets_contract(), &assets_profile(), &shared(), true).unwrap();
    let without = expand(&assets_contract(), &assets_profile(), &shared(), false).unwrap();
    assert_eq!(with.helper, Some(BenchmarkHelper { slot: "AssetId".to_string(), id_type: v("u128") }));
    assert_eq!(without.helper, None);
    assert_eq!(with.modules, without.modules);
    assert_eq!(with.contract, without.contract);
}

#[test]
fn contract_without_helper_has_none_even_with_benchmarks() {
    let contract = Contract::new("Demo").with_slot(Slot::defaulted("A", Category::Constant, Binding::Constant(1)));
    let out = expand(&contract, &Profile::new(), &shared(), true).unwrap();
    assert_eq!(out, Expansion { contract: "Demo".to_string(), modules: vec![], helper: None });
}

#[test]
fn complete_profile_expands_every_contract() {
    for contract in catalog() {
        let profile = bind_required(Profile::new(), &contract, None);
        let out = expand(&contract, &profile, &shared(), false).unwrap();
        assert_eq!(&out.contract, contract.name());
        assert_eq!(out.modules.len(), contract.modules().len());
        for (config, module) in out.modules.iter().zip(contract.modules()) {
            assert_eq!(config.pallet, module.pallet);
            assert_eq!(config.krate, module.krate);
            assert_eq!(config.entries.len(), module.fields.len());
        }
    }
}

#[test]
fn any_missing_required_slot_fails_every_contract() {
    for contract in catalog() {
        for (i, slot) in contract.slots().iter().enumerate() {
            if slot.default.is_none() {
                let profile = bind_required(Profile::new(), &contract, Some(i));
                assert_eq!(
                    expand(&contract, &profile, &shared(), false),
                    Err(missing(contract.name(), &slot.name)),
                );
                assert_eq!(resolve_all(&contract, &profile), Err(missing(contract.name(), &slot.name)));
            }
        }
    }
}

#[test]
fn first_missing_slot_is_named() {
    assert_eq!(
        expand(&assets_contract(), &Profile::new(), &shared(), false),
        Err(missing("AssetsConfig", "ApprovalDeposit"))
    );
    let profile = Profile::new()
        .bind("AssetsConfig", "ApprovalDeposit", Binding::Unit)
        .bind("AssetsConfig", "AssetDeposit", Binding::Unit);
    assert_eq!(
        expand(&assets_contract(), &profile, &shared(), true),
        Err(missing("AssetsConfig", "AssetAccountDeposit"))
    );
}

#[test]
fn contract_of_defaults_expands_under_an_empty_profile() {
    let contract = Contract::new("Demo")
        .with_slot(Slot::defaulted("Limit", Category::Constant, Binding::Constant(9)))
        .with_module(
            ModuleTemplate::new("Demo", "pallet_demo").with_field(Field::slot("Limit", "Limit")),
        );
    let out = expand(&contract, &Profile::new(), &shared(), false).unwrap();
    assert_eq!(out.modules[0].entries, vec![entry("Limit", Binding::Constant(9))]);
}

#[test]
fn contract_without_slots_expands() {
    let out = expand(&Contract::new("Empty"), &Profile::new(), &shared(), false);
    assert_eq!(out, Ok(Expansion { contract: "Empty".to_string(), modules: vec![], helper: None }));
}

#[test]
fn every_kind_of_shared_type_is_wired() {
    let contract = Contract::new("Demo").with_module(
        ModuleTemplate::new("Demo", "pallet_demo")
            .with_field(Field::shared("A", SharedKind::Balance))
            .with_field(Field::shared("B", SharedKind::AccountId))
            .with_field(Field::shared("C", SharedKind::Currency))
            .with_field(Field::shared("D", SharedKind::Event))
            .with_field(Field::adapted("E", Source::Shared(SharedKind::WeightToFee), Adapter::Compact)),
    );
    let shared = SharedTypes::new("u128", "AccountId32", "Balances", "RuntimeEvent", "IdentityFee<u128>");
    let out = expand(&contract, &Profile::new(), &shared, false).unwrap();
    assert_eq!(
        out.modules[0].entries,
        vec![
            entry("A", v("u128")),
            entry("B", v("AccountId32")),
            entry("C", v("Balances")),
            entry("D", v("RuntimeEvent")),
            adapted("E", v("IdentityFee<u128>"), Adapter::Compact),
        ]
    );
    assert_eq!(out.modules[0].shared, shared);
}

#[test]
fn all_modules_see_the_same_shared_types() {
    let profile = bind_required(assets_profile().implement("EvmConfig"), &catalog()[5], None);
    let all = generate(&profile, &shared(), true).unwrap();
    let mut seen = 0;
    for expansion in &all {
        for module in &expansion.modules {
            assert_eq!(module.shared, shared());
            seen += 1;
        }
    }
    assert_eq!(seen, 3);
    let ledger = &all[0].modules[0];
    let registry = &all[0].modules[2];
    assert_eq!(ledger.entries[5], registry.entries[3]);
    assert_eq!(ledger.entries[15].value, registry.entries[6].value);
    assert_eq!(ledger.entries[8].value, all[0].modules[1].entries[2].value);
}

#[test]
fn generation_is_repeatable() {
    let profile = assets_profile();
    assert_eq!(generate(&profile, &shared(), true), generate(&profile, &shared(), true));
    assert_eq!(
        expand(&assets_contract(), &profile, &shared(), false),
        expand(&assets_contract(), &profile, &shared(), false)
    );
    let broken = Profile::new().implement("EvmConfig");
    assert_eq!(generate(&broken, &shared(), false), generate(&broken, &shared(), false));
}

#[test]
fn order_of_bindings_does_not_matter() {
    let one = Profile::new()
        .bind("Demo", "A", Binding::Constant(1))
        .bind("Demo", "B", Binding::Constant(2));
    let other = Profile::new()
        .bind("Demo", "B", Binding::Constant(2))
        .bind("Demo", "A", Binding::Constant(1));
    let contract = Contract::new("Demo")
        .with_slot(Slot::required("A", Category::Constant))
        .with_slot(Slot::required("B", Category::Constant))
        .with_module(
            ModuleTemplate::new("Demo", "pallet_demo")
                .with_field(Field::slot("First", "A"))
                .with_field(Field::slot("Second", "B")),
        );
    assert_eq!(expand(&contract, &one, &shared(), false), expand(&contract, &other, &shared(), false));
}

#[test]
fn generation_expands_each_claim_in_order() {
    let contracts = catalog();
    let profile = bind_required(
        bind_required(Profile::new().implement("EvmConfig").implement("ConsensusConfig"), &contracts[5], None),
        &contracts[1],
        None,
    );
    let all = generate(&profile, &shared(), false).unwrap();
    assert_eq!(all.len(), 2);
    assert_eq!(all[0].contract, "EvmConfig");
    assert_eq!(all[1].contract, "ConsensusConfig");
    assert_eq!(all[0], expand(&contracts[5], &profile, &shared(), false).unwrap());
    assert_eq!(all[1], expand(&contracts[1], &profile, &shared(), false).unwrap());
}

#[test]
fn contracts_not_claimed_are_not_expanded() {
    let profile = assets_profile();
    let all = generate(&profile, &shared(), false).unwrap();
    assert_eq!(all.len(), 1);
    assert_eq!(all[0].contract, "AssetsConfig");
    assert_eq!(generate(&Profile::new(), &shared(), false), Ok(vec![]));
    let bound_only = Profile::new().bind("EvmConfig", "CallOrigin", Binding::Unit);
    assert_eq!(generate(&bound_only, &shared(), false), Ok(vec![]));
}

#[test]
fn unknown_contract_fails_the_whole_generation() {
    let profile = assets_profile().implement("StakingConfig");
    assert_eq!(
        generate(&profile, &shared(), false),
        Err(GenError::UnknownContract { name: "StakingConfig".to_string() })
    );
}

#[test]
fn missing_slot_fails_the_whole_generation() {
    let profile = assets_profile().implement("EvmConfig");
    assert_eq!(generate(&profile, &shared(), false), Err(missing("EvmConfig", "AddressMapping")));
}

#[test]
fn first_failing_claim_is_reported() {
    let profile = Profile::new().implement("StakingConfig").implement("EvmConfig");
    assert_eq!(
        generate(&profile, &shared(), false),
        Err(GenError::UnknownContract { name: "StakingConfig".to_string() })
    );
    let profile = Profile::new().implement("EvmConfig").implement("StakingConfig");
    assert_eq!(generate(&profile, &shared(), false), Err(missing("EvmConfig", "AddressMapping")));
}

#[test]
fn generation_against_contracts_of_ones_own() {
    let contracts = vec![
        Contract::new("One").with_slot(Slot::required("A", Category::TypeAlias)),
        Contract::new("Two"),
        Contract::new("One"),
    ];
    let profile = Profile::new().implement("Two").implement("One").bind("One", "A", Binding::Unit);
    let all = generate_with(&contracts, &profile, &shared(), false).unwrap();
    assert_eq!(all.len(), 2);
    assert_eq!(all[0].contract, "Two");
    assert_eq!(all[1].contract, "One");
    let unknown = Profile::new().implement("AssetsConfig");
    assert_eq!(
        generate_with(&contracts, &unknown, &shared(), false),
        Err(GenError::UnknownContract { name: "AssetsConfig".to_string() })
    );
    assert_eq!(
        generate_with(&vec![], &unknown, &shared(), false),
        Err(GenError::UnknownContract { name: "AssetsConfig".to_string() })
    );
}
