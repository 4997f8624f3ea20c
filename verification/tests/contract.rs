use pallet_abstractions::{
    assets_contract, catalog, consensus_contract, evm_contract, find_contract, governance_contract,
    system_contract, xcm_contract, Adapter, Binding, Category, Contract, Field, ModuleTemplate,
    SharedKind, Slot, Source,
};

fn slot_names(contract: &Contract) -> Vec<String> {
    contract.slots().iter().map(|s| s.name.clone()).collect()
}

fn default_of(contract: &Contract, name: &str) -> Option<Binding> {
    let at = contract.find_slot(name).unwrap();
    contract.slots()[at].default.clone()
}

#[test]
fn new_contract_declares_nothing() {
    let contract = Contract::new("Demo");
    assert_eq!(contract.name(), "Demo");
    assert!(contract.slots().is_empty());
    assert!(contract.modules().is_empty());
    assert_eq!(contract.benchmark(), &None);
    assert_eq!(contract.find_slot("Anything"), None);
}

#[test]
fn slots_keep_their_order() {
    let contract = Contract::new("Demo")
        .with_slot(Slot::required("B", Category::TypeAlias))
        .with_slot(Slot::defaulted("A", Category::Constant, Binding::Constant(7)))
        .with_slot(Slot::required("C", Category::Origin));
    assert_eq!(slot_names(&contract), vec!["B", "A", "C"]);
    assert_eq!(contract.find_slot("B"), Some(0));
    assert_eq!(contract.find_slot("A"), Some(1));
    assert_eq!(contract.find_slot("C"), Some(2));
    assert_eq!(contract.find_slot("D"), None);
    assert_eq!(contract.find_slot("a"), None);
    assert_eq!(contract.slots()[1], Slot { name: "A".to_string(), category: Category::Constant, default: Some(Binding::Constant(7)) });
    assert_eq!(contract.slots()[0], Slot { name: "B".to_string(), category: Category::TypeAlias, default: None });
}

#[test]
fn declaring_a_name_again_replaces_the_slot_in_place() {
    let contract = Contract::new("Demo")
        .with_slot(Slot::required("A", Category::TypeAlias))
        .with_slot(Slot::required("B", Category::TypeAlias))
        .with_slot(Slot::defaulted("A", Category::Constant, Binding::Constant(3)));
    assert_eq!(slot_names(&contract), vec!["A", "B"]);
    assert_eq!(default_of(&contract, "A"), Some(Binding::Constant(3)));
    assert_eq!(contract.slots()[0].category, Category::Constant);
}

#[test]
fn declare_all_declares_in_order() {
    let slots = vec![
        Slot::required("A", Category::TypeAlias),
        Slot::required("B", Category::TypeAlias),
        Slot::defaulted("A", Category::TypeAlias, Binding::Unit),
    ];
    let contract = Contract::new("Demo").declare_all(&slots);
    assert_eq!(slot_names(&contract), vec!["A", "B"]);
    assert_eq!(default_of(&contract, "A"), Some(Binding::Unit));
    let same = Contract::new("Demo")
        .with_slot(Slot::required("A", Category::TypeAlias))
        .with_slot(Slot::required("B", Category::TypeAlias))
        .with_slot(Slot::defaulted("A", Category::TypeAlias, Binding::Unit));
    assert_eq!(contract, same);
    assert_eq!(Contract::new("Demo").declare_all(&vec![]), Contract::new("Demo"));
}

#[test]
fn module_that_reads_a_declared_slot_is_governed() {
    let module = ModuleTemplate::new("Demo", "pallet_demo")
        .with_field(Field::slot("Limit", "A"))
        .with_field(Field::shared("Balance", SharedKind::Balance))
        .with_field(Field::fixed("Extra", Binding::Unit));
    let contract = Contract::new("Demo").with_slot(Slot::required("A", Category::Constant));
    assert!(contract.resolves(&module));
    let contract = contract.with_module(module);
    assert_eq!(contract.modules().len(), 1);
    assert_eq!(contract.modules()[0].pallet, "Demo");
    assert_eq!(contract.modules()[0].krate, "pallet_demo");
    assert_eq!(
        contract.modules()[0].fields,
        vec![
            Field { name: "Limit".to_string(), source: Source::Slot("A".to_string()), adapter: Adapter::Direct },
            Field { name: "Balance".to_string(), source: Source::Shared(SharedKind::Balance), adapter: Adapter::Direct },
            Field { name: "Extra".to_string(), source: Source::Fixed(Binding::Unit), adapter: Adapter::Direct },
        ]
    );
}

#[test]
fn module_that_reads_an_undeclared_slot_is_left_out() {
    let module = ModuleTemplate::new("Demo", "pallet_demo")
        .with_field(Field::slot("Limit", "A"))
        .with_field(Field::slot("Other", "Missing"));
    let contract = Contract::new("Demo").with_slot(Slot::required("A", Category::Constant));
    assert!(!contract.resolves(&module));
    let contract = contract.with_module(module);
    assert!(contract.modules().is_empty());
    assert_eq!(slot_names(&contract), vec!["A"]);
}

#[test]
fn module_without_slot_fields_is_always_governed() {
    let module = ModuleTemplate::new("Demo", "pallet_demo").with_field(Field::fixed("Extra", Binding::Unit));
    let contract = Contract::new("Demo").with_module(module).with_module(ModuleTemplate::new("Empty", "pallet_empty"));
    assert_eq!(contract.modules().len(), 2);
    assert!(contract.modules()[1].fields.is_empty());
}

#[test]
fn benchmark_helper_needs_a_declared_slot() {
    let contract = Contract::new("Demo").with_slot(Slot::required("Id", Category::TypeAlias));
    let without = Contract::new("Demo").with_slot(Slot::required("Id", Category::TypeAlias)).with_benchmark("Nope");
    assert_eq!(without, contract);
    let with = contract.with_benchmark("Id");
    assert_eq!(with.benchmark(), &Some("Id".to_string()));
}

#[test]
fn adapted_field_keeps_its_adapter() {
    let field = Field::adapted("AssetIdParameter", Source::Slot("AssetId".to_string()), Adapter::Compact);
    assert_eq!(
        field,
        Field { name: "AssetIdParameter".to_string(), source: Source::Slot("AssetId".to_string()), adapter: Adapter::Compact }
    );
}

#[test]
fn verbatim_binding_keeps_its_text() {
    assert_eq!(Binding::verbatim("EnsureRoot<AccountId>"), Binding::Verbatim("EnsureRoot<AccountId>".to_string()));
    assert_eq!(Binding::verbatim("x").clone(), Binding::Verbatim("x".to_string()));
    assert_eq!(Binding::Constant(9).clone(), Binding::Constant(9));
    assert_eq!(Binding::Unit.clone(), Binding::Unit);
}

#[test]
fn catalog_holds_the_six_contracts_in_order() {
    let contracts = catalog();
    let names: Vec<&str> = contracts.iter().map(|c| c.name().as_str()).collect();
    assert_eq!(
        names,
        vec!["SystemConfig", "ConsensusConfig", "AssetsConfig", "GovernanceConfig", "XcmConfig", "EvmConfig"]
    );
    assert_eq!(contracts[0], system_contract());
    assert_eq!(contracts[1], consensus_contract());
    assert_eq!(contracts[2], assets_contract());
    assert_eq!(contracts[3], governance_contract());
    assert_eq!(contracts[4], xcm_contract());
    assert_eq!(contracts[5], evm_contract());
}

#[test]
fn catalog_contracts_have_all_their_slots() {
    let counts: Vec<usize> = catalog().iter().map(|c| c.slots().len()).collect();
    assert_eq!(counts, vec![15, 6, 20, 22, 43, 7]);
}

#[test]
fn catalog_slot_names_are_unique() {
    for contract in catalog() {
        let names = slot_names(&contract);
        for (i, name) in names.iter().enumerate() {
            assert_eq!(contract.find_slot(name), Some(i), "{}::{}", contract.name(), name);
        }
    }
}

#[test]
fn contracts_are_found_by_name() {
    let contracts = catalog();
    assert_eq!(find_contract(&contracts, "SystemConfig"), Some(0));
    assert_eq!(find_contract(&contracts, "AssetsConfig"), Some(2));
    assert_eq!(find_contract(&contracts, "EvmConfig"), Some(5));
    assert_eq!(find_contract(&contracts, "StakingConfig"), None);
    assert_eq!(find_contract(&contracts, "assetsconfig"), None);
    assert_eq!(find_contract(&vec![], "SystemConfig"), None);
    let twice = vec![Contract::new("A"), Contract::new("B"), Contract::new("A")];
    assert_eq!(find_contract(&twice, "A"), Some(0));
    assert_eq!(find_contract(&twice, "B"), Some(1));
}

#[test]
fn system_contract_is_as_declared() {
    let contract = system_contract();
    assert_eq!(
        slot_names(&contract),
        vec![
            "AccountId", "Lookup", "SS58Prefix", "Version", "ExistentialDeposit", "ScheduleOrigin",
            "PreimageOrigin", "ProxyType", "MaxConsumers", "MaxSignatories", "MaxPendingProxies",
            "MaxProxies", "MaxFreezes", "MaxLocks", "MaxReserves",
        ]
    );
    assert_eq!(default_of(&contract, "AccountId"), None);
    assert_eq!(default_of(&contract, "MaxConsumers"), Some(Binding::Constant(16)));
    assert_eq!(default_of(&contract, "MaxSignatories"), Some(Binding::Constant(100)));
    assert_eq!(default_of(&contract, "MaxPendingProxies"), Some(Binding::Constant(32)));
    assert_eq!(default_of(&contract, "MaxProxies"), Some(Binding::Constant(32)));
    assert_eq!(default_of(&contract, "MaxFreezes"), Some(Binding::Constant(0)));
    assert_eq!(default_of(&contract, "MaxLocks"), Some(Binding::Constant(50)));
    assert_eq!(default_of(&contract, "MaxReserves"), Some(Binding::Constant(50)));
    assert_eq!(contract.slots()[5].category, Category::Origin);
    assert_eq!(contract.slots()[0].category, Category::TypeAlias);
    assert_eq!(contract.slots()[8].category, Category::Constant);
    assert!(contract.modules().is_empty());
    assert_eq!(contract.benchmark(), &None);
}

#[test]
fn consensus_contract_is_as_declared() {
    let contract = consensus_contract();
    assert_eq!(
        slot_names(&contract),
        vec![
            "DisabledValidators", "MaxAuthorities", "MaxCandidates", "MaxInvulnerables",
            "MinEligibleCollators", "CollatorSelectionUpdateOrigin",
        ]
    );
    assert_eq!(default_of(&contract, "DisabledValidators"), Some(Binding::Unit));
    assert_eq!(default_of(&contract, "MaxAuthorities"), Some(Binding::Constant(100_000)));
    assert_eq!(default_of(&contract, "MaxCandidates"), Some(Binding::Constant(100)));
    assert_eq!(default_of(&contract, "MaxInvulnerables"), Some(Binding::Constant(20)));
    assert_eq!(default_of(&contract, "MinEligibleCollators"), Some(Binding::Constant(4)));
    assert_eq!(default_of(&contract, "CollatorSelectionUpdateOrigin"), None);
}

#[test]
fn governance_contract_is_as_declared() {
    let contract = governance_contract();
    assert_eq!(contract.slots()[0].name, "TreasuryBurn");
    assert_eq!(contract.slots()[21].name, "ReferendaUndecidingTimeout");
    assert_eq!(default_of(&contract, "TreasuryBurn"), Some(Binding::Unit));
    assert_eq!(default_of(&contract, "TreasurySpendFunds"), Some(Binding::Unit));
    assert_eq!(default_of(&contract, "TreasuryBurnDestination"), Some(Binding::Unit));
    assert_eq!(default_of(&contract, "TreasuryMaxApprovals"), Some(Binding::Constant(100)));
    assert_eq!(default_of(&contract, "ConvictionMaxVotes"), Some(Binding::Constant(512)));
    assert_eq!(default_of(&contract, "ReferendaMaxQueued"), Some(Binding::Constant(20)));
    let required = contract.slots().iter().filter(|s| s.default.is_none()).count();
    assert_eq!(required, 16);
}

#[test]
fn xcm_contract_is_as_declared() {
    let contract = xcm_contract();
    assert_eq!(contract.slots()[0].name, "LocationToAccountId");
    assert_eq!(contract.slots()[42].name, "XcmFeesAccount");
    assert_eq!(default_of(&contract, "MaxActiveOutboundChannels"), Some(Binding::Constant(128)));
    assert_eq!(default_of(&contract, "MaxPageSize"), Some(Binding::Constant(1 << 16)));
    let required = contract.slots().iter().filter(|s| s.default.is_none()).count();
    assert_eq!(required, 41);
}

#[test]
fn evm_contract_is_as_declared() {
    let contract = evm_contract();
    assert_eq!(
        slot_names(&contract),
        vec![
            "AddressMapping", "FindAuthor", "CallOrigin", "WithdrawOrigin", "PrecompilesType",
            "PrecompilesValue", "Erc20XcmBridgeTransferGasLimit",
        ]
    );
    assert!(contract.slots().iter().all(|s| s.default.is_none()));
}

#[test]
fn assets_contract_is_as_declared() {
    let contract = assets_contract();
    assert_eq!(
        slot_names(&contract),
        vec![
            "ApprovalDeposit", "AssetAccountDeposit", "AssetDeposit", "AssetId", "AssetType",
            "BenchmarkHelper", "CreateOrigin", "ForceOrigin", "ForeignAssetModifierOrigin",
            "AssetRegistrar", "AssetRegistrarMetadata", "WeightToFee", "StringLimit",
            "MetadataDepositBase", "MetadataDepositPerByte", "RemoveItemsLimit", "TransactionByteFee",
            "OperationalFeeMultiplier", "AssetsWeight", "AssetManagerWeight",
        ]
    );
    assert_eq!(default_of(&contract, "BenchmarkHelper"), Some(Binding::Unit));
    assert_eq!(default_of(&contract, "StringLimit"), Some(Binding::Constant(50)));
    assert_eq!(default_of(&contract, "MetadataDepositBase"), Some(Binding::verbatim("deposit(1, 68)")));
    assert_eq!(default_of(&contract, "MetadataDepositPerByte"), Some(Binding::verbatim("deposit(0, 1)")));
    assert_eq!(default_of(&contract, "RemoveItemsLimit"), Some(Binding::Constant(1000)));
    assert_eq!(default_of(&contract, "TransactionByteFee"), Some(Binding::verbatim("10 * MICROCENTS")));
    assert_eq!(default_of(&contract, "OperationalFeeMultiplier"), Some(Binding::Constant(5)));
    assert_eq!(default_of(&contract, "AssetsWeight"), None);
    assert_eq!(contract.slots()[18].category, Category::WeightInfo);
    assert_eq!(contract.slots()[19].category, Category::WeightInfo);
    assert_eq!(contract.benchmark(), &Some("AssetId".to_string()));
}

#[test]
fn assets_contract_governs_three_modules() {
    let contract = assets_contract();
    let names: Vec<(&str, &str)> =
        contract.modules().iter().map(|m| (m.pallet.as_str(), m.krate.as_str())).collect();
    assert_eq!(
        names,
        vec![
            ("Assets", "pallet_assets"),
            ("TransactionPayment", "pallet_transaction_payment"),
            ("AssetManager", "pallet_asset_manager"),
        ]
    );
    assert_eq!(
        contract.pallet_names(),
        vec![
            ("Assets".to_string(), "pallet_assets".to_string()),
            ("TransactionPayment".to_string(), "pallet_transaction_payment".to_string()),
            ("AssetManager".to_string(), "pallet_asset_manager".to_string()),
        ]
    );
    assert!(system_contract().pallet_names().is_empty());
    let fields: Vec<usize> = contract.modules().iter().map(|m| m.fields.len()).collect();
    assert_eq!(fields, vec![18, 6, 8]);
    for module in contract.modules() {
        assert!(contract.resolves(module));
    }
}
