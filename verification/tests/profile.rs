use pallet_abstractions::{Binding, Profile, SharedKind, SharedTypes};

#[test]
fn new_profile_claims_and_binds_nothing() {
    let profile = Profile::new();
    assert!(profile.claims().is_empty());
    assert_eq!(profile.binding("AssetsConfig", "AssetId"), None);
    assert!(!profile.implements("AssetsConfig"));
}

#[test]
fn claims_keep_their_order_and_are_not_repeated() {
    let profile = Profile::new().implement("XcmConfig").implement("AssetsConfig").implement("XcmConfig");
    assert_eq!(profile.claims(), &vec!["XcmConfig".to_string(), "AssetsConfig".to_string()]);
    assert!(profile.implements("XcmConfig"));
    assert!(profile.implements("AssetsConfig"));
    assert!(!profile.implements("EvmConfig"));
}

#[test]
fn binding_is_found_by_contract_and_slot() {
    let profile = Profile::new()
        .bind("AssetsConfig", "AssetId", Binding::verbatim("u128"))
        .bind("XcmConfig", "AssetId", Binding::verbatim("u64"))
        .bind("AssetsConfig", "StringLimit", Binding::Constant(64));
    assert_eq!(profile.binding("AssetsConfig", "AssetId"), Some(&Binding::verbatim("u128")));
    assert_eq!(profile.binding("XcmConfig", "AssetId"), Some(&Binding::verbatim("u64")));
    assert_eq!(profile.binding("AssetsConfig", "StringLimit"), Some(&Binding::Constant(64)));
    assert_eq!(profile.binding("AssetsConfig", "Missing"), None);
    assert_eq!(profile.binding("EvmConfig", "AssetId"), None);
    assert_eq!(profile.binding("AssetId", "AssetsConfig"), None);
}

#[test]
fn later_binding_replaces_earlier() {
    let profile = Profile::new()
        .bind("AssetsConfig", "StringLimit", Binding::Constant(1))
        .bind("AssetsConfig", "AssetId", Binding::Unit)
        .bind("AssetsConfig", "StringLimit", Binding::Constant(2));
    assert_eq!(profile.binding("AssetsConfig", "StringLimit"), Some(&Binding::Constant(2)));
    assert_eq!(profile.binding("AssetsConfig", "AssetId"), Some(&Binding::Unit));
}

#[test]
fn binding_does_not_claim() {
    let profile = Profile::new().bind("AssetsConfig", "AssetId", Binding::Unit);
    assert!(profile.claims().is_empty());
}

#[test]
fn overriding_binds_only_what_is_there() {
    let profile = Profile::new()
        .overriding("SystemConfig", "MaxLocks", None)
        .overriding("SystemConfig", "MaxProxies", Some(Binding::Constant(8)));
    assert_eq!(profile.binding("SystemConfig", "MaxLocks"), None);
    assert_eq!(profile.binding("SystemConfig", "MaxProxies"), Some(&Binding::Constant(8)));
    let kept = Profile::new()
        .bind("SystemConfig", "MaxLocks", Binding::Constant(10))
        .overriding("SystemConfig", "MaxLocks", None);
    assert_eq!(kept.binding("SystemConfig", "MaxLocks"), Some(&Binding::Constant(10)));
}

#[test]
fn shared_types_are_read_by_kind() {
    let shared = SharedTypes::new("Balance", "AccountId", "Balances", "RuntimeEvent", "WeightToFee");
    assert_eq!(shared.get(SharedKind::Balance), "Balance");
    assert_eq!(shared.get(SharedKind::AccountId), "AccountId");
    assert_eq!(shared.get(SharedKind::Currency), "Balances");
    assert_eq!(shared.get(SharedKind::Event), "RuntimeEvent");
    assert_eq!(shared.get(SharedKind::WeightToFee), "WeightToFee");
    assert_eq!(shared.clone(), shared);
    assert_eq!(
        shared,
        SharedTypes {
            balance: "Balance".to_string(),
            account_id: "AccountId".to_string(),
            currency: "Balances".to_string(),
            event: "RuntimeEvent".to_string(),
            weight_to_fee: "WeightToFee".to_string(),
        }
    );
}
