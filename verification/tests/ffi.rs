use hwloc_ffi::{
    compare_types, BridgeType, CacheType, ObjectType, OsDevType, TopologyFlag, TypeDepthError,
};

#[test]
fn should_convert_flag_to_primitive() {
    assert_eq!(1, TopologyFlag::IncludeDisallowed.to_u64().unwrap());
    assert_eq!(2, TopologyFlag::IsThisSystem.to_u64().unwrap());
}

#[test]
fn should_compare_object_types() {
    assert!(ObjectType::Machine == ObjectType::Machine);
    assert!(ObjectType::PU == ObjectType::PU);

    assert!(ObjectType::Machine < ObjectType::PU);
    assert!(ObjectType::PU > ObjectType::L1Cache);
}

#[test]
fn flag_values_match_documented_bits() {
    assert_eq!(Some(1), TopologyFlag::IncludeDisallowed.to_i64());
    assert_eq!(Some(2), TopologyFlag::IsThisSystem.to_i64());
    assert_eq!(Some(4), TopologyFlag::ThisSystemAllowedResources.to_i64());
    assert_eq!(Some(4), TopologyFlag::ThisSystemAllowedResources.to_u64());
}

#[test]
fn flag_from_documented_bits() {
    assert_eq!(Some(TopologyFlag::IncludeDisallowed), TopologyFlag::from_i64(1));
    assert_eq!(Some(TopologyFlag::IsThisSystem), TopologyFlag::from_i64(2));
    assert_eq!(
        Some(TopologyFlag::ThisSystemAllowedResources),
        TopologyFlag::from_i64(4)
    );
    assert_eq!(Some(TopologyFlag::IncludeDisallowed), TopologyFlag::from_u64(1));
    assert_eq!(Some(TopologyFlag::IsThisSystem), TopologyFlag::from_u64(2));
    assert_eq!(
        Some(TopologyFlag::ThisSystemAllowedResources),
        TopologyFlag::from_u64(4)
    );
}

#[test]
fn flag_from_undocumented_bits_is_none() {
    assert_eq!(None, TopologyFlag::from_i64(0));
    assert_eq!(None, TopologyFlag::from_i64(3));
    assert_eq!(None, TopologyFlag::from_i64(8));
    assert_eq!(None, TopologyFlag::from_i64(-1));
    assert_eq!(None, TopologyFlag::from_u64(0));
    assert_eq!(None, TopologyFlag::from_u64(3));
    assert_eq!(None, TopologyFlag::from_u64(u64::MAX));
}

#[test]
fn flag_round_trips_through_integers() {
    let flags = [
        TopologyFlag::IncludeDisallowed,
        TopologyFlag::IsThisSystem,
        TopologyFlag::ThisSystemAllowedResources,
    ];
    for flag in flags {
        let i = flag.to_i64().unwrap();
        assert_eq!(Some(flag), TopologyFlag::from_i64(i));
        let u = flag.to_u64().unwrap();
        assert_eq!(Some(flag), TopologyFlag::from_u64(u));
        assert_eq!(i as u64, u);
        let flag2 = TopologyFlag::from_u64(u).unwrap();
        assert_eq!(flag, flag2);
    }
}

#[test]
fn compare_types_follows_containment() {
    assert_eq!(0, compare_types(&ObjectType::Core, &ObjectType::Core));
    assert!(compare_types(&ObjectType::Machine, &ObjectType::PU) < 0);
    assert!(compare_types(&ObjectType::PU, &ObjectType::L1Cache) > 0);
    assert!(compare_types(&ObjectType::Machine, &ObjectType::Package) < 0);
}

#[test]
fn object_type_ordering_is_by_containment_depth() {
    assert!(ObjectType::Machine < ObjectType::Package);
    assert!(ObjectType::Package < ObjectType::Core);
    assert!(ObjectType::Core < ObjectType::PU);
    assert!(ObjectType::L3Cache < ObjectType::L2Cache);
    assert!(ObjectType::L2Cache < ObjectType::L1Cache);
    assert!(ObjectType::Package < ObjectType::Die);
    assert!(ObjectType::Machine < ObjectType::TypeMax);
}

#[test]
fn object_type_comparison_is_total() {
    assert!(ObjectType::Misc.partial_cmp(&ObjectType::Bridge).is_some());
    assert!(ObjectType::Bridge.partial_cmp(&ObjectType::NUMANode).is_some());
    assert!(ObjectType::Machine.partial_cmp(&ObjectType::OSDevice).is_some());
}

#[test]
fn object_type_equality_means_same_type() {
    assert!(ObjectType::Memcache == ObjectType::Memcache);
    assert!(ObjectType::L1Cache != ObjectType::L1ICache);
    assert!(ObjectType::NUMANode != ObjectType::Group);
}

#[test]
fn depth_error_codes_match_sentinels() {
    assert_eq!(-1, TypeDepthError::TypeDepthUnknown.code());
    assert_eq!(-2, TypeDepthError::TypeDepthMultiple.code());
    assert_eq!(-3, TypeDepthError::TypeDepthNumaNode.code());
    assert_eq!(-4, TypeDepthError::TypeDepthBridge.code());
    assert_eq!(-5, TypeDepthError::TypeDepthPCIDevice.code());
    assert_eq!(-6, TypeDepthError::TypeDepthOSDevice.code());
    assert_eq!(-7, TypeDepthError::TypeDepthMisc.code());
    assert_eq!(-8, TypeDepthError::TypeDepthMemcache.code());
    assert_eq!(-99, TypeDepthError::Unkown.code());
}

#[test]
fn mirrored_enums_compare_by_variant() {
    assert_eq!(TypeDepthError::TypeDepthUnknown, TypeDepthError::TypeDepthUnknown);
    assert_ne!(TypeDepthError::TypeDepthUnknown, TypeDepthError::Unkown);
    assert_eq!(CacheType::Unified, CacheType::Unified);
    assert_ne!(CacheType::Data, CacheType::Instruction);
    assert_eq!(BridgeType::Host, BridgeType::Host);
    assert_ne!(BridgeType::Host, BridgeType::Pci);
    assert_eq!(OsDevType::Gpu, OsDevType::Gpu);
    assert_ne!(OsDevType::Block, OsDevType::Dma);
}
