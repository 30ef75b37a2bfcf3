use multicurrency_bridge::currency::{encode_evm_address, CurrencyId};
use multicurrency_bridge::evm::EvmAddress;
use multicurrency_bridge::registry::{CurrencyMetadata, MetadataRegistry};
use multicurrency_bridge::support::{
    AddressMapping, Erc20InfoMapping, TruncatedAddressMapping,
};

fn sample() -> CurrencyMetadata {
    CurrencyMetadata {
        name: b"Native Token".to_vec(),
        symbol: b"NTV".to_vec(),
        decimals: 18,
    }
}

#[test]
fn registry_empty_knows_nothing() {
    let registry = MetadataRegistry::new();
    assert_eq!(registry.name(&CurrencyId::Token(0)), None);
    assert_eq!(registry.symbol(&CurrencyId::Token(0)), None);
    assert_eq!(registry.decimals(&CurrencyId::Token(0)), None);
}

#[test]
fn registry_register_then_read_back() {
    let mut registry = MetadataRegistry::new();
    registry.register(&CurrencyId::Token(0), sample());
    assert_eq!(
        registry.name(&CurrencyId::Token(0)),
        Some(b"Native Token".to_vec())
    );
    assert_eq!(registry.symbol(&CurrencyId::Token(0)), Some(b"NTV".to_vec()));
    assert_eq!(registry.decimals(&CurrencyId::Token(0)), Some(18));
    // a different currency stays unknown
    assert_eq!(registry.name(&CurrencyId::Token(1)), None);
    assert_eq!(registry.decimals(&CurrencyId::ForeignAsset(7)), None);
}

#[test]
fn registry_register_overrides() {
    let mut registry = MetadataRegistry::new();
    registry.register(&CurrencyId::Token(0), sample());
    registry.register(
        &CurrencyId::Token(0),
        CurrencyMetadata {
            name: b"Renamed".to_vec(),
            symbol: b"RNM".to_vec(),
            decimals: 6,
        },
    );
    assert_eq!(registry.name(&CurrencyId::Token(0)), Some(b"Renamed".to_vec()));
    assert_eq!(registry.decimals(&CurrencyId::Token(0)), Some(6));
}

#[test]
fn registry_codec_face_agrees_with_the_codec() {
    let registry = MetadataRegistry::new();
    let token = CurrencyId::Token(3);
    let encoded = registry.encode_evm_address(&token).unwrap();
    assert_eq!(encoded, encode_evm_address(&CurrencyId::Token(3)));
    assert_eq!(
        registry.decode_evm_address(&encoded),
        Some(CurrencyId::Token(3))
    );
}

#[test]
fn address_mapping_folds_the_last_eight_bytes() {
    let mut bytes = [0u8; 20];
    bytes[12] = 0x01;
    bytes[19] = 0xFF;
    let account = TruncatedAddressMapping::get_account_id(
        &EvmAddress::new(bytes.to_vec()).unwrap(),
    );
    assert_eq!(account, 0x01000000000000FF);
}

#[test]
fn address_mapping_default_address_round_trips() {
    let account: u64 = 0xDEADBEEF00C0FFEE;
    let evm = TruncatedAddressMapping::get_default_evm_address(account);
    let bytes = evm.as_bytes();
    for i in 0..12 {
        assert_eq!(bytes[i], 0);
    }
    assert_eq!(bytes[12], 0xDE);
    assert_eq!(bytes[13], 0xAD);
    assert_eq!(bytes[14], 0xBE);
    assert_eq!(bytes[15], 0xEF);
    assert_eq!(bytes[16], 0x00);
    assert_eq!(bytes[17], 0xC0);
    assert_eq!(bytes[18], 0xFF);
    assert_eq!(bytes[19], 0xEE);
    assert_eq!(TruncatedAddressMapping::get_account_id(&evm), account);
    assert_eq!(
        TruncatedAddressMapping::get_or_create_evm_address(account),
        evm
    );
}

#[test]
fn address_mapping_keeps_no_table() {
    assert_eq!(TruncatedAddressMapping::get_evm_address(7), None);
    let evm = TruncatedAddressMapping::get_default_evm_address(7);
    assert!(!TruncatedAddressMapping::is_linked(7, &evm));
}
