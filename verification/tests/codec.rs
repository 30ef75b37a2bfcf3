use multicurrency_bridge::currency::{
    decode_evm_address, encode_evm_address, CurrencyId, FOREIGN_ASSET_TAG, TOKEN_TAG,
};
use multicurrency_bridge::evm::{
    is_system_contract, precompile_address_start, predeploy_address_start, EvmAddress,
};

fn addr(bytes: [u8; 20]) -> EvmAddress {
    EvmAddress::new(bytes.to_vec()).unwrap()
}

#[test]
fn codec_token_zero_round_trip() {
    let encoded = encode_evm_address(&CurrencyId::Token(0));
    let decoded = decode_evm_address(&encoded);
    assert_eq!(decoded, Some(CurrencyId::Token(0)));
}

#[test]
fn codec_token_byte_layout() {
    let encoded = encode_evm_address(&CurrencyId::Token(0x2A));
    let bytes = encoded.as_bytes();
    assert_eq!(bytes.len(), 20);
    for i in 0..20 {
        if i == 9 {
            assert_eq!(bytes[i], TOKEN_TAG);
        } else if i == 19 {
            assert_eq!(bytes[i], 0x2A);
        } else {
            assert_eq!(bytes[i], 0);
        }
    }
}

#[test]
fn codec_foreign_asset_seven_layout_and_round_trip() {
    let encoded = encode_evm_address(&CurrencyId::ForeignAsset(7));
    let bytes = encoded.as_bytes();
    assert_eq!(bytes.len(), 20);
    for i in 0..20 {
        if i == 9 {
            assert_eq!(bytes[i], FOREIGN_ASSET_TAG);
        } else if i == 18 {
            assert_eq!(bytes[i], 0x00);
        } else if i == 19 {
            assert_eq!(bytes[i], 0x07);
        } else {
            assert_eq!(bytes[i], 0);
        }
    }
    let decoded = decode_evm_address(&encoded);
    assert_eq!(decoded, Some(CurrencyId::ForeignAsset(7)));
}

#[test]
fn codec_foreign_asset_wide_id_round_trip() {
    let encoded = encode_evm_address(&CurrencyId::ForeignAsset(0xBEEF));
    let bytes = encoded.as_bytes();
    assert_eq!(bytes[18], 0xBE);
    assert_eq!(bytes[19], 0xEF);
    let decoded = decode_evm_address(&encoded);
    assert_eq!(decoded, Some(CurrencyId::ForeignAsset(0xBEEF)));
}

#[test]
fn codec_erc20_round_trip() {
    let mut bytes = [0u8; 20];
    bytes[0] = 0xDE;
    bytes[1] = 0xAD;
    bytes[19] = 0x01;
    let contract = addr(bytes);
    let decoded = decode_evm_address(&contract);
    assert_eq!(decoded, Some(CurrencyId::Erc20(addr(bytes))));
    let encoded = encode_evm_address(&CurrencyId::Erc20(contract));
    assert_eq!(encoded, addr(bytes));
}

#[test]
fn codec_unrecognized_tag_decodes_to_none() {
    let mut bytes = [0u8; 20];
    bytes[9] = 0x03;
    bytes[19] = 0x01;
    assert_eq!(decode_evm_address(&addr(bytes)), None);
}

#[test]
fn codec_zero_address_decodes_to_none() {
    assert_eq!(decode_evm_address(&addr([0u8; 20])), None);
}

#[test]
fn codec_token_with_dirty_padding_decodes_to_none() {
    let mut bytes = [0u8; 20];
    bytes[9] = TOKEN_TAG;
    bytes[12] = 0x05;
    bytes[19] = 0x01;
    assert_eq!(decode_evm_address(&addr(bytes)), None);
}

#[test]
fn codec_foreign_asset_with_dirty_padding_decodes_to_none() {
    let mut bytes = [0u8; 20];
    bytes[9] = FOREIGN_ASSET_TAG;
    bytes[10] = 0x01;
    bytes[19] = 0x07;
    assert_eq!(decode_evm_address(&addr(bytes)), None);
}

#[test]
fn classifier_zero_prefix_is_system_contract() {
    let mut bytes = [0u8; 20];
    bytes[9] = 0xFF;
    bytes[19] = 0xFF;
    assert!(is_system_contract(&addr(bytes)));
    assert!(is_system_contract(&addr([0u8; 20])));
}

#[test]
fn classifier_nonzero_prefix_is_not_system_contract() {
    for i in 0..9 {
        let mut bytes = [0u8; 20];
        bytes[i] = 1;
        assert!(!is_system_contract(&addr(bytes)));
    }
}

#[test]
fn classifier_band_starts() {
    let precompile = precompile_address_start();
    let predeploy = predeploy_address_start();
    assert!(is_system_contract(&precompile));
    assert!(is_system_contract(&predeploy));
    let p = precompile.as_bytes();
    let d = predeploy.as_bytes();
    for i in 0..18 {
        assert_eq!(p[i], 0);
        assert_eq!(d[i], 0);
    }
    assert_eq!(p[18], 0x04);
    assert_eq!(p[19], 0x00);
    assert_eq!(d[18], 0x08);
    assert_eq!(d[19], 0x00);
}

#[test]
fn evm_address_rejects_wrong_length() {
    assert!(EvmAddress::new(vec![0u8; 19]).is_none());
    assert!(EvmAddress::new(vec![0u8; 21]).is_none());
    assert!(EvmAddress::new(Vec::new()).is_none());
    assert!(EvmAddress::new(vec![0u8; 20]).is_some());
}
