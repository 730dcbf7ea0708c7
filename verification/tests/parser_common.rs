use stacks_parser::c32::{
    C32_ADDRESS_VERSION_MAINNET_MULTISIG, C32_ADDRESS_VERSION_MAINNET_SINGLESIG,
    C32_ADDRESS_VERSION_TESTNET_MULTISIG, C32_ADDRESS_VERSION_TESTNET_SINGLESIG,
};
use stacks_parser::error::ParserError;
use stacks_parser::parser_common::{
    u8_with_limits, AssetInfo, AssetInfoId, ClarityName, ContractName, ContractPrincipal,
    HashMode, PrincipalData, StacksAddress, StacksString, StandardPrincipal, TransactionVersion,
    MAX_STACKS_STRING_LEN, MAX_STRING_LEN, STACKS_ADDR_LEN,
};

fn address_bytes() -> Vec<u8> {
    let mut v = vec![0x16u8];
    for i in 0..20u8 {
        v.push(0xa0 + i);
    }
    v
}

/// An address, the contract name "token" and the asset name "coin", then two
/// trailing bytes.
fn asset_info_bytes() -> Vec<u8> {
    let mut v = address_bytes();
    v.push(5);
    v.extend_from_slice(b"token");
    v.push(4);
    v.extend_from_slice(b"coin");
    v.extend_from_slice(&[0xee, 0xff]);
    v
}

#[test]
fn u8_with_limits_accepts_up_to_limit() {
    let bytes = [10u8, 1, 2];
    let (rest, v) = u8_with_limits(10, &bytes).unwrap();
    assert_eq!(v, 10);
    assert_eq!(rest, &[1u8, 2][..]);
    assert_eq!(u8_with_limits(9, &bytes), Err(ParserError::parser_value_out_of_range));
    assert_eq!(u8_with_limits(255, &[]), Err(ParserError::parser_value_out_of_range));
}

#[test]
fn transaction_version_from_bytes() {
    let (rest, v) = TransactionVersion::from_bytes(&[0x80, 7]).unwrap();
    assert_eq!(v, TransactionVersion::Testnet);
    assert_eq!(rest, &[7u8][..]);
    let (rest, v) = TransactionVersion::from_bytes(&[0x00]).unwrap();
    assert_eq!(v, TransactionVersion::Mainnet);
    assert!(rest.is_empty());
    assert_eq!(TransactionVersion::from_bytes(&[0x01]), Err(ParserError::parser_unexpected_error));
    assert_eq!(TransactionVersion::from_bytes(&[]), Err(ParserError::parser_unexpected_buffer_end));
}

#[test]
fn transaction_version_bytes_roundtrip() {
    for v in [TransactionVersion::Mainnet, TransactionVersion::Testnet] {
        assert_eq!(TransactionVersion::from_u8(v.to_u8()), Some(v));
    }
    assert_eq!(TransactionVersion::Testnet.to_u8(), 0x80);
    assert_eq!(TransactionVersion::from_u8(0x7f), None);
}

#[test]
fn asset_info_id_from_u8() {
    assert_eq!(AssetInfoId::from_u8(0), Some(AssetInfoId::STX));
    assert_eq!(AssetInfoId::from_u8(1), Some(AssetInfoId::FungibleAsset));
    assert_eq!(AssetInfoId::from_u8(2), Some(AssetInfoId::NonfungibleAsset));
    assert_eq!(AssetInfoId::from_u8(3), None);
    for v in [AssetInfoId::STX, AssetInfoId::FungibleAsset, AssetInfoId::NonfungibleAsset] {
        assert_eq!(AssetInfoId::from_u8(v.to_u8()), Some(v));
    }
}

#[test]
fn hash_mode_from_u8_and_versions() {
    assert_eq!(HashMode::from_u8(0), Some(HashMode::P2PKH));
    assert_eq!(HashMode::from_u8(1), Some(HashMode::P2SH));
    assert_eq!(HashMode::from_u8(2), Some(HashMode::P2WPKH));
    assert_eq!(HashMode::from_u8(3), Some(HashMode::P2WSH));
    assert_eq!(HashMode::from_u8(4), None);
    for m in [HashMode::P2PKH, HashMode::P2SH, HashMode::P2WPKH, HashMode::P2WSH] {
        assert_eq!(HashMode::from_u8(m.to_u8()), Some(m));
    }
    assert_eq!(HashMode::P2PKH.to_version_mainnet(), C32_ADDRESS_VERSION_MAINNET_SINGLESIG);
    assert_eq!(HashMode::P2SH.to_version_mainnet(), C32_ADDRESS_VERSION_MAINNET_MULTISIG);
    assert_eq!(HashMode::P2WSH.to_version_mainnet(), 20);
    assert_eq!(HashMode::P2PKH.to_version_testnet(), C32_ADDRESS_VERSION_TESTNET_SINGLESIG);
    assert_eq!(HashMode::P2WPKH.to_version_testnet(), C32_ADDRESS_VERSION_TESTNET_MULTISIG);
    assert_eq!(HashMode::P2PKH.to_version_mainnet(), 22);
    assert_eq!(HashMode::P2PKH.to_version_testnet(), 26);
}

#[test]
fn stacks_string_from_bytes() {
    let bytes = [0u8, 0, 0, 3, b'a', b'b', b'c', 9];
    let (rest, s) = StacksString::from_bytes(&bytes, false).unwrap();
    assert_eq!(rest, &[9u8][..]);
    assert_eq!(format!("{:?}", s), "StacksString([97, 98, 99])");
    assert_eq!(
        StacksString::from_bytes(&[0, 0, 0], false),
        Err(ParserError::parser_unexpected_buffer_end)
    );
    assert_eq!(
        StacksString::from_bytes(&[0, 0, 0, 4, 1, 2, 3], false),
        Err(ParserError::parser_unexpected_buffer_end)
    );
}

#[test]
fn stacks_string_length_limit_and_expert_mode() {
    let n = MAX_STACKS_STRING_LEN + 1;
    let mut bytes = vec![0u8, 0, (n >> 8) as u8, (n & 0xff) as u8];
    bytes.extend(std::iter::repeat(7u8).take(n));
    assert_eq!(
        StacksString::from_bytes(&bytes, false),
        Err(ParserError::parser_stacks_string_too_long)
    );
    let (rest, _) = StacksString::from_bytes(&bytes, true).unwrap();
    assert!(rest.is_empty());
    // A length with its high bytes set is read big-endian.
    assert_eq!(
        StacksString::from_bytes(&[1, 0, 0, 0], true),
        Err(ParserError::parser_unexpected_buffer_end)
    );
    let mut exact = vec![0u8, 0, 1, 0];
    exact.extend(std::iter::repeat(1u8).take(MAX_STACKS_STRING_LEN));
    let (rest, _) = StacksString::from_bytes(&exact, false).unwrap();
    assert!(rest.is_empty());
}

#[test]
fn contract_name_from_bytes() {
    let bytes = [3u8, b'f', b'o', b'o', 1];
    let (rest, name) = ContractName::from_bytes(&bytes).unwrap();
    assert_eq!(name.0, b"foo");
    assert_eq!(rest, &[1u8][..]);
    assert_eq!(ContractName::from_bytes(&[]), Err(ParserError::parser_invalid_contract_name));
    assert_eq!(
        ContractName::from_bytes(&[MAX_STRING_LEN + 1, 0]),
        Err(ParserError::parser_invalid_contract_name)
    );
    assert_eq!(ContractName::from_bytes(&[4, 1, 2]), Err(ParserError::parser_unexpected_buffer_end));
    let (rest, name) = ContractName::from_bytes(&[0]).unwrap();
    assert!(name.0.is_empty() && rest.is_empty());
}

#[test]
fn clarity_name_from_bytes() {
    let bytes = [2u8, b'h', b'i', 5, 6];
    let (rest, name) = ClarityName::from_bytes(&bytes).unwrap();
    assert_eq!(name.0, b"hi");
    assert_eq!(rest, &[5u8, 6][..]);
    assert_eq!(ClarityName::from_bytes(&[200]), Err(ParserError::parser_invalid_asset_name));
    assert_eq!(ClarityName::from_bytes(&[1]), Err(ParserError::parser_unexpected_buffer_end));
}

#[test]
fn clarity_name_read_as_bytes_reads_one_more_byte() {
    let bytes = [2u8, b'h', b'i', 5, 6];
    let (rest, raw) = ClarityName::read_as_bytes(&bytes).unwrap();
    assert_eq!(raw, &[b'h', b'i', 5][..]);
    assert_eq!(rest, &[6u8][..]);
    // `from_bytes` accepts a name that ends the input; `read_as_bytes` does not.
    assert!(ClarityName::from_bytes(&[1, b'a']).is_ok());
    assert_eq!(ClarityName::read_as_bytes(&[1, b'a']), Err(ParserError::parser_unexpected_buffer_end));
    assert_eq!(ClarityName::read_as_bytes(&[129]), Err(ParserError::parser_invalid_asset_name));
}

#[test]
fn stacks_address_from_bytes() {
    let mut bytes = address_bytes();
    bytes.push(0x42);
    let (rest, address) = StacksAddress::from_bytes(&bytes).unwrap();
    assert_eq!(&address.0[..], &bytes[..STACKS_ADDR_LEN]);
    assert_eq!(rest, &[0x42u8][..]);
    assert_eq!(
        StacksAddress::from_bytes(&bytes[..20]),
        Err(ParserError::parser_unexpected_buffer_end)
    );
}

#[test]
fn standard_principal_from_bytes() {
    let bytes = address_bytes();
    let (rest, p) = StandardPrincipal::from_bytes(&bytes).unwrap();
    assert_eq!(p.0, &bytes[..]);
    assert!(rest.is_empty());
    assert_eq!(StandardPrincipal::from_bytes(&bytes[1..]), Err(ParserError::parser_unexpected_buffer_end));
}

#[test]
fn contract_principal_from_and_read_as_bytes() {
    let mut bytes = address_bytes();
    bytes.push(2);
    bytes.extend_from_slice(b"ct");
    bytes.push(0x99);
    let (rest, p) = ContractPrincipal::from_bytes(&bytes).unwrap();
    assert_eq!(rest, &[0x99u8][..]);
    let shown = format!("{:?}", p);
    assert!(shown.contains("ContractName([99, 116])"));
    let (rest2, raw) = ContractPrincipal::read_as_bytes(&bytes).unwrap();
    assert_eq!(rest2, rest);
    assert_eq!(raw, &bytes[..bytes.len() - 1]);
    bytes.truncate(22);
    assert_eq!(ContractPrincipal::from_bytes(&bytes), Err(ParserError::parser_unexpected_buffer_end));
    assert_eq!(
        ContractPrincipal::read_as_bytes(&bytes),
        Err(ParserError::parser_unexpected_buffer_end)
    );
    assert_eq!(
        ContractPrincipal::read_as_bytes(&address_bytes()),
        Err(ParserError::parser_invalid_contract_name)
    );
}

#[test]
fn asset_info_from_bytes() {
    let bytes = asset_info_bytes();
    let (rest, info) = AssetInfo::from_bytes(&bytes).unwrap();
    assert_eq!(&info.address.0[..], &address_bytes()[..]);
    assert_eq!(info.contract_name.0, b"token");
    assert_eq!(info.asset_name.0, b"coin");
    assert_eq!(info.asset_name(), b"coin");
    assert_eq!(rest, &[0xee, 0xff][..]);
}

#[test]
fn asset_info_errors() {
    let bytes = asset_info_bytes();
    assert_eq!(AssetInfo::from_bytes(&bytes[..10]), Err(ParserError::parser_unexpected_buffer_end));
    assert_eq!(AssetInfo::from_bytes(&bytes[..21]), Err(ParserError::parser_invalid_contract_name));
    assert_eq!(AssetInfo::from_bytes(&bytes[..27]), Err(ParserError::parser_invalid_asset_name));
    assert_eq!(AssetInfo::from_bytes(&bytes[..30]), Err(ParserError::parser_unexpected_buffer_end));
    let mut bad = bytes.clone();
    bad[21] = 200;
    assert_eq!(AssetInfo::from_bytes(&bad), Err(ParserError::parser_invalid_contract_name));
}

#[test]
fn asset_info_read_as_bytes_matches_from_bytes() {
    let bytes = asset_info_bytes();
    let (rest, raw) = AssetInfo::read_as_bytes(&bytes).unwrap();
    let (rest2, _) = AssetInfo::from_bytes(&bytes).unwrap();
    assert_eq!(rest, rest2);
    assert_eq!(raw.len() + rest.len(), bytes.len());
    assert_eq!(raw, &bytes[..bytes.len() - 2]);
    assert_eq!(AssetInfo::read_as_bytes(&bytes[..27]), Err(ParserError::parser_invalid_asset_name));
}

#[test]
fn asset_info_extends_with_trailing_bytes() {
    let bytes = asset_info_bytes();
    let mut longer = bytes.clone();
    longer.extend_from_slice(&[1, 2, 3]);
    let (rest, a) = AssetInfo::from_bytes(&bytes).unwrap();
    let (rest_longer, b) = AssetInfo::from_bytes(&longer).unwrap();
    assert_eq!(a, b);
    assert_eq!(&rest_longer[..rest.len()], rest);
    assert_eq!(&rest_longer[rest.len()..], &[1u8, 2, 3][..]);
}

#[test]
fn principal_data_standard_and_contract() {
    let mut bytes = address_bytes();
    bytes.push(3);
    bytes.extend_from_slice(b"abc");
    let (rest, p) = PrincipalData::standard_from_bytes(&bytes).unwrap();
    assert_eq!(rest, &[3u8, b'a', b'b', b'c'][..]);
    assert!(p.data.1.is_none());
    assert_eq!(p.version(), 0x16);
    assert_eq!(p.raw_address(), &bytes[1..21]);
    let (rest, q) = PrincipalData::contract_principal_from_bytes(&bytes).unwrap();
    assert!(rest.is_empty());
    assert_eq!(q.data.1.unwrap().0, b"abc");
    assert_eq!(q.data.0, p.data.0);
    assert_eq!(q.clone(), q);
    assert_eq!(
        PrincipalData::standard_from_bytes(&bytes[..3]),
        Err(ParserError::parser_unexpected_buffer_end)
    );
    assert_eq!(
        PrincipalData::contract_principal_from_bytes(&bytes[..21]),
        Err(ParserError::parser_invalid_contract_name)
    );
}

#[test]
fn principal_version_of_short_principal() {
    let p = PrincipalData { data: (StandardPrincipal(&[7u8]), None) };
    assert_eq!(p.version(), 7);
    assert!(p.raw_address().is_empty());
}
