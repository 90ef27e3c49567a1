use gemcore::assets::{AssetAddress, AssetAddressRow, AssetAddressRowsExt};
use gemcore::common::{AssetId, Chain};
use gemcore::detections::{NewScanDetectionRow, ScanDetectionRow, ScanProvider, ScanType};
use gemcore::error::DatabaseError;
use gemcore::time::Timestamp;
use num_bigint::BigUint;

fn ethereum() -> Chain {
    Chain::new("ethereum".to_string())
}

fn smart_chain() -> Chain {
    Chain::new("smartchain".to_string())
}

fn usdc() -> AssetId {
    AssetId::from_token(ethereum(), "0xA0b86991c6218b36c1d19D4a2e9Eb0cE3606eB48".to_string())
}

#[test]
fn test_matches() {
    let row = ScanDetectionRow {
        id: 1,
        scan_type: ScanType::Address,
        chain: Some(smart_chain()),
        target: "0x123".to_string(),
        provider: ScanProvider { id: "hashdit".to_string() },
        reason: None,
        updated_at: Timestamp::from_seconds(0),
        created_at: Timestamp::from_seconds(0),
    };

    assert!(row.matches(ScanType::Address, Some(smart_chain()), "0x123"));
    assert!(!row.matches(ScanType::AddressPoisoning, Some(smart_chain()), "0x123"));
    assert!(!row.matches(ScanType::Address, Some(ethereum()), "0x123"));
    assert!(!row.matches(ScanType::Address, None, "0x123"));
    assert!(!row.matches(ScanType::Address, Some(smart_chain()), "0x456"));
}

#[test]
fn test_new_scan_detection_row_keeps_the_report() {
    let row = NewScanDetectionRow::new(
        ScanType::AddressPoisoning,
        None,
        "0xbad".to_string(),
        ScanProvider { id: "goplus".to_string() },
        Some("poisoning".to_string()),
    );
    assert_eq!(row.scan_type, ScanType::AddressPoisoning);
    assert_eq!(row.chain, None);
    assert_eq!(row.target, "0xbad");
    assert_eq!(row.provider.id, "goplus");
    assert_eq!(row.reason, Some("poisoning".to_string()));
}

#[test]
fn test_asset_ids() {
    let eth = AssetId::from_chain(ethereum());
    let usdc = usdc();
    let row = |asset_id: &AssetId, address: &str| AssetAddressRow {
        chain: ethereum(),
        asset_id: asset_id.clone(),
        address: address.to_string(),
        value: None,
    };
    let rows = vec![row(&eth, "0xwallet"), row(&usdc, "0xwallet"), row(&usdc, "0xother")];

    assert_eq!(rows.asset_ids(), vec![eth, usdc]);
}

#[test]
fn test_an_asset_address_is_stored_as_decimal_text_and_read_back() {
    let value = BigUint::parse_bytes(b"123456789012345678901234567890", 10).unwrap();
    let address = AssetAddress {
        asset_id: usdc(),
        address: "0xwallet".to_string(),
        value: Some(value.clone()),
    };
    let row = AssetAddressRow::from_primitive(address);
    assert_eq!(row.value, Some("123456789012345678901234567890".to_string()));
    assert_eq!(row.chain, ethereum());

    let back = row.as_primitive().unwrap();
    assert_eq!(back.value, Some(value));
    assert_eq!(back.address, "0xwallet");
    assert_eq!(back.asset_id, usdc());
}

#[test]
fn test_an_asset_address_without_value_stays_without() {
    let row = AssetAddressRow::from_primitive(AssetAddress {
        asset_id: usdc(),
        address: "0xwallet".to_string(),
        value: None,
    });
    assert_eq!(row.value, None);
    assert_eq!(row.as_primitive().unwrap().value, None);
}

#[test]
fn test_a_stored_value_that_is_not_a_number_is_an_error() {
    let row = AssetAddressRow {
        chain: ethereum(),
        asset_id: usdc(),
        address: "0xwallet".to_string(),
        value: Some("12x".to_string()),
    };
    assert!(matches!(row.as_primitive(), Err(DatabaseError::Error(_))));
    let plus = AssetAddressRow { value: Some("+42".to_string()), ..row.clone() };
    assert_eq!(plus.as_primitive().unwrap().value, Some(BigUint::from(42u32)));
}

#[test]
fn test_an_invalid_stored_value_names_the_address_and_the_reason() {
    let row = |value: &str| AssetAddressRow {
        chain: ethereum(),
        asset_id: usdc(),
        address: "0xwallet".to_string(),
        value: Some(value.to_string()),
    };
    assert_eq!(
        row("12x").as_primitive().err().unwrap(),
        DatabaseError::Error("Asset address 0xwallet has an invalid value: invalid digit found in string".to_string())
    );
    assert_eq!(
        row("+").as_primitive().err().unwrap(),
        DatabaseError::Error("Asset address 0xwallet has an invalid value: cannot parse integer from empty string".to_string())
    );
    assert_eq!(
        row("").as_primitive().err().unwrap(),
        DatabaseError::Error("Asset address 0xwallet has an invalid value: cannot parse integer from empty string".to_string())
    );
}
