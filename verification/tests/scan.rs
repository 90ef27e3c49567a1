use gemcore::common::{AssetId, Chain};
use gemcore::scan::{requires_scan, transaction_payload, GemTransactionPreloadInput, TransactionInputType};

fn eth() -> AssetId {
    AssetId::from_chain(Chain::new("ethereum".to_string()))
}

fn sol() -> AssetId {
    AssetId::from_chain(Chain::new("solana".to_string()))
}

fn spl_token() -> AssetId {
    AssetId::from_token(Chain::new("solana".to_string()), "EPjFWdd5AufqSSqeM2qN1xzybapC8G4wEGGkZwyTDt1v".to_string())
}

fn erc20() -> AssetId {
    AssetId::from_token(Chain::new("ethereum".to_string()), "0xdAC17F958D2ee523a2206206994597C13D831ec7".to_string())
}

fn swap_input(from_asset: AssetId, to_asset: AssetId, swap_to: &str, destination: &str) -> GemTransactionPreloadInput {
    GemTransactionPreloadInput {
        input_type: TransactionInputType::Swap {
            from_asset: from_asset.clone(),
            swap_to: swap_to.to_string(),
        },
        asset_id: from_asset,
        recipient_asset_id: to_asset,
        transaction_type: "swap".to_string(),
        website: None,
        sender_address: "sender".to_string(),
        destination_address: destination.to_string(),
    }
}

#[test]
fn test_a_swap_scans_the_contract_that_receives_the_funds() {
    let swap = swap_input(eth(), spl_token(), "0xrouter", "own-solana-address");

    let target = transaction_payload(swap).unwrap().target;
    assert_eq!(target.address, "0xrouter", "the scan asks about the contract, not the address the user already owns");
    assert_eq!(target.asset_id, eth(), "the contract is on the chain the funds leave");

    let without_contract = transaction_payload(swap_input(eth(), spl_token(), "", "recipient")).unwrap().target;
    assert_eq!(without_contract.address, "recipient", "a swap with no contract falls back to the recipient");
}

#[test]
fn test_scan_payload_covers_every_input_type() {
    let swap = swap_input(sol(), spl_token(), "JUP6LkbZbjS1jKKwapdHNy74zcZ3tLUZoi5QNyVTaV4", "router");
    let payload = transaction_payload(swap).unwrap();
    assert_eq!(payload.transaction_type, "swap");
    assert_eq!(payload.origin.asset_id, sol());
    assert_eq!(payload.website, None);

    let generic = GemTransactionPreloadInput {
        input_type: TransactionInputType::Generic,
        asset_id: sol(),
        recipient_asset_id: sol(),
        transaction_type: "smartContractCall".to_string(),
        website: Some("https://gemwallet.com".to_string()),
        sender_address: "sender".to_string(),
        destination_address: "contract".to_string(),
    };
    let payload = transaction_payload(generic).unwrap();
    assert_eq!(payload.transaction_type, "smartContractCall");
    assert_eq!(payload.website, Some("https://gemwallet.com".to_string()));
}

#[test]
fn test_requires_scan() {
    for (input_type, should_scan) in [
        (TransactionInputType::Deposit, false),
        (TransactionInputType::Earn, false),
        (TransactionInputType::Transfer, true),
        (TransactionInputType::Payment, true),
        (TransactionInputType::Withdrawal, false),
        (TransactionInputType::Account, false),
        (TransactionInputType::Stake, false),
        (TransactionInputType::TransferNft, false),
        (TransactionInputType::Perpetual, false),
        (
            TransactionInputType::Swap {
                from_asset: eth(),
                swap_to: String::new(),
            },
            true,
        ),
        (TransactionInputType::TokenApprove, true),
        (TransactionInputType::Generic, true),
    ] {
        assert_eq!(requires_scan(&input_type), should_scan);
    }
}

#[test]
fn test_kinds_that_are_not_scanned_have_no_payload() {
    let deposit = GemTransactionPreloadInput {
        input_type: TransactionInputType::Deposit,
        asset_id: erc20(),
        recipient_asset_id: erc20(),
        transaction_type: "earnDeposit".to_string(),
        website: None,
        sender_address: "sender".to_string(),
        destination_address: "vault".to_string(),
    };
    assert_eq!(transaction_payload(deposit), None);
}

#[test]
fn test_a_transfer_scans_the_destination() {
    let transfer = GemTransactionPreloadInput {
        input_type: TransactionInputType::Transfer,
        asset_id: erc20(),
        recipient_asset_id: erc20(),
        transaction_type: "transfer".to_string(),
        website: None,
        sender_address: "0xsender".to_string(),
        destination_address: "0xfriend".to_string(),
    };
    let payload = transaction_payload(transfer).unwrap();
    assert_eq!(payload.origin.address, "0xsender");
    assert_eq!(payload.origin.asset_id, erc20());
    assert_eq!(payload.target.address, "0xfriend");
    assert_eq!(payload.target.asset_id, erc20());
}
