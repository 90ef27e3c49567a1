use vstd::prelude::*;

use crate::common::AssetId;

verus! {

/// The kind of a transaction the user is about to sign. A swap carries the
/// asset it spends and the contract its quote sends the funds to (empty when
/// the quote names none).
#[derive(Debug, PartialEq, Eq)]
pub enum TransactionInputType {
    Transfer,
    Deposit,
    Withdrawal,
    Swap { from_asset: AssetId, swap_to: String },
    Stake,
    TokenApprove,
    Generic,
    TransferNft,
    Account,
    Perpetual,
    Earn,
    Payment,
}

/// What a scan of a transaction reads of its preload input: its kind, the
/// asset it spends and the asset the recipient gets, its transaction type,
/// the website that asked for it, and both addresses.
#[derive(Debug, PartialEq, Eq)]
pub struct GemTransactionPreloadInput {
    pub input_type: TransactionInputType,
    pub asset_id: AssetId,
    pub recipient_asset_id: AssetId,
    pub transaction_type: String,
    pub website: Option<String>,
    pub sender_address: String,
    pub destination_address: String,
}

/// An address to scan, with the asset it is scanned for.
#[derive(Debug, Clone, PartialEq, Eq)]
pub struct ScanAddressTarget {
    pub asset_id: AssetId,
    pub address: String,
}

/// What is sent to the scan service about a transaction.
#[derive(Debug, Clone, PartialEq, Eq)]
pub struct ScanTransactionPayload {
    pub origin: ScanAddressTarget,
    pub target: ScanAddressTarget,
    pub website: Option<String>,
    pub transaction_type: String,
}

/// Whether a transaction of this kind is scanned before it is signed: transfers,
/// swaps, token approvals, generic calls and payments are.
pub open spec fn spec_requires_scan(input_type: TransactionInputType) -> bool {
    match input_type {
        TransactionInputType::Transfer | TransactionInputType::Swap { .. } | TransactionInputType::TokenApprove
        | TransactionInputType::Generic | TransactionInputType::Payment => true,
        _ => false,
    }
}

/// Whether a transaction of this kind is scanned before it is signed.
pub fn requires_scan(input_type: &TransactionInputType) -> (r: bool)
    ensures
        r == spec_requires_scan(*input_type),
{
    match input_type {
        TransactionInputType::Transfer | TransactionInputType::Swap { .. } | TransactionInputType::TokenApprove
        | TransactionInputType::Generic | TransactionInputType::Payment => true,
        TransactionInputType::Deposit | TransactionInputType::Withdrawal | TransactionInputType::Stake
        | TransactionInputType::TransferNft | TransactionInputType::Account | TransactionInputType::Perpetual
        | TransactionInputType::Earn => false,
    }
}

/// The address a scan asks about: for a swap whose quote names a contract,
/// that contract, on the chain the funds leave; otherwise the destination,
/// with the asset the recipient gets.
pub open spec fn is_scan_target(input: GemTransactionPreloadInput, target: ScanAddressTarget) -> bool {
    match input.input_type {
        TransactionInputType::Swap { from_asset, swap_to } if swap_to@.len() > 0 => target.asset_id == from_asset
            && target.address@ == swap_to@,
        _ => target.asset_id == input.recipient_asset_id && target.address@ == input.destination_address@,
    }
}

fn scan_target(input: &GemTransactionPreloadInput) -> (target: ScanAddressTarget)
    ensures
        is_scan_target(*input, target),
{
    if let TransactionInputType::Swap { from_asset, swap_to } = &input.input_type {
        if !swap_to.as_str().is_empty() {
            return ScanAddressTarget { asset_id: from_asset.clone(), address: swap_to.clone() };
        }
    }
    ScanAddressTarget { asset_id: input.recipient_asset_id.clone(), address: input.destination_address.clone() }
}

/// What to send the scan service before a transaction is signed: nothing for
/// kinds that are not scanned; otherwise the sender with the spent asset, the
/// scan target, the website and the transaction type.
pub fn transaction_payload(input: GemTransactionPreloadInput) -> (payload: Option<ScanTransactionPayload>)
    ensures
        match payload {
            None => !spec_requires_scan(input.input_type),
            Some(p) => {
                &&& spec_requires_scan(input.input_type)
                &&& p.origin.asset_id == input.asset_id
                &&& p.origin.address@ == input.sender_address@
                &&& is_scan_target(input, p.target)
                &&& match input.input_type {
                    TransactionInputType::Swap { from_asset, swap_to } if swap_to@.len() > 0 => p.target.asset_id
                        == from_asset && p.target.address@ == swap_to@,
                    _ => p.target.asset_id == input.recipient_asset_id && p.target.address@
                        == input.destination_address@,
                }
                &&& p.website == input.website
                &&& p.transaction_type == input.transaction_type
            },
        },
{
    if !requires_scan(&input.input_type) {
        return None;
    }
    let target = scan_target(&input);
    Some(ScanTransactionPayload {
        origin: ScanAddressTarget { asset_id: input.asset_id, address: input.sender_address },
        target,
        website: input.website,
        transaction_type: input.transaction_type,
    })
}

/// Only a swap whose quote names a contract is scanned at that contract;
/// every other scanned transaction is scanned at its destination, for the
/// asset the recipient gets.
pub proof fn lemma_scan_target_is_the_destination(input: GemTransactionPreloadInput, target: ScanAddressTarget)
    requires
        is_scan_target(input, target),
        !(input.input_type matches TransactionInputType::Swap { swap_to, .. } && swap_to@.len() > 0),
    ensures
        target.asset_id == input.recipient_asset_id,
        target.address@ == input.destination_address@,
{
}

/// A swap whose quote names a contract is scanned at that contract, on the
/// chain of the asset it spends.
pub proof fn lemma_swap_scans_its_contract(
    input: GemTransactionPreloadInput,
    target: ScanAddressTarget,
    from_asset: AssetId,
    swap_to: String,
)
    requires
        is_scan_target(input, target),
        input.input_type == (TransactionInputType::Swap { from_asset, swap_to }),
        swap_to@.len() > 0,
    ensures
        target.asset_id == from_asset,
        target.address@ == swap_to@,
{
}

} // verus!
