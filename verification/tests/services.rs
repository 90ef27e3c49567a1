use gemcore::chain_settings::{GemChainSettingsSection, GemChainSettingsService, GemNodeStatusState, NodeStatusReport};
use gemcore::common::Latency;
use gemcore::database::checked_pool_size;
use gemcore::error::DatabaseError;
use gemcore::fiat::{fiat_update_attempts, FiatUpdateAttempt};
use gemcore::nft::association_changes;

#[test]
fn test_chain_settings_sections() {
    let service = GemChainSettingsService::new();
    assert_eq!(service.sections(), vec![GemChainSettingsSection::Nodes, GemChainSettingsSection::Explorer]);
}

#[test]
fn test_explorer_rows_mark_the_selected_one() {
    let service = GemChainSettingsService::new();
    let rows = service.explorer_rows(vec!["Etherscan".to_string(), "Blockscout".to_string()], &"Blockscout".to_string());
    assert_eq!(rows.len(), 2);
    assert_eq!(rows[0].name, "Etherscan");
    assert!(!rows[0].is_selected);
    assert_eq!(rows[1].name, "Blockscout");
    assert!(rows[1].is_selected);
}

#[test]
fn test_node_status() {
    let service = GemChainSettingsService::new();
    assert_eq!(
        service.node_status(Some(NodeStatusReport { latest_block_number: 10, latency_ms: 42 })),
        GemNodeStatusState::Result { latest_block_number: 10, latency: Latency::from_milliseconds(42) }
    );
    assert_eq!(service.node_status(Some(NodeStatusReport { latest_block_number: 0, latency_ms: 42 })), GemNodeStatusState::Error);
    assert_eq!(service.node_status(None), GemNodeStatusState::Error);
}

#[test]
fn test_pool_size() {
    assert_eq!(checked_pool_size(0), Err(DatabaseError::ConnectionPool));
    assert_eq!(checked_pool_size(8), Ok(8));
}

#[test]
fn test_fiat_update_attempts() {
    assert_eq!(
        fiat_update_attempts(&"quote".to_string(), &Some("provider-tx".to_string())),
        vec![
            FiatUpdateAttempt::UpdateByProviderTransactionId { provider_transaction_id: "quote".to_string() },
            FiatUpdateAttempt::UpdateByProviderTransactionId { provider_transaction_id: "provider-tx".to_string() },
            FiatUpdateAttempt::UpdateByQuoteId { quote_id: "quote".to_string(), provider_transaction_id: "provider-tx".to_string() },
            FiatUpdateAttempt::InsertFromQuote { quote_id: "quote".to_string(), provider_transaction_id: "provider-tx".to_string() },
        ]
    );
    assert_eq!(
        fiat_update_attempts(&"quote".to_string(), &None),
        vec![
            FiatUpdateAttempt::UpdateByProviderTransactionId { provider_transaction_id: "quote".to_string() },
            FiatUpdateAttempt::UpdateLatestOfQuote { quote_id: "quote".to_string() },
        ]
    );
}

#[test]
fn test_nft_association_changes() {
    let (insert, delete) = association_changes(&vec![1, 2, 3], &vec![3, 4, 2, 5]);
    assert_eq!(insert, vec![1]);
    assert_eq!(delete, vec![4, 5]);
    let (insert, delete) = association_changes(&vec![], &vec![]);
    assert!(insert.is_empty() && delete.is_empty());
}
