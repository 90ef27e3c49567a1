use gemcore::rewards_session::{
    rewards_session, GemRewardsPhase, GemRewardsResult, GemServiceError, RewardStatus, Rewards, WalletId,
};

fn wallet() -> WalletId {
    WalletId::new("0x1".to_string())
}

fn offline() -> GemServiceError {
    GemServiceError::Gateway { msg: "offline".to_string() }
}

fn invited() -> Rewards {
    Rewards {
        code: Some("GEM123".to_string()),
        referral_count: 0,
        points: 0,
        used_referral_code: None,
        status: RewardStatus::Verified,
    }
}

#[test]
fn test_a_failed_load_reads_as_a_failure_instead_of_a_wallet_without_a_code() {
    let session = rewards_session().on_select_wallet(wallet());

    let failed = session.on_result(GemRewardsResult {
        wallet_id: wallet(),
        rewards: None,
        error: Some(offline()),
    });

    assert!(matches!(failed.phase(), GemRewardsPhase::Failed { .. }), "a wallet with a code must not be offered the create-code screen");
    assert!(failed.rewards.is_none());
}

#[test]
fn test_a_failed_refresh_keeps_the_code_already_on_screen() {
    let shown = rewards_session().on_select_wallet(wallet()).on_rewards(invited());

    let kept = shown.on_result(GemRewardsResult {
        wallet_id: wallet(),
        rewards: None,
        error: Some(offline()),
    });

    assert_eq!(kept.phase(), GemRewardsPhase::Data);
    assert_eq!(kept.rewards, shown.rewards);
}

#[test]
fn test_a_result_for_a_wallet_that_is_no_longer_shown_is_dropped() {
    let second = WalletId::new("0x2".to_string());
    let shown = rewards_session().on_select_wallet(second);
    let late = GemRewardsResult {
        wallet_id: wallet(),
        rewards: Some(invited()),
        error: None,
    };

    assert_eq!(shown.on_result(late), shown, "the wallet moved on before the answer arrived");
}

#[test]
fn test_selecting_another_wallet_starts_over_and_reselecting_the_same_one_does_not() {
    let shown = rewards_session().on_select_wallet(wallet()).on_rewards(invited());

    assert_eq!(shown.on_select_wallet(wallet()), shown);
    let switched = shown.on_select_wallet(WalletId::new("0x2".to_string()));
    assert_eq!(switched.phase(), GemRewardsPhase::Loading);
    assert_eq!(switched.request(), Some(WalletId::new("0x2".to_string())));
}

#[test]
fn test_a_new_session_is_loading_without_a_wallet() {
    let session = rewards_session();
    assert_eq!(session.phase(), GemRewardsPhase::Loading);
    assert_eq!(session.request(), None);
}

#[test]
fn test_a_loaded_result_shows_the_rewards() {
    let session = rewards_session().on_select_wallet(wallet());
    let loaded = session.on_result(GemRewardsResult {
        wallet_id: wallet(),
        rewards: Some(invited()),
        error: None,
    });
    assert_eq!(loaded.phase(), GemRewardsPhase::Data);
    assert_eq!(loaded.rewards, Some(invited()));
    assert_eq!(loaded.error, None);
    assert!(!loaded.is_loading);
}

#[test]
fn test_a_failed_load_without_error_reads_as_data() {
    let session = rewards_session().on_select_wallet(wallet());
    let empty = session.on_result(GemRewardsResult {
        wallet_id: wallet(),
        rewards: None,
        error: None,
    });
    assert_eq!(empty.phase(), GemRewardsPhase::Data);
    assert_eq!(
        session.on_result(GemRewardsResult { wallet_id: wallet(), rewards: None, error: Some(offline()) }).phase(),
        GemRewardsPhase::Failed { error: offline() }
    );
}
