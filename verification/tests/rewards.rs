use gemcore::error::DatabaseError;
use gemcore::rewards::{
    eligibility_begin, eligibility_begin_now, eligibility_on_confirmed_transactions, eligibility_on_first_subscription,
    eligibility_on_latest_activity, event_points_allowed, latest_activity, latest_wallet_device_id,
    pending_referral_events, recorded_referral_events, redemption_admission, referral_leader, verified_referral_events, DeviceActivity,
    EligibilityStep, RewardEventParty, RewardEventType, RewardsEligibilityConfig, RewardsVerification,
};
use gemcore::rewards_session::RewardStatus;
use gemcore::time::Timestamp;

fn at(seconds: i64) -> Timestamp {
    Timestamp::from_seconds(seconds)
}

fn config() -> RewardsEligibilityConfig {
    RewardsEligibilityConfig { activity_cutoff: at(1_000), transactions_required: 3 }
}

#[test]
fn test_an_eligible_wallet_goes_through_every_step() {
    let verification = RewardsVerification { status: RewardStatus::Unverified, verify_after: Some(at(500)) };
    assert_eq!(eligibility_begin(&verification, &at(600)), EligibilityStep::FetchFirstSubscription);
    assert_eq!(
        eligibility_on_first_subscription(Some(at(900)), &config()),
        EligibilityStep::FetchLatestActivity { first_subscription_at: at(900) }
    );
    assert_eq!(
        eligibility_on_latest_activity(at(900), Some(at(1_000)), &config()),
        EligibilityStep::CountConfirmedTransactions { since: at(900) }
    );
    assert_eq!(eligibility_on_confirmed_transactions(7, 3, &config()), EligibilityStep::Done { wallet_id: Some(7) });
}

#[test]
fn test_each_step_can_end_the_check() {
    let done = EligibilityStep::Done { wallet_id: None };
    let verified = RewardsVerification { status: RewardStatus::Verified, verify_after: None };
    assert_eq!(eligibility_begin(&verified, &at(600)), done);
    let waiting = RewardsVerification { status: RewardStatus::Unverified, verify_after: Some(at(700)) };
    assert_eq!(eligibility_begin(&waiting, &at(600)), done);
    assert_eq!(eligibility_on_first_subscription(None, &config()), done);
    assert_eq!(eligibility_on_first_subscription(Some(at(1_001)), &config()), done);
    assert_eq!(eligibility_on_latest_activity(at(900), None, &config()), done);
    assert_eq!(eligibility_on_latest_activity(at(900), Some(at(999)), &config()), done);
    assert_eq!(eligibility_on_confirmed_transactions(7, 2, &config()), done);
}

#[test]
fn test_latest_activity() {
    assert_eq!(latest_activity(&vec![]), None);
    assert_eq!(latest_activity(&vec![at(5), at(9), at(2)]), Some(at(9)));
}

#[test]
fn test_latest_wallet_device() {
    let devices = vec![
        DeviceActivity { device_id: 1, updated_at: at(5) },
        DeviceActivity { device_id: 2, updated_at: at(9) },
        DeviceActivity { device_id: 3, updated_at: at(9) },
        DeviceActivity { device_id: 4, updated_at: at(1) },
    ];
    assert_eq!(latest_wallet_device_id(10, &devices), Ok(3));
    assert!(matches!(latest_wallet_device_id(10, &vec![]), Err(DatabaseError::Error(message)) if message.contains("10")));
}

#[test]
fn test_referral_events() {
    assert_eq!(
        verified_referral_events(RewardStatus::Verified),
        vec![
            (RewardEventParty::Referrer, RewardEventType::InviteNew),
            (RewardEventParty::Referred, RewardEventType::Joined),
        ]
    );
    assert_eq!(
        verified_referral_events(RewardStatus::Attribution),
        vec![(RewardEventParty::Referred, RewardEventType::Joined)]
    );
    assert_eq!(
        pending_referral_events(RewardStatus::Unverified),
        vec![(RewardEventParty::Referrer, RewardEventType::InvitePending)]
    );
    assert_eq!(pending_referral_events(RewardStatus::Attribution), vec![]);
}

#[test]
fn test_points_and_redemptions() {
    assert!(event_points_allowed(0));
    assert!(event_points_allowed(5));
    assert!(!event_points_allowed(-1));

    assert_eq!(redemption_admission(100, 100, None), Ok(()));
    assert_eq!(redemption_admission(100, 50, Some(2)), Ok(()));
    assert_eq!(redemption_admission(10, 50, Some(2)), Err(DatabaseError::Error("Not enough points".to_string())));
    assert_eq!(
        redemption_admission(100, 50, Some(0)),
        Err(DatabaseError::Error("Redemption option is no longer available".to_string()))
    );
    assert_eq!(redemption_admission(10, 50, Some(0)), Err(DatabaseError::Error("Not enough points".to_string())));
}

#[test]
fn test_referral_leader() {
    let leader = referral_leader("alice".to_string(), 12, 100);
    assert_eq!(leader.username, "alice");
    assert_eq!(leader.referrals, 12);
    assert_eq!(leader.points, 1_200);
}

#[test]
fn test_recorded_referral_events_follow_the_verification() {
    assert_eq!(recorded_referral_events(true, RewardStatus::Pending), verified_referral_events(RewardStatus::Pending));
    assert_eq!(
        recorded_referral_events(false, RewardStatus::Pending),
        vec![(RewardEventParty::Referrer, RewardEventType::InvitePending)]
    );
    assert_eq!(recorded_referral_events(false, RewardStatus::Attribution), vec![]);
}

#[test]
fn test_an_eligibility_check_started_now() {
    let open = RewardsVerification { status: RewardStatus::Unverified, verify_after: None };
    assert_eq!(eligibility_begin_now(&open), EligibilityStep::FetchFirstSubscription);
    let past = RewardsVerification { status: RewardStatus::Unverified, verify_after: Some(at(1_000)) };
    assert_eq!(eligibility_begin_now(&past), EligibilityStep::FetchFirstSubscription);
    let far = RewardsVerification { status: RewardStatus::Unverified, verify_after: Some(at(i64::MAX / 2)) };
    assert_eq!(eligibility_begin_now(&far), EligibilityStep::Done { wallet_id: None });
    let disabled = RewardsVerification { status: RewardStatus::Disabled, verify_after: None };
    assert_eq!(eligibility_begin_now(&disabled), EligibilityStep::Done { wallet_id: None });
}

#[test]
fn test_a_wallet_without_devices_names_itself() {
    assert_eq!(
        latest_wallet_device_id(-7, &vec![]),
        Err(DatabaseError::Error("Wallet -7 has no subscribed devices".to_string()))
    );
    assert_eq!(
        latest_wallet_device_id(10, &vec![]),
        Err(DatabaseError::Error("Wallet 10 has no subscribed devices".to_string()))
    );
}
