use vstd::prelude::*;

use crate::error::DatabaseError;
use crate::rewards_session::RewardStatus;
use crate::config::{decimal_text, i32_to_string};
use crate::text::to_owned_string;
use vstd::string::StringExecFns;
use crate::time::{current_time, Timestamp};

verus! {

/// What makes a wallet eligible for verification: activity on or after the
/// cutoff from a wallet subscribed on or before it, and enough confirmed
/// transactions since it subscribed.
#[derive(Debug, Clone, Copy, PartialEq, Eq)]
pub struct RewardsEligibilityConfig {
    pub activity_cutoff: Timestamp,
    pub transactions_required: i64,
}

/// A referrer's standing in the rewards program.
#[derive(Debug, Clone, Copy, PartialEq, Eq)]
pub struct ReferrerInfo {
    pub status: RewardStatus,
    pub referral_count: i32,
    pub wallet_id: i32,
}

/// Where a wallet's verification stands.
#[derive(Debug, Clone, Copy, PartialEq, Eq)]
pub struct RewardsVerification {
    pub status: RewardStatus,
    pub verify_after: Option<Timestamp>,
}

/// The next step of an eligibility check: its answer, or what must be read
/// from storage before it can go on.
#[derive(Debug, Clone, Copy, PartialEq, Eq)]
pub enum EligibilityStep {
    /// The check is over: the wallet to verify, or none.
    Done { wallet_id: Option<i32> },
    /// The date the wallet first subscribed is needed.
    FetchFirstSubscription,
    /// The latest activity of the wallet's devices is needed.
    FetchLatestActivity { first_subscription_at: Timestamp },
    /// The number of the wallet's confirmed transactions since `since` is needed.
    CountConfirmedTransactions { since: Timestamp },
}

/// Whether a wallet whose rewards stand as `verification` may be checked at `now`:
/// it is unverified, and not asked to wait past `now`.
pub open spec fn may_be_checked(verification: RewardsVerification, now: Timestamp) -> bool {
    &&& verification.status == RewardStatus::Unverified
    &&& match verification.verify_after {
        Some(after) => after.instant() <= now.instant(),
        None => true,
    }
}

/// Whether a wallet is eligible for verification.
pub open spec fn is_eligible(
    verification: RewardsVerification,
    now: Timestamp,
    first_subscription_at: Option<Timestamp>,
    latest_activity_at: Option<Timestamp>,
    confirmed_transactions: int,
    config: RewardsEligibilityConfig,
) -> bool {
    &&& may_be_checked(verification, now)
    &&& first_subscription_at matches Some(first) && first.instant() <= config.activity_cutoff.instant()
    &&& latest_activity_at matches Some(latest) && latest.instant() >= config.activity_cutoff.instant()
    &&& confirmed_transactions >= config.transactions_required
}

/// The first step of an eligibility check at `now`.
pub open spec fn begin_step(verification: RewardsVerification, now: Timestamp) -> EligibilityStep {
    if may_be_checked(verification, now) {
        EligibilityStep::FetchFirstSubscription
    } else {
        EligibilityStep::Done { wallet_id: None }
    }
}

/// The step after the first subscription date is read.
pub open spec fn first_subscription_step(
    first_subscription_at: Option<Timestamp>,
    config: RewardsEligibilityConfig,
) -> EligibilityStep {
    match first_subscription_at {
        Some(first) => if first.instant() <= config.activity_cutoff.instant() {
            EligibilityStep::FetchLatestActivity { first_subscription_at: first }
        } else {
            EligibilityStep::Done { wallet_id: None }
        },
        None => EligibilityStep::Done { wallet_id: None },
    }
}

/// The step after the latest device activity is read.
pub open spec fn latest_activity_step(
    first_subscription_at: Timestamp,
    latest_activity_at: Option<Timestamp>,
    config: RewardsEligibilityConfig,
) -> EligibilityStep {
    match latest_activity_at {
        Some(latest) => if latest.instant() >= config.activity_cutoff.instant() {
            EligibilityStep::CountConfirmedTransactions { since: first_subscription_at }
        } else {
            EligibilityStep::Done { wallet_id: None }
        },
        None => EligibilityStep::Done { wallet_id: None },
    }
}

/// The last step, once the confirmed transactions are counted.
pub open spec fn confirmed_transactions_step(
    wallet_id: i32,
    confirmed_transactions: int,
    config: RewardsEligibilityConfig,
) -> EligibilityStep {
    EligibilityStep::Done {
        wallet_id: if confirmed_transactions >= config.transactions_required {
            Some(wallet_id)
        } else {
            None
        },
    }
}

/// Starts an eligibility check of a wallet whose rewards stand as `verification`.
pub fn eligibility_begin(verification: &RewardsVerification, now: &Timestamp) -> (step: EligibilityStep)
    ensures
        step == begin_step(*verification, *now),
        verification.status != RewardStatus::Unverified ==> step == (EligibilityStep::Done { wallet_id: None }),
        verification.verify_after matches Some(after) && after.instant() > now.instant() ==> step == (
        EligibilityStep::Done { wallet_id: None }),
        verification.status == RewardStatus::Unverified && !(verification.verify_after matches Some(after)
            && after.instant() > now.instant()) ==> step == EligibilityStep::FetchFirstSubscription,
{
    match verification.status {
        RewardStatus::Unverified => {},
        _ => {
            return EligibilityStep::Done { wallet_id: None };
        },
    }
    if let Some(after) = &verification.verify_after {
        if after.is_after(now) {
            return EligibilityStep::Done { wallet_id: None };
        }
    }
    EligibilityStep::FetchFirstSubscription
}

/// The first step of an eligibility check for a reading of the clock: no
/// wallet when the clock cannot be read.
pub open spec fn begin_step_reading(verification: RewardsVerification, reading: Option<Timestamp>) -> EligibilityStep {
    match reading {
        Some(now) => begin_step(verification, now),
        None => EligibilityStep::Done { wallet_id: None },
    }
}

/// Starts an eligibility check now, by the system clock; when the clock
/// cannot be read, no wallet is verified.
pub fn eligibility_begin_now(verification: &RewardsVerification) -> (step: EligibilityStep)
    ensures
        exists|reading: Option<Timestamp>| step == #[trigger] begin_step_reading(*verification, reading),
{
    let reading = current_time();
    let step = match reading {
        Some(now) => eligibility_begin(verification, &now),
        None => EligibilityStep::Done { wallet_id: None },
    };
    assert(step == begin_step_reading(*verification, reading));
    step
}

/// Goes on once the wallet's first subscription date is known.
pub fn eligibility_on_first_subscription(
    first_subscription_at: Option<Timestamp>,
    config: &RewardsEligibilityConfig,
) -> (step: EligibilityStep)
    ensures
        step == first_subscription_step(first_subscription_at, *config),
{
    match first_subscription_at {
        Some(first) => {
            if first.is_after(&config.activity_cutoff) {
                EligibilityStep::Done { wallet_id: None }
            } else {
                EligibilityStep::FetchLatestActivity { first_subscription_at: first }
            }
        },
        None => EligibilityStep::Done { wallet_id: None },
    }
}

/// Goes on once the latest activity of the wallet's devices is known.
pub fn eligibility_on_latest_activity(
    first_subscription_at: Timestamp,
    latest_activity_at: Option<Timestamp>,
    config: &RewardsEligibilityConfig,
) -> (step: EligibilityStep)
    ensures
        step == latest_activity_step(first_subscription_at, latest_activity_at, *config),
{
    match latest_activity_at {
        Some(latest) => {
            if latest.is_at_or_after(&config.activity_cutoff) {
                EligibilityStep::CountConfirmedTransactions { since: first_subscription_at }
            } else {
                EligibilityStep::Done { wallet_id: None }
            }
        },
        None => EligibilityStep::Done { wallet_id: None },
    }
}

/// Ends the check once the number of confirmed transactions is known.
pub fn eligibility_on_confirmed_transactions(
    wallet_id: i32,
    confirmed_transactions: i64,
    config: &RewardsEligibilityConfig,
) -> (step: EligibilityStep)
    ensures
        step == confirmed_transactions_step(wallet_id, confirmed_transactions as int, *config),
{
    if confirmed_transactions < config.transactions_required {
        EligibilityStep::Done { wallet_id: None }
    } else {
        EligibilityStep::Done { wallet_id: Some(wallet_id) }
    }
}

/// Where an eligibility check ends when each step is answered from the
/// wallet's data: the first subscription date, the latest activity, and the
/// confirmed transactions since the date it asks for.
pub open spec fn eligibility_outcome(
    wallet_id: i32,
    verification: RewardsVerification,
    now: Timestamp,
    first_subscription_at: Option<Timestamp>,
    latest_activity_at: Option<Timestamp>,
    confirmed_transactions: int,
    config: RewardsEligibilityConfig,
) -> EligibilityStep {
    match begin_step(verification, now) {
        EligibilityStep::FetchFirstSubscription => match first_subscription_step(first_subscription_at, config) {
            EligibilityStep::FetchLatestActivity { first_subscription_at: first } => match latest_activity_step(
                first,
                latest_activity_at,
                config,
            ) {
                EligibilityStep::CountConfirmedTransactions { .. } => confirmed_transactions_step(
                    wallet_id,
                    confirmed_transactions,
                    config,
                ),
                other => other,
            },
            other => other,
        },
        other => other,
    }
}

/// The steps of an eligibility check, run with the wallet's data, end with
/// an answer, and that answer is the wallet exactly when it is eligible.
pub proof fn lemma_eligibility_steps(
    wallet_id: i32,
    verification: RewardsVerification,
    now: Timestamp,
    first_subscription_at: Option<Timestamp>,
    latest_activity_at: Option<Timestamp>,
    confirmed_transactions: int,
    config: RewardsEligibilityConfig,
)
    ensures
        ({
            let outcome = eligibility_outcome(
                wallet_id,
                verification,
                now,
                first_subscription_at,
                latest_activity_at,
                confirmed_transactions,
                config,
            );
            &&& outcome is Done
            &&& (outcome == EligibilityStep::Done { wallet_id: Some(wallet_id) }) == is_eligible(
                verification,
                now,
                first_subscription_at,
                latest_activity_at,
                confirmed_transactions,
                config,
            )
            &&& outcome is Done ==> (outcome->wallet_id is None || outcome->wallet_id == Some(wallet_id))
        }),
{
}

/// The instant at which some device of a wallet was last active, if it has any.
pub fn latest_activity(device_updates: &Vec<Timestamp>) -> (latest: Option<Timestamp>)
    ensures
        match latest {
            None => device_updates@.len() == 0,
            Some(t) => {
                &&& device_updates@.contains(t)
                &&& forall|k: int| 0 <= k < device_updates@.len() ==> #[trigger] device_updates@[k].instant() <= t.instant()
            },
        },
{
    let mut latest: Option<Timestamp> = None;
    let mut i: usize = 0;
    while i < device_updates.len()
        invariant
            i <= device_updates@.len(),
            match latest {
                None => i == 0,
                Some(t) => {
                    &&& device_updates@.take(i as int).contains(t)
                    &&& forall|k: int| 0 <= k < i ==> #[trigger] device_updates@[k].instant() <= t.instant()
                },
            },
        decreases device_updates@.len() - i,
    {
        let t = device_updates[i];
        match latest {
            None => {
                latest = Some(t);
                assert(device_updates@.take(i + 1)[i as int] == t);
            },
            Some(current) => {
                if t.is_after(&current) {
                    latest = Some(t);
                    assert(device_updates@.take(i + 1)[i as int] == t);
                } else {
                    proof {
                        let k = choose|k: int| 0 <= k < i && device_updates@.take(i as int)[k] == current;
                        assert(device_updates@.take(i + 1)[k] == current);
                    }
                }
            },
        }
        i = i + 1;
    }
    assert(device_updates@.take(device_updates@.len() as int) =~= device_updates@);
    latest
}

/// A device of a wallet with the instant it was last updated.
#[derive(Debug, Clone, Copy, PartialEq, Eq)]
pub struct DeviceActivity {
    pub device_id: i32,
    pub updated_at: Timestamp,
}

/// The device of a wallet that was updated last (the later listed on a tie),
/// or the error reported when the wallet has no device.
pub fn latest_wallet_device_id(wallet_id: i32, devices: &Vec<DeviceActivity>) -> (r: Result<i32, DatabaseError>)
    ensures
        match r {
            Ok(id) => exists|j: int|
                0 <= j < devices@.len() && #[trigger] devices@[j].device_id == id && (forall|k: int|
                    0 <= k < devices@.len() ==> #[trigger] devices@[k].updated_at.instant()
                        <= devices@[j].updated_at.instant()) && (forall|k: int|
                    j < k < devices@.len() ==> #[trigger] devices@[k].updated_at.instant()
                        < devices@[j].updated_at.instant()),
            Err(e) => devices@.len() == 0 && (e matches DatabaseError::Error(m) && m@ == no_devices_text(
                wallet_id as int,
            )),
        },
{
    let mut best: usize = 0;
    if devices.len() == 0 {
        return Err(DatabaseError::Error(no_devices_message(wallet_id)));
    }
    let mut i: usize = 1;
    while i < devices.len()
        invariant
            1 <= i <= devices@.len(),
            best < i,
            forall|k: int| 0 <= k < i ==> #[trigger] devices@[k].updated_at.instant()
                <= devices@[best as int].updated_at.instant(),
            forall|k: int| best < k < i ==> #[trigger] devices@[k].updated_at.instant()
                < devices@[best as int].updated_at.instant(),
        decreases devices@.len() - i,
    {
        if devices[i].updated_at.is_at_or_after(&devices[best].updated_at) {
            best = i;
        }
        i = i + 1;
    }
    Ok(devices[best].device_id)
}

/// The message of the error for a wallet without devices.
pub open spec fn no_devices_text(wallet_id: int) -> Seq<char> {
    "Wallet "@ + decimal_text(wallet_id) + " has no subscribed devices"@
}

fn no_devices_message(wallet_id: i32) -> (message: String)
    ensures
        message@ == no_devices_text(wallet_id as int),
{
    let message = to_owned_string("Wallet ");
    let number = i32_to_string(wallet_id);
    let message = message.concat(number.as_str());
    message.concat(" has no subscribed devices")
}

/// The kinds of rewards events.
#[derive(Debug, Clone, Copy, PartialEq, Eq)]
pub enum RewardEventType {
    CreateUsername,
    InvitePending,
    InviteNew,
    Joined,
    Enabled,
    Disabled,
}

/// Who a rewards event is recorded for.
#[derive(Debug, Clone, Copy, PartialEq, Eq)]
pub enum RewardEventParty {
    Referrer,
    Referred,
}

/// The events a verified referral records: an invite for the referrer unless
/// it is only an attribution, then the join of the referred wallet.
pub open spec fn verified_referral_events_spec(referrer_status: RewardStatus) -> Seq<(RewardEventParty, RewardEventType)> {
    if referrer_status == RewardStatus::Attribution {
        seq![(RewardEventParty::Referred, RewardEventType::Joined)]
    } else {
        seq![
            (RewardEventParty::Referrer, RewardEventType::InviteNew),
            (RewardEventParty::Referred, RewardEventType::Joined),
        ]
    }
}

/// The events a verified referral records, in order.
pub fn verified_referral_events(referrer_status: RewardStatus) -> (events: Vec<(RewardEventParty, RewardEventType)>)
    ensures
        events@ == verified_referral_events_spec(referrer_status),
        referrer_status != RewardStatus::Attribution ==> events@ == seq![
            (RewardEventParty::Referrer, RewardEventType::InviteNew),
            (RewardEventParty::Referred, RewardEventType::Joined),
        ],
        referrer_status == RewardStatus::Attribution ==> events@ == seq![
            (RewardEventParty::Referred, RewardEventType::Joined),
        ],
{
    let mut events = Vec::new();
    if referrer_status != RewardStatus::Attribution {
        events.push((RewardEventParty::Referrer, RewardEventType::InviteNew));
    }
    events.push((RewardEventParty::Referred, RewardEventType::Joined));
    assert(events@ =~= verified_referral_events_spec(referrer_status));
    events
}

/// The events a referral still waiting for verification records: a pending
/// invite for the referrer unless it is only an attribution.
pub fn pending_referral_events(referrer_status: RewardStatus) -> (events: Vec<(RewardEventParty, RewardEventType)>)
    ensures
        events@ == pending_referral_events_spec(referrer_status),
        referrer_status != RewardStatus::Attribution ==> events@ == seq![
            (RewardEventParty::Referrer, RewardEventType::InvitePending),
        ],
        referrer_status == RewardStatus::Attribution ==> events@.len() == 0,
{
    let mut events = Vec::new();
    if referrer_status != RewardStatus::Attribution {
        events.push((RewardEventParty::Referrer, RewardEventType::InvitePending));
    }
    assert(events@ =~= pending_referral_events_spec(referrer_status));
    events
}

/// The events a referral still waiting for verification records.
pub open spec fn pending_referral_events_spec(referrer_status: RewardStatus) -> Seq<(RewardEventParty, RewardEventType)> {
    if referrer_status == RewardStatus::Attribution {
        Seq::empty()
    } else {
        seq![(RewardEventParty::Referrer, RewardEventType::InvitePending)]
    }
}

/// The events recording a referral writes: those of a verified referral
/// when it arrives verified, those of a pending one otherwise.
pub fn recorded_referral_events(verified: bool, referrer_status: RewardStatus) -> (events: Vec<
    (RewardEventParty, RewardEventType),
>)
    ensures
        events@ == if verified {
            verified_referral_events_spec(referrer_status)
        } else {
            pending_referral_events_spec(referrer_status)
        },
{
    if verified {
        verified_referral_events(referrer_status)
    } else {
        pending_referral_events(referrer_status)
    }
}

/// Whether a points amount may be applied: an event adding it, or a
/// redemption spending it, refuses a negative amount.
pub fn event_points_allowed(points: i32) -> (allowed: bool)
    ensures
        allowed == (points >= 0),
{
    points >= 0
}

/// Why a redemption is refused before it is stored: the wallet lacks the
/// points, or the option has none left. `Ok` when it may go ahead.
pub fn redemption_admission(points: i32, option_points: i32, option_remaining: Option<i32>) -> (r: Result<(), DatabaseError>)
    ensures
        match r {
            Ok(()) => points >= option_points && option_remaining != Some(0i32),
            Err(DatabaseError::Error(message)) => if points < option_points {
                message@ == "Not enough points"@
            } else {
                option_remaining == Some(0i32) && message@ == "Redemption option is no longer available"@
            },
            Err(_) => false,
        },
{
    if points < option_points {
        return Err(DatabaseError::Error(to_owned_string("Not enough points")));
    }
    if let Some(0i32) = option_remaining {
        return Err(DatabaseError::Error(to_owned_string("Redemption option is no longer available")));
    }
    Ok(())
}

/// A referrer on a leaderboard.
#[derive(Debug, Clone, PartialEq, Eq)]
pub struct ReferralLeader {
    pub username: String,
    pub referrals: i32,
    pub points: i32,
}

/// A leaderboard entry: the referrals counted, and the points they earn,
/// both narrowed to 32 bits as they are stored.
pub fn referral_leader(username: String, referrals: i64, points_per_referral: i64) -> (leader: ReferralLeader)
    requires
        i64::MIN <= referrals * points_per_referral <= i64::MAX,
    ensures
        leader.username == username,
        leader.referrals == referrals as i32,
        leader.points == (referrals * points_per_referral) as i32,
{
    ReferralLeader {
        username,
        referrals: referrals as i32,
        points: (referrals * points_per_referral) as i32,
    }
}

/// A verified referral gives the referrer an invite event whatever their
/// standing, except a referrer who only attributes; the referred wallet
/// always gets its join event, last.
pub proof fn lemma_verified_referral_events_by_status(referrer_status: RewardStatus)
    ensures
        verified_referral_events_spec(referrer_status).last() == (RewardEventParty::Referred, RewardEventType::Joined),
        verified_referral_events_spec(referrer_status).contains((RewardEventParty::Referrer, RewardEventType::InviteNew))
            <==> referrer_status != RewardStatus::Attribution,
        referrer_status != RewardStatus::Attribution ==> verified_referral_events_spec(referrer_status).len() == 2,
        referrer_status == RewardStatus::Attribution ==> verified_referral_events_spec(referrer_status).len() == 1,
{
    let events = verified_referral_events_spec(referrer_status);
    if referrer_status != RewardStatus::Attribution {
        assert(events[0] == (RewardEventParty::Referrer, RewardEventType::InviteNew));
    } else {
        assert(events.len() == 1);
        assert(events[0] != (RewardEventParty::Referrer, RewardEventType::InviteNew));
    }
}

/// A pending referral gives the referrer exactly one pending invite, except
/// a referrer who only attributes, who gets nothing.
pub proof fn lemma_pending_referral_events_by_status(referrer_status: RewardStatus)
    ensures
        referrer_status != RewardStatus::Attribution ==> pending_referral_events_spec(referrer_status) == seq![
            (RewardEventParty::Referrer, RewardEventType::InvitePending),
        ],
        referrer_status == RewardStatus::Attribution ==> pending_referral_events_spec(referrer_status).len() == 0,
{
}

/// A wallet asked to wait past `now` is not checked at `now`.
pub proof fn lemma_delayed_wallet_waits(verification: RewardsVerification, now: Timestamp, after: Timestamp)
    requires
        verification.verify_after == Some(after),
        after.instant() > now.instant(),
    ensures
        begin_step(verification, now) == (EligibilityStep::Done { wallet_id: None }),
{
}

/// Only an unverified wallet is checked, and it is checked once it is not
/// asked to wait any longer.
pub proof fn lemma_unverified_wallet_is_checked_when_due(verification: RewardsVerification, now: Timestamp)
    ensures
        verification.status != RewardStatus::Unverified ==> begin_step(verification, now) == (EligibilityStep::Done {
            wallet_id: None,
        }),
        verification.status == RewardStatus::Unverified && (verification.verify_after is None || (
        verification.verify_after matches Some(after) && after.instant() <= now.instant())) ==> begin_step(
            verification,
            now,
        ) == EligibilityStep::FetchFirstSubscription,
{
}

/// A wallet whose check may start at one moment may still start at any later one.
pub proof fn lemma_checking_stays_open(verification: RewardsVerification, now: Timestamp, later: Timestamp)
    requires
        now.instant() <= later.instant(),
        begin_step(verification, now) == EligibilityStep::FetchFirstSubscription,
    ensures
        begin_step(verification, later) == EligibilityStep::FetchFirstSubscription,
{
}

} // verus!
