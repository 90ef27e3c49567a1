use vstd::prelude::*;

use crate::common::clone_optional_string;

verus! {

/// A wallet, named by its identifier.
#[derive(Debug, PartialEq, Eq)]
pub struct WalletId {
    pub id: String,
}

impl Clone for WalletId {
    fn clone(&self) -> (c: Self)
        ensures
            c == *self,
    {
        WalletId { id: self.id.clone() }
    }
}

impl WalletId {
    /// The wallet with the given identifier.
    pub fn new(id: String) -> (w: WalletId)
        ensures
            w.id == id,
    {
        WalletId { id }
    }
}

/// Where a wallet stands in the rewards program.
#[derive(Debug, Clone, Copy, PartialEq, Eq, Structural)]
pub enum RewardStatus {
    Attribution,
    Unverified,
    Pending,
    Verified,
    Disabled,
}

/// A wallet's rewards as the server reports them.
#[derive(Debug, PartialEq, Eq)]
pub struct Rewards {
    pub code: Option<String>,
    pub referral_count: i32,
    pub points: i32,
    pub used_referral_code: Option<String>,
    pub status: RewardStatus,
}

impl Clone for Rewards {
    fn clone(&self) -> (c: Self)
        ensures
            c == *self,
    {
        Rewards {
            code: clone_optional_string(&self.code),
            referral_count: self.referral_count,
            points: self.points,
            used_referral_code: clone_optional_string(&self.used_referral_code),
            status: self.status,
        }
    }
}

/// An error reported by a service the session depends on.
#[derive(Debug, PartialEq, Eq)]
pub enum GemServiceError {
    Gateway { msg: String },
}

impl Clone for GemServiceError {
    fn clone(&self) -> (c: Self)
        ensures
            c == *self,
    {
        match self {
            GemServiceError::Gateway { msg } => GemServiceError::Gateway { msg: msg.clone() },
        }
    }
}

/// The answer to a request for a wallet's rewards.
#[derive(Debug, PartialEq, Eq)]
pub struct GemRewardsResult {
    pub wallet_id: WalletId,
    pub rewards: Option<Rewards>,
    pub error: Option<GemServiceError>,
}

/// What the rewards screen shows.
#[derive(Debug, Clone, PartialEq, Eq)]
pub enum GemRewardsPhase {
    Loading,
    Data,
    Failed { error: GemServiceError },
}

/// The state of the rewards screen: the wallet shown and what is known of its rewards.
#[derive(Debug, PartialEq, Eq)]
pub struct GemRewardsSession {
    pub wallet_id: Option<WalletId>,
    pub rewards: Option<Rewards>,
    pub error: Option<GemServiceError>,
    pub is_loading: bool,
}

impl Clone for GemRewardsSession {
    fn clone(&self) -> (c: Self)
        ensures
            c == *self,
    {
        GemRewardsSession {
            wallet_id: match &self.wallet_id {
                Some(w) => Some(w.clone()),
                None => None,
            },
            rewards: match &self.rewards {
                Some(r) => Some(r.clone()),
                None => None,
            },
            error: match &self.error {
                Some(e) => Some(e.clone()),
                None => None,
            },
            is_loading: self.is_loading,
        }
    }
}

/// Whether the session shows the wallet `id`.
pub open spec fn shows_wallet(s: GemRewardsSession, id: WalletId) -> bool {
    match s.wallet_id {
        Some(w) => w.id@ == id.id@,
        None => false,
    }
}

/// The session once `id` was selected: unchanged if it is already shown, else loading it afresh.
pub open spec fn select_step(s: GemRewardsSession, id: WalletId) -> GemRewardsSession {
    if shows_wallet(s, id) {
        s
    } else {
        GemRewardsSession { wallet_id: Some(id), rewards: None, error: None, is_loading: true }
    }
}

/// The session once `rewards` arrived for the shown wallet.
pub open spec fn rewards_step(s: GemRewardsSession, rewards: Rewards) -> GemRewardsSession {
    GemRewardsSession { rewards: Some(rewards), error: None, is_loading: false, ..s }
}

/// The session once `result` arrived: ignored if it is for another wallet; a
/// failure is kept only when no rewards are on screen.
pub open spec fn result_step(s: GemRewardsSession, result: GemRewardsResult) -> GemRewardsSession {
    if !shows_wallet(s, result.wallet_id) {
        s
    } else {
        match result.rewards {
            Some(rewards) => rewards_step(s, rewards),
            None => GemRewardsSession {
                error: if s.rewards is None { result.error } else { None },
                is_loading: false,
                ..s
            },
        }
    }
}

/// The phase shown for a session.
pub open spec fn rewards_phase_of(s: GemRewardsSession) -> GemRewardsPhase {
    if s.is_loading {
        GemRewardsPhase::Loading
    } else {
        match (s.rewards, s.error) {
            (Some(_), _) => GemRewardsPhase::Data,
            (None, Some(error)) => GemRewardsPhase::Failed { error },
            (None, None) => GemRewardsPhase::Data,
        }
    }
}

/// A session before any wallet is selected: loading.
pub fn rewards_session() -> (s: GemRewardsSession)
    ensures
        s.wallet_id is None,
        s.rewards is None,
        s.error is None,
        s.is_loading,
{
    GemRewardsSession { wallet_id: None, rewards: None, error: None, is_loading: true }
}

fn optional_wallet_is(wallet: &Option<WalletId>, id: &WalletId) -> (r: bool)
    ensures
        r == match wallet {
            Some(w) => w.id@ == id.id@,
            None => false,
        },
{
    match wallet {
        Some(w) => w.id == id.id,
        None => false,
    }
}

impl GemRewardsSession {
    /// A wallet was selected: the same wallet changes nothing, another one starts loading afresh.
    pub fn on_select_wallet(&self, wallet_id: WalletId) -> (s: Self)
        ensures
            s == select_step(*self, wallet_id),
    {
        if optional_wallet_is(&self.wallet_id, &wallet_id) {
            return self.clone();
        }
        GemRewardsSession { wallet_id: Some(wallet_id), rewards: None, error: None, is_loading: true }
    }

    /// An answer arrived for a wallet.
    pub fn on_result(&self, result: GemRewardsResult) -> (s: Self)
        ensures
            s == result_step(*self, result),
    {
        if !optional_wallet_is(&self.wallet_id, &result.wallet_id) {
            return self.clone();
        }
        match result.rewards {
            Some(rewards) => self.on_rewards(rewards),
            None => {
                let copy = self.clone();
                GemRewardsSession {
                    wallet_id: copy.wallet_id,
                    error: if self.rewards.is_none() { result.error } else { None },
                    rewards: copy.rewards,
                    is_loading: false,
                }
            },
        }
    }

    /// Rewards arrived for the shown wallet.
    pub fn on_rewards(&self, rewards: Rewards) -> (s: Self)
        ensures
            s == rewards_step(*self, rewards),
    {
        let copy = self.clone();
        GemRewardsSession { wallet_id: copy.wallet_id, rewards: Some(rewards), error: None, is_loading: false }
    }

    /// The wallet whose rewards should be requested.
    pub fn request(&self) -> (r: Option<WalletId>)
        ensures
            r == self.wallet_id,
    {
        match &self.wallet_id {
            Some(w) => Some(w.clone()),
            None => None,
        }
    }

    /// What the screen shows.
    pub fn phase(&self) -> (p: GemRewardsPhase)
        ensures
            p == rewards_phase_of(*self),
    {
        if self.is_loading {
            return GemRewardsPhase::Loading;
        }
        match (&self.rewards, &self.error) {
            (Some(_), _) => GemRewardsPhase::Data,
            (None, Some(error)) => GemRewardsPhase::Failed { error: error.clone() },
            (None, None) => GemRewardsPhase::Data,
        }
    }
}

/// An answer for a wallet that is no longer shown changes nothing.
pub proof fn lemma_stale_result_dropped(s: GemRewardsSession, result: GemRewardsResult)
    requires
        !shows_wallet(s, result.wallet_id),
    ensures
        result_step(s, result) == s,
{
}

/// Selecting the wallet already shown changes nothing; selecting another one starts loading it.
pub proof fn lemma_reselect_keeps_session(s: GemRewardsSession, id: WalletId)
    ensures
        shows_wallet(s, id) ==> select_step(s, id) == s,
        !shows_wallet(s, id) ==> rewards_phase_of(select_step(s, id)) == GemRewardsPhase::Loading
            && select_step(s, id).wallet_id == Some(id),
{
}

/// A failed refresh keeps the rewards already on screen and shows them.
pub proof fn lemma_failed_refresh_keeps_rewards(s: GemRewardsSession, result: GemRewardsResult)
    requires
        shows_wallet(s, result.wallet_id),
        s.rewards is Some,
        result.rewards is None,
    ensures
        result_step(s, result).rewards == s.rewards,
        rewards_phase_of(result_step(s, result)) == GemRewardsPhase::Data,
{
}

/// A failed first load reads as a failure, not as a wallet without rewards.
pub proof fn lemma_failed_load_is_failure(s: GemRewardsSession, result: GemRewardsResult, error: GemServiceError)
    requires
        shows_wallet(s, result.wallet_id),
        s.rewards is None,
        result.rewards is None,
        result.error == Some(error),
    ensures
        rewards_phase_of(result_step(s, result)) == (GemRewardsPhase::Failed { error }),
{
}

} // verus!
