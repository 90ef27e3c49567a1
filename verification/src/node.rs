use vstd::prelude::*;

use crate::common::{clone_optional_string, Chain, Latency};
use crate::text::{is_trim_of, is_unicode_whitespace, lemma_blank_trims_to_empty, to_owned_string, trim};

verus! {

/// Why a node could not be added.
#[derive(Debug, Clone, Copy, PartialEq, Eq)]
pub enum GemAddNodeFailure {
    InvalidUrl,
    InvalidNetworkId,
    Unavailable,
}

/// What a node answered when it was checked.
#[derive(Debug, PartialEq, Eq)]
pub struct GemNodeCheck {
    pub url: String,
    pub chain_id: Option<String>,
    pub latest_block_number: u64,
    pub is_in_sync: bool,
    pub latency: Latency,
}

impl Clone for GemNodeCheck {
    fn clone(&self) -> (c: Self)
        ensures
            c == *self,
    {
        GemNodeCheck {
            url: self.url.clone(),
            chain_id: clone_optional_string(&self.chain_id),
            latest_block_number: self.latest_block_number,
            is_in_sync: self.is_in_sync,
            latency: self.latency,
        }
    }
}

/// Where the add-node screen stands.
#[derive(Debug, Clone, PartialEq, Eq)]
pub enum GemAddNodePhase {
    Idle,
    Checking,
    Ready { check: GemNodeCheck },
    Failed { failure: GemAddNodeFailure },
}

/// What the add-node screen shows.
#[derive(Debug, Clone, PartialEq, Eq)]
pub struct GemAddNodeViewState {
    pub phase: GemAddNodePhase,
    pub can_import: bool,
}

/// The state of the add-node screen: the url typed so far and the answer to
/// its last check. Each event returns the next state.
#[derive(Debug, PartialEq, Eq)]
pub struct GemAddNodeSession {
    pub chain: Chain,
    pub url: String,
    pub check: Option<GemNodeCheck>,
    pub failure: Option<GemAddNodeFailure>,
    pub is_checking: bool,
}

/// The phase shown for a session.
pub open spec fn phase_of(s: GemAddNodeSession) -> GemAddNodePhase {
    if s.is_checking {
        GemAddNodePhase::Checking
    } else {
        match (s.check, s.failure) {
            (Some(check), _) => GemAddNodePhase::Ready { check },
            (None, Some(failure)) => GemAddNodePhase::Failed { failure },
            (None, None) => GemAddNodePhase::Idle,
        }
    }
}

/// The session of a fresh screen for `chain`.
pub open spec fn is_fresh_session(s: GemAddNodeSession, chain: Chain) -> bool {
    &&& s.chain == chain
    &&& s.url@ == Seq::<char>::empty()
    &&& s.check is None
    &&& s.failure is None
    &&& !s.is_checking
}

/// `after` is `before` once the url `url` was typed: the trimmed url, with no answer.
pub open spec fn is_input_step(before: GemAddNodeSession, url: Seq<char>, after: GemAddNodeSession) -> bool {
    &&& after.chain == before.chain
    &&& is_trim_of(url, after.url@)
    &&& after.check is None
    &&& after.failure is None
    &&& !after.is_checking
}

/// The session once a check of its url started: no answer, and checking only a non-empty url.
pub open spec fn checking_step(s: GemAddNodeSession) -> GemAddNodeSession {
    GemAddNodeSession { check: None, failure: None, is_checking: s.url@.len() > 0, ..s }
}

/// The session once its check answered `check`.
pub open spec fn checked_step(s: GemAddNodeSession, check: GemNodeCheck) -> GemAddNodeSession {
    GemAddNodeSession { check: Some(check), failure: None, is_checking: false, ..s }
}

/// The session once its check failed with `failure`.
pub open spec fn failed_step(s: GemAddNodeSession, failure: GemAddNodeFailure) -> GemAddNodeSession {
    GemAddNodeSession { check: None, failure: Some(failure), is_checking: false, ..s }
}

impl Clone for GemAddNodeSession {
    fn clone(&self) -> (c: Self)
        ensures
            c == *self,
    {
        GemAddNodeSession {
            chain: self.chain.clone(),
            url: self.url.clone(),
            check: match &self.check {
                Some(check) => Some(check.clone()),
                None => None,
            },
            failure: self.failure,
            is_checking: self.is_checking,
        }
    }
}

impl GemAddNodeSession {
    /// A fresh screen for `chain`: no url and no answer.
    pub fn new(chain: Chain) -> (s: Self)
        ensures
            is_fresh_session(s, chain),
    {
        GemAddNodeSession { chain, url: String::new(), check: None, failure: None, is_checking: false }
    }

    /// A new url was typed: it is kept trimmed, and any earlier answer is dropped.
    pub fn on_input(&self, url: String) -> (s: Self)
        ensures
            is_input_step(*self, url@, s),
    {
        let trimmed = to_owned_string(trim(url.as_str()));
        GemAddNodeSession {
            chain: self.chain.clone(),
            url: trimmed,
            check: None,
            failure: None,
            is_checking: false,
        }
    }

    /// A check of the url starts; an empty url is never checked.
    pub fn on_checking(&self) -> (s: Self)
        ensures
            s == checking_step(*self),
    {
        GemAddNodeSession {
            chain: self.chain.clone(),
            url: self.url.clone(),
            check: None,
            failure: None,
            is_checking: !self.url.as_str().is_empty(),
        }
    }

    /// The check answered.
    pub fn on_checked(&self, check: GemNodeCheck) -> (s: Self)
        ensures
            s == checked_step(*self, check),
    {
        GemAddNodeSession {
            chain: self.chain.clone(),
            url: self.url.clone(),
            check: Some(check),
            failure: None,
            is_checking: false,
        }
    }

    /// The check failed.
    pub fn on_failed(&self, failure: GemAddNodeFailure) -> (s: Self)
        ensures
            s == failed_step(*self, failure),
    {
        GemAddNodeSession {
            chain: self.chain.clone(),
            url: self.url.clone(),
            check: None,
            failure: Some(failure),
            is_checking: false,
        }
    }

    /// The node was imported: the screen starts over for the same chain.
    pub fn on_imported(&self) -> (s: Self)
        ensures
            is_fresh_session(s, self.chain),
    {
        Self::new(self.chain.clone())
    }

    /// Whether the url is worth checking: it is not empty.
    pub fn checks_url(&self) -> (r: bool)
        ensures
            r == (self.url@.len() > 0),
    {
        !self.url.as_str().is_empty()
    }

    /// What the screen shows: the phase, and whether an answer allows the import.
    pub fn view_state(&self) -> (v: GemAddNodeViewState)
        ensures
            v.phase == phase_of(*self),
            v.can_import == self.check is Some,
    {
        GemAddNodeViewState { phase: self.phase(), can_import: self.check.is_some() }
    }

    fn phase(&self) -> (p: GemAddNodePhase)
        ensures
            p == phase_of(*self),
    {
        if self.is_checking {
            return GemAddNodePhase::Checking;
        }
        match (&self.check, self.failure) {
            (Some(check), _) => GemAddNodePhase::Ready { check: check.clone() },
            (None, Some(failure)) => GemAddNodePhase::Failed { failure },
            (None, None) => GemAddNodePhase::Idle,
        }
    }
}

/// A newly typed url clears the previous answer: the screen is idle and nothing can be imported.
pub proof fn lemma_new_url_clears_answer(before: GemAddNodeSession, url: Seq<char>, after: GemAddNodeSession)
    requires
        is_input_step(before, url, after),
    ensures
        phase_of(after) == GemAddNodePhase::Idle,
        after.check is None,
{
}

/// A session with an empty url never starts a check: it stays idle.
pub proof fn lemma_empty_url_never_checks(s: GemAddNodeSession)
    requires
        s.url@.len() == 0,
    ensures
        phase_of(checking_step(s)) == GemAddNodePhase::Idle,
{
}

/// A failure replaces an earlier answer and blocks the import.
pub proof fn lemma_failure_replaces_answer(s: GemAddNodeSession, check: GemNodeCheck, failure: GemAddNodeFailure)
    ensures
        phase_of(failed_step(checked_step(s, check), failure)) == (GemAddNodePhase::Failed { failure }),
        failed_step(checked_step(s, check), failure).check is None,
{
}

/// A check that answered makes the screen ready with that answer, and allows the import.
pub proof fn lemma_answer_allows_import(s: GemAddNodeSession, check: GemNodeCheck)
    ensures
        phase_of(checked_step(s, check)) == (GemAddNodePhase::Ready { check }),
        checked_step(s, check).check is Some,
{
}

/// A url made only of whitespace is kept empty, so the screen never checks it.
pub proof fn lemma_blank_url_never_checks(before: GemAddNodeSession, url: Seq<char>, after: GemAddNodeSession)
    requires
        is_input_step(before, url, after),
        forall|i: int| 0 <= i < url.len() ==> is_unicode_whitespace(#[trigger] url[i]),
    ensures
        after.url@.len() == 0,
        phase_of(checking_step(after)) == GemAddNodePhase::Idle,
{
    lemma_blank_trims_to_empty(url, after.url@);
}

} // verus!
