use vstd::prelude::*;

use crate::common::Chain;
use crate::text::str_eq;
use crate::time::Timestamp;

verus! {

/// What a scan detection is about.
#[derive(Debug, Clone, Copy, PartialEq, Eq, Structural)]
pub enum ScanType {
    Address,
    AddressPoisoning,
}

/// The service that reported a detection, named by its identifier.
#[derive(Debug, Clone, PartialEq, Eq)]
pub struct ScanProvider {
    pub id: String,
}

/// A stored scan detection.
#[derive(Debug, Clone, PartialEq, Eq)]
pub struct ScanDetectionRow {
    pub id: i32,
    pub scan_type: ScanType,
    pub chain: Option<Chain>,
    pub target: String,
    pub provider: ScanProvider,
    pub reason: Option<String>,
    pub updated_at: Timestamp,
    pub created_at: Timestamp,
}

/// A scan detection to store.
#[derive(Debug, Clone, PartialEq, Eq)]
pub struct NewScanDetectionRow {
    pub scan_type: ScanType,
    pub chain: Option<Chain>,
    pub target: String,
    pub provider: ScanProvider,
    pub reason: Option<String>,
}

/// Whether two optional chains are the same (both absent, or naming the same chain).
pub open spec fn same_optional_chain(a: Option<Chain>, b: Option<Chain>) -> bool {
    match (a, b) {
        (Some(x), Some(y)) => x.id@ == y.id@,
        (None, None) => true,
        _ => false,
    }
}

impl ScanDetectionRow {
    /// Whether the detection is about this scan type, chain and target.
    pub fn matches(&self, scan_type: ScanType, chain: Option<Chain>, target: &str) -> (r: bool)
        ensures
            r == (self.scan_type == scan_type && same_optional_chain(self.chain, chain) && self.target@ == target@),
    {
        let same_chain = match (&self.chain, &chain) {
            (Some(a), Some(b)) => a.same_as(b),
            (None, None) => true,
            _ => false,
        };
        self.scan_type == scan_type && same_chain && str_eq(self.target.as_str(), target)
    }
}

impl NewScanDetectionRow {
    /// A detection to store, as reported.
    pub fn new(
        scan_type: ScanType,
        chain: Option<Chain>,
        target: String,
        provider: ScanProvider,
        reason: Option<String>,
    ) -> (row: Self)
        ensures
            row.scan_type == scan_type,
            row.chain == chain,
            row.target == target,
            row.provider == provider,
            row.reason == reason,
    {
        NewScanDetectionRow { scan_type, chain, target, provider, reason }
    }
}

} // verus!
