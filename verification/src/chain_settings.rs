use vstd::prelude::*;

use crate::common::Latency;

verus! {

/// A section of a chain's settings screen.
#[derive(Debug, Clone, Copy, PartialEq, Eq)]
pub enum GemChainSettingsSection {
    Nodes,
    Explorer,
}

/// A block explorer offered for a chain, and whether it is the one in use.
#[derive(Debug, Clone, PartialEq, Eq)]
pub struct GemExplorerRow {
    pub name: String,
    pub is_selected: bool,
}

/// What a node reported when its status was asked.
#[derive(Debug, Clone, Copy, PartialEq, Eq)]
pub struct NodeStatusReport {
    pub latest_block_number: u64,
    pub latency_ms: u64,
}

/// The status shown for a node.
#[derive(Debug, Clone, Copy, PartialEq, Eq)]
pub enum GemNodeStatusState {
    Result { latest_block_number: u64, latency: Latency },
    Error,
}

/// The rules of a chain's settings screen: its sections, its explorer rows
/// and how a node's status reads.
pub struct GemChainSettingsService {}

impl GemChainSettingsService {
    /// The service.
    pub fn new() -> (service: Self) {
        GemChainSettingsService {}
    }

    /// The sections of a chain's settings screen: nodes, then explorer.
    pub fn sections(&self) -> (sections: Vec<GemChainSettingsSection>)
        ensures
            sections@ == seq![GemChainSettingsSection::Nodes, GemChainSettingsSection::Explorer],
    {
        vec![GemChainSettingsSection::Nodes, GemChainSettingsSection::Explorer]
    }

    /// One row per explorer, in order, marking the one whose name is `selected`.
    pub fn explorer_rows(&self, explorers: Vec<String>, selected: &String) -> (rows: Vec<GemExplorerRow>)
        ensures
            rows@.len() == explorers@.len(),
            forall|i: int|
                0 <= i < rows@.len() ==> #[trigger] rows@[i].name == explorers@[i] && rows@[i].is_selected == (
                explorers@[i]@ == selected@),
    {
        let mut rows: Vec<GemExplorerRow> = Vec::new();
        let mut i: usize = 0;
        while i < explorers.len()
            invariant
                i <= explorers@.len(),
                rows@.len() == i,
                forall|k: int|
                    0 <= k < i ==> #[trigger] rows@[k].name == explorers@[k] && rows@[k].is_selected == (
                    explorers@[k]@ == selected@),
            decreases explorers@.len() - i,
        {
            let name = explorers[i].clone();
            let is_selected = name == *selected;
            rows.push(GemExplorerRow { name, is_selected });
            i = i + 1;
        }
        rows
    }

    /// How a node's status reads: its block and latency when it answered with
    /// a block above zero, an error otherwise (including no answer).
    pub fn node_status(&self, report: Option<NodeStatusReport>) -> (state: GemNodeStatusState)
        ensures
            state == match report {
                Some(r) if r.latest_block_number > 0 => GemNodeStatusState::Result {
                    latest_block_number: r.latest_block_number,
                    latency: Latency { milliseconds: r.latency_ms },
                },
                _ => GemNodeStatusState::Error,
            },
    {
        match report {
            Some(r) => {
                if r.latest_block_number > 0 {
                    GemNodeStatusState::Result {
                        latest_block_number: r.latest_block_number,
                        latency: Latency::from_milliseconds(r.latency_ms),
                    }
                } else {
                    GemNodeStatusState::Error
                }
            },
            None => GemNodeStatusState::Error,
        }
    }
}

} // verus!
