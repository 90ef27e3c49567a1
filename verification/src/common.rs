use vstd::prelude::*;

verus! {

/// A blockchain, named by its identifier (such as `"ethereum"`).
#[derive(Debug, PartialEq, Eq)]
pub struct Chain {
    pub id: String,
}

impl Clone for Chain {
    fn clone(&self) -> (c: Self)
        ensures
            c == *self,
    {
        Chain { id: self.id.clone() }
    }
}

impl Chain {
    /// The chain with the given identifier.
    pub fn new(id: String) -> (c: Chain)
        ensures
            c.id == id,
    {
        Chain { id }
    }

    /// Whether both name the same chain.
    pub fn same_as(&self, other: &Chain) -> (r: bool)
        ensures
            r == (self.id@ == other.id@),
    {
        self.id == other.id
    }
}

/// A copy of an optional string that equals it.
pub fn clone_optional_string(value: &Option<String>) -> (r: Option<String>)
    ensures
        r == *value,
{
    match value {
        Some(s) => Some(s.clone()),
        None => None,
    }
}

/// Whether two optional strings hold the same text.
pub open spec fn same_optional_text(a: Option<String>, b: Option<String>) -> bool {
    match (a, b) {
        (Some(x), Some(y)) => x@ == y@,
        (None, None) => true,
        _ => false,
    }
}

/// Compares two optional strings by their text.
pub fn optional_text_eq(a: &Option<String>, b: &Option<String>) -> (r: bool)
    ensures
        r == same_optional_text(*a, *b),
{
    match (a, b) {
        (Some(x), Some(y)) => *x == *y,
        (None, None) => true,
        _ => false,
    }
}

/// An asset: the chain it lives on, and its token on that chain (none for the chain's native coin).
#[derive(Debug, PartialEq, Eq)]
pub struct AssetId {
    pub chain: Chain,
    pub token_id: Option<String>,
}

impl Clone for AssetId {
    fn clone(&self) -> (c: Self)
        ensures
            c == *self,
    {
        AssetId { chain: self.chain.clone(), token_id: clone_optional_string(&self.token_id) }
    }
}

impl AssetId {
    /// The native coin of `chain`.
    pub fn from_chain(chain: Chain) -> (a: AssetId)
        ensures
            a.chain == chain,
            a.token_id is None,
    {
        AssetId { chain, token_id: None }
    }

    /// The token `token_id` on `chain`.
    pub fn from_token(chain: Chain, token_id: String) -> (a: AssetId)
        ensures
            a.chain == chain,
            a.token_id == Some(token_id),
    {
        AssetId { chain, token_id: Some(token_id) }
    }

    /// Whether both name the same asset.
    pub fn same_as(&self, other: &AssetId) -> (r: bool)
        ensures
            r == same_asset(*self, *other),
    {
        self.chain.same_as(&other.chain) && optional_text_eq(&self.token_id, &other.token_id)
    }
}

/// Whether two asset identifiers name the same asset.
pub open spec fn same_asset(a: AssetId, b: AssetId) -> bool {
    a.chain.id@ == b.chain.id@ && same_optional_text(a.token_id, b.token_id)
}

/// The latency measured for a node.
#[derive(Debug, Clone, Copy, PartialEq, Eq)]
pub struct Latency {
    pub milliseconds: u64,
}

impl Latency {
    /// A latency of the given milliseconds.
    pub fn from_milliseconds(milliseconds: u64) -> (l: Latency)
        ensures
            l.milliseconds == milliseconds,
    {
        Latency { milliseconds }
    }
}

} // verus!
