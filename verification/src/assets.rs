use num_bigint::BigUint;
use std::str::FromStr;
use vstd::prelude::*;

use crate::common::{same_asset, AssetId, Chain};
use crate::error::DatabaseError;
use crate::text::to_owned_string;
use vstd::string::StringExecFns;

verus! {

/// An arbitrarily large unsigned integer, as `num_bigint` holds it.
#[verifier::external_type_specification]
#[verifier::external_body]
pub struct ExBigUint(BigUint);

/// Whether `c` is an ASCII decimal digit.
pub open spec fn is_decimal_digit(c: char) -> bool {
    '0' <= c <= '9'
}

/// The text `BigUint::from_str` reads digits from: `s` without a single leading `+`.
pub open spec fn unsigned_digits_part(s: Seq<char>) -> Seq<char> {
    if s.len() > 0 && s[0] == '+' && !(s.len() > 1 && s[1] == '+') {
        s.drop_first()
    } else {
        s
    }
}

/// Whether `BigUint::from_str` accepts `s`: after an optional single `+`, a
/// non-empty run of decimal digits and `_` separators that starts with a digit.
pub open spec fn is_biguint_decimal(s: Seq<char>) -> bool {
    let t = unsigned_digits_part(s);
    &&& t.len() > 0
    &&& t[0] != '_'
    &&& forall|i: int| 0 <= i < t.len() ==> is_decimal_digit(#[trigger] t[i]) || t[i] == '_'
}

/// The number `BigUint::from_str` reads from an accepted decimal text.
pub uninterp spec fn biguint_from_decimal(s: Seq<char>) -> BigUint;

/// The decimal text `BigUint`'s `Display` writes for a number.
pub uninterp spec fn biguint_to_decimal(v: BigUint) -> Seq<char>;

/// The message of `BigUint::from_str`'s error on a text it refuses: its
/// source reports an empty text (after the optional `+`) as empty, and
/// anything else as an invalid digit.
pub open spec fn biguint_error_text(s: Seq<char>) -> Seq<char> {
    if unsigned_digits_part(s).len() == 0 {
        "cannot parse integer from empty string"@
    } else {
        "invalid digit found in string"@
    }
}

/// Calls `BigUint::from_str` (radix 10). Its source accepts exactly the texts
/// `is_biguint_decimal` describes; the number read is named
/// `biguint_from_decimal`. On failure the error's message is returned.
#[verifier::external_body]
fn parse_biguint(value: &str) -> (r: Result<BigUint, String>)
    ensures
        r is Ok <==> is_biguint_decimal(value@),
        r matches Ok(v) ==> v == biguint_from_decimal(value@),
        r matches Err(e) ==> e@ == biguint_error_text(value@),
{
    match BigUint::from_str(value) {
        Ok(v) => Ok(v),
        Err(error) => Err(error.to_string()),
    }
}

/// The message of the error for a stored value that is not decimal text.
pub open spec fn invalid_value_text(address: Seq<char>, value: Seq<char>) -> Seq<char> {
    "Asset address "@ + address + " has an invalid value: "@ + biguint_error_text(value)
}

/// Calls `BigUint::to_string`. Its source writes the number in decimal digits
/// only (`to_str_radix(10)`), a text that `BigUint::from_str` reads back as
/// the same number; the text itself is named `biguint_to_decimal`.
#[verifier::external_body]
fn biguint_to_string(v: &BigUint) -> (s: String)
    ensures
        s@ == biguint_to_decimal(*v),
        is_biguint_decimal(s@),
        biguint_from_decimal(s@) == *v,
{
    v.to_string()
}

/// A balance-bearing address of an asset, with the value held there when known.
pub struct AssetAddress {
    pub asset_id: AssetId,
    pub address: String,
    pub value: Option<BigUint>,
}

/// An asset address as the database stores it: the value in decimal text.
#[derive(Debug, PartialEq, Eq)]
pub struct AssetAddressRow {
    pub chain: Chain,
    pub asset_id: AssetId,
    pub address: String,
    pub value: Option<String>,
}

impl Clone for AssetAddressRow {
    fn clone(&self) -> (c: Self)
        ensures
            c == *self,
    {
        AssetAddressRow {
            chain: self.chain.clone(),
            asset_id: self.asset_id.clone(),
            address: self.address.clone(),
            value: crate::common::clone_optional_string(&self.value),
        }
    }
}

/// `row` stores `a`: its chain, asset, address, and its value in decimal text.
pub open spec fn is_row_of(a: AssetAddress, row: AssetAddressRow) -> bool {
    &&& row.chain == a.asset_id.chain
    &&& row.asset_id == a.asset_id
    &&& row.address@ == a.address@
    &&& match (a.value, row.value) {
        (Some(v), Some(s)) => s@ == biguint_to_decimal(v) && is_biguint_decimal(s@) && biguint_from_decimal(s@)
            == v,
        (None, None) => true,
        _ => false,
    }
}

/// Whether a stored value can be read back: it is absent or decimal text.
pub open spec fn is_readable_value(value: Option<String>) -> bool {
    match value {
        Some(s) => is_biguint_decimal(s@),
        None => true,
    }
}

/// `a` is what `row` reads as: its asset, address, and its value read from decimal text.
pub open spec fn is_read_from(row: AssetAddressRow, a: AssetAddress) -> bool {
    &&& a.asset_id == row.asset_id
    &&& a.address@ == row.address@
    &&& match (row.value, a.value) {
        (Some(s), Some(v)) => v == biguint_from_decimal(s@),
        (None, None) => true,
        _ => false,
    }
}

impl AssetAddressRow {
    /// The row that stores an asset address.
    pub fn from_primitive(asset_address: AssetAddress) -> (row: Self)
        ensures
            is_row_of(asset_address, row),
    {
        let value = match &asset_address.value {
            Some(v) => Some(biguint_to_string(v)),
            None => None,
        };
        AssetAddressRow {
            chain: asset_address.asset_id.chain.clone(),
            asset_id: asset_address.asset_id,
            address: asset_address.address,
            value,
        }
    }

    /// The asset address a row stores; an error when its value is not decimal text.
    pub fn as_primitive(&self) -> (r: Result<AssetAddress, DatabaseError>)
        ensures
            r is Ok <==> is_readable_value(self.value),
            r matches Ok(a) ==> is_read_from(*self, a),
            match (r, self.value) {
                (Err(e), Some(text)) => e matches DatabaseError::Error(m) && m@ == invalid_value_text(
                    self.address@,
                    text@,
                ),
                _ => true,
            },
    {
        let value = match &self.value {
            Some(text) => match parse_biguint(text.as_str()) {
                Ok(v) => Some(v),
                Err(error) => {
                    let message = to_owned_string("Asset address ");
                    let message = message.concat(self.address.as_str());
                    let message = message.concat(" has an invalid value: ");
                    let message = message.concat(error.as_str());
                    return Err(DatabaseError::Error(message));
                },
            },
            None => None,
        };
        Ok(AssetAddress { asset_id: self.asset_id.clone(), address: self.address.clone(), value })
    }
}

/// A stored asset address reads back as the one that was stored.
pub proof fn lemma_row_round_trip(a: AssetAddress, row: AssetAddressRow, back: AssetAddress)
    requires
        is_row_of(a, row),
        is_read_from(row, back),
    ensures
        back.asset_id == a.asset_id,
        back.address@ == a.address@,
        back.value == a.value,
{
}

/// Every row that was stored from an asset address can be read back.
pub proof fn lemma_stored_row_is_readable(a: AssetAddress, row: AssetAddressRow)
    requires
        is_row_of(a, row),
    ensures
        is_readable_value(row.value),
{
}

/// Whether `ids` holds an asset that is the same as `id`.
pub open spec fn holds_asset(ids: Seq<AssetId>, id: AssetId) -> bool {
    exists|k: int| 0 <= k < ids.len() && same_asset(#[trigger] ids[k], id)
}

/// The assets of `ids`, each once, in the order of their first appearance.
pub open spec fn distinct_assets(ids: Seq<AssetId>) -> Seq<AssetId>
    decreases ids.len(),
{
    if ids.len() == 0 {
        Seq::empty()
    } else {
        let earlier = distinct_assets(ids.drop_last());
        if holds_asset(earlier, ids.last()) {
            earlier
        } else {
            earlier.push(ids.last())
        }
    }
}

/// The asset of each row, in the rows' order.
pub open spec fn row_asset_ids(rows: Seq<AssetAddressRow>) -> Seq<AssetId> {
    rows.map_values(|row: AssetAddressRow| row.asset_id)
}

/// The assets of a list of asset address rows.
pub trait AssetAddressRowsExt {
    /// The assets of the rows, each once, in the order they first appear.
    fn asset_ids(self) -> Vec<AssetId>;
}

impl AssetAddressRowsExt for Vec<AssetAddressRow> {
    fn asset_ids(self) -> (ids: Vec<AssetId>)
        ensures
            ids@ == distinct_assets(row_asset_ids(self@)),
    {
        let ghost all = row_asset_ids(self@);
        let mut ids: Vec<AssetId> = Vec::new();
        let mut i: usize = 0;
        while i < self.len()
            invariant
                i <= self@.len(),
                all == row_asset_ids(self@),
                ids@ == distinct_assets(all.take(i as int)),
            decreases self@.len() - i,
        {
            let candidate = &self[i].asset_id;
            let mut seen = false;
            let mut k: usize = 0;
            while k < ids.len()
                invariant
                    k <= ids@.len(),
                    seen == exists|m: int| 0 <= m < k && same_asset(#[trigger] ids@[m], *candidate),
                decreases ids@.len() - k,
            {
                if ids[k].same_as(candidate) {
                    seen = true;
                }
                k = k + 1;
            }
            assert(all.take(i + 1).drop_last() =~= all.take(i as int));
            assert(all.take(i + 1).last() == *candidate);
            if !seen {
                ids.push(candidate.clone());
            }
            i = i + 1;
        }
        assert(all.take(self@.len() as int) =~= all);
        ids
    }
}

/// The distinct assets hold no asset twice.
pub proof fn lemma_distinct_assets_unique(ids: Seq<AssetId>)
    ensures
        forall|a: int, b: int|
            0 <= a < b < distinct_assets(ids).len() ==> !same_asset(
                #[trigger] distinct_assets(ids)[a],
                #[trigger] distinct_assets(ids)[b],
            ),
    decreases ids.len(),
{
    if ids.len() > 0 {
        let prefix = ids.drop_last();
        lemma_distinct_assets_unique(prefix);
        let earlier = distinct_assets(prefix);
        let d = distinct_assets(ids);
        if !holds_asset(earlier, ids.last()) {
            assert forall|a: int, b: int| 0 <= a < b < d.len() implies !same_asset(
                #[trigger] d[a],
                #[trigger] d[b],
            ) by {
                if b == d.len() - 1 {
                    assert(d[b] == ids.last());
                    assert(d[a] == earlier[a]);
                    if same_asset(earlier[a], ids.last()) {
                        assert(holds_asset(earlier, ids.last()));
                    }
                } else {
                    assert(d[a] == earlier[a]);
                    assert(d[b] == earlier[b]);
                }
            }
        }
    }
}

/// Every asset of the input is among the distinct assets, and every distinct asset comes from the input.
pub proof fn lemma_distinct_assets_cover(ids: Seq<AssetId>)
    ensures
        forall|k: int| 0 <= k < ids.len() ==> holds_asset(distinct_assets(ids), #[trigger] ids[k]),
        forall|k: int| 0 <= k < distinct_assets(ids).len() ==> ids.contains(#[trigger] distinct_assets(ids)[k]),
    decreases ids.len(),
{
    if ids.len() > 0 {
        let prefix = ids.drop_last();
        lemma_distinct_assets_cover(prefix);
        let d = distinct_assets(ids);
        assert forall|k: int| 0 <= k < ids.len() implies holds_asset(d, #[trigger] ids[k]) by {
            if k < ids.len() - 1 {
                assert(ids[k] == prefix[k]);
                let m = choose|m: int| 0 <= m < distinct_assets(prefix).len() && same_asset(#[trigger] distinct_assets(prefix)[m], prefix[k]);
                assert(d[m] == distinct_assets(prefix)[m]);
            } else if !holds_asset(distinct_assets(prefix), ids.last()) {
                assert(d[d.len() - 1] == ids.last());
            }
        }
        assert forall|k: int| 0 <= k < d.len() implies ids.contains(#[trigger] d[k]) by {
            if k < distinct_assets(prefix).len() {
                assert(prefix.contains(distinct_assets(prefix)[k]));
                let m = choose|m: int| 0 <= m < prefix.len() && prefix[m] == distinct_assets(prefix)[k];
                assert(ids[m] == prefix[m]);
            } else {
                assert(ids[ids.len() - 1] == ids.last());
            }
        }
    }
}

} // verus!
