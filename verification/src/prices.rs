use vstd::prelude::*;

use crate::config::{datetime_from_timestamp, CHRONO_MAX_TIMESTAMP, CHRONO_MIN_TIMESTAMP};
use crate::text::{holds_text, sorted_distinct_texts, strictly_sorted, text_views};
use crate::time::{current_time, Timestamp};

verus! {

/// A source of asset prices, named by its identifier (such as `"coingecko"`).
#[derive(Debug, PartialEq, Eq)]
pub struct PriceProvider {
    pub id: String,
}

impl Clone for PriceProvider {
    fn clone(&self) -> (c: Self)
        ensures
            c == *self,
    {
        PriceProvider { id: self.id.clone() }
    }
}

impl PriceProvider {
    /// The provider with the given identifier.
    pub fn new(id: String) -> (p: PriceProvider)
        ensures
            p.id == id,
    {
        PriceProvider { id }
    }
}

/// How a price provider is configured: whether it is used, and its rank (lower wins).
#[derive(Debug, Clone, PartialEq, Eq)]
pub struct PriceProviderConfig {
    pub provider: PriceProvider,
    pub enabled: bool,
    pub priority: i32,
}

/// What the choice of a primary price reads of a stored price: its provider and when it was last updated.
#[derive(Debug, PartialEq, Eq)]
pub struct PriceSample {
    pub provider: PriceProvider,
    pub last_updated_at: Timestamp,
}

impl Clone for PriceSample {
    fn clone(&self) -> (c: Self)
        ensures
            c == *self,
    {
        PriceSample { provider: self.provider.clone(), last_updated_at: self.last_updated_at }
    }
}

/// Whether `row` comes from `provider`.
pub open spec fn from_provider(row: PriceSample, provider: PriceProvider) -> bool {
    row.provider.id@ == provider.id@
}

/// The index of the first row from `provider`, if there is one.
#[verifier::opaque]
pub open spec fn first_row_of(rows: Seq<PriceSample>, provider: PriceProvider) -> Option<int> {
    if exists|i: int| 0 <= i < rows.len() && from_provider(#[trigger] rows[i], provider) {
        Some(
            choose|i: int|
                0 <= i < rows.len() && from_provider(#[trigger] rows[i], provider) && forall|k: int|
                    0 <= k < i ==> !from_provider(#[trigger] rows[k], provider),
        )
    } else {
        None
    }
}

/// Whether `providers[j]` competes for the primary price: it is enabled and its
/// first row was updated at or after `cutoff`.
pub open spec fn is_candidate(
    providers: Seq<PriceProviderConfig>,
    rows: Seq<PriceSample>,
    cutoff: Timestamp,
    j: int,
) -> bool {
    &&& 0 <= j < providers.len()
    &&& providers[j].enabled
    &&& first_row_of(rows, providers[j].provider) matches Some(i) && rows[i].last_updated_at.instant()
        >= cutoff.instant()
}

/// Whether candidate `j` wins: no candidate has a lower priority, and none earlier has the same.
pub open spec fn is_winner(providers: Seq<PriceProviderConfig>, rows: Seq<PriceSample>, cutoff: Timestamp, j: int) -> bool {
    &&& is_candidate(providers, rows, cutoff, j)
    &&& forall|k: int|
        #![trigger is_candidate(providers, rows, cutoff, k)]
        is_candidate(providers, rows, cutoff, k) ==> providers[j].priority < providers[k].priority || (
        providers[j].priority == providers[k].priority && j <= k)
}

proof fn lemma_first_row(rows: Seq<PriceSample>, provider: PriceProvider, i: int)
    requires
        0 <= i < rows.len(),
        from_provider(rows[i], provider),
        forall|k: int| 0 <= k < i ==> !from_provider(#[trigger] rows[k], provider),
    ensures
        first_row_of(rows, provider) == Some(i),
{
    reveal(first_row_of);
    let c = choose|c: int|
        0 <= c < rows.len() && from_provider(#[trigger] rows[c], provider) && forall|k: int|
            0 <= k < c ==> !from_provider(#[trigger] rows[k], provider);
    if c < i {
        assert(!from_provider(rows[c], provider));
    } else if c > i {
        assert(!from_provider(rows[i], provider));
    }
}

proof fn lemma_first_row_found(rows: Seq<PriceSample>, provider: PriceProvider, i: int)
    requires
        first_row_of(rows, provider) == Some(i),
    ensures
        0 <= i < rows.len(),
        from_provider(rows[i], provider),
        forall|k: int| 0 <= k < i ==> !from_provider(#[trigger] rows[k], provider),
{
    reveal(first_row_of);
    if exists|c: int| 0 <= c < rows.len() && from_provider(#[trigger] rows[c], provider) {
        let c = choose|c: int|
            0 <= c < rows.len() && from_provider(#[trigger] rows[c], provider) && forall|k: int|
                0 <= k < c ==> !from_provider(#[trigger] rows[k], provider);
        let w = choose|c: int| 0 <= c < rows.len() && from_provider(#[trigger] rows[c], provider);
        lemma_earliest_exists(rows, provider, w);
    }
}

proof fn lemma_earliest_exists(rows: Seq<PriceSample>, provider: PriceProvider, w: int)
    requires
        0 <= w < rows.len(),
        from_provider(rows[w], provider),
    ensures
        exists|c: int|
            0 <= c < rows.len() && from_provider(#[trigger] rows[c], provider) && forall|k: int|
                0 <= k < c ==> !from_provider(#[trigger] rows[k], provider),
    decreases w,
{
    if exists|k: int| 0 <= k < w && from_provider(#[trigger] rows[k], provider) {
        let k = choose|k: int| 0 <= k < w && from_provider(#[trigger] rows[k], provider);
        lemma_earliest_exists(rows, provider, k);
    } else {
        assert(forall|k: int| 0 <= k < w ==> !from_provider(#[trigger] rows[k], provider));
    }
}

/// The index of the first row from `provider`.
fn find_first_row(rows: &Vec<PriceSample>, provider: &PriceProvider) -> (r: Option<usize>)
    ensures
        match r {
            Some(i) => i < rows@.len() && first_row_of(rows@, *provider) == Some(i as int),
            None => first_row_of(rows@, *provider) is None,
        },
{
    let mut i: usize = 0;
    while i < rows.len()
        invariant
            i <= rows@.len(),
            forall|k: int| 0 <= k < i ==> !from_provider(#[trigger] rows@[k], *provider),
        decreases rows@.len() - i,
    {
        if rows[i].provider.id == provider.id {
            proof {
                lemma_first_row(rows@, *provider, i as int);
            }
            return Some(i);
        }
        i = i + 1;
    }
    proof {
        reveal(first_row_of);
    }
    None
}

/// The row of `providers[j]` when that provider competes for the primary price.
fn candidate_row(providers: &Vec<PriceProviderConfig>, rows: &Vec<PriceSample>, cutoff: &Timestamp, j: usize) -> (r: Option<usize>)
    requires
        j < providers@.len(),
    ensures
        match r {
            Some(i) => i < rows@.len() && is_candidate(providers@, rows@, *cutoff, j as int) && first_row_of(
                rows@,
                providers@[j as int].provider,
            ) == Some(i as int),
            None => !is_candidate(providers@, rows@, *cutoff, j as int),
        },
{
    let config = &providers[j];
    if !config.enabled {
        return None;
    }
    match find_first_row(rows, &config.provider) {
        Some(i) => {
            if rows[i].last_updated_at.is_at_or_after(cutoff) {
                Some(i)
            } else {
                None
            }
        },
        None => None,
    }
}

/// An index as a mathematical integer.
pub open spec fn as_index(r: Option<usize>) -> Option<int> {
    match r {
        Some(i) => Some(i as int),
        None => None,
    }
}

/// `r` is the primary price among `rows` for `cutoff`: the first row of the
/// winning provider, or nothing when no provider competes.
pub open spec fn primary_choice(
    providers: Seq<PriceProviderConfig>,
    rows: Seq<PriceSample>,
    cutoff: Timestamp,
    r: Option<int>,
) -> bool {
    match r {
        Some(i) => exists|j: int|
            is_winner(providers, rows, cutoff, j) && first_row_of(rows, #[trigger] providers[j].provider) == Some(i),
        None => forall|j: int| !#[trigger] is_candidate(providers, rows, cutoff, j),
    }
}

/// The primary price among a price's rows from several providers: from the
/// enabled providers whose (first) row was updated at or after `cutoff`, the
/// row of the one with the lowest priority, the earliest listed on a tie.
/// Returns the index of that row, or `None` when no provider qualifies.
pub fn primary_price(providers: &Vec<PriceProviderConfig>, rows: &Vec<PriceSample>, cutoff: &Timestamp) -> (r: Option<usize>)
    ensures
        primary_choice(providers@, rows@, *cutoff, as_index(r)),
        r matches Some(i) ==> i < rows@.len(),
{
    let mut best: Option<(usize, usize)> = None;
    let mut j: usize = 0;
    while j < providers.len()
        invariant
            j <= providers@.len(),
            match best {
                Some((b, i)) => {
                    &&& b < j
                    &&& i < rows@.len()
                    &&& is_candidate(providers@, rows@, *cutoff, b as int)
                    &&& first_row_of(rows@, providers@[b as int].provider) == Some(i as int)
                    &&& forall|k: int|
                        #![trigger is_candidate(providers@, rows@, *cutoff, k)]
                        0 <= k < j && is_candidate(providers@, rows@, *cutoff, k) ==> providers@[b as int].priority
                            < providers@[k].priority || (providers@[b as int].priority == providers@[k].priority
                            && b <= k)
                },
                None => forall|k: int| 0 <= k < j ==> !#[trigger] is_candidate(providers@, rows@, *cutoff, k),
            },
        decreases providers@.len() - j,
    {
        match candidate_row(providers, rows, cutoff, j) {
            Some(i) => {
                let better = match best {
                    Some((b, _)) => {
                        assert(b < j);
                        providers[j].priority < providers[b].priority
                    },
                    None => true,
                };
                if better {
                    best = Some((j, i));
                }
            },
            None => {},
        }
        j = j + 1;
    }
    match best {
        Some((b, i)) => {
            assert(is_winner(providers@, rows@, *cutoff, b as int));
            Some(i)
        },
        None => None,
    }
}


/// The longest age, in whole seconds, that chrono's `TimeDelta` can hold.
pub const MAX_AGE_SECONDS: u64 = 9_223_372_036_854_775u64;

/// The moment `max_age_secs` seconds before `now`.
pub open spec fn cutoff_before(now: Timestamp, max_age_secs: u64) -> Timestamp {
    Timestamp { seconds: (now.seconds - max_age_secs) as i64, nanos: now.nanos }
}

/// What the primary price with prices at most `max_age_secs` old may be,
/// when the clock reads `now`: none when chrono cannot hold the age or the
/// moment it reaches back to, and otherwise the primary price for the cutoff
/// that long before `now`.
pub open spec fn primary_within_at(
    providers: Seq<PriceProviderConfig>,
    rows: Seq<PriceSample>,
    max_age_secs: u64,
    now: Timestamp,
    r: Option<int>,
) -> bool {
    if max_age_secs > MAX_AGE_SECONDS {
        r is None
    } else if !(CHRONO_MIN_TIMESTAMP <= now.seconds - max_age_secs <= CHRONO_MAX_TIMESTAMP) {
        r is None
    } else {
        primary_choice(providers, rows, cutoff_before(now, max_age_secs), r)
    }
}

/// What the primary price with prices at most `max_age_secs` old may be for
/// a reading of the clock: none when the clock cannot be read, and
/// otherwise as `primary_within_at` says for the moment read.
pub open spec fn primary_within_reading(
    providers: Seq<PriceProviderConfig>,
    rows: Seq<PriceSample>,
    max_age_secs: u64,
    reading: Option<Timestamp>,
    r: Option<int>,
) -> bool {
    match reading {
        Some(now) => now.seconds >= 0 && now.nanos < 1_000_000_000 && primary_within_at(
            providers,
            rows,
            max_age_secs,
            now,
            r,
        ),
        None => r is None,
    }
}

/// The primary price among `rows` when the clock reads `now`, counting only
/// prices updated at or after `max_age_secs` seconds before `now`. `None`
/// when no provider qualifies, when the age is longer than chrono holds, or
/// when it reaches back before the earliest moment chrono holds.
pub fn primary_price_at(providers: &Vec<PriceProviderConfig>, rows: &Vec<PriceSample>, max_age_secs: u64, now: &Timestamp)
    -> (r: Option<usize>)
    ensures
        primary_within_at(providers@, rows@, max_age_secs, *now, as_index(r)),
{
    if max_age_secs > MAX_AGE_SECONDS {
        return None;
    }
    let age: i64 = max_age_secs as i64;
    let earliest_seconds = match now.seconds.checked_sub(age) {
        Some(seconds) => seconds,
        None => {
            return None;
        },
    };
    match datetime_from_timestamp(earliest_seconds) {
        Some(earliest) => {
            let cutoff = Timestamp { seconds: earliest.seconds, nanos: now.nanos };
            assert(cutoff == cutoff_before(*now, max_age_secs));
            primary_price(providers, rows, &cutoff)
        },
        None => None,
    }
}

/// The primary price among `rows`, counting only prices updated within the
/// last `max_age_secs` seconds by the system clock. `None` when no provider
/// qualifies, when the age is longer than chrono holds, when it reaches back
/// before the earliest moment chrono holds, or when the clock cannot be read.
pub fn primary_price_within(providers: &Vec<PriceProviderConfig>, rows: &Vec<PriceSample>, max_age_secs: u64) -> (r:
    Option<usize>)
    ensures
        exists|reading: Option<Timestamp>|
            #[trigger] primary_within_reading(providers@, rows@, max_age_secs, reading, as_index(r)),
{
    let reading = current_time();
    let r = match &reading {
        Some(now) => primary_price_at(providers, rows, max_age_secs, now),
        None => None,
    };
    assert(primary_within_reading(providers@, rows@, max_age_secs, reading, as_index(r)));
    r
}

/// The cutoff lies exactly `max_age_secs` seconds before the moment read.
pub proof fn lemma_cutoff_is_max_age_before(now: Timestamp, max_age_secs: u64)
    requires
        CHRONO_MIN_TIMESTAMP <= now.seconds - max_age_secs <= CHRONO_MAX_TIMESTAMP,
    ensures
        cutoff_before(now, max_age_secs).instant() == now.instant() - max_age_secs * 1_000_000_000,
{
}

/// The row chosen as the primary price is the first row of an enabled
/// provider, updated at or after the cutoff, and no enabled provider whose
/// first row is that fresh has a better (lower) priority.
pub proof fn lemma_primary_price_is_the_best_fresh_row(
    providers: Seq<PriceProviderConfig>,
    rows: Seq<PriceSample>,
    cutoff: Timestamp,
    i: int,
)
    requires
        primary_choice(providers, rows, cutoff, Some(i)),
    ensures
        0 <= i < rows.len(),
        rows[i].last_updated_at.instant() >= cutoff.instant(),
        exists|j: int|
            0 <= j < providers.len() && providers[j].enabled && #[trigger] providers[j].provider.id@
                == rows[i].provider.id@,
        forall|k: int, m: int|
            0 <= k < providers.len() && providers[k].enabled && 0 <= m < rows.len() && #[trigger] rows[m].provider.id@
                == #[trigger] providers[k].provider.id@ && rows[m].last_updated_at.instant() >= cutoff.instant() && (
            forall|e: int| 0 <= e < m ==> rows[e].provider.id@ != providers[k].provider.id@) ==> exists|j: int|
                0 <= j < providers.len() && providers[j].enabled && providers[j].provider.id@ == rows[i].provider.id@
                    && providers[j].priority <= #[trigger] providers[k].priority,
{
    let j = choose|j: int|
        is_winner(providers, rows, cutoff, j) && first_row_of(rows, #[trigger] providers[j].provider) == Some(i);
    lemma_first_row_found(rows, providers[j].provider, i);
    assert forall|k: int, m: int|
        0 <= k < providers.len() && providers[k].enabled && 0 <= m < rows.len() && #[trigger] rows[m].provider.id@
            == #[trigger] providers[k].provider.id@ && rows[m].last_updated_at.instant() >= cutoff.instant() && (
        forall|e: int| 0 <= e < m ==> rows[e].provider.id@ != providers[k].provider.id@) implies exists|j2: int|
            0 <= j2 < providers.len() && providers[j2].enabled && providers[j2].provider.id@ == rows[i].provider.id@
                && providers[j2].priority <= #[trigger] providers[k].priority by {
        lemma_first_row(rows, providers[k].provider, m);
        assert(is_candidate(providers, rows, cutoff, k));
        assert(providers[j].priority <= providers[k].priority);
    }
}

/// When no row is chosen, no enabled provider has a first row updated at or
/// after the cutoff.
pub proof fn lemma_no_primary_price_means_no_fresh_row(
    providers: Seq<PriceProviderConfig>,
    rows: Seq<PriceSample>,
    cutoff: Timestamp,
    k: int,
    m: int,
)
    requires
        primary_choice(providers, rows, cutoff, None),
        0 <= k < providers.len(),
        providers[k].enabled,
        0 <= m < rows.len(),
        rows[m].provider.id@ == providers[k].provider.id@,
        forall|e: int| 0 <= e < m ==> rows[e].provider.id@ != providers[k].provider.id@,
    ensures
        rows[m].last_updated_at.instant() < cutoff.instant(),
{
    lemma_first_row(rows, providers[k].provider, m);
    assert(!is_candidate(providers, rows, cutoff, k));
}

/// The rows of `priced` that price `asset`, in their order.
pub open spec fn rows_for(priced: Seq<(String, PriceSample)>, asset: Seq<char>) -> Seq<PriceSample>
    decreases priced.len(),
{
    if priced.len() == 0 {
        Seq::empty()
    } else {
        let rest = rows_for(priced.drop_last(), asset);
        if priced.last().0@ == asset {
            rest.push(priced.last().1)
        } else {
            rest
        }
    }
}

/// Whether the asset at `k` was already listed before it.
pub open spec fn listed_earlier(asset_ids: Seq<String>, k: int) -> bool {
    exists|m: int| 0 <= m < k && #[trigger] asset_ids[m]@ == asset_ids[k]@
}

/// `p` is the primary price of the asset at `k`: its rows are handed out
/// once, to the first listing of the asset, so a repeated listing has none.
pub open spec fn primary_of_asset(
    asset_ids: Seq<String>,
    priced: Seq<(String, PriceSample)>,
    providers: Seq<PriceProviderConfig>,
    cutoff: Timestamp,
    k: int,
    p: Option<PriceSample>,
) -> bool {
    if listed_earlier(asset_ids, k) {
        p is None
    } else {
        let rows = rows_for(priced, asset_ids[k]@);
        match p {
            Some(s) => exists|i: int|
                0 <= i < rows.len() && primary_choice(providers, rows, cutoff, Some(i)) && #[trigger] rows[i] == s,
            None => primary_choice(providers, rows, cutoff, None),
        }
    }
}

/// The rows of `priced` that price `asset`, in their order.
fn collect_rows_for(priced: &Vec<(String, PriceSample)>, asset: &String) -> (rows: Vec<PriceSample>)
    ensures
        rows@ == rows_for(priced@, asset@),
{
    let mut rows: Vec<PriceSample> = Vec::new();
    let mut i: usize = 0;
    while i < priced.len()
        invariant
            i <= priced@.len(),
            rows@ == rows_for(priced@.take(i as int), asset@),
        decreases priced@.len() - i,
    {
        let ghost before = priced@.take(i as int);
        assert(priced@.take(i + 1).drop_last() =~= before);
        assert(priced@.take(i + 1).last() == priced@[i as int]);
        if priced[i].0 == *asset {
            rows.push(priced[i].1.clone());
        }
        i = i + 1;
    }
    assert(priced@.take(i as int) =~= priced@);
    rows
}

/// Whether an asset before position `k` has the same identifier as the one at `k`.
fn is_listed_earlier(asset_ids: &Vec<String>, k: usize) -> (r: bool)
    requires
        k < asset_ids@.len(),
    ensures
        r == listed_earlier(asset_ids@, k as int),
{
    let mut m: usize = 0;
    while m < k
        invariant
            m <= k < asset_ids@.len(),
            forall|n: int| 0 <= n < m ==> asset_ids@[n]@ != asset_ids@[k as int]@,
        decreases k - m,
    {
        if asset_ids[m] == asset_ids[k] {
            assert(asset_ids@[m as int]@ == asset_ids@[k as int]@);
            return true;
        }
        m = m + 1;
    }
    false
}

/// The primary price of the asset at `k`.
fn primary_of_one(
    asset_ids: &Vec<String>,
    priced: &Vec<(String, PriceSample)>,
    providers: &Vec<PriceProviderConfig>,
    cutoff: &Timestamp,
    k: usize,
) -> (p: Option<PriceSample>)
    requires
        k < asset_ids@.len(),
    ensures
        primary_of_asset(asset_ids@, priced@, providers@, *cutoff, k as int, p),
{
    if is_listed_earlier(asset_ids, k) {
        return None;
    }
    let rows = collect_rows_for(priced, &asset_ids[k]);
    match primary_price(providers, &rows, cutoff) {
        Some(i) => {
            let s = rows[i].clone();
            assert(rows@[i as int] == s);
            Some(s)
        },
        None => None,
    }
}

/// The primary price of each asset, from the price rows `priced` (each with
/// the asset it prices): for each listed asset, the primary price among its
/// rows for `cutoff`, or `None`. Each asset's rows go to its first listing.
pub fn primary_prices_by_asset(
    asset_ids: &Vec<String>,
    priced: &Vec<(String, PriceSample)>,
    providers: &Vec<PriceProviderConfig>,
    cutoff: &Timestamp,
) -> (r: Vec<Option<PriceSample>>)
    ensures
        r@.len() == asset_ids@.len(),
        forall|k: int|
            0 <= k < r@.len() ==> #[trigger] primary_of_asset(asset_ids@, priced@, providers@, *cutoff, k, r@[k]),
{
    let mut r: Vec<Option<PriceSample>> = Vec::new();
    let mut k: usize = 0;
    while k < asset_ids.len()
        invariant
            k <= asset_ids@.len(),
            r@.len() == k,
            forall|n: int| 0 <= n < k ==> #[trigger] primary_of_asset(asset_ids@, priced@, providers@, *cutoff, n, r@[n]),
        decreases asset_ids@.len() - k,
    {
        let price = primary_of_one(asset_ids, priced, providers, cutoff, k);
        r.push(price);
        k = k + 1;
    }
    r
}

/// The assets that have a price, each with it, in the order listed.
pub open spec fn present_prices(asset_ids: Seq<String>, prices: Seq<Option<PriceSample>>) -> Seq<(String, PriceSample)>
    decreases prices.len(),
{
    if prices.len() == 0 || asset_ids.len() < prices.len() {
        Seq::empty()
    } else {
        let rest = present_prices(asset_ids, prices.drop_last());
        match prices.last() {
            Some(s) => rest.push((asset_ids[prices.len() - 1], s)),
            None => rest,
        }
    }
}

/// The listed assets that have a primary price for `cutoff`, each with it,
/// in the order listed; an asset listed twice appears once.
pub fn primary_prices(
    asset_ids: &Vec<String>,
    priced: &Vec<(String, PriceSample)>,
    providers: &Vec<PriceProviderConfig>,
    cutoff: &Timestamp,
) -> (r: Vec<(String, PriceSample)>)
    ensures
        exists|by_asset: Seq<Option<PriceSample>>|
            {
                &&& by_asset.len() == asset_ids@.len()
                &&& forall|k: int|
                    0 <= k < by_asset.len() ==> #[trigger] primary_of_asset(
                        asset_ids@,
                        priced@,
                        providers@,
                        *cutoff,
                        k,
                        by_asset[k],
                    )
                &&& r@ == present_prices(asset_ids@, by_asset)
            },
{
    let by_asset = primary_prices_by_asset(asset_ids, priced, providers, cutoff);
    let mut r: Vec<(String, PriceSample)> = Vec::new();
    let mut k: usize = 0;
    while k < by_asset.len()
        invariant
            k <= by_asset@.len(),
            by_asset@.len() == asset_ids@.len(),
            r@ == present_prices(asset_ids@, by_asset@.take(k as int)),
        decreases by_asset@.len() - k,
    {
        assert(by_asset@.take(k + 1).drop_last() =~= by_asset@.take(k as int));
        assert(by_asset@.take(k + 1).last() == by_asset@[k as int]);
        match &by_asset[k] {
            Some(s) => {
                r.push((asset_ids[k].clone(), s.clone()));
            },
            None => {},
        }
        k = k + 1;
    }
    assert(by_asset@.take(k as int) =~= by_asset@);
    r
}

/// How the assets whose prices are read are chosen.
#[derive(Debug)]
pub enum AssetsWithPricesFilter {
    /// Only these asset identifiers.
    Ids(Vec<String>),
    /// Only assets, or prices of assets, updated after this moment.
    UpdatedSince(Timestamp),
}

/// The identifiers of the last `Ids` filter, if there is one.
pub open spec fn last_ids_filter(filters: Seq<AssetsWithPricesFilter>) -> Option<Vec<String>>
    decreases filters.len(),
{
    if filters.len() == 0 {
        None
    } else {
        match filters.last() {
            AssetsWithPricesFilter::Ids(ids) => Some(ids),
            AssetsWithPricesFilter::UpdatedSince(_) => last_ids_filter(filters.drop_last()),
        }
    }
}

/// The moment of the last `UpdatedSince` filter, if there is one.
pub open spec fn last_since_filter(filters: Seq<AssetsWithPricesFilter>) -> Option<Timestamp>
    decreases filters.len(),
{
    if filters.len() == 0 {
        None
    } else {
        match filters.last() {
            AssetsWithPricesFilter::UpdatedSince(since) => Some(since),
            AssetsWithPricesFilter::Ids(_) => last_since_filter(filters.drop_last()),
        }
    }
}

/// The identifiers and the moment the filters ask for; of each kind, the last filter counts.
pub fn assets_with_prices_query(filters: Vec<AssetsWithPricesFilter>) -> (r: (Option<Vec<String>>, Option<Timestamp>))
    ensures
        r.0 == last_ids_filter(filters@),
        r.1 == last_since_filter(filters@),
{
    let ghost all = filters@;
    let mut rest = filters;
    let mut ids: Option<Vec<String>> = None;
    let mut since: Option<Timestamp> = None;
    while rest.len() > 0
        invariant
            rest@.len() <= all.len(),
            rest@ == all.take(rest@.len() as int),
            last_ids_filter(all) == (if ids is Some { ids } else { last_ids_filter(rest@) }),
            last_since_filter(all) == (if since is Some { since } else { last_since_filter(rest@) }),
        decreases rest@.len(),
    {
        let ghost before = rest@;
        let filter = rest.pop().unwrap();
        assert(rest@ == before.drop_last());
        assert(rest@ =~= all.take(rest@.len() as int));
        match filter {
            AssetsWithPricesFilter::Ids(values) => {
                if ids.is_none() {
                    ids = Some(values);
                }
            },
            AssetsWithPricesFilter::UpdatedSince(value) => {
                if since.is_none() {
                    since = Some(value);
                }
            },
        }
    }
    (ids, since)
}

/// Whether `t` passes the optional list of identifiers: any text passes when there is none.
pub open spec fn admitted(ids: Option<Vec<String>>, t: Seq<char>) -> bool {
    ids matches Some(v) ==> text_views(v@).contains(t)
}

/// Whether `ids` lets `t` through.
fn is_admitted(ids: &Option<Vec<String>>, t: &String) -> (r: bool)
    ensures
        r == admitted(*ids, t@),
{
    match ids {
        Some(v) => {
            let found = holds_text(v, t);
            proof {
                if found {
                    let m = choose|m: int| 0 <= m < v@.len() && v@[m]@ == t@;
                    assert(text_views(v@)[m] == t@);
                } else if text_views(v@).contains(t@) {
                    let m = choose|m: int| 0 <= m < text_views(v@).len() && text_views(v@)[m] == t@;
                    assert(v@[m]@ == t@);
                }
            }
            found
        },
        None => true,
    }
}

/// Appends to `out` the items that `ids` lets through, in their order.
fn append_admitted(out: &mut Vec<String>, items: &Vec<String>, ids: &Option<Vec<String>>)
    ensures
        forall|t: Seq<char>|
            #![trigger text_views(final(out)@).contains(t)]
            text_views(final(out)@).contains(t) <==> (text_views(old(out)@).contains(t) || (text_views(
                items@,
            ).contains(t) && admitted(*ids, t))),
{
    let ghost start = out@;
    let mut i: usize = 0;
    while i < items.len()
        invariant
            i <= items@.len(),
            forall|t: Seq<char>|
                #![trigger text_views(out@).contains(t)]
                text_views(out@).contains(t) <==> (text_views(start).contains(t) || (text_views(items@).take(
                    i as int,
                ).contains(t) && admitted(*ids, t))),
        decreases items@.len() - i,
    {
        let ghost before = out@;
        let ghost x = items@[i as int]@;
        assert(text_views(items@).take(i + 1) =~= text_views(items@).take(i as int).push(x));
        let pass = is_admitted(ids, &items[i]);
        if pass {
            let item = items[i].clone();
            out.push(item);
            assert(text_views(out@) =~= text_views(before).push(x));
        }
        proof {
            let prefix = text_views(items@).take(i as int);
            assert forall|t: Seq<char>| #![trigger text_views(out@).contains(t)]
                text_views(out@).contains(t) <==> (text_views(start).contains(t) || (prefix.push(x).contains(t)
                    && admitted(*ids, t))) by {
                if prefix.push(x).contains(t) && t != x {
                    let k = choose|k: int| 0 <= k < prefix.push(x).len() && prefix.push(x)[k] == t;
                    assert(prefix.contains(prefix.push(x)[k]));
                }
                if prefix.contains(t) {
                    let k = choose|k: int| 0 <= k < prefix.len() && prefix[k] == t;
                    assert(prefix.push(x)[k] == t);
                }
                assert(prefix.push(x)[prefix.len() as int] == x);
                if pass {
                    assert(text_views(out@)[text_views(before).len() as int] == x);
                    if text_views(out@).contains(t) && t != x {
                        let k = choose|k: int| 0 <= k < text_views(out@).len() && text_views(out@)[k] == t;
                        assert(text_views(before).contains(text_views(out@)[k]));
                    }
                    if text_views(before).contains(t) {
                        let k = choose|k: int| 0 <= k < text_views(before).len() && text_views(before)[k] == t;
                        assert(text_views(out@)[k] == t);
                    }
                }
            }
        }
        i = i + 1;
    }
    assert(text_views(items@).take(i as int) =~= text_views(items@));
}

/// The assets updated since a moment, read from the assets and from their
/// prices: each identifier once, in increasing order, and, when `ids` is
/// given, only those it holds.
pub fn updated_asset_ids(updated: &Vec<String>, price_updated: &Vec<String>, ids: &Option<Vec<String>>) -> (r: Vec<String>)
    ensures
        strictly_sorted(text_views(r@)),
        text_views(r@).no_duplicates(),
        forall|t: Seq<char>|
            #![trigger text_views(r@).contains(t)]
            text_views(r@).contains(t) <==> ((text_views(updated@).contains(t) || text_views(price_updated@).contains(
                t,
            )) && admitted(*ids, t)),
{
    let mut both: Vec<String> = Vec::new();
    assert(text_views(both@) =~= Seq::<Seq<char>>::empty());
    append_admitted(&mut both, updated, ids);
    append_admitted(&mut both, price_updated, ids);
    sorted_distinct_texts(&both)
}

/// The assets whose prices are read: with a moment to look from, the
/// assets updated since then (from `updated`, the assets and their prices
/// read since that moment), each once in increasing order and only those
/// `ids` holds when it is given; without one, the listed `ids`; without
/// either, `all`. An empty choice prices no asset.
pub fn chosen_asset_ids(ids: Option<Vec<String>>, updated: Option<(Vec<String>, Vec<String>)>, all: Vec<String>) -> (r:
    Vec<String>)
    ensures
        match updated {
            Some((assets, prices)) => {
                &&& strictly_sorted(text_views(r@))
                &&& forall|t: Seq<char>|
                    #![trigger text_views(r@).contains(t)]
                    text_views(r@).contains(t) <==> ((text_views(assets@).contains(t) || text_views(
                        prices@,
                    ).contains(t)) && admitted(ids, t))
            },
            None => match ids {
                Some(v) => r == v,
                None => r == all,
            },
        },
{
    match updated {
        Some((assets, prices)) => updated_asset_ids(&assets, &prices, &ids),
        None => match ids {
            Some(v) => v,
            None => all,
        },
    }
}

/// Which of the incoming prices are stored: the positions, in order, of
/// those whose identifier is mapped to an asset.
pub fn mapped_price_positions(price_ids: &Vec<String>, mapped_price_ids: &Vec<String>) -> (r: Vec<usize>)
    ensures
        forall|k: int| 0 <= k < r@.len() ==> #[trigger] r@[k] < price_ids@.len(),
        forall|a: int, b: int| 0 <= a < b < r@.len() ==> #[trigger] r@[a] < #[trigger] r@[b],
        forall|i: int|
            0 <= i < price_ids@.len() ==> (r@.contains(i as usize) <==> text_views(mapped_price_ids@).contains(
                #[trigger] price_ids@[i]@,
            )),
{
    let mut r: Vec<usize> = Vec::new();
    let mut i: usize = 0;
    while i < price_ids.len()
        invariant
            i <= price_ids@.len(),
            forall|k: int| 0 <= k < r@.len() ==> #[trigger] r@[k] < i,
            forall|a: int, b: int| 0 <= a < b < r@.len() ==> #[trigger] r@[a] < #[trigger] r@[b],
            forall|j: int|
                0 <= j < i ==> (r@.contains(j as usize) <==> text_views(mapped_price_ids@).contains(
                    #[trigger] price_ids@[j]@,
                )),
        decreases price_ids@.len() - i,
    {
        let ghost before = r@;
        let mapped = holds_text(mapped_price_ids, &price_ids[i]);
        proof {
            let t = price_ids@[i as int]@;
            if mapped {
                let m = choose|m: int| 0 <= m < mapped_price_ids@.len() && mapped_price_ids@[m]@ == t;
                assert(text_views(mapped_price_ids@)[m] == t);
            } else if text_views(mapped_price_ids@).contains(t) {
                let m = choose|m: int| 0 <= m < text_views(mapped_price_ids@).len() && text_views(mapped_price_ids@)[m] == t;
                assert(mapped_price_ids@[m]@ == t);
            }
        }
        if mapped {
            r.push(i);
            proof {
                assert(r@ == before.push(i));
                assert forall|j: int| #![trigger r@.contains(j as usize)] 0 <= j < i implies (r@.contains(j as usize) <==> before.contains(j as usize)) by {
                    if r@.contains(j as usize) {
                        let m = choose|m: int| 0 <= m < r@.len() && r@[m] == j as usize;
                        if m < before.len() {
                            assert(before[m] == j as usize);
                        }
                    }
                    if before.contains(j as usize) {
                        let m = choose|m: int| 0 <= m < before.len() && before[m] == j as usize;
                        assert(r@[m] == j as usize);
                    }
                }
                assert(r@[before.len() as int] == i);
            }
        } else {
            proof {
                if r@.contains(i) {
                    let m = choose|m: int| 0 <= m < r@.len() && r@[m] == i;
                    assert(r@[m] < i);
                }
            }
        }
        i = i + 1;
    }
    r
}

/// The assets whose prices were stored, from the asset of each stored
/// price: each once, in increasing order.
pub fn priced_asset_ids(mapped_asset_ids: &Vec<String>) -> (r: Vec<String>)
    ensures
        strictly_sorted(text_views(r@)),
        text_views(r@).no_duplicates(),
        forall|t: Seq<char>|
            #![trigger text_views(r@).contains(t)]
            text_views(r@).contains(t) <==> text_views(mapped_asset_ids@).contains(t),
{
    sorted_distinct_texts(mapped_asset_ids)
}

} // verus!
