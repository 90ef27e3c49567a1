use gemcore::prices::{
    assets_with_prices_query, chosen_asset_ids, mapped_price_positions, priced_asset_ids, primary_price, primary_price_within, primary_prices, primary_prices_by_asset,
    updated_asset_ids, AssetsWithPricesFilter, PriceProvider, PriceProviderConfig, PriceSample, MAX_AGE_SECONDS,
};
use gemcore::time::Timestamp;
use std::time::{SystemTime, UNIX_EPOCH};

const HOUR: u64 = 3600;

fn provider(id: &str) -> PriceProvider {
    PriceProvider::new(id.to_string())
}

fn config(id: &str, enabled: bool, priority: i32) -> PriceProviderConfig {
    PriceProviderConfig { provider: provider(id), enabled, priority }
}

fn providers() -> Vec<PriceProviderConfig> {
    vec![config("coingecko", true, 1), config("pyth", true, 2), config("jupiter", false, 3)]
}

fn now_seconds() -> i64 {
    SystemTime::now().duration_since(UNIX_EPOCH).unwrap().as_secs() as i64
}

fn sample_with_age(id: &str, seconds_ago: i64) -> PriceSample {
    PriceSample { provider: provider(id), last_updated_at: Timestamp::from_seconds(now_seconds() - seconds_ago) }
}

fn sample_at(id: &str, seconds: i64) -> PriceSample {
    PriceSample { provider: provider(id), last_updated_at: Timestamp::from_seconds(seconds) }
}

#[test]
fn test_primary_price() {
    let providers = providers();
    let max_age = HOUR;

    let fresh = vec![sample_with_age("coingecko", 60), sample_with_age("pyth", 60)];
    assert_eq!(fresh[primary_price_within(&providers, &fresh, max_age).unwrap()].provider.id, "coingecko");

    let stale_primary = vec![sample_with_age("coingecko", 7200), sample_with_age("pyth", 60)];
    assert_eq!(stale_primary[primary_price_within(&providers, &stale_primary, max_age).unwrap()].provider.id, "pyth");

    let only_disabled = vec![sample_with_age("jupiter", 60)];
    assert!(primary_price_within(&providers, &only_disabled, max_age).is_none());

    assert!(primary_price_within(&providers, &vec![], max_age).is_none());
}

#[test]
fn test_primary_price_with_a_fixed_cutoff() {
    let providers = providers();
    let cutoff = Timestamp::from_seconds(1_000);
    let rows = vec![sample_at("pyth", 1_000), sample_at("coingecko", 999), sample_at("coingecko", 5_000)];
    // Only the first row of a provider counts, and it must not be older than the cutoff.
    assert_eq!(primary_price(&providers, &rows, &cutoff), Some(0));
    let rows = vec![sample_at("pyth", 2_000), sample_at("coingecko", 1_000)];
    assert_eq!(primary_price(&providers, &rows, &cutoff), Some(1));
    let nanos_early = Timestamp { seconds: 999, nanos: 999_999_999 };
    assert_eq!(primary_price(&providers, &vec![PriceSample { provider: provider("pyth"), last_updated_at: nanos_early }], &cutoff), None);
}

#[test]
fn test_equal_priorities_go_to_the_provider_listed_first() {
    let providers = vec![config("pyth", true, 5), config("coingecko", true, 5)];
    let rows = vec![sample_at("coingecko", 10), sample_at("pyth", 10)];
    assert_eq!(primary_price(&providers, &rows, &Timestamp::from_seconds(0)), Some(1));
}

#[test]
fn test_an_age_beyond_chrono_has_no_price() {
    let providers = providers();
    let fresh = vec![sample_with_age("coingecko", 60)];
    assert_eq!(primary_price_within(&providers, &fresh, MAX_AGE_SECONDS + 1), None);
    assert_eq!(primary_price_within(&providers, &fresh, MAX_AGE_SECONDS), None);
    assert_eq!(primary_price_within(&providers, &fresh, 0), None);
    assert_eq!(primary_price_within(&providers, &fresh, 100 * 365 * 24 * HOUR), Some(0));
}

#[test]
fn test_primary_prices_go_to_each_asset_once() {
    let providers = providers();
    let cutoff = Timestamp::from_seconds(100);
    let priced = vec![
        ("bitcoin".to_string(), sample_at("pyth", 200)),
        ("ethereum".to_string(), sample_at("coingecko", 50)),
        ("bitcoin".to_string(), sample_at("coingecko", 300)),
        ("ethereum".to_string(), sample_at("pyth", 150)),
    ];
    let ids = vec!["bitcoin".to_string(), "solana".to_string(), "ethereum".to_string(), "bitcoin".to_string()];
    let by_asset = primary_prices_by_asset(&ids, &priced, &providers, &cutoff);
    assert_eq!(
        by_asset,
        vec![Some(sample_at("coingecko", 300)), None, Some(sample_at("pyth", 150)), None]
    );
    let present = primary_prices(&ids, &priced, &providers, &cutoff);
    assert_eq!(
        present,
        vec![("bitcoin".to_string(), sample_at("coingecko", 300)), ("ethereum".to_string(), sample_at("pyth", 150))]
    );
}

#[test]
fn test_the_last_filter_of_each_kind_counts() {
    let (ids, since) = assets_with_prices_query(vec![
        AssetsWithPricesFilter::Ids(vec!["a".to_string()]),
        AssetsWithPricesFilter::UpdatedSince(Timestamp::from_seconds(5)),
        AssetsWithPricesFilter::Ids(vec!["b".to_string(), "c".to_string()]),
    ]);
    assert_eq!(ids, Some(vec!["b".to_string(), "c".to_string()]));
    assert_eq!(since, Some(Timestamp::from_seconds(5)));
    assert_eq!(assets_with_prices_query(vec![]), (None, None));
}

#[test]
fn test_updated_asset_ids_merge_and_filter() {
    let updated = vec!["b".to_string(), "a".to_string(), "b".to_string()];
    let price_updated = vec!["c".to_string(), "a".to_string()];
    let mut all = updated_asset_ids(&updated, &price_updated, &None);
    all.sort();
    assert_eq!(all, vec!["a".to_string(), "b".to_string(), "c".to_string()]);

    let mut kept = updated_asset_ids(&updated, &price_updated, &Some(vec!["c".to_string(), "b".to_string(), "z".to_string()]));
    kept.sort();
    assert_eq!(kept, vec!["b".to_string(), "c".to_string()]);
}

#[test]
fn test_updated_asset_ids_come_sorted() {
    let updated = vec!["solana".to_string(), "bitcoin".to_string(), "ethereum_0x1".to_string()];
    let price_updated = vec!["ethereum".to_string(), "bitcoin".to_string()];
    assert_eq!(
        updated_asset_ids(&updated, &price_updated, &None),
        vec!["bitcoin".to_string(), "ethereum".to_string(), "ethereum_0x1".to_string(), "solana".to_string()]
    );
    assert_eq!(updated_asset_ids(&vec!["é".to_string(), "z".to_string(), "Z".to_string()], &vec![], &None), vec!["Z", "z", "é"]);
}

#[test]
fn test_chosen_asset_ids() {
    let all = vec!["a".to_string(), "b".to_string(), "c".to_string()];
    assert_eq!(chosen_asset_ids(None, None, all.clone()), all);
    assert_eq!(chosen_asset_ids(Some(vec!["c".to_string(), "a".to_string()]), None, all.clone()), vec!["c", "a"]);
    assert_eq!(
        chosen_asset_ids(
            Some(vec!["c".to_string(), "a".to_string()]),
            Some((vec!["c".to_string(), "b".to_string()], vec!["a".to_string(), "c".to_string()])),
            vec![]
        ),
        vec!["a", "c"]
    );
    assert_eq!(chosen_asset_ids(None, Some((vec!["b".to_string()], vec!["a".to_string()])), vec![]), vec!["a", "b"]);
    let nothing = chosen_asset_ids(Some(vec!["z".to_string()]), Some((vec!["b".to_string()], vec![])), all.clone());
    assert!(nothing.is_empty());
    let providers = providers();
    assert!(primary_prices_by_asset(&nothing, &vec![], &providers, &Timestamp::from_seconds(0)).is_empty());
}

#[test]
fn test_only_mapped_prices_are_stored() {
    let ids = vec!["coingecko_bitcoin".to_string(), "pyth_x".to_string(), "coingecko_eth".to_string()];
    let mapped = vec!["coingecko_eth".to_string(), "coingecko_bitcoin".to_string(), "other".to_string()];
    assert_eq!(mapped_price_positions(&ids, &mapped), vec![0, 2]);
    assert_eq!(mapped_price_positions(&ids, &vec![]), Vec::<usize>::new());
    assert_eq!(
        priced_asset_ids(&vec!["ethereum".to_string(), "bitcoin".to_string(), "ethereum".to_string()]),
        vec!["bitcoin", "ethereum"]
    );
}
