use vstd::prelude::*;
use vstd::arithmetic::div_mod::lemma_div_is_ordered;
use vstd::relations::{sorted_by, total_ordering};

use crate::text::{distinct_texts, text_views};
use crate::time::{Timestamp, NANOS_PER_SECOND};

verus! {

broadcast use vstd::seq_lib::group_to_multiset_ensures;

/// What the abuse checks read of a stored risk signal.
#[derive(Debug, Clone)]
pub struct RiskSignalRecord {
    pub device_id: i32,
    pub fingerprint: String,
    pub ip_address: String,
    pub created_at: Timestamp,
}

/// The order in which signal instants are sorted.
pub open spec fn instant_le() -> spec_fn(i128, i128) -> bool {
    |a: i128, b: i128| a <= b
}

/// The creation instants of the signals, in nanoseconds, in the signals' order.
pub open spec fn signal_instants(signals: Seq<RiskSignalRecord>) -> Seq<i128> {
    signals.map_values(|s: RiskSignalRecord| s.created_at.instant() as i128)
}

/// The whole seconds from `earlier` to `later` (both in nanoseconds, `earlier <= later`).
pub open spec fn whole_seconds(later: int, earlier: int) -> int {
    (later - earlier) / 1_000_000_000
}

/// Whether the run `s[i..=r]` of sorted instants spans at most `window` whole seconds.
pub open spec fn run_fits(s: Seq<i128>, i: int, r: int, window: int) -> bool {
    whole_seconds(s[r] as int, s[i] as int) <= window
}

/// `m` is the length of the longest run of the sorted instants `s` that fits the window.
pub open spec fn is_longest_run(s: Seq<i128>, window: int, m: int) -> bool {
    if s.len() == 0 {
        m == 0
    } else {
        &&& exists|i: int, r: int|
            0 <= i <= r < s.len() && #[trigger] run_fits(s, i, r, window) && r - i + 1 == m
        &&& forall|i: int, r: int|
            0 <= i <= r < s.len() && #[trigger] run_fits(s, i, r, window) ==> r - i + 1 <= m
    }
}

proof fn lemma_instant_le_total()
    ensures
        total_ordering(instant_le()),
{
}

/// Sorts the instants in ascending order, keeping every one of them.
fn sort_instants(v: &mut Vec<i128>)
    ensures
        final(v)@.to_multiset() == old(v)@.to_multiset(),
        sorted_by(final(v)@, instant_le()),
{
    let n = v.len();
    if n == 0 {
        return;
    }
    let mut i: usize = 1;
    while i < n
        invariant
            1 <= i <= n,
            n == v@.len(),
            v@.to_multiset() == old(v)@.to_multiset(),
            forall|a: int, b: int| 0 <= a < b < i ==> v@[a] <= v@[b],
        decreases n - i,
    {
        let mut j: usize = i;
        while j > 0 && v[j - 1] > v[j]
            invariant
                0 <= j <= i < n,
                n == v@.len(),
                v@.to_multiset() == old(v)@.to_multiset(),
                forall|a: int, b: int| 0 <= a < b <= i && b != j ==> v@[a] <= v@[b],
            decreases j,
        {
            let x = v[j - 1];
            let y = v[j];
            let ghost before = v@;
            v.set(j - 1, y);
            v.set(j, x);
            proof {
                broadcast use vstd::multiset::group_multiset_axioms;
                assert(v@.to_multiset() =~= before.to_multiset());
            }
            j = j - 1;
        }
        i = i + 1;
    }
}

/// A bound on the magnitude of any instant a timestamp can hold.
pub open spec fn instant_bound() -> int {
    10_000_000_000_000_000_000_000_000_000
}

proof fn lemma_instant_bounded(t: Timestamp)
    ensures
        -instant_bound() <= t.instant() <= instant_bound(),
{
    assert(t.seconds * 1_000_000_000 <= 9_223_372_036_854_775_807 * 1_000_000_000) by (nonlinear_arith)
        requires
            t.seconds <= 9_223_372_036_854_775_807,
    ;
    assert(t.seconds * 1_000_000_000 >= -9_223_372_036_854_775_808 * 1_000_000_000) by (nonlinear_arith)
        requires
            t.seconds >= -9_223_372_036_854_775_808,
    ;
}

/// In sorted instants, a run that starts later or ends earlier spans no more seconds.
proof fn lemma_run_monotone(s: Seq<i128>, i: int, j: int, r: int, q: int)
    requires
        sorted_by(s, instant_le()),
        0 <= i <= j <= r <= q < s.len(),
    ensures
        whole_seconds(s[r] as int, s[j] as int) <= whole_seconds(s[q] as int, s[i] as int),
{
    assert(instant_le()(s[i], s[j]) || i == j);
    assert(instant_le()(s[r], s[q]) || r == q);
    lemma_div_is_ordered(s[r] - s[j], s[q] - s[i], 1_000_000_000);
}

/// The largest number of signals whose creation times, taken in ascending
/// order, lie within `window_secs` whole seconds of each other: the longest
/// run of the sorted creation times whose last is at most `window_secs`
/// whole seconds after its first.
pub fn calculate_max_signals_in_window(signals: &Vec<RiskSignalRecord>, window_secs: i64) -> (max: i64)
    requires
        window_secs >= 0,
        signals@.len() <= i64::MAX,
    ensures
        is_longest_run(signal_instants(signals@).sort_by(instant_le()), window_secs as int, max as int),
        signals@.len() > 0 ==> 1 <= max <= signals@.len(),
{
    let n = signals.len();
    let ghost instants = signal_instants(signals@);
    proof {
        lemma_instant_le_total();
        instants.lemma_sort_by_ensures(instant_le());
    }
    if n == 0 {
        proof {
            assert(instants.sort_by(instant_le()).to_multiset().len() == 0);
        }
        return 0;
    }
    let mut ts: Vec<i128> = Vec::new();
    let mut k: usize = 0;
    while k < n
        invariant
            k <= n,
            n == signals@.len(),
            instants == signal_instants(signals@),
            ts@ == instants.take(k as int),
            forall|a: int| 0 <= a < k ==> -instant_bound() <= #[trigger] ts@[a] <= instant_bound(),
        decreases n - k,
    {
        proof {
            lemma_instant_bounded(signals@[k as int].created_at);
        }
        ts.push(signals[k].created_at.instant_nanos());
        assert(ts@ =~= instants.take(k + 1));
        k = k + 1;
    }
    assert(ts@ =~= instants);
    let ghost unsorted = ts@;
    sort_instants(&mut ts);
    proof {
        assert(ts@.to_multiset().len() == ts@.len());
        assert(unsorted.to_multiset().len() == unsorted.len());
        vstd::seq_lib::lemma_sorted_unique(ts@, instants.sort_by(instant_le()), instant_le());
        assert forall|a: int| 0 <= a < n implies -instant_bound() <= #[trigger] ts@[a] <= instant_bound() by {
            assert(ts@.contains(ts@[a]));
            assert(unsorted.contains(ts@[a]));
        }
    }
    let ghost s = ts@;
    let w = window_secs as i128;
    let mut max_count: i64 = 1;
    let mut left: usize = 0;
    let mut right: usize = 0;
    assert(run_fits(s, 0, 0, w as int));
    while right < n
        invariant
            n == s.len(),
            ts@ == s,
            w == window_secs,
            w >= 0,
            sorted_by(s, instant_le()),
            forall|a: int| 0 <= a < n ==> -instant_bound() <= #[trigger] s[a] <= instant_bound(),
            n <= i64::MAX,
            left <= right <= n,
            1 <= max_count <= n,
            right < n ==> forall|i: int| 0 <= i < left ==> !#[trigger] run_fits(s, i, right as int, w as int),
            exists|i: int, r: int|
                0 <= i <= r < n && #[trigger] run_fits(s, i, r, w as int) && r - i + 1 == max_count,
            forall|i: int, r: int|
                0 <= i <= r < right && #[trigger] run_fits(s, i, r, w as int) ==> r - i + 1 <= max_count,
        decreases n - right,
    {
        while (ts[right] - ts[left]) / NANOS_PER_SECOND > w
            invariant
                n == s.len(),
                ts@ == s,
                w >= 0,
                sorted_by(s, instant_le()),
                forall|a: int| 0 <= a < n ==> -instant_bound() <= #[trigger] s[a] <= instant_bound(),
                left <= right < n,
                forall|i: int| 0 <= i < left ==> !#[trigger] run_fits(s, i, right as int, w as int),
            decreases right - left,
        {
            assert(instant_le()(s[left as int], s[right as int]) || left == right);
            proof {
                assert forall|i: int| 0 <= i < left + 1 implies !#[trigger] run_fits(s, i, right as int, w as int) by {
                    if i == left {
                    } else {
                    }
                }
            }
            left = left + 1;
        }
        assert(instant_le()(s[left as int], s[right as int]) || left == right);
        assert(run_fits(s, left as int, right as int, w as int));
        let count = (right - left + 1) as i64;
        if count > max_count {
            max_count = count;
        }
        proof {
            assert forall|i: int, r: int|
                0 <= i <= r < right + 1 && #[trigger] run_fits(s, i, r, w as int) implies r - i + 1 <= max_count by {
                if r == right {
                    if i < left {
                        assert(!run_fits(s, i, right as int, w as int));
                    }
                }
            }
            if right + 1 < n {
                assert forall|i: int| 0 <= i < left implies !#[trigger] run_fits(s, i, right + 1, w as int) by {
                    assert(!run_fits(s, i, right as int, w as int));
                    lemma_run_monotone(s, i, i, right as int, right + 1);
                }
            }
        }
        right = right + 1;
    }
    max_count
}

/// The largest of the counts, or zero when there is none.
pub open spec fn max_or_zero(counts: Seq<i64>) -> int
    decreases counts.len(),
{
    if counts.len() == 0 {
        0
    } else {
        let rest = max_or_zero(counts.drop_last());
        if counts.last() > rest {
            counts.last() as int
        } else {
            rest
        }
    }
}

/// The largest of the counts, or zero when there is none.
fn max_count_of(counts: &Vec<i64>) -> (m: i64)
    ensures
        m == max_or_zero(counts@),
{
    let mut m: i64 = 0;
    let mut i: usize = 0;
    while i < counts.len()
        invariant
            i <= counts@.len(),
            m == max_or_zero(counts@.take(i as int)),
        decreases counts@.len() - i,
    {
        assert(counts@.take(i + 1).drop_last() =~= counts@.take(i as int));
        if counts[i] > m {
            m = counts[i];
        }
        i = i + 1;
    }
    assert(counts@.take(counts@.len() as int) =~= counts@);
    m
}

/// How a referrer's risk signals spread: the most countries and referrers
/// seen on one device, the most referrers on one fingerprint, the most
/// devices behind one IP address, and the most signals in one velocity window.
#[derive(Debug, Clone, Copy, PartialEq, Eq, Default)]
pub struct AbusePatterns {
    pub max_countries_per_device: i64,
    pub max_referrers_per_device: i64,
    pub max_referrers_per_fingerprint: i64,
    pub max_devices_per_ip: i64,
    pub signals_in_velocity_window: i64,
}

/// The abuse patterns of a referrer's signals, given for each of their
/// distinct devices the countries and referrers seen on it, for each distinct
/// fingerprint the referrers seen on it, and for each distinct IP address the
/// devices seen behind it. No signals mean no patterns.
pub fn abuse_patterns(
    signals: &Vec<RiskSignalRecord>,
    countries_per_device: &Vec<i64>,
    referrers_per_device: &Vec<i64>,
    referrers_per_fingerprint: &Vec<i64>,
    devices_per_ip: &Vec<i64>,
    velocity_window_secs: i64,
) -> (patterns: AbusePatterns)
    requires
        velocity_window_secs >= 0,
        signals@.len() <= i64::MAX,
    ensures
        signals@.len() == 0 ==> patterns == (AbusePatterns {
            max_countries_per_device: 0,
            max_referrers_per_device: 0,
            max_referrers_per_fingerprint: 0,
            max_devices_per_ip: 0,
            signals_in_velocity_window: 0,
        }),
        signals@.len() > 0 ==> patterns.max_countries_per_device == max_or_zero(countries_per_device@),
        signals@.len() > 0 ==> patterns.max_referrers_per_device == max_or_zero(referrers_per_device@),
        signals@.len() > 0 ==> patterns.max_referrers_per_fingerprint == max_or_zero(referrers_per_fingerprint@),
        signals@.len() > 0 ==> patterns.max_devices_per_ip == max_or_zero(devices_per_ip@),
        signals@.len() > 0 ==> is_longest_run(
            signal_instants(signals@).sort_by(instant_le()),
            velocity_window_secs as int,
            patterns.signals_in_velocity_window as int,
        ),
{
    if signals.len() == 0 {
        return AbusePatterns {
            max_countries_per_device: 0,
            max_referrers_per_device: 0,
            max_referrers_per_fingerprint: 0,
            max_devices_per_ip: 0,
            signals_in_velocity_window: 0,
        };
    }
    AbusePatterns {
        max_countries_per_device: max_count_of(countries_per_device),
        max_referrers_per_device: max_count_of(referrers_per_device),
        max_referrers_per_fingerprint: max_count_of(referrers_per_fingerprint),
        max_devices_per_ip: max_count_of(devices_per_ip),
        signals_in_velocity_window: calculate_max_signals_in_window(signals, velocity_window_secs),
    }
}

/// Whether `devices` holds `d`.
fn holds_device(devices: &Vec<i32>, d: i32) -> (r: bool)
    ensures
        r == devices@.contains(d),
{
    let mut k: usize = 0;
    while k < devices.len()
        invariant
            k <= devices@.len(),
            forall|m: int| 0 <= m < k ==> devices@[m] != d,
        decreases devices@.len() - k,
    {
        if devices[k] == d {
            return true;
        }
        k = k + 1;
    }
    false
}

/// The device of each signal, in order.
pub open spec fn signal_devices(signals: Seq<RiskSignalRecord>) -> Seq<i32> {
    signals.map_values(|s: RiskSignalRecord| s.device_id)
}

/// The devices the signals came from, each once, in the order first seen.
pub fn distinct_devices(signals: &Vec<RiskSignalRecord>) -> (devices: Vec<i32>)
    ensures
        devices@.no_duplicates(),
        forall|k: int| 0 <= k < signals@.len() ==> devices@.contains(#[trigger] signal_devices(signals@)[k]),
        forall|k: int| 0 <= k < devices@.len() ==> signal_devices(signals@).contains(#[trigger] devices@[k]),
{
    let ghost all = signal_devices(signals@);
    let mut devices: Vec<i32> = Vec::new();
    let mut i: usize = 0;
    while i < signals.len()
        invariant
            i <= signals@.len(),
            all == signal_devices(signals@),
            devices@.no_duplicates(),
            forall|k: int| 0 <= k < i ==> devices@.contains(#[trigger] all[k]),
            forall|k: int| 0 <= k < devices@.len() ==> all.take(i as int).contains(#[trigger] devices@[k]),
        decreases signals@.len() - i,
    {
        let d = signals[i].device_id;
        assert(all[i as int] == d);
        let seen = holds_device(&devices, d);
        let ghost before = devices@;
        if !seen {
            devices.push(d);
        }
        proof {
            assert(all.take(i + 1)[i as int] == d);
            assert forall|k: int| 0 <= k < devices@.len() implies all.take(i + 1).contains(#[trigger] devices@[k]) by {
                if k < before.len() {
                    assert(all.take(i as int).contains(before[k]));
                    let m = choose|m: int| 0 <= m < i && all.take(i as int)[m] == before[k];
                    assert(all.take(i + 1)[m] == before[k]);
                }
            }
            assert forall|k: int| 0 <= k < i + 1 implies devices@.contains(#[trigger] all[k]) by {
                if k < i {
                    let m = choose|m: int| 0 <= m < before.len() && before[m] == all[k];
                    assert(devices@[m] == before[m]);
                } else if !seen {
                    assert(devices@[devices@.len() - 1] == d);
                }
            }
        }
        i = i + 1;
    }
    assert(all.take(i as int) =~= all);
    devices
}

/// The fingerprint of each signal, in order.
pub open spec fn signal_fingerprints(signals: Seq<RiskSignalRecord>) -> Seq<Seq<char>> {
    signals.map_values(|s: RiskSignalRecord| s.fingerprint@)
}

/// The IP address of each signal, in order.
pub open spec fn signal_ips(signals: Seq<RiskSignalRecord>) -> Seq<Seq<char>> {
    signals.map_values(|s: RiskSignalRecord| s.ip_address@)
}

/// The fingerprints and the IP addresses the signals came from, each once, in the order first seen.
pub fn distinct_fingerprints_and_ips(signals: &Vec<RiskSignalRecord>) -> (r: (Vec<String>, Vec<String>))
    ensures
        text_views(r.0@).no_duplicates(),
        text_views(r.0@).to_set() == signal_fingerprints(signals@).to_set(),
        text_views(r.1@).no_duplicates(),
        text_views(r.1@).to_set() == signal_ips(signals@).to_set(),
{
    let mut fingerprints: Vec<String> = Vec::new();
    let mut ips: Vec<String> = Vec::new();
    let mut i: usize = 0;
    while i < signals.len()
        invariant
            i <= signals@.len(),
            text_views(fingerprints@) == signal_fingerprints(signals@).take(i as int),
            text_views(ips@) == signal_ips(signals@).take(i as int),
        decreases signals@.len() - i,
    {
        let ghost fp_before = fingerprints@;
        let ghost ip_before = ips@;
        let fp = signals[i].fingerprint.clone();
        let ip = signals[i].ip_address.clone();
        fingerprints.push(fp);
        ips.push(ip);
        proof {
            assert(fingerprints@ == fp_before.push(fp));
            assert(ips@ == ip_before.push(ip));
            assert(text_views(fingerprints@) =~= text_views(fp_before).push(signals@[i as int].fingerprint@));
            assert(text_views(ips@) =~= text_views(ip_before).push(signals@[i as int].ip_address@));
            assert(signal_fingerprints(signals@).take(i + 1) =~= signal_fingerprints(signals@).take(i as int).push(
                signals@[i as int].fingerprint@,
            ));
            assert(signal_ips(signals@).take(i + 1) =~= signal_ips(signals@).take(i as int).push(signals@[i as int].ip_address@));
        }
        i = i + 1;
    }
    assert(signal_fingerprints(signals@).take(i as int) =~= signal_fingerprints(signals@));
    assert(signal_ips(signals@).take(i as int) =~= signal_ips(signals@));
    let f = distinct_texts(&fingerprints);
    let p = distinct_texts(&ips);
    proof {
        assert(text_views(f@).to_set() =~= text_views(fingerprints@).to_set()) by {
            assert forall|x: Seq<char>| text_views(f@).to_set().contains(x) <==> text_views(fingerprints@).to_set().contains(x) by {
                if text_views(f@).contains(x) {
                    let k = choose|k: int| 0 <= k < f@.len() && text_views(f@)[k] == x;
                    assert(text_views(fingerprints@).contains(text_views(f@)[k]));
                }
                if text_views(fingerprints@).contains(x) {
                    let k = choose|k: int| 0 <= k < fingerprints@.len() && text_views(fingerprints@)[k] == x;
                    assert(text_views(f@).contains(text_views(fingerprints@)[k]));
                }
            }
        }
        assert(text_views(p@).to_set() =~= text_views(ips@).to_set()) by {
            assert forall|x: Seq<char>| text_views(p@).to_set().contains(x) <==> text_views(ips@).to_set().contains(x) by {
                if text_views(p@).contains(x) {
                    let k = choose|k: int| 0 <= k < p@.len() && text_views(p@)[k] == x;
                    assert(text_views(ips@).contains(text_views(p@)[k]));
                }
                if text_views(ips@).contains(x) {
                    let k = choose|k: int| 0 <= k < ips@.len() && text_views(ips@)[k] == x;
                    assert(text_views(p@).contains(text_views(ips@)[k]));
                }
            }
        }
    }
    (f, p)
}

} // verus!
