use vstd::prelude::*;
use vstd::string::StrSliceExecFns;

verus! {

/// Whether `c` is one of the characters that `str::trim` removes: those with
/// the Unicode `White_Space` property (tab to carriage return, space, next
/// line, no-break space, Ogham space mark, the spaces from en quad to hair
/// space, line and paragraph separators, narrow no-break space, medium
/// mathematical space and ideographic space).
pub open spec fn is_unicode_whitespace(c: char) -> bool {
    let v = c as int;
    ||| 0x09 <= v <= 0x0D
    ||| v == 0x20
    ||| v == 0x85
    ||| v == 0xA0
    ||| v == 0x1680
    ||| 0x2000 <= v <= 0x200A
    ||| v == 0x2028
    ||| v == 0x2029
    ||| v == 0x202F
    ||| v == 0x205F
    ||| v == 0x3000
}

/// A text made only of whitespace trims to the empty text.
pub proof fn lemma_blank_trims_to_empty(s: Seq<char>, t: Seq<char>)
    requires
        is_trim_of(s, t),
        forall|i: int| 0 <= i < s.len() ==> is_unicode_whitespace(#[trigger] s[i]),
    ensures
        t.len() == 0,
{
    if t.len() > 0 {
        let start = choose|start: int| trim_window(s, t, start);
        assert(t[0] == s[start]);
    }
}

/// `t` is the part of `s` that starts at `start`, with only whitespace before and after it.
pub open spec fn trim_window(s: Seq<char>, t: Seq<char>, start: int) -> bool {
    &&& 0 <= start <= s.len() - t.len()
    &&& t == s.subrange(start, start + t.len())
    &&& forall|i: int| 0 <= i < start ==> is_unicode_whitespace(#[trigger] s[i])
    &&& forall|i: int| start + t.len() <= i < s.len() ==> is_unicode_whitespace(#[trigger] s[i])
}

/// `t` is `s` without its leading and trailing whitespace.
pub open spec fn is_trim_of(s: Seq<char>, t: Seq<char>) -> bool {
    &&& t.len() <= s.len()
    &&& exists|start: int| trim_window(s, t, start)
    &&& t.len() > 0 ==> !is_unicode_whitespace(t[0]) && !is_unicode_whitespace(t.last())
}

/// Whether `c` is whitespace in the sense `is_unicode_whitespace` describes.
pub(crate) fn is_whitespace_char(c: char) -> (r: bool)
    ensures
        r == is_unicode_whitespace(c),
{
    let v: u32 = c as u32;
    (0x09 <= v && v <= 0x0D) || v == 0x20 || v == 0x85 || v == 0xA0 || v == 0x1680 || (0x2000 <= v && v <= 0x200A)
        || v == 0x2028 || v == 0x2029 || v == 0x202F || v == 0x205F || v == 0x3000
}

/// `s` without its leading and trailing whitespace, as `str::trim` gives it.
pub(crate) fn trim(s: &str) -> (trimmed: &str)
    ensures
        is_trim_of(s@, trimmed@),
{
    let n = s.unicode_len();
    let mut start: usize = 0;
    while start < n && is_whitespace_char(s.get_char(start))
        invariant
            n == s@.len(),
            start <= n,
            forall|i: int| 0 <= i < start ==> is_unicode_whitespace(#[trigger] s@[i]),
        decreases n - start,
    {
        start = start + 1;
    }
    let mut end: usize = n;
    while end > start && is_whitespace_char(s.get_char(end - 1))
        invariant
            n == s@.len(),
            start <= end <= n,
            forall|i: int| end <= i < n ==> is_unicode_whitespace(#[trigger] s@[i]),
        decreases end - start,
    {
        end = end - 1;
    }
    let trimmed = s.substring_char(start, end);
    proof {
        assert(trim_window(s@, trimmed@, start as int));
        if trimmed@.len() > 0 {
            assert(trimmed@[0] == s@[start as int]);
            assert(trimmed@.last() == s@[end - 1]);
        }
    }
    trimmed
}

/// Whether two texts are the same.
pub(crate) fn str_eq(a: &str, b: &str) -> (same: bool)
    ensures
        same == (a@ == b@),
{
    to_owned_string(a) == to_owned_string(b)
}

/// Copies the text of `s` into a new `String`.
pub(crate) fn to_owned_string(s: &str) -> (r: String)
    ensures
        r@ == s@,
{
    s.to_owned()
}

/// Whether `texts` holds the text of `t`.
pub(crate) fn holds_text(texts: &Vec<String>, t: &String) -> (r: bool)
    ensures
        r == exists|m: int| 0 <= m < texts@.len() && texts@[m]@ == t@,
{
    let mut k: usize = 0;
    while k < texts.len()
        invariant
            k <= texts@.len(),
            forall|m: int| 0 <= m < k ==> texts@[m]@ != t@,
        decreases texts@.len() - k,
    {
        if texts[k] == *t {
            return true;
        }
        k = k + 1;
    }
    false
}

/// The texts of a list of strings.
pub open spec fn text_views(items: Seq<String>) -> Seq<Seq<char>> {
    items.map_values(|item: String| item@)
}

/// The texts of `items`, each once, in the order first seen.
pub(crate) fn distinct_texts(items: &Vec<String>) -> (distinct: Vec<String>)
    ensures
        text_views(distinct@).no_duplicates(),
        forall|k: int| 0 <= k < items@.len() ==> text_views(distinct@).contains(#[trigger] text_views(items@)[k]),
        forall|k: int| 0 <= k < distinct@.len() ==> text_views(items@).contains(#[trigger] text_views(distinct@)[k]),
{
    let ghost all = text_views(items@);
    let mut distinct: Vec<String> = Vec::new();
    let mut i: usize = 0;
    while i < items.len()
        invariant
            i <= items@.len(),
            all == text_views(items@),
            text_views(distinct@).no_duplicates(),
            forall|k: int| 0 <= k < i ==> text_views(distinct@).contains(#[trigger] all[k]),
            forall|k: int| 0 <= k < distinct@.len() ==> all.take(i as int).contains(#[trigger] text_views(distinct@)[k]),
        decreases items@.len() - i,
    {
        let seen = holds_text(&distinct, &items[i]);
        let ghost before = text_views(distinct@);
        let ghost t = items@[i as int]@;
        assert(all[i as int] == t);
        proof {
            if seen {
                let m = choose|m: int| 0 <= m < distinct@.len() && distinct@[m]@ == t;
                assert(before[m] == t);
            } else {
                assert forall|m: int| 0 <= m < before.len() implies before[m] != t by {
                    assert(before[m] == distinct@[m]@);
                }
            }
        }
        if !seen {
            distinct.push(items[i].clone());
        }
        proof {
            let after = text_views(distinct@);
            if !seen {
                assert(after =~= before.push(t));
            } else {
                assert(after =~= before);
            }
            assert(all.take(i + 1)[i as int] == t);
            assert forall|k: int| 0 <= k < after.len() implies all.take(i + 1).contains(#[trigger] after[k]) by {
                if k < before.len() {
                    assert(all.take(i as int).contains(before[k]));
                    let m = choose|m: int| 0 <= m < i && all.take(i as int)[m] == before[k];
                    assert(all.take(i + 1)[m] == before[k]);
                }
            }
            assert forall|k: int| 0 <= k < i + 1 implies after.contains(#[trigger] all[k]) by {
                if k < i {
                    let m = choose|m: int| 0 <= m < before.len() && before[m] == all[k];
                    assert(after[m] == before[m]);
                } else if !seen {
                    assert(after[after.len() - 1] == t);
                } else {
                    let m = choose|m: int| 0 <= m < before.len() && before[m] == t;
                    assert(after[m] == t);
                }
            }
        }
        i = i + 1;
    }
    assert(all.take(i as int) =~= all);
    distinct
}

/// Whether `a` comes before `b` in the order of their characters' code
/// points, a proper prefix first: the order in which `String`s sort.
pub open spec fn text_less(a: Seq<char>, b: Seq<char>) -> bool
    decreases a.len(),
{
    if a.len() == 0 {
        b.len() > 0
    } else if b.len() == 0 {
        false
    } else if a[0] != b[0] {
        (a[0] as int) < (b[0] as int)
    } else {
        text_less(a.drop_first(), b.drop_first())
    }
}

/// No text comes before itself.
pub proof fn lemma_text_less_irreflexive(a: Seq<char>)
    ensures
        !text_less(a, a),
    decreases a.len(),
{
    if a.len() > 0 {
        lemma_text_less_irreflexive(a.drop_first());
    }
}

/// Of two different texts, one comes before the other.
pub proof fn lemma_text_less_total(a: Seq<char>, b: Seq<char>)
    requires
        a != b,
    ensures
        text_less(a, b) || text_less(b, a),
    decreases a.len(),
{
    if a.len() == 0 {
        assert(b.len() > 0) by {
            if b.len() == 0 {
                assert(a =~= b);
            }
        }
    } else if b.len() == 0 {
    } else if a[0] == b[0] {
        if a.drop_first() =~= b.drop_first() {
            assert(a =~= b) by {
                assert forall|i: int| 0 <= i < a.len() implies a[i] == b[i] by {
                    if i > 0 {
                        assert(a[i] == a.drop_first()[i - 1]);
                        assert(b[i] == b.drop_first()[i - 1]);
                    }
                }
            }
        }
        lemma_text_less_total(a.drop_first(), b.drop_first());
    } else {
        assert((a[0] as int) != (b[0] as int));
    }
}

/// The order is transitive.
pub proof fn lemma_text_less_transitive(a: Seq<char>, b: Seq<char>, c: Seq<char>)
    requires
        text_less(a, b),
        text_less(b, c),
    ensures
        text_less(a, c),
    decreases a.len(),
{
    if a.len() > 0 && b.len() > 0 && c.len() > 0 && a[0] == b[0] && b[0] == c[0] {
        lemma_text_less_transitive(a.drop_first(), b.drop_first(), c.drop_first());
    }
}

/// Whether `a` comes before `b` in the order `text_less` describes.
pub(crate) fn is_text_less(a: &str, b: &str) -> (r: bool)
    ensures
        r == text_less(a@, b@),
{
    let la = a.unicode_len();
    let lb = b.unicode_len();
    let mut i: usize = 0;
    assert(a@.skip(0) =~= a@);
    assert(b@.skip(0) =~= b@);
    while i < la && i < lb
        invariant
            la == a@.len(),
            lb == b@.len(),
            i <= la,
            i <= lb,
            text_less(a@, b@) == text_less(a@.skip(i as int), b@.skip(i as int)),
        decreases la - i,
    {
        let ca = a.get_char(i);
        let cb = b.get_char(i);
        assert(a@.skip(i as int)[0] == ca);
        assert(b@.skip(i as int)[0] == cb);
        if ca != cb {
            return (ca as u32) < (cb as u32);
        }
        assert(a@.skip(i as int).drop_first() =~= a@.skip(i + 1));
        assert(b@.skip(i as int).drop_first() =~= b@.skip(i + 1));
        i = i + 1;
    }
    i == la && i < lb
}

/// Whether the texts are in strictly increasing order.
pub open spec fn strictly_sorted(texts: Seq<Seq<char>>) -> bool {
    forall|i: int, j: int| 0 <= i < j < texts.len() ==> text_less(#[trigger] texts[i], #[trigger] texts[j])
}

/// The texts of `items`, each once, in increasing order.
pub(crate) fn sorted_distinct_texts(items: &Vec<String>) -> (sorted: Vec<String>)
    ensures
        strictly_sorted(text_views(sorted@)),
        text_views(sorted@).no_duplicates(),
        forall|t: Seq<char>|
            #![trigger text_views(sorted@).contains(t)]
            text_views(sorted@).contains(t) <==> text_views(items@).contains(t),
{
    let mut sorted: Vec<String> = Vec::new();
    let mut i: usize = 0;
    while i < items.len()
        invariant
            i <= items@.len(),
            strictly_sorted(text_views(sorted@)),
            forall|t: Seq<char>|
                #![trigger text_views(sorted@).contains(t)]
                text_views(sorted@).contains(t) <==> text_views(items@).take(i as int).contains(t),
        decreases items@.len() - i,
    {
        let ghost before = text_views(sorted@);
        let ghost x = items@[i as int]@;
        assert(text_views(items@).take(i + 1) =~= text_views(items@).take(i as int).push(x));
        let mut k: usize = 0;
        while k < sorted.len() && is_text_less(sorted[k].as_str(), items[i].as_str())
            invariant
                k <= sorted@.len(),
                before == text_views(sorted@),
                x == items@[i as int]@,
                i < items@.len(),
                forall|m: int| 0 <= m < k ==> text_less(#[trigger] before[m], x),
            decreases sorted@.len() - k,
        {
            k = k + 1;
        }
        let found = k < sorted.len() && sorted[k] == items[i];
        if !found {
            let item = items[i].clone();
            sorted.insert(k, item);
            proof {
                let after = text_views(sorted@);
                assert(after =~= before.insert(k as int, x));
                assert forall|a: int, b: int| 0 <= a < b < after.len() implies text_less(
                    #[trigger] after[a],
                    #[trigger] after[b],
                ) by {
                    if k < before.len() {
                        assert(!text_less(before[k as int], x));
                        lemma_text_less_total(before[k as int], x);
                        assert(text_less(x, before[k as int]));
                    }
                    if a < k && b == k {
                    } else if a == k && b > k {
                        if b - 1 > k {
                            lemma_text_less_transitive(x, before[k as int], before[b - 1]);
                        }
                    } else if a < k && b > k {
                        assert(after[a] == before[a]);
                        assert(after[b] == before[b - 1]);
                    } else if b < k {
                        assert(after[a] == before[a]);
                        assert(after[b] == before[b]);
                    } else {
                        assert(after[a] == before[a - 1]);
                        assert(after[b] == before[b - 1]);
                    }
                }
                assert forall|t: Seq<char>| #![trigger text_views(sorted@).contains(t)]
                    text_views(sorted@).contains(t) <==> (before.contains(t) || t == x) by {
                    if after.contains(t) {
                        let m = choose|m: int| 0 <= m < after.len() && after[m] == t;
                        if m < k {
                            assert(before[m] == t);
                        } else if m > k {
                            assert(before[m - 1] == t);
                        }
                    }
                    if before.contains(t) {
                        let m = choose|m: int| 0 <= m < before.len() && before[m] == t;
                        if m < k {
                            assert(after[m] == t);
                        } else {
                            assert(after[m + 1] == t);
                        }
                    }
                    if t == x {
                        assert(after[k as int] == x);
                    }
                }
            }
        } else {
            proof {
                assert(before[k as int] == x);
            }
        }
        proof {
            let prefix = text_views(items@).take(i as int);
            assert forall|t: Seq<char>| #![trigger text_views(sorted@).contains(t)]
                text_views(sorted@).contains(t) <==> prefix.push(x).contains(t) by {
                if prefix.push(x).contains(t) && t != x {
                    let m = choose|m: int| 0 <= m < prefix.push(x).len() && prefix.push(x)[m] == t;
                    assert(prefix.contains(prefix.push(x)[m]));
                }
                if prefix.contains(t) {
                    let m = choose|m: int| 0 <= m < prefix.len() && prefix[m] == t;
                    assert(prefix.push(x)[m] == t);
                }
                assert(prefix.push(x)[prefix.len() as int] == x);
                if found {
                    assert(before.contains(x) ==> before.contains(x));
                    assert(before[k as int] == x);
                }
            }
        }
        i = i + 1;
    }
    assert(text_views(items@).take(i as int) =~= text_views(items@));
    proof {
        let v = text_views(sorted@);
        assert forall|a: int, b: int| 0 <= a < v.len() && 0 <= b < v.len() && a != b implies v[a] != v[b] by {
            if a < b {
                assert(text_less(v[a], v[b]));
                if v[a] == v[b] {
                    lemma_text_less_irreflexive(v[a]);
                }
            } else {
                assert(text_less(v[b], v[a]));
                if v[a] == v[b] {
                    lemma_text_less_irreflexive(v[a]);
                }
            }
        }
    }
    sorted
}

} // verus!
