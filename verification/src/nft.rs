use vstd::prelude::*;

verus! {

/// The items of `items` that `other` lacks, in their order.
fn missing_from(items: &Vec<i32>, other: &Vec<i32>) -> (missing: Vec<i32>)
    ensures
        missing@ == items@.filter(|x: i32| !other@.contains(x)),
{
    let ghost pred = |x: i32| !other@.contains(x);
    let mut missing: Vec<i32> = Vec::new();
    let mut i: usize = 0;
    while i < items.len()
        invariant
            i <= items@.len(),
            pred == (|x: i32| !other@.contains(x)),
            missing@ == items@.take(i as int).filter(pred),
        decreases items@.len() - i,
    {
        let x = items[i];
        let mut found = false;
        let mut k: usize = 0;
        while k < other.len()
            invariant
                k <= other@.len(),
                found == exists|m: int| 0 <= m < k && other@[m] == x,
            decreases other@.len() - k,
        {
            if other[k] == x {
                found = true;
            }
            k = k + 1;
        }
        proof {
            reveal_with_fuel(Seq::filter, 1);
            assert(items@.take(i + 1).drop_last() =~= items@.take(i as int));
            if found {
                let m = choose|m: int| 0 <= m < k && other@[m] == x;
                assert(other@.contains(x));
            } else {
                assert(!other@.contains(x));
            }
        }
        if !found {
            missing.push(x);
        }
        i = i + 1;
    }
    assert(items@.take(items@.len() as int) =~= items@);
    missing
}

/// The changes that make an address's stored NFT associations match the
/// owned assets: the owned assets not yet stored (to insert), and the stored
/// ones no longer owned (to delete), each in its list's order.
pub fn association_changes(owned: &Vec<i32>, stored: &Vec<i32>) -> (changes: (Vec<i32>, Vec<i32>))
    ensures
        changes.0@ == owned@.filter(|x: i32| !stored@.contains(x)),
        changes.1@ == stored@.filter(|x: i32| !owned@.contains(x)),
{
    (missing_from(owned, stored), missing_from(stored, owned))
}

/// After the changes are applied, the stored associations hold exactly the owned assets.
pub proof fn lemma_association_changes_sync(owned: Seq<i32>, stored: Seq<i32>, x: i32)
    ensures
        ({
            let insert = owned.filter(|y: i32| !stored.contains(y));
            let delete = stored.filter(|y: i32| !owned.contains(y));
            ((stored.contains(x) && !delete.contains(x)) || insert.contains(x)) <==> owned.contains(x)
        }),
{
    let pi = |y: i32| !stored.contains(y);
    let pd = |y: i32| !owned.contains(y);
    let insert = owned.filter(pi);
    let delete = stored.filter(pd);
    if owned.contains(x) && !stored.contains(x) {
        let k = choose|k: int| 0 <= k < owned.len() && owned[k] == x;
        owned.lemma_filter_contains(pi, k);
    }
    if stored.contains(x) && !owned.contains(x) {
        let k = choose|k: int| 0 <= k < stored.len() && stored[k] == x;
        stored.lemma_filter_contains(pd, k);
    }
    if insert.contains(x) {
        owned.lemma_filter_contains_rev(pi, x);
    }
    if delete.contains(x) {
        let k = choose|k: int| 0 <= k < delete.len() && delete[k] == x;
        stored.lemma_filter_pred(pd, k);
    }
}

} // verus!
