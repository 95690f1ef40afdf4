//! How often each round-trip time (in whole milliseconds) occurs among the samples of a hop.

use crate::text::{decimal, format_decimal};
use std::collections::BTreeMap;
use vstd::prelude::*;

verus! {

broadcast use {vstd::std_specs::btree::group_btree_axioms, vstd::laws_cmp::group_laws_cmp};

/// Whether a sample took exactly `millis` milliseconds.
pub open spec fn took(millis: u128) -> spec_fn(u128) -> bool {
    |s: u128| s == millis
}

/// How many samples took exactly `millis` milliseconds.
pub open spec fn count_of(samples: Seq<u128>, millis: u128) -> nat {
    samples.filter(took(millis)).len()
}

proof fn lemma_count_push(samples: Seq<u128>, s: u128)
    ensures
        forall|k: u128|
            #[trigger] count_of(samples.push(s), k) == count_of(samples, k) + (if s == k {
                1nat
            } else {
                0nat
            }),
        forall|k: u128| #[trigger] count_of(samples, k) <= samples.len(),
        forall|k: u128| !samples.contains(k) ==> #[trigger] count_of(samples, k) == 0,
        forall|k: u128| #[trigger] positive_millis(samples.push(s)).contains(k) == (positive_millis(
            samples,
        ).contains(k) || (k == s && s > 0)),
{
    assert forall|k: u128|
        #[trigger] count_of(samples.push(s), k) == count_of(samples, k) + (if s == k {
            1nat
        } else {
            0nat
        }) by {
        samples.lemma_filter_push(s, took(k));
    }
    assert forall|k: u128| #[trigger] count_of(samples, k) <= samples.len() by {
        samples.lemma_filter_len(took(k));
    }
    assert forall|k: u128| !samples.contains(k) implies #[trigger] count_of(samples, k) == 0 by {
        let f = samples.filter(took(k));
        if f.len() > 0 {
            samples.lemma_filter_pred(took(k), 0);
            assert(f.contains(f[0]));
            samples.lemma_filter_contains_rev(took(k), f[0]);
        }
    }
    assert forall|k: u128| #[trigger] positive_millis(samples.push(s)).contains(k) == (positive_millis(
        samples,
    ).contains(k) || (k == s && s > 0)) by {
        if samples.push(s).contains(k) && k != s {
            let j = choose|j: int| 0 <= j < samples.push(s).len() && samples.push(s)[j] == k;
            assert(samples[j] == k);
        }
        if samples.contains(k) {
            let j = choose|j: int| 0 <= j < samples.len() && samples[j] == k;
            assert(samples.push(s)[j] == k);
        }
        if k == s {
            assert(samples.push(s)[samples.len() as int] == k);
        }
    }
}

/// The round-trip times above zero that occur among the samples.
pub open spec fn positive_millis(samples: Seq<u128>) -> Set<u128> {
    Set::new(|m: u128| m > 0 && samples.contains(m))
}

/// The text of a round-trip time in milliseconds.
pub open spec fn millis_text(millis: u128) -> Seq<char> {
    decimal(millis as nat)
}

/// Whether each value is below the next.
pub open spec fn strictly_increasing(keys: Seq<u128>) -> bool {
    forall|i: int, j: int| 0 <= i < j < keys.len() ==> keys[i] < keys[j]
}

/// Whether `keys` lists the round-trip times above zero that occur among the samples, in increasing order.
pub open spec fn lists_positive_millis(samples: Seq<u128>, keys: Seq<u128>) -> bool {
    strictly_increasing(keys) && keys.to_set() == positive_millis(samples)
}

/// The round-trip times above zero that occur among the samples, in increasing order.
pub open spec fn frequency_keys(samples: Seq<u128>) -> Seq<u128> {
    choose|keys: Seq<u128>| lists_positive_millis(samples, keys)
}

proof fn lemma_increasing_unique(a: Seq<u128>, b: Seq<u128>)
    requires
        strictly_increasing(a),
        strictly_increasing(b),
        forall|x: u128| a.contains(x) <==> b.contains(x),
    ensures
        a == b,
    decreases a.len(),
{
    if a.len() == 0 {
        if b.len() > 0 {
            assert(b.contains(b[0]));
        }
        assert(a =~= b);
    } else {
        assert(a.contains(a[0]));
        assert(b.len() > 0);
        assert(b.contains(b[0]));
        let j = choose|j: int| 0 <= j < b.len() && b[j] == a[0];
        let i = choose|i: int| 0 <= i < a.len() && a[i] == b[0];
        if j > 0 {
            assert(b[0] < b[j]);
        }
        if i > 0 {
            assert(a[0] < a[i]);
        }
        assert(a[0] == b[0]);
        let a1 = a.drop_first();
        let b1 = b.drop_first();
        assert forall|x: u128| a1.contains(x) <==> b1.contains(x) by {
            if a1.contains(x) {
                let p = choose|p: int| 0 <= p < a1.len() && a1[p] == x;
                assert(a[p + 1] == x);
                assert(a.contains(x));
                let q = choose|q: int| 0 <= q < b.len() && b[q] == x;
                assert(a[0] < a[p + 1]);
                assert(q != 0);
                assert(b1[q - 1] == x);
            }
            if b1.contains(x) {
                let p = choose|p: int| 0 <= p < b1.len() && b1[p] == x;
                assert(b[p + 1] == x);
                assert(b.contains(x));
                let q = choose|q: int| 0 <= q < a.len() && a[q] == x;
                assert(b[0] < b[p + 1]);
                assert(q != 0);
                assert(a1[q - 1] == x);
            }
        }
        lemma_increasing_unique(a1, b1);
        assert(a =~= b) by {
            assert forall|k: int| 0 <= k < a.len() implies a[k] == b[k] by {
                if k > 0 {
                    assert(a[k] == a1[k - 1]);
                    assert(b[k] == b1[k - 1]);
                }
            }
        }
    }
}

/// The round-trip times above zero listed in increasing order are determined
/// by the samples: any such listing is `frequency_keys`.
pub proof fn lemma_keys_unique(samples: Seq<u128>, keys: Seq<u128>)
    requires
        lists_positive_millis(samples, keys),
    ensures
        frequency_keys(samples) == keys,
{
    let other = frequency_keys(samples);
    assert(lists_positive_millis(samples, other));
    assert forall|x: u128| keys.contains(x) <==> other.contains(x) by {
        assert(keys.to_set().contains(x) == keys.contains(x));
        assert(other.to_set().contains(x) == other.contains(x));
    }
    lemma_increasing_unique(keys, other);
}

/// Whether a sample took some time (above zero milliseconds).
pub open spec fn is_positive() -> spec_fn(u128) -> bool {
    |s: u128| s > 0
}

/// Whether a sample took one of the listed times.
pub open spec fn is_listed(keys: Seq<u128>) -> spec_fn(u128) -> bool {
    |s: u128| keys.contains(s)
}

/// The number of samples that took each listed time, added up.
pub open spec fn sum_counts(samples: Seq<u128>, keys: Seq<u128>) -> nat
    decreases keys.len(),
{
    if keys.len() == 0 {
        0
    } else {
        sum_counts(samples, keys.drop_last()) + count_of(samples, keys.last())
    }
}

proof fn lemma_filter_listed_push(samples: Seq<u128>, keys: Seq<u128>, k: u128)
    requires
        !keys.contains(k),
    ensures
        samples.filter(is_listed(keys.push(k))).len() == samples.filter(is_listed(keys)).len() + count_of(
            samples,
            k,
        ),
    decreases samples.len(),
{
    if samples.len() > 0 {
        let prev = samples.drop_last();
        let x = samples.last();
        lemma_filter_listed_push(prev, keys, k);
        assert(prev.push(x) =~= samples);
        prev.lemma_filter_push(x, is_listed(keys.push(k)));
        prev.lemma_filter_push(x, is_listed(keys));
        prev.lemma_filter_push(x, took(k));
        assert(keys.push(k).contains(x) == (keys.contains(x) || x == k)) by {
            if keys.push(k).contains(x) && x != k {
                let i = choose|i: int| 0 <= i < keys.push(k).len() && keys.push(k)[i] == x;
                assert(keys[i] == x);
            }
            if keys.contains(x) {
                let i = choose|i: int| 0 <= i < keys.len() && keys[i] == x;
                assert(keys.push(k)[i] == x);
            }
            if x == k {
                assert(keys.push(k)[keys.len() as int] == x);
            }
        }
    } else {
        assert(samples.filter(is_listed(keys.push(k))) =~= Seq::empty());
        assert(samples.filter(is_listed(keys)) =~= Seq::empty());
        assert(samples.filter(took(k)) =~= Seq::empty());
    }
}

proof fn lemma_sum_counts_listed(samples: Seq<u128>, keys: Seq<u128>)
    requires
        keys.no_duplicates(),
    ensures
        sum_counts(samples, keys) == samples.filter(is_listed(keys)).len(),
    decreases keys.len(),
{
    if keys.len() == 0 {
        assert(samples.filter(is_listed(keys)).len() == 0) by {
            if samples.filter(is_listed(keys)).len() > 0 {
                samples.lemma_filter_pred(is_listed(keys), 0);
            }
        }
    } else {
        let prev = keys.drop_last();
        lemma_sum_counts_listed(samples, prev);
        assert(prev.push(keys.last()) =~= keys);
        assert(!prev.contains(keys.last())) by {
            if prev.contains(keys.last()) {
                let i = choose|i: int| 0 <= i < prev.len() && prev[i] == keys.last();
                assert(keys[i] == keys[keys.len() - 1]);
            }
        }
        lemma_filter_listed_push(samples, prev, keys.last());
    }
}

proof fn lemma_filter_same_on_elements(
    samples: Seq<u128>,
    p: spec_fn(u128) -> bool,
    q: spec_fn(u128) -> bool,
)
    requires
        forall|i: int| 0 <= i < samples.len() ==> p(#[trigger] samples[i]) == q(samples[i]),
    ensures
        samples.filter(p) == samples.filter(q),
    decreases samples.len(),
{
    if samples.len() > 0 {
        let prev = samples.drop_last();
        assert forall|i: int| 0 <= i < prev.len() implies p(#[trigger] prev[i]) == q(prev[i]) by {
            assert(prev[i] == samples[i]);
        }
        lemma_filter_same_on_elements(prev, p, q);
        assert(prev.push(samples.last()) =~= samples);
        prev.lemma_filter_push(samples.last(), p);
        prev.lemma_filter_push(samples.last(), q);
    } else {
        assert(samples.filter(p) =~= Seq::empty());
        assert(samples.filter(q) =~= Seq::empty());
    }
}

/// Every sample above zero is counted exactly once: the counts of the listed
/// round-trip times add up to the number of samples above zero.
pub proof fn lemma_counts_cover_samples(samples: Seq<u128>, keys: Seq<u128>)
    requires
        lists_positive_millis(samples, keys),
    ensures
        sum_counts(samples, keys) == samples.filter(is_positive()).len(),
{
    assert(keys.no_duplicates()) by {
        assert forall|i: int, j: int| 0 <= i < keys.len() && 0 <= j < keys.len() && i != j implies keys[i]
            != keys[j] by {
            if i < j {
                assert(keys[i] < keys[j]);
            } else {
                assert(keys[j] < keys[i]);
            }
        }
    }
    lemma_sum_counts_listed(samples, keys);
    assert forall|i: int| 0 <= i < samples.len() implies is_listed(keys)(#[trigger] samples[i]) == is_positive()(
        samples[i],
    ) by {
        assert(samples.contains(samples[i]));
        assert(keys.to_set().contains(samples[i]) == keys.contains(samples[i]));
    }
    lemma_filter_same_on_elements(samples, is_listed(keys), is_positive());
}

fn count_by_millis(samples: &Vec<u128>) -> (res: BTreeMap<u128, u64>)
    ensures
        forall|k: u128| res@.contains_key(k) <==> positive_millis(samples@).contains(k),
        forall|k: u128| #[trigger] res@.contains_key(k) ==> res@[k] == count_of(samples@, k),
{
    let mut counts: BTreeMap<u128, u64> = BTreeMap::new();
    let n = samples.len();
    for i in 0..n
        invariant
            n == samples@.len(),
            forall|k: u128| counts@.contains_key(k) <==> positive_millis(samples@.take(i as int)).contains(k),
            forall|k: u128| #[trigger] counts@.contains_key(k) ==> counts@[k] == count_of(samples@.take(i as int), k),
    {
        let s = samples[i];
        proof {
            assert(samples@.take(i + 1) =~= samples@.take(i as int).push(s));
            lemma_count_push(samples@.take(i as int), s);
        }
        if s > 0 {
            let c: u64 = match counts.get(&s) {
                Some(c) => *c,
                None => 0,
            };
            counts.insert(s, c + 1);
        }
    }
    assert(samples@.take(n as int) =~= samples@);
    counts
}

/// How often each round-trip time occurs among the samples: for each time
/// above zero that occurs, in increasing order, its text in milliseconds and
/// its absolute frequency, the number of samples that took it. The result
/// holds counts, not percentages: the chart's caller turns each count into a
/// share of all samples, a floating-point step that this library leaves to it.
pub fn sample_frequency(samples: &Vec<u128>) -> (res: Vec<(String, u64)>)
    ensures
        lists_positive_millis(samples@, frequency_keys(samples@)),
        res@.len() == frequency_keys(samples@).len(),
        forall|i: int|
            0 <= i < res@.len() ==> #[trigger] res@[i].0@ == millis_text(frequency_keys(samples@)[i])
                && res@[i].1 == count_of(samples@, frequency_keys(samples@)[i]),
{
    let counts = count_by_millis(samples);
    let iter = counts.iter();
    let ghost items = vstd::std_specs::iter::IteratorSpec::remaining(&iter);
    let mut res: Vec<(String, u64)> = Vec::new();
    for (ping, count) in it: iter
        invariant
            it.seq() == items,
            res@.len() == it.index(),
            forall|j: int|
                #![trigger res@[j]]
                0 <= j < it.index() ==> res@[j].0@ == millis_text(*items[j].0) && res@[j].1 == *items[j].1,
    {
        res.push((format_decimal(*ping), *count));
    }
    proof {
        let keys = items.map_values(|kv: (&u128, &u64)| *kv.0);
        assert(res@.len() == items.len());
        assert(vstd::std_specs::btree::increasing_seq(keys));
        assert forall|i: int, j: int| 0 <= i < j < keys.len() implies keys[i] < keys[j] by {
            assert(vstd::std_specs::cmp::OrdSpec::cmp_spec(&keys[i], &keys[j]) is Less);
        }
        assert forall|x: u128| keys.to_set().contains(x) == positive_millis(samples@).contains(x) by {
            if keys.contains(x) {
                let p = choose|p: int| 0 <= p < keys.len() && keys[p] == x;
                assert(counts@.contains_key(*items[p].0));
            }
            if counts@.contains_key(x) {
                assert(items.contains((&x, &counts@[x])));
                let p = choose|p: int| 0 <= p < items.len() && items[p] == (&x, &counts@[x]);
                assert(keys[p] == x);
            }
        }
        assert(keys.to_set() =~= positive_millis(samples@));
        assert(lists_positive_millis(samples@, keys));
        lemma_keys_unique(samples@, keys);
        assert forall|i: int| 0 <= i < res@.len() implies #[trigger] res@[i].1 == count_of(samples@, keys[i]) by {
            assert(keys[i] == *items[i].0);
            assert(counts@.contains_key(*items[i].0));
            assert(counts@[*items[i].0] == *items[i].1);
            assert(res@[i].1 == *items[i].1);
        }
    }
    res
}

} // verus!
