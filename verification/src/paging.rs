//! Listings by pages: a scan over a range of keys in ascending order that
//! passes over keys without an entry and stops at a limit.

use vstd::prelude::*;

verus! {

/// The entries whose key is above `lo` and at most `hi`, by ascending key.
/// Keys without an entry are passed over.
pub open spec fn found_between<V>(entries: Map<u64, V>, lo: int, hi: int) -> Seq<V>
    decreases hi - lo,
{
    if hi <= lo {
        Seq::empty()
    } else if entries.contains_key(hi as u64) {
        found_between(entries, lo, hi - 1).push(entries[hi as u64])
    } else {
        found_between(entries, lo, hi - 1)
    }
}

/// The keys above `lo` and at most `hi` that have an entry, ascending.
pub open spec fn keys_between<V>(entries: Map<u64, V>, lo: int, hi: int) -> Seq<u64>
    decreases hi - lo,
{
    if hi <= lo {
        Seq::empty()
    } else if entries.contains_key(hi as u64) {
        keys_between(entries, lo, hi - 1).push(hi as u64)
    } else {
        keys_between(entries, lo, hi - 1)
    }
}

/// The first `n` items of `items`; all of them if there are no more than `n`.
pub open spec fn first_n<V>(items: Seq<V>, n: nat) -> Seq<V> {
    if items.len() <= n {
        items
    } else {
        items.subrange(0, n as int)
    }
}

/// One page of a listing: of the entries with a key above `start_after` and at
/// most `end`, in ascending order of key, the first `limit`.
pub open spec fn page<V>(entries: Map<u64, V>, start_after: u64, end: u64, limit: nat) -> Seq<V> {
    first_n(found_between(entries, start_after as int, end as int), limit)
}

/// The keys of the entries of [`page`], in the same order.
pub open spec fn page_keys<V>(entries: Map<u64, V>, start_after: u64, end: u64, limit: nat) -> Seq<
    u64,
> {
    first_n(keys_between(entries, start_after as int, end as int), limit)
}

/// Whether a scan that has come to the key `reached` and has found `found`
/// entries reads on: there are keys left up to `end`, and the page is not full.
pub fn reads_on(reached: u64, end: u64, found: u32, limit: u32) -> (on: bool)
    ensures
        on == (reached < end && found < limit),
{
    reached < end && found < limit
}

/// Whether `a` is a beginning of `b`.
pub open spec fn is_prefix_of<V>(a: Seq<V>, b: Seq<V>) -> bool {
    a.len() <= b.len() && b.subrange(0, a.len() as int) == a
}

/// A scan that stops earlier has found a beginning of what a longer scan
/// finds.
pub proof fn lemma_found_between_prefix<V>(entries: Map<u64, V>, lo: int, mid: int, hi: int)
    requires
        lo <= mid <= hi,
    ensures
        is_prefix_of(found_between(entries, lo, mid), found_between(entries, lo, hi)),
        is_prefix_of(keys_between(entries, lo, mid), keys_between(entries, lo, hi)),
    decreases hi - mid,
{
    if mid == hi {
        assert(found_between(entries, lo, hi).subrange(
            0,
            found_between(entries, lo, hi).len() as int,
        ) =~= found_between(entries, lo, hi));
        assert(keys_between(entries, lo, hi).subrange(
            0,
            keys_between(entries, lo, hi).len() as int,
        ) =~= keys_between(entries, lo, hi));
    } else {
        lemma_found_between_prefix(entries, lo, mid, hi - 1);
        let short = found_between(entries, lo, mid);
        let shorter = found_between(entries, lo, hi - 1);
        assert(found_between(entries, lo, hi).subrange(0, short.len() as int) =~= shorter.subrange(
            0,
            short.len() as int,
        ));
        let short_keys = keys_between(entries, lo, mid);
        let shorter_keys = keys_between(entries, lo, hi - 1);
        assert(keys_between(entries, lo, hi).subrange(0, short_keys.len() as int)
            =~= shorter_keys.subrange(0, short_keys.len() as int));
    }
}

/// A scan that has found `limit` entries before the end of the range has
/// found the page.
pub proof fn lemma_page_when_full<V>(
    entries: Map<u64, V>,
    start_after: u64,
    reached: u64,
    end: u64,
    limit: nat,
)
    requires
        start_after <= reached <= end,
        found_between(entries, start_after as int, reached as int).len() == limit,
    ensures
        page(entries, start_after, end, limit) == found_between(
            entries,
            start_after as int,
            reached as int,
        ),
{
    lemma_found_between_prefix(entries, start_after as int, reached as int, end as int);
    let all = found_between(entries, start_after as int, end as int);
    if all.len() <= limit {
        assert(all.subrange(0, all.len() as int) =~= all);
    }
}

/// What a scan over a range of keys finds: the keys are those of the range
/// that have an entry, all of them, in ascending order, and each is found with
/// its entry.
pub proof fn lemma_between_properties<V>(entries: Map<u64, V>, lo: int, hi: int)
    requires
        0 <= lo,
        hi <= u64::MAX,
    ensures
        found_between(entries, lo, hi).len() == keys_between(entries, lo, hi).len(),
        forall|i: int|
            0 <= i < keys_between(entries, lo, hi).len() ==> {
                &&& lo < #[trigger] keys_between(entries, lo, hi)[i] <= hi
                &&& entries.contains_key(keys_between(entries, lo, hi)[i])
                &&& found_between(entries, lo, hi)[i] == entries[keys_between(entries, lo, hi)[i]]
            },
        forall|i: int, j: int|
            0 <= i < j < keys_between(entries, lo, hi).len() ==> keys_between(entries, lo, hi)[i]
                < keys_between(entries, lo, hi)[j],
        forall|id: u64|
            lo < id <= hi && entries.contains_key(id) ==> keys_between(entries, lo, hi).contains(
                id,
            ),
    decreases hi - lo,
{
    if hi > lo {
        lemma_between_properties(entries, lo, hi - 1);
        let shorter = keys_between(entries, lo, hi - 1);
        let keys = keys_between(entries, lo, hi);
        assert forall|id: u64| lo < id <= hi && entries.contains_key(id) implies keys.contains(
            id,
        ) by {
            if id == hi {
                assert(keys[keys.len() - 1] == id);
            } else {
                assert(shorter.contains(id));
                let i = choose|i: int| 0 <= i < shorter.len() && shorter[i] == id;
                assert(keys[i] == id);
            }
        }
    }
}

/// Where every key of the range has an entry, the scan finds the entries of
/// the keys behind `lo`, one after the other.
pub proof fn lemma_found_between_dense<V>(entries: Map<u64, V>, lo: int, hi: int)
    requires
        0 <= lo <= hi <= u64::MAX,
        forall|id: u64| lo < id <= hi ==> entries.contains_key(id),
    ensures
        found_between(entries, lo, hi).len() == hi - lo,
        forall|i: int|
            0 <= i < hi - lo ==> #[trigger] found_between(entries, lo, hi)[i] == entries[(lo + 1
                + i) as u64],
    decreases hi - lo,
{
    if hi > lo {
        lemma_found_between_dense(entries, lo, hi - 1);
        assert(entries.contains_key(hi as u64));
    }
}

/// Where every key above `start_after` and up to `end` has an entry, the page
/// holds the entries of the keys `start_after + 1`, `start_after + 2` and so
/// on: `limit` of them, or as many as there are up to `end`.
pub proof fn lemma_page_dense<V>(entries: Map<u64, V>, start_after: u64, end: u64, limit: nat)
    requires
        forall|id: u64| start_after < id <= end ==> entries.contains_key(id),
    ensures
        start_after >= end ==> page(entries, start_after, end, limit).len() == 0,
        start_after < end && end - start_after <= limit ==> page(
            entries,
            start_after,
            end,
            limit,
        ).len() == end - start_after,
        start_after < end && end - start_after > limit ==> page(
            entries,
            start_after,
            end,
            limit,
        ).len() == limit,
        forall|i: int|
            0 <= i < page(entries, start_after, end, limit).len() ==> #[trigger] page(
                entries,
                start_after,
                end,
                limit,
            )[i] == entries[(start_after + 1 + i) as u64],
{
    if start_after < end {
        lemma_found_between_dense(entries, start_after as int, end as int);
    }
}

} // verus!
