//! Helpers shared by the storage implementations.
use vstd::prelude::*;

use crate::eraftpb::{Entry, EntryView};

verus! {

/// A size bound that means "no limit".
pub const NO_LIMIT: u64 = 18446744073709551615;

/// Sum of the payload lengths of `ents`.
pub open spec fn total_size(ents: Seq<EntryView>) -> int
    decreases ents.len(),
{
    if ents.len() == 0 {
        0
    } else {
        total_size(ents.drop_last()) + ents.last().data.len()
    }
}

/// A prefix of length `n` is acceptable under `max`: a single entry always
/// is, longer prefixes when their payloads fit.
pub open spec fn prefix_fits(ents: Seq<EntryView>, max: u64, n: int) -> bool {
    n <= 1 || total_size(ents.take(n)) <= max
}

/// `kept` is what [`limit_size`] leaves of `all` under `max`: a prefix,
/// non-empty when `all` is, as long as the payload bound allows.
pub open spec fn size_limited(all: Seq<EntryView>, max: Option<u64>, kept: Seq<EntryView>) -> bool {
    &&& kept.len() <= all.len()
    &&& kept == all.take(kept.len() as int)
    &&& all.len() > 0 ==> kept.len() >= 1
    &&& match max {
        Some(m) => if m == NO_LIMIT {
            kept == all
        } else {
            &&& prefix_fits(all, m, kept.len() as int)
            &&& kept.len() < all.len() ==> !prefix_fits(all, m, kept.len() as int + 1)
        },
        None => kept == all,
    }
}

/// Keeps the longest prefix of `entries` whose payloads add up to at most
/// `max`, but never fewer than one entry. `None` and `NO_LIMIT` keep all.
pub fn limit_size(entries: &mut Vec<Entry>, max: Option<u64>)
    ensures
        final(entries)@ == old(entries)@.take(final(entries)@.len() as int),
        size_limited(
            old(entries)@.map_values(|e: Entry| e@),
            max,
            final(entries)@.map_values(|e: Entry| e@),
        ),
        old(entries)@.len() > 0 ==> final(entries)@.len() >= 1,
        max matches Some(m) ==> m != NO_LIMIT ==> {
            let v = old(entries)@.map_values(|e: Entry| e@);
            &&& prefix_fits(v, m, final(entries)@.len() as int)
            &&& final(entries)@.len() < old(entries)@.len() ==> !prefix_fits(
                v,
                m,
                final(entries)@.len() as int + 1,
            )
        },
        (max is None || max == Some(NO_LIMIT)) ==> final(entries)@ == old(entries)@,
{
    let ghost v = entries@.map_values(|e: Entry| e@);
    let max = match max {
        None => {
            assert(entries@.take(entries@.len() as int) =~= entries@);
            assert(v.take(v.len() as int) =~= v);
            return ;
        },
        Some(m) => m,
    };
    if max == NO_LIMIT {
        assert(entries@.take(entries@.len() as int) =~= entries@);
        assert(v.take(v.len() as int) =~= v);
        return ;
    }
    let n = entries.len();
    let mut size: u64 = 0;
    let mut k: usize = 0;
    let mut full = false;
    while k < n && !full
        invariant
            n == entries@.len(),
            v == entries@.map_values(|e: Entry| e@),
            k <= n,
            size == total_size(v.take(k as int)),
            prefix_fits(v, max, k as int),
            n > 0 && !full ==> (k < n || prefix_fits(v, max, k as int)),
            full ==> k >= 1 && k < n && !prefix_fits(v, max, k + 1),
        decreases 2 * (n - k) + if full { 0int } else { 1int },
    {
        let sz = entries[k].data.len() as u64;
        assert(v.take(k + 1).drop_last() =~= v.take(k as int));
        if k >= 1 && (size > max || sz > max - size) {
            full = true;
        } else {
            size = size + sz;
            k = k + 1;
        }
    }
    entries.truncate(k);
    assert(entries@ =~= old(entries)@.take(k as int));
    assert(entries@.map_values(|e: Entry| e@) =~= v.take(k as int));
}

} // verus!
