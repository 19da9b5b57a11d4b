//! One log over durable storage and the unstable tail.
use vstd::prelude::*;

use crate::errors::{Error, Result};
use crate::eraftpb::{Entry, EntryView};
use crate::log_unstable::{contiguous_from, merged_entries, merged_offset, Unstable};
use crate::storage::Storage;

verus! {

/// The ten decimal digits.
pub open spec fn digit_char(d: nat) -> char {
    if d == 0 {
        '0'
    } else if d == 1 {
        '1'
    } else if d == 2 {
        '2'
    } else if d == 3 {
        '3'
    } else if d == 4 {
        '4'
    } else if d == 5 {
        '5'
    } else if d == 6 {
        '6'
    } else if d == 7 {
        '7'
    } else if d == 8 {
        '8'
    } else {
        '9'
    }
}

/// Base-ten digits of `n`, most significant first, without leading zeros.
pub open spec fn decimal(n: nat) -> Seq<char>
    decreases n,
{
    if n < 10 {
        seq![digit_char(n)]
    } else {
        decimal(n / 10).push(digit_char(n % 10))
    }
}

/// Relies on `u64`'s `Display` impl, through `ToString::to_string`: it
/// writes the number in base ten, with no sign, padding or separators.
#[verifier::external_body]
fn decimal_text(n: u64) -> (r: String)
    ensures
        r@ == decimal(n as nat),
{
    n.to_string()
}

/// The log: entries up to `unstable.offset - 1` are in `store`, later ones
/// in `unstable`.
pub struct RaftLog<T: Storage> {
    /// Everything persisted since the last snapshot.
    pub store: T,
    /// Entries and a snapshot not yet persisted.
    pub unstable: Unstable,
    /// Highest index known to be committed.
    pub committed: u64,
    /// Highest index applied to the state machine; never above `committed`.
    pub applied: u64,
}

impl<T: Storage> RaftLog<T> {
    pub open spec fn wf(&self) -> bool {
        &&& self.store.inv()
        &&& self.unstable.wf()
        &&& self.applied <= self.committed
    }

    /// A log over `store` whose first and last indices are `first_index`
    /// and `last_index`: everything before `first_index` counts as committed
    /// and applied, and the unstable tail starts after `last_index`.
    pub fn with_indices(store: T, first_index: u64, last_index: u64) -> (r: RaftLog<T>)
        requires
            store.inv(),
            1 <= first_index,
            last_index < u64::MAX,
        ensures
            r.wf(),
            r.store == store,
            r.committed == first_index - 1,
            r.applied == first_index - 1,
            r.unstable.offset == last_index + 1,
            r.unstable.entries@.len() == 0,
            r.unstable.snapshot is None,
    {
        RaftLog {
            store,
            committed: first_index - 1,
            applied: first_index - 1,
            unstable: Unstable::new(last_index + 1),
        }
    }

    /// A log over `store`, built by [`RaftLog::with_indices`] from the
    /// store's first and last indices. Errors of the store are passed on.
    pub fn new(store: T) -> (r: Result<RaftLog<T>>)
        requires
            store.inv(),
        ensures
            r matches Ok(log) ==> {
                &&& log.wf()
                &&& log.store == store
                &&& log.committed == store.spec_first_index() - 1
                &&& log.applied == store.spec_first_index() - 1
                &&& log.unstable.offset == store.spec_last_index() + 1
                &&& log.unstable.entries@.len() == 0
                &&& log.unstable.snapshot is None
            },
    {
        let first_index = match store.first_index() {
            Ok(i) => i,
            Err(e) => return Err(e),
        };
        let last_index = match store.last_index() {
            Ok(i) => i,
            Err(e) => return Err(e),
        };
        Ok(RaftLog::with_indices(store, first_index, last_index))
    }

    /// First index of the log: after the pending snapshot if there is one,
    /// else the store's.
    pub open spec fn spec_first_index(&self) -> u64 {
        match self.unstable.spec_maybe_first_index() {
            Some(i) => i,
            None => self.store.spec_first_index(),
        }
    }

    /// Last index of the log: the unstable tail's if it knows one, else the
    /// store's.
    pub open spec fn spec_last_index(&self) -> u64 {
        match self.unstable.spec_maybe_last_index() {
            Some(i) => i,
            None => self.store.spec_last_index(),
        }
    }

    pub fn first_index(&self) -> (r: Result<u64>)
        requires
            self.wf(),
        ensures
            r matches Ok(i) ==> i == self.spec_first_index(),
            self.unstable.snapshot is Some ==> r == Ok::<u64, Error>(self.spec_first_index()),
    {
        match self.unstable.maybe_first_index() {
            Some(i) => Ok(i),
            None => self.store.first_index(),
        }
    }

    pub fn last_index(&self) -> (r: Result<u64>)
        requires
            self.wf(),
        ensures
            r matches Ok(i) ==> i == self.spec_last_index(),
            self.unstable.spec_maybe_last_index() is Some ==> r == Ok::<u64, Error>(
                self.spec_last_index(),
            ),
    {
        match self.unstable.maybe_last_index() {
            Some(i) => Ok(i),
            None => self.store.last_index(),
        }
    }

    /// Term of the entry at `idx`: from the unstable tail where it knows
    /// the index, else from the store.
    pub fn term(&self, idx: u64) -> (r: Result<u64>)
        requires
            self.wf(),
        ensures
            self.unstable.spec_maybe_term(idx) matches Some(t) ==> r == Ok::<u64, Error>(t),
            self.unstable.spec_maybe_term(idx) is None && idx + 1 < self.store.spec_first_index()
                ==> r is Err,
            self.unstable.spec_maybe_term(idx) is None && idx > self.store.spec_last_index()
                ==> r is Err,
    {
        match self.unstable.maybe_term(idx) {
            Some(t) => Ok(t),
            None => self.store.term(idx),
        }
    }

    /// Appends a contiguous run proposed or received from a leader. It may
    /// replace unstable entries at and after its first index, never
    /// committed ones. Returns the new last index.
    pub fn append(&mut self, ents: &[Entry]) -> (r: u64)
        requires
            old(self).wf(),
            ents@.len() > 0,
            contiguous_from(ents@.map_values(|e: Entry| e@), ents@[0].index as int),
            ents@[0].index + ents@.len() <= u64::MAX,
            old(self).committed < ents@[0].index,
            ents@[0].index <= old(self).unstable.upper(),
            old(self).unstable.snapshot matches Some(s) ==> s.metadata.index < ents@[0].index,
        ensures
            final(self).wf(),
            final(self).store == old(self).store,
            final(self).committed == old(self).committed,
            final(self).applied == old(self).applied,
            final(self).unstable.snapshot == old(self).unstable.snapshot,
            final(self).unstable.offset == merged_offset(old(self).unstable.offset, ents@[0].index),
            final(self).unstable.entries_view() == merged_entries(
                old(self).unstable.offset,
                old(self).unstable.entries_view(),
                ents@.map_values(|e: Entry| e@),
            ),
            r == ents@[0].index + ents@.len() - 1,
            r == final(self).spec_last_index(),
    {
        self.unstable.truncate_and_append(ents);
        let ghost v: Seq<EntryView> = ents@.map_values(|e: Entry| e@);
        assert(v.last().index == ents@[0].index + ents@.len() - 1);
        assert(self.unstable.entries_view().last() == v.last());
        ents[0].index + (ents.len() as u64 - 1)
    }

    /// Raises `committed` to `tocommit`; a lower value changes nothing. The
    /// log must reach `tocommit`.
    pub fn commit_to(&mut self, tocommit: u64)
        requires
            old(self).wf(),
            tocommit <= old(self).committed || tocommit <= old(self).spec_last_index(),
        ensures
            final(self).wf(),
            final(self).committed == if tocommit > old(self).committed {
                tocommit
            } else {
                old(self).committed
            },
            final(self).applied == old(self).applied,
            final(self).store == old(self).store,
            final(self).unstable == old(self).unstable,
    {
        if self.committed < tocommit {
            self.committed = tocommit;
        }
    }

    /// Records that everything up to `idx` has been applied. `0` changes
    /// nothing; otherwise `idx` lies between `applied` and `committed`.
    pub fn applied_to(&mut self, idx: u64)
        requires
            old(self).wf(),
            idx == 0 || (old(self).applied <= idx && idx <= old(self).committed),
        ensures
            final(self).wf(),
            final(self).applied == if idx == 0 {
                old(self).applied
            } else {
                idx
            },
            final(self).committed == old(self).committed,
            final(self).store == old(self).store,
            final(self).unstable == old(self).unstable,
    {
        if idx != 0 {
            self.applied = idx;
        }
    }

    /// Storage now holds the entries up to `idx` of term `term`; see
    /// [`Unstable::stable_to`].
    pub fn stable_to(&mut self, idx: u64, term: u64)
        requires
            old(self).wf(),
        ensures
            final(self).wf(),
            final(self).committed == old(self).committed,
            final(self).applied == old(self).applied,
            final(self).store == old(self).store,
            final(self).unstable.snapshot == old(self).unstable.snapshot,
            old(self).unstable.spec_maybe_term(idx) == Some(term) && idx >= old(
                self,
            ).unstable.offset ==> {
                &&& final(self).unstable.offset == idx + 1
                &&& final(self).unstable.entries@ == old(self).unstable.entries@.subrange(
                    idx + 1 - old(self).unstable.offset,
                    old(self).unstable.entries@.len() as int,
                )
            },
            !(old(self).unstable.spec_maybe_term(idx) == Some(term) && idx >= old(
                self,
            ).unstable.offset) ==> final(self).unstable == old(self).unstable,
    {
        self.unstable.stable_to(idx, term);
    }

    /// Storage now holds the snapshot at `idx`; see
    /// [`Unstable::stable_snap_to`].
    pub fn stable_snap_to(&mut self, idx: u64)
        requires
            old(self).wf(),
        ensures
            final(self).wf(),
            final(self).committed == old(self).committed,
            final(self).applied == old(self).applied,
            final(self).store == old(self).store,
            final(self).unstable.entries == old(self).unstable.entries,
            final(self).unstable.offset == old(self).unstable.offset,
            final(self).unstable.snapshot == (match old(self).unstable.snapshot {
                Some(s) => if s.metadata.index == idx {
                    None
                } else {
                    Some(s)
                },
                None => None,
            }),
    {
        self.unstable.stable_snap_to(idx);
    }

    /// One-line summary of the watermarks and the unstable tail.
    pub fn to_string(&self) -> (r: String)
        ensures
            r@ == "commited="@ + decimal(self.committed as nat) + ", applied="@ + decimal(
                self.applied as nat,
            ) + ", unstable.offset="@ + decimal(self.unstable.offset as nat)
                + ", unstable.entries.len()="@ + decimal(self.unstable.entries@.len()),
    {
        let mut s = String::from_str("commited=");
        let t = decimal_text(self.committed);
        s.append(t.as_str());
        s.append(", applied=");
        let t = decimal_text(self.applied);
        s.append(t.as_str());
        s.append(", unstable.offset=");
        let t = decimal_text(self.unstable.offset);
        s.append(t.as_str());
        s.append(", unstable.entries.len()=");
        let t = decimal_text(self.unstable.entries.len() as u64);
        s.append(t.as_str());
        s
    }
}

} // verus!
