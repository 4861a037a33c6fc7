//! A single-entry memo of the last point asked for and the value found there.
//!
//! Points and values are held as the 64-bit patterns of the real numbers they
//! stand for, so that two points are the same exactly when they agree bit for
//! bit in every component.

use vstd::prelude::*;
use vstd::slice::slice_to_vec;

verus! {

/// What a cache holds: nothing yet, or the last point and its value.
pub type Entry = Option<(Seq<u64>, u64)>;

/// The value on record for `point`: the stored value if `point` is the
/// stored point, nothing otherwise.
pub open spec fn cached_value(entry: Entry, point: Seq<u64>) -> Option<u64> {
    match entry {
        Some((stored, value)) => if stored == point {
            Some(value)
        } else {
            None
        },
        None => None,
    }
}

/// What a cache holds after a query for `point` that returned `value`:
/// unchanged on a hit, the new pair on a miss.
pub open spec fn entry_after_query(entry: Entry, point: Seq<u64>, value: u64) -> Entry {
    match cached_value(entry, point) {
        Some(_) => entry,
        None => Some((point, value)),
    }
}

/// Whether `value` can come back from a query for `point`: on a hit only the
/// value on record can, on a miss whatever the source answers.
pub open spec fn query_returns(entry: Entry, point: Seq<u64>, value: u64) -> bool {
    cached_value(entry, point) matches Some(stored) ==> value == stored
}

/// After a query for `point` returned `value`, a second query for the same
/// point is a hit: it finds `value` on record and leaves the record as it is,
/// whatever the source would answer now.
pub proof fn lemma_repeated_query_hits(entry: Entry, point: Seq<u64>, value: u64, again: u64)
    requires
        query_returns(entry, point, value),
    ensures
        cached_value(entry_after_query(entry, point, value), point) == Some(value),
        entry_after_query(entry_after_query(entry, point, value), point, again)
            == entry_after_query(entry, point, value),
{
}

/// After a query for `point`, a query for any other point is a miss: nothing
/// is on record for it, and the pair it produces replaces the record.
pub proof fn lemma_other_point_recomputes(
    entry: Entry,
    point: Seq<u64>,
    value: u64,
    other: Seq<u64>,
    fresh: u64,
)
    requires
        other != point,
    ensures
        cached_value(entry_after_query(entry, point, value), other) is None,
        entry_after_query(entry_after_query(entry, point, value), other, fresh) == Some(
            (other, fresh),
        ),
{
}

/// The last point asked for and the value found there.
#[derive(Debug)]
pub struct Cache {
    point: Vec<u64>,
    value: Option<u64>,
}

impl View for Cache {
    type V = Entry;

    closed spec fn view(&self) -> Entry {
        match self.value {
            Some(value) => Some((self.point@, value)),
            None => None,
        }
    }
}

impl Clone for Cache {
    /// A cache of its own with the same pair on record.
    fn clone(&self) -> (copy: Self)
        ensures
            copy@ == self@,
    {
        Cache { point: slice_to_vec(self.point.as_slice()), value: self.value }
    }
}

/// Whether two points agree in length and in every component.
fn same_point(a: &[u64], b: &[u64]) -> (same: bool)
    ensures
        same == (a@ == b@),
{
    if a.len() != b.len() {
        return false;
    }
    let mut i: usize = 0;
    while i < a.len()
        invariant
            i <= a@.len(),
            a@.len() == b@.len(),
            forall|j: int| 0 <= j < i ==> a@[j] == b@[j],
        decreases a@.len() - i,
    {
        if a[i] != b[i] {
            return false;
        }
        i += 1;
    }
    assert(a@ =~= b@);
    true
}

impl Cache {
    /// A cache with nothing on record.
    pub fn new() -> (cache: Self)
        ensures
            cache@ is None,
    {
        Cache { point: Vec::new(), value: None }
    }

    /// The value on record for `point`, if `point` is the one on record.
    pub fn lookup(&self, point: &[u64]) -> (found: Option<u64>)
        ensures
            found == cached_value(self@, point@),
    {
        match self.value {
            Some(value) => if same_point(self.point.as_slice(), point) {
                Some(value)
            } else {
                None
            },
            None => None,
        }
    }

    /// Puts `point` and `value` on record in place of what was there.
    pub fn store(&mut self, point: &[u64], value: u64)
        ensures
            final(self)@ == Some((point@, value)),
    {
        self.point = slice_to_vec(point);
        self.value = Some(value);
    }

    /// The value at `point`: the one on record if `point` is the point on
    /// record, else the answer of `source`, which then goes on record with
    /// `point`. The source is not called on a hit.
    pub fn get<F>(&mut self, point: &[u64], source: F) -> (value: u64) where F: FnOnce() -> u64
        requires
            source.requires(()),
        ensures
            match cached_value(old(self)@, point@) {
                Some(stored) => value == stored,
                None => source.ensures((), value),
            },
            final(self)@ == entry_after_query(old(self)@, point@, value),
    {
        match self.lookup(point) {
            Some(value) => value,
            None => {
                let value = source();
                self.store(point, value);
                value
            },
        }
    }
}

} // verus!
