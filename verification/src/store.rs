//! An executable model of one host object store.
//!
//! The host keeps records ordered by key and hands out fresh keys from a
//! generator. The model holds the records as a vector sorted strictly by
//! key, with the generator beside it. Keys are the host's key ordinal;
//! values are whatever payload the caller stores. Every operation's
//! effect is stated against recursive specification functions over the
//! record sequence, and the transaction engine's semantics are defined
//! with the same functions.

use vstd::prelude::*;
use crate::error::Error;
use crate::keyrange::{range_contains, KeyRange};

verus! {

/// Records sorted strictly by key: every key occurs at most once, in
/// increasing order.
pub open spec fn entries_sorted<V>(s: Seq<(u64, V)>) -> bool {
    forall|i: int, j: int| 0 <= i < j < s.len() ==> s[i].0 < s[j].0
}

/// The value at a key, if the key is present.
pub open spec fn spec_get<V>(s: Seq<(u64, V)>, k: u64) -> Option<V>
    decreases s.len(),
{
    if s.len() == 0 {
        None
    } else if s[0].0 == k {
        Some(s[0].1)
    } else {
        spec_get(s.drop_first(), k)
    }
}

/// Whether a key is present.
pub open spec fn contains_key<V>(s: Seq<(u64, V)>, k: u64) -> bool {
    spec_get(s, k) is Some
}

/// The records after writing a value at a key: the existing record is
/// replaced, or a new record is put in key order.
pub open spec fn spec_put<V>(s: Seq<(u64, V)>, k: u64, v: V) -> Seq<(u64, V)>
    decreases s.len(),
{
    if s.len() == 0 {
        seq![(k, v)]
    } else if k < s[0].0 {
        seq![(k, v)] + s
    } else if k == s[0].0 {
        seq![(k, v)] + s.drop_first()
    } else {
        seq![s[0]] + spec_put(s.drop_first(), k, v)
    }
}

/// The records after deleting a key; absent keys leave them unchanged.
pub open spec fn spec_remove<V>(s: Seq<(u64, V)>, k: u64) -> Seq<(u64, V)>
    decreases s.len(),
{
    if s.len() == 0 {
        s
    } else if s[0].0 == k {
        s.drop_first()
    } else {
        seq![s[0]] + spec_remove(s.drop_first(), k)
    }
}

/// The key generator after a write at a key: a write at or above the
/// generator moves it past the written key, saturating at the top.
pub open spec fn spec_bump(g: u64, k: u64) -> u64 {
    if k >= g {
        if k == u64::MAX {
            u64::MAX
        } else {
            (k + 1) as u64
        }
    } else {
        g
    }
}

/// The first record in traversal order, if any: lowest key forwards,
/// highest key backwards.
pub open spec fn first_entry<V>(s: Seq<(u64, V)>, forward: bool) -> Option<(u64, V)> {
    if s.len() == 0 {
        None
    } else if forward {
        Some(s[0])
    } else {
        Some(s[s.len() - 1])
    }
}

/// The first record with key strictly above `k`.
pub open spec fn seek_gt<V>(s: Seq<(u64, V)>, k: u64) -> Option<(u64, V)>
    decreases s.len(),
{
    if s.len() == 0 {
        None
    } else if s[0].0 > k {
        Some(s[0])
    } else {
        seek_gt(s.drop_first(), k)
    }
}

/// The first record with key at or above `k`.
pub open spec fn seek_ge<V>(s: Seq<(u64, V)>, k: u64) -> Option<(u64, V)>
    decreases s.len(),
{
    if s.len() == 0 {
        None
    } else if s[0].0 >= k {
        Some(s[0])
    } else {
        seek_ge(s.drop_first(), k)
    }
}

/// The last record with key strictly below `k`.
pub open spec fn seek_lt<V>(s: Seq<(u64, V)>, k: u64) -> Option<(u64, V)>
    decreases s.len(),
{
    if s.len() == 0 {
        None
    } else if s[s.len() - 1].0 < k {
        Some(s[s.len() - 1])
    } else {
        seek_lt(s.drop_last(), k)
    }
}

/// The last record with key at or below `k`.
pub open spec fn seek_le<V>(s: Seq<(u64, V)>, k: u64) -> Option<(u64, V)>
    decreases s.len(),
{
    if s.len() == 0 {
        None
    } else if s[s.len() - 1].0 <= k {
        Some(s[s.len() - 1])
    } else {
        seek_le(s.drop_last(), k)
    }
}

/// One host object store: records sorted strictly by key, and the key
/// generator.
pub struct Store<V> {
    entries: Vec<(u64, V)>,
    next_key: u64,
}

impl<V> View for Store<V> {
    type V = Seq<(u64, V)>;

    closed spec fn view(&self) -> Seq<(u64, V)> {
        self.entries@
    }
}

impl<V: Copy> Store<V> {
    /// The key generator: the key the next keyless write will get.
    pub closed spec fn keygen(&self) -> u64 {
        self.next_key
    }

    /// Well-formed: records sorted strictly by key, every key below the
    /// generator unless the generator is exhausted.
    pub open spec fn wf(&self) -> bool {
        &&& entries_sorted(self@)
        &&& (self.keygen() == u64::MAX || (forall|i: int|
            0 <= i < self@.len() ==> #[trigger] self@[i].0 < self.keygen()))
    }

    /// An empty store; the host starts its key generator at one.
    pub fn empty() -> (r: Store<V>)
        ensures
            r@ == Seq::<(u64, V)>::empty(),
            r.keygen() == 1,
            r.wf(),
    {
        Store { entries: Vec::new(), next_key: 1 }
    }

    /// An independent copy, record for record.
    pub fn dup(&self) -> (r: Store<V>)
        ensures
            r@ == self@,
            r.keygen() == self.keygen(),
    {
        let mut out: Vec<(u64, V)> = Vec::new();
        let n = self.entries.len();
        let mut i: usize = 0;
        while i < n
            invariant
                i <= n,
                n == self@.len(),
                out@ == self@.subrange(0, i as int),
            decreases n - i,
        {
            out.push(self.entries[i]);
            proof {
                assert(out@ =~= self@.subrange(0, i + 1 as int));
            }
            i = i + 1;
        }
        proof {
            assert(self@.subrange(0, n as int) =~= self@);
        }
        Store { entries: out, next_key: self.next_key }
    }

    /// How many records the store holds.
    pub fn count(&self) -> (r: usize)
        ensures
            r == self@.len(),
    {
        self.entries.len()
    }

    fn get_from(&self, i: usize, k: u64) -> (r: Option<V>)
        requires
            i <= self@.len(),
        ensures
            r == spec_get(self@.subrange(i as int, self@.len() as int), k),
        decreases self@.len() - i,
    {
        let ghost sub = self@.subrange(i as int, self@.len() as int);
        if i == self.entries.len() {
            None
        } else {
            let e = self.entries[i];
            proof {
                assert(sub[0] == self@[i as int]);
                assert(sub.drop_first() =~= self@.subrange(i + 1 as int, self@.len() as int));
            }
            if e.0 == k {
                Some(e.1)
            } else {
                self.get_from(i + 1, k)
            }
        }
    }

    /// The value at a key, if the key is present.
    pub fn get(&self, k: u64) -> (r: Option<V>)
        ensures
            r == spec_get(self@, k),
    {
        let r = self.get_from(0, k);
        proof {
            assert(self@.subrange(0, self@.len() as int) =~= self@);
        }
        r
    }

    /// Whether a key is present.
    pub fn contains(&self, k: u64) -> (r: bool)
        ensures
            r == contains_key(self@, k),
    {
        self.get(k).is_some()
    }

    fn find_pos_from(&self, i: usize, k: u64) -> (pos: usize)
        requires
            i <= self@.len(),
            forall|j: int| 0 <= j < i ==> #[trigger] self@[j].0 < k,
        ensures
            pos <= self@.len(),
            forall|j: int| 0 <= j < pos ==> #[trigger] self@[j].0 < k,
            pos < self@.len() ==> self@[pos as int].0 >= k,
        decreases self@.len() - i,
    {
        if i == self.entries.len() {
            i
        } else if self.entries[i].0 >= k {
            i
        } else {
            self.find_pos_from(i + 1, k)
        }
    }

    /// Write a value at a key, replacing any existing record, and move
    /// the key generator past the key.
    pub fn put(&mut self, k: u64, v: V)
        requires
            old(self).wf(),
        ensures
            final(self)@ == spec_put(old(self)@, k, v),
            final(self).keygen() == spec_bump(old(self).keygen(), k),
            final(self).wf(),
    {
        let pos = self.find_pos_from(0, k);
        let ghost s0 = self@;
        proof {
            lemma_spec_put_index(s0, k, v, pos as int);
        }
        if pos < self.entries.len() && self.entries[pos].0 == k {
            self.entries.remove(pos);
            self.entries.insert(pos, (k, v));
            proof {
                assert(self@ =~= s0.update(pos as int, (k, v)));
                assert(self@ == spec_put(s0, k, v));
            }
        } else {
            self.entries.insert(pos, (k, v));
            proof {
                assert(self@ == s0.insert(pos as int, (k, v)));
            }
        }
        if k >= self.next_key {
            if k == u64::MAX {
                self.next_key = u64::MAX;
            } else {
                self.next_key = k + 1;
            }
        }
        proof {
            lemma_put_preserves_wf(s0, k, v, old(self).keygen());
        }
    }

    /// Add a record at a key. The host refuses a key that already
    /// exists; a fresh key moves the generator past it.
    pub fn add(&mut self, k: u64, v: V) -> (r: core::result::Result<(), Error>)
        requires
            old(self).wf(),
        ensures
            contains_key(old(self)@, k) ==> r == core::result::Result::<(), Error>::Err(
                Error::AlreadyExists,
            ) && *final(self) == *old(self),
            !contains_key(old(self)@, k) ==> r == core::result::Result::<(), Error>::Ok(())
                && final(self)@ == spec_put(old(self)@, k, v) && final(self).keygen() == spec_bump(
                old(self).keygen(),
                k,
            ),
            final(self).wf(),
    {
        if self.contains(k) {
            Err(Error::AlreadyExists)
        } else {
            self.put(k, v);
            Ok(())
        }
    }

    /// Add a record under a generated key: the generator's key is used
    /// and the generator moves on. An exhausted generator refuses the
    /// write, as the host does.
    pub fn add_auto(&mut self, v: V) -> (r: core::result::Result<u64, Error>)
        requires
            old(self).wf(),
        ensures
            old(self).keygen() == u64::MAX ==> r == core::result::Result::<u64, Error>::Err(
                Error::AlreadyExists,
            ) && *final(self) == *old(self),
            old(self).keygen() < u64::MAX ==> r == core::result::Result::<u64, Error>::Ok(
                old(self).keygen(),
            ) && final(self)@ == spec_put(old(self)@, old(self).keygen(), v)
                && final(self).keygen() == old(self).keygen() + 1,
            final(self).wf(),
    {
        if self.next_key == u64::MAX {
            Err(Error::AlreadyExists)
        } else {
            let k = self.next_key;
            self.put(k, v);
            Ok(k)
        }
    }

    /// Delete the record at a key, if one is there.
    pub fn delete(&mut self, k: u64)
        requires
            old(self).wf(),
        ensures
            final(self)@ == spec_remove(old(self)@, k),
            final(self).keygen() == old(self).keygen(),
            final(self).wf(),
    {
        let pos = self.find_pos_from(0, k);
        let ghost s0 = self@;
        proof {
            lemma_spec_remove_index(s0, k, pos as int);
        }
        if pos < self.entries.len() && self.entries[pos].0 == k {
            self.entries.remove(pos);
            proof {
                lemma_remove_preserves_wf(s0, pos as int, self.keygen());
            }
        }
    }

    /// Delete every record.
    pub fn clear(&mut self)
        requires
            old(self).wf(),
        ensures
            final(self)@ == Seq::<(u64, V)>::empty(),
            final(self).keygen() == old(self).keygen(),
            final(self).wf(),
    {
        self.entries.clear();
    }

    /// The first record in traversal order, if any.
    pub fn first(&self, forward: bool) -> (r: Option<(u64, V)>)
        ensures
            r == first_entry(self@, forward),
    {
        let n = self.entries.len();
        if n == 0 {
            None
        } else if forward {
            Some(self.entries[0])
        } else {
            Some(self.entries[n - 1])
        }
    }

    fn seek_gt_from(&self, i: usize, k: u64) -> (r: Option<(u64, V)>)
        requires
            i <= self@.len(),
        ensures
            r == seek_gt(self@.subrange(i as int, self@.len() as int), k),
        decreases self@.len() - i,
    {
        let ghost sub = self@.subrange(i as int, self@.len() as int);
        if i == self.entries.len() {
            None
        } else {
            let e = self.entries[i];
            proof {
                assert(sub[0] == self@[i as int]);
                assert(sub.drop_first() =~= self@.subrange(i + 1 as int, self@.len() as int));
            }
            if e.0 > k {
                Some(e)
            } else {
                self.seek_gt_from(i + 1, k)
            }
        }
    }

    /// The first record with key strictly above `k`.
    pub fn next_above(&self, k: u64) -> (r: Option<(u64, V)>)
        ensures
            r == seek_gt(self@, k),
    {
        let r = self.seek_gt_from(0, k);
        proof {
            assert(self@.subrange(0, self@.len() as int) =~= self@);
        }
        r
    }

    fn seek_ge_from(&self, i: usize, k: u64) -> (r: Option<(u64, V)>)
        requires
            i <= self@.len(),
        ensures
            r == seek_ge(self@.subrange(i as int, self@.len() as int), k),
        decreases self@.len() - i,
    {
        let ghost sub = self@.subrange(i as int, self@.len() as int);
        if i == self.entries.len() {
            None
        } else {
            let e = self.entries[i];
            proof {
                assert(sub[0] == self@[i as int]);
                assert(sub.drop_first() =~= self@.subrange(i + 1 as int, self@.len() as int));
            }
            if e.0 >= k {
                Some(e)
            } else {
                self.seek_ge_from(i + 1, k)
            }
        }
    }

    /// The first record with key at or above `k`.
    pub fn next_at_or_above(&self, k: u64) -> (r: Option<(u64, V)>)
        ensures
            r == seek_ge(self@, k),
    {
        let r = self.seek_ge_from(0, k);
        proof {
            assert(self@.subrange(0, self@.len() as int) =~= self@);
        }
        r
    }

    fn seek_lt_upto(&self, i: usize, k: u64) -> (r: Option<(u64, V)>)
        requires
            i <= self@.len(),
        ensures
            r == seek_lt(self@.subrange(0, i as int), k),
        decreases i,
    {
        let ghost sub = self@.subrange(0, i as int);
        if i == 0 {
            None
        } else {
            let e = self.entries[i - 1];
            proof {
                assert(sub[sub.len() - 1] == self@[i - 1 as int]);
                assert(sub.drop_last() =~= self@.subrange(0, i - 1 as int));
            }
            if e.0 < k {
                Some(e)
            } else {
                self.seek_lt_upto(i - 1, k)
            }
        }
    }

    /// The last record with key strictly below `k`.
    pub fn next_below(&self, k: u64) -> (r: Option<(u64, V)>)
        ensures
            r == seek_lt(self@, k),
    {
        let n = self.entries.len();
        let r = self.seek_lt_upto(n, k);
        proof {
            assert(self@.subrange(0, self@.len() as int) =~= self@);
        }
        r
    }

    fn seek_le_upto(&self, i: usize, k: u64) -> (r: Option<(u64, V)>)
        requires
            i <= self@.len(),
        ensures
            r == seek_le(self@.subrange(0, i as int), k),
        decreases i,
    {
        let ghost sub = self@.subrange(0, i as int);
        if i == 0 {
            None
        } else {
            let e = self.entries[i - 1];
            proof {
                assert(sub[sub.len() - 1] == self@[i - 1 as int]);
                assert(sub.drop_last() =~= self@.subrange(0, i - 1 as int));
            }
            if e.0 <= k {
                Some(e)
            } else {
                self.seek_le_upto(i - 1, k)
            }
        }
    }

    /// The last record with key at or below `k`.
    pub fn next_at_or_below(&self, k: u64) -> (r: Option<(u64, V)>)
        ensures
            r == seek_le(self@, k),
    {
        let n = self.entries.len();
        let r = self.seek_le_upto(n, k);
        proof {
            assert(self@.subrange(0, self@.len() as int) =~= self@);
        }
        r
    }

    fn count_in_from(&self, i: usize, r: &KeyRange) -> (c: usize)
        requires
            i <= self@.len(),
        ensures
            c == range_count(self@.subrange(i as int, self@.len() as int), *r),
            c <= self@.len() - i,
        decreases self@.len() - i,
    {
        let ghost sub = self@.subrange(i as int, self@.len() as int);
        if i == self.entries.len() {
            0
        } else {
            let e = self.entries[i];
            proof {
                assert(sub[0] == self@[i as int]);
                assert(sub.drop_first() =~= self@.subrange(i + 1 as int, self@.len() as int));
            }
            let rest = self.count_in_from(i + 1, r);
            if crate::keyrange::key_in_range(r, e.0) {
                rest + 1
            } else {
                rest
            }
        }
    }

    /// How many records hold a key in the range.
    pub fn count_in(&self, r: &KeyRange) -> (c: usize)
        ensures
            c == range_count(self@, *r),
    {
        let c = self.count_in_from(0, r);
        proof {
            assert(self@.subrange(0, self@.len() as int) =~= self@);
        }
        c
    }

    fn first_in_from(&self, i: usize, r: &KeyRange) -> (e: Option<(u64, V)>)
        requires
            i <= self@.len(),
        ensures
            e == first_in_range(self@.subrange(i as int, self@.len() as int), *r),
        decreases self@.len() - i,
    {
        let ghost sub = self@.subrange(i as int, self@.len() as int);
        if i == self.entries.len() {
            None
        } else {
            let e = self.entries[i];
            proof {
                assert(sub[0] == self@[i as int]);
                assert(sub.drop_first() =~= self@.subrange(i + 1 as int, self@.len() as int));
            }
            if crate::keyrange::key_in_range(r, e.0) {
                Some(e)
            } else {
                self.first_in_from(i + 1, r)
            }
        }
    }

    fn push_values_from(&self, i: usize, n: usize, out: &mut Vec<V>)
        requires
            i <= self@.len(),
        ensures
            final(out)@ == old(out)@ + first_values(
                self@.subrange(i as int, self@.len() as int),
                n as nat,
            ),
        decreases self@.len() - i,
    {
        let ghost sub = self@.subrange(i as int, self@.len() as int);
        let ghost before = out@;
        if i < self.entries.len() && n > 0 {
            let e = self.entries[i];
            proof {
                assert(sub[0] == self@[i as int]);
                assert(sub.drop_first() =~= self@.subrange(i + 1 as int, self@.len() as int));
            }
            out.push(e.1);
            self.push_values_from(i + 1, n - 1, out);
            proof {
                assert((before + seq![e.1]) + first_values(sub.drop_first(), (n - 1) as nat)
                    =~= before + (seq![e.1] + first_values(sub.drop_first(), (n - 1) as nat)));
            }
        } else {
            proof {
                assert(before + Seq::<V>::empty() =~= before);
            }
        }
    }

    /// The values of the records in key order, up to `limit` of them —
    /// all of them with no limit.
    pub fn get_all(&self, limit: Option<u32>) -> (r: Vec<V>)
        ensures
            r@ == first_values(
                self@,
                match limit {
                    Some(l) => l as nat,
                    None => self@.len(),
                },
            ),
    {
        let n = match limit {
            Some(l) => l as usize,
            None => self.entries.len(),
        };
        let mut out: Vec<V> = Vec::new();
        self.push_values_from(0, n, &mut out);
        proof {
            assert(self@.subrange(0, self@.len() as int) =~= self@);
            assert(Seq::<V>::empty() + first_values(self@, n as nat) =~= first_values(
                self@,
                n as nat,
            ));
        }
        out
    }

    fn push_keys_from(&self, i: usize, n: usize, out: &mut Vec<u64>)
        requires
            i <= self@.len(),
        ensures
            final(out)@ == old(out)@ + first_keys(
                self@.subrange(i as int, self@.len() as int),
                n as nat,
            ),
        decreases self@.len() - i,
    {
        let ghost sub = self@.subrange(i as int, self@.len() as int);
        let ghost before = out@;
        if i < self.entries.len() && n > 0 {
            let e = self.entries[i];
            proof {
                assert(sub[0] == self@[i as int]);
                assert(sub.drop_first() =~= self@.subrange(i + 1 as int, self@.len() as int));
            }
            out.push(e.0);
            self.push_keys_from(i + 1, n - 1, out);
            proof {
                assert((before + seq![e.0]) + first_keys(sub.drop_first(), (n - 1) as nat)
                    =~= before + (seq![e.0] + first_keys(sub.drop_first(), (n - 1) as nat)));
            }
        } else {
            proof {
                assert(before + Seq::<u64>::empty() =~= before);
            }
        }
    }

    /// The keys of the records in key order, up to `limit` of them —
    /// all of them with no limit.
    pub fn get_all_keys(&self, limit: Option<u32>) -> (r: Vec<u64>)
        ensures
            r@ == first_keys(
                self@,
                match limit {
                    Some(l) => l as nat,
                    None => self@.len(),
                },
            ),
    {
        let n = match limit {
            Some(l) => l as usize,
            None => self.entries.len(),
        };
        let mut out: Vec<u64> = Vec::new();
        self.push_keys_from(0, n, &mut out);
        proof {
            assert(self@.subrange(0, self@.len() as int) =~= self@);
            assert(Seq::<u64>::empty() + first_keys(self@, n as nat) =~= first_keys(
                self@,
                n as nat,
            ));
        }
        out
    }

    fn push_kept_from(&self, i: usize, r: &KeyRange, out: &mut Vec<(u64, V)>)
        requires
            i <= self@.len(),
        ensures
            final(out)@ == old(out)@ + spec_remove_range(
                self@.subrange(i as int, self@.len() as int),
                *r,
            ),
        decreases self@.len() - i,
    {
        let ghost sub = self@.subrange(i as int, self@.len() as int);
        let ghost before = out@;
        if i == self.entries.len() {
            proof {
                assert(before + Seq::<(u64, V)>::empty() =~= before);
            }
        } else {
            let e = self.entries[i];
            proof {
                assert(sub[0] == self@[i as int]);
                assert(sub.drop_first() =~= self@.subrange(i + 1 as int, self@.len() as int));
            }
            if !crate::keyrange::key_in_range(r, e.0) {
                out.push(e);
                self.push_kept_from(i + 1, r, out);
                proof {
                    assert((before + seq![e]) + spec_remove_range(sub.drop_first(), *r)
                        =~= before + (seq![e] + spec_remove_range(sub.drop_first(), *r)));
                }
            } else {
                self.push_kept_from(i + 1, r, out);
            }
        }
    }

    /// Delete every record whose key lies in the range.
    pub fn delete_range(&mut self, r: &KeyRange)
        requires
            old(self).wf(),
        ensures
            final(self)@ == spec_remove_range(old(self)@, *r),
            final(self).keygen() == old(self).keygen(),
            final(self).wf(),
    {
        let mut kept: Vec<(u64, V)> = Vec::new();
        self.push_kept_from(0, r, &mut kept);
        proof {
            assert(self@.subrange(0, self@.len() as int) =~= self@);
            assert(Seq::<(u64, V)>::empty() + spec_remove_range(self@, *r) =~= spec_remove_range(
                self@,
                *r,
            ));
            lemma_remove_range_preserves_wf(self@, *r, self.keygen());
        }
        self.entries = kept;
    }

    /// The first record, in key order, whose key lies in the range: the
    /// one a ranged single-record read returns.
    pub fn get_first_in(&self, r: &KeyRange) -> (e: Option<(u64, V)>)
        ensures
            e == first_in_range(self@, *r),
    {
        let e = self.first_in_from(0, r);
        proof {
            assert(self@.subrange(0, self@.len() as int) =~= self@);
        }
        e
    }
}

/// The values of the first `n` records, in key order.
pub open spec fn first_values<V>(s: Seq<(u64, V)>, n: nat) -> Seq<V>
    decreases s.len(),
{
    if n == 0 || s.len() == 0 {
        Seq::empty()
    } else {
        seq![s[0].1] + first_values(s.drop_first(), (n - 1) as nat)
    }
}

/// The keys of the first `n` records, in key order.
pub open spec fn first_keys<V>(s: Seq<(u64, V)>, n: nat) -> Seq<u64>
    decreases s.len(),
{
    if n == 0 || s.len() == 0 {
        Seq::empty()
    } else {
        seq![s[0].0] + first_keys(s.drop_first(), (n - 1) as nat)
    }
}

/// The records left after deleting every key in the range.
pub open spec fn spec_remove_range<V>(s: Seq<(u64, V)>, r: KeyRange) -> Seq<(u64, V)>
    decreases s.len(),
{
    if s.len() == 0 {
        s
    } else if range_contains(r, s[0].0) {
        spec_remove_range(s.drop_first(), r)
    } else {
        seq![s[0]] + spec_remove_range(s.drop_first(), r)
    }
}

/// Every record left by a ranged delete is one of the old records.
proof fn lemma_remove_range_keeps_records<V>(s: Seq<(u64, V)>, r: KeyRange)
    ensures
        forall|i: int|
            0 <= i < spec_remove_range(s, r).len() ==> contains_at(
                s,
                #[trigger] spec_remove_range(s, r)[i],
            ),
    decreases s.len(),
{
    if s.len() > 0 {
        let rest = s.drop_first();
        lemma_remove_range_keeps_records(rest, r);
        assert(forall|i: int|
            0 <= i < rest.len() ==> rest[i] == s[i + 1] && contains_at(s, s[i + 1]));
        let out = spec_remove_range(s, r);
        let sub = spec_remove_range(rest, r);
        if range_contains(r, s[0].0) {
            assert(forall|i: int|
                0 <= i < sub.len() && contains_at(rest, #[trigger] sub[i]) ==> contains_at(
                    s,
                    sub[i],
                ));
        } else {
            assert(out[0] == s[0] && contains_at(s, s[0]));
            assert(forall|i: int| 1 <= i < out.len() ==> out[i] == #[trigger] sub[i - 1]);
            assert(forall|i: int|
                0 <= i < sub.len() && contains_at(rest, #[trigger] sub[i]) ==> contains_at(
                    s,
                    sub[i],
                ));
        }
    }
}

/// A ranged delete keeps the records sorted and keeps every key below
/// the generator.
proof fn lemma_remove_range_preserves_wf<V>(s: Seq<(u64, V)>, r: KeyRange, g: u64)
    requires
        entries_sorted(s),
        g == u64::MAX || forall|i: int| 0 <= i < s.len() ==> #[trigger] s[i].0 < g,
    ensures
        entries_sorted(spec_remove_range(s, r)),
        g == u64::MAX || forall|i: int|
            0 <= i < spec_remove_range(s, r).len() ==> #[trigger] spec_remove_range(s, r)[i].0
                < g,
    decreases s.len(),
{
    if s.len() > 0 {
        let rest = s.drop_first();
        assert(entries_sorted(rest)) by {
            assert(forall|i: int, j: int|
                0 <= i < j < rest.len() ==> rest[i] == s[i + 1] && rest[j] == s[j + 1]);
        }
        assert(g == u64::MAX || forall|i: int| 0 <= i < rest.len() ==> #[trigger] rest[i].0 < g);
        lemma_remove_range_preserves_wf(rest, r, g);
        lemma_remove_range_keeps_records(rest, r);
        if !range_contains(r, s[0].0) {
            let sub = spec_remove_range(rest, r);
            let out = seq![s[0]] + sub;
            assert(entries_sorted(out)) by {
                assert(forall|i: int| 0 <= i < sub.len() ==> out[i + 1] == sub[i]);
                assert(forall|i: int, j: int|
                    0 <= i < j < out.len() && i > 0 ==> out[i].0 < out[j].0);
                assert(forall|j: int| 1 <= j < out.len() ==> out[0].0 < #[trigger] out[j].0) by {
                    assert(forall|i: int|
                        0 <= i < sub.len() ==> contains_at(rest, #[trigger] sub[i]));
                }
            }
        }
        lemma_remove_range_keeps_records(s, r);
    }
}

/// How many records hold a key in the range.
pub open spec fn range_count<V>(s: Seq<(u64, V)>, r: KeyRange) -> nat
    decreases s.len(),
{
    if s.len() == 0 {
        0
    } else {
        (if range_contains(r, s[0].0) {
            1 as nat
        } else {
            0 as nat
        }) + range_count(s.drop_first(), r)
    }
}

/// The first record, in key order, whose key lies in the range.
pub open spec fn first_in_range<V>(s: Seq<(u64, V)>, r: KeyRange) -> Option<(u64, V)>
    decreases s.len(),
{
    if s.len() == 0 {
        None
    } else if range_contains(r, s[0].0) {
        Some(s[0])
    } else {
        first_in_range(s.drop_first(), r)
    }
}

/// Where a write lands in a sorted record sequence: replacing in place
/// when the key is already at the landing position, inserting there
/// otherwise.
proof fn lemma_spec_put_index<V>(s: Seq<(u64, V)>, k: u64, v: V, pos: int)
    requires
        entries_sorted(s),
        0 <= pos <= s.len(),
        forall|j: int| 0 <= j < pos ==> #[trigger] s[j].0 < k,
        pos < s.len() ==> s[pos].0 >= k,
    ensures
        pos < s.len() && s[pos].0 == k ==> spec_put(s, k, v) == s.update(pos, (k, v)),
        !(pos < s.len() && s[pos].0 == k) ==> spec_put(s, k, v) == s.insert(pos, (k, v)),
    decreases s.len(),
{
    if pos == 0 {
        if s.len() == 0 {
            assert(spec_put(s, k, v) =~= s.insert(0, (k, v)));
        } else if k < s[0].0 {
            assert(spec_put(s, k, v) =~= s.insert(0, (k, v)));
        } else {
            assert(s[0].0 == k);
            assert(spec_put(s, k, v) =~= s.update(0, (k, v)));
        }
    } else {
        assert(s[0].0 < k);
        let rest = s.drop_first();
        assert(entries_sorted(rest)) by {
            assert(forall|i: int, j: int|
                0 <= i < j < rest.len() ==> rest[i] == s[i + 1] && rest[j] == s[j + 1]);
        }
        assert(forall|j: int| 0 <= j < pos - 1 ==> #[trigger] rest[j].0 < k);
        assert(pos - 1 < rest.len() ==> rest[pos - 1].0 >= k);
        lemma_spec_put_index(rest, k, v, pos - 1);
        if pos < s.len() && s[pos].0 == k {
            assert(rest[pos - 1].0 == k);
            assert(spec_put(s, k, v) == seq![s[0]] + rest.update(pos - 1, (k, v)));
            assert(seq![s[0]] + rest.update(pos - 1, (k, v)) =~= s.update(pos, (k, v)));
        } else {
            assert(!(pos - 1 < rest.len() && rest[pos - 1].0 == k));
            assert(spec_put(s, k, v) == seq![s[0]] + rest.insert(pos - 1, (k, v)));
            assert(seq![s[0]] + rest.insert(pos - 1, (k, v)) =~= s.insert(pos, (k, v)));
        }
    }
}

/// Where a delete lands in a sorted record sequence: removing in place
/// when the key is at the landing position, leaving the records alone
/// otherwise.
proof fn lemma_spec_remove_index<V>(s: Seq<(u64, V)>, k: u64, pos: int)
    requires
        entries_sorted(s),
        0 <= pos <= s.len(),
        forall|j: int| 0 <= j < pos ==> #[trigger] s[j].0 < k,
        pos < s.len() ==> s[pos].0 >= k,
    ensures
        pos < s.len() && s[pos].0 == k ==> spec_remove(s, k) == s.remove(pos),
        !(pos < s.len() && s[pos].0 == k) ==> spec_remove(s, k) == s,
    decreases s.len(),
{
    if pos == 0 {
        if s.len() == 0 {
        } else if s[0].0 == k {
            assert(spec_remove(s, k) =~= s.remove(0));
        } else {
            assert(s[0].0 > k);
            lemma_spec_remove_absent(s, k);
        }
    } else {
        assert(s[0].0 < k);
        let rest = s.drop_first();
        assert(entries_sorted(rest)) by {
            assert(forall|i: int, j: int|
                0 <= i < j < rest.len() ==> rest[i] == s[i + 1] && rest[j] == s[j + 1]);
        }
        assert(forall|j: int| 0 <= j < pos - 1 ==> #[trigger] rest[j].0 < k);
        assert(pos - 1 < rest.len() ==> rest[pos - 1].0 >= k);
        lemma_spec_remove_index(rest, k, pos - 1);
        if pos < s.len() && s[pos].0 == k {
            assert(spec_remove(s, k) == seq![s[0]] + rest.remove(pos - 1));
            assert(seq![s[0]] + rest.remove(pos - 1) =~= s.remove(pos));
        } else {
            assert(spec_remove(s, k) == seq![s[0]] + rest);
            assert(seq![s[0]] + rest =~= s);
        }
    }
}

/// Deleting a key that lies below every key leaves the records alone.
proof fn lemma_spec_remove_absent<V>(s: Seq<(u64, V)>, k: u64)
    requires
        entries_sorted(s),
        forall|i: int| 0 <= i < s.len() ==> #[trigger] s[i].0 != k,
    ensures
        spec_remove(s, k) == s,
    decreases s.len(),
{
    if s.len() > 0 {
        let rest = s.drop_first();
        assert(entries_sorted(rest)) by {
            assert(forall|i: int, j: int|
                0 <= i < j < rest.len() ==> rest[i] == s[i + 1] && rest[j] == s[j + 1]);
        }
        assert(forall|i: int| 0 <= i < rest.len() ==> #[trigger] rest[i].0 != k);
        lemma_spec_remove_absent(rest, k);
        assert(seq![s[0]] + rest =~= s);
    }
}

/// A write keeps the records sorted and every key below the moved-on
/// generator.
proof fn lemma_put_preserves_wf<V>(s: Seq<(u64, V)>, k: u64, v: V, g: u64)
    requires
        entries_sorted(s),
        g == u64::MAX || forall|i: int| 0 <= i < s.len() ==> #[trigger] s[i].0 < g,
    ensures
        entries_sorted(spec_put(s, k, v)),
        spec_bump(g, k) == u64::MAX || forall|i: int|
            0 <= i < spec_put(s, k, v).len() ==> #[trigger] spec_put(s, k, v)[i].0 < spec_bump(
                g,
                k,
            ),
    decreases s.len(),
{
    if s.len() == 0 {
    } else if k < s[0].0 {
    } else if k == s[0].0 {
        let out = seq![(k, v)] + s.drop_first();
        assert(forall|i: int| 0 <= i < out.len() ==> out[i].0 == s[i].0);
    } else {
        let rest = s.drop_first();
        assert(entries_sorted(rest)) by {
            assert(forall|i: int, j: int|
                0 <= i < j < rest.len() ==> rest[i] == s[i + 1] && rest[j] == s[j + 1]);
        }
        assert(g == u64::MAX || forall|i: int| 0 <= i < rest.len() ==> #[trigger] rest[i].0 < g);
        lemma_put_preserves_wf(rest, k, v, g);
        let sub = spec_put(rest, k, v);
        let out = seq![s[0]] + sub;
        assert(out == spec_put(s, k, v));
        lemma_put_keys(rest, k, v);
        assert(entries_sorted(out)) by {
            assert(forall|i: int| 0 <= i < sub.len() ==> out[i + 1] == sub[i]);
            assert(forall|i: int, j: int|
                0 <= i < j < out.len() && i > 0 ==> out[i].0 < out[j].0);
            assert(forall|j: int| 1 <= j < out.len() ==> out[0].0 < #[trigger] out[j].0) by {
                assert(forall|i: int|
                    0 <= i < sub.len() ==> #[trigger] sub[i].0 == k || contains_at(rest, sub[i]));
            }
        }
    }
}

/// Whether a record occurs in a sequence.
pub open spec fn contains_at<V>(s: Seq<(u64, V)>, e: (u64, V)) -> bool {
    exists|i: int| 0 <= i < s.len() && s[i] == e
}

/// Every record after a write is the written record or one of the old
/// records.
proof fn lemma_put_keys<V>(s: Seq<(u64, V)>, k: u64, v: V)
    requires
        entries_sorted(s),
    ensures
        forall|i: int|
            0 <= i < spec_put(s, k, v).len() ==> #[trigger] spec_put(s, k, v)[i].0 == k
                || contains_at(s, spec_put(s, k, v)[i]),
    decreases s.len(),
{
    if s.len() == 0 {
    } else if k < s[0].0 {
        let out = seq![(k, v)] + s;
        assert(forall|i: int|
            1 <= i < out.len() ==> out[i] == s[i - 1] && contains_at(s, s[i - 1]));
    } else if k == s[0].0 {
        let out = seq![(k, v)] + s.drop_first();
        assert(forall|i: int|
            1 <= i < out.len() ==> out[i] == s[i] && contains_at(s, s[i]));
    } else {
        let rest = s.drop_first();
        assert(entries_sorted(rest)) by {
            assert(forall|i: int, j: int|
                0 <= i < j < rest.len() ==> rest[i] == s[i + 1] && rest[j] == s[j + 1]);
        }
        lemma_put_keys(rest, k, v);
        let sub = spec_put(rest, k, v);
        let out = seq![s[0]] + sub;
        assert(forall|i: int|
            0 <= i < rest.len() ==> rest[i] == s[i + 1] && contains_at(s, s[i + 1]));
        assert(forall|i: int| 0 <= i < out.len() ==> #[trigger] out[i].0 == k || contains_at(
            s,
            out[i],
        )) by {
            assert(out[0] == s[0] && contains_at(s, s[0]));
            assert(forall|i: int| 1 <= i < out.len() ==> out[i] == #[trigger] sub[i - 1]);
            assert(forall|i: int|
                0 <= i < sub.len() && sub[i].0 != k ==> contains_at(rest, #[trigger] sub[i])
                    && contains_at(s, sub[i]));
        }
    }
}

/// A removal keeps the records sorted and keeps every key below the
/// generator.
proof fn lemma_remove_preserves_wf<V>(s: Seq<(u64, V)>, pos: int, g: u64)
    requires
        entries_sorted(s),
        0 <= pos < s.len(),
        g == u64::MAX || forall|i: int| 0 <= i < s.len() ==> #[trigger] s[i].0 < g,
    ensures
        entries_sorted(s.remove(pos)),
        g == u64::MAX || forall|i: int|
            0 <= i < s.remove(pos).len() ==> #[trigger] s.remove(pos)[i].0 < g,
{
    let out = s.remove(pos);
    assert(forall|i: int|
        0 <= i < out.len() ==> out[i] == (if i < pos {
            s[i]
        } else {
            s[i + 1]
        }));
}

} // verus!
