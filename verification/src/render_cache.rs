//! The bounded render cache: a memo table from content fingerprints to
//! render-ready lines.
//!
//! The fingerprint is a deterministic key over a result's path, line number
//! and raw text.  The table is size-bounded: when full it evicts a quarter
//! of its entries, oldest first, before inserting; it tracks no recency, so
//! the bound is approximate by design, never exceeded.

use vstd::prelude::*;

use crate::result::SearchResult;

verus! {

pub const FNV_OFFSET: u64 = 0xcbf29ce484222325;

pub const FNV_PRIME: u64 = 0x100000001b3;

/// One step of the FNV-1a fold.
pub open spec fn fnv_step(h: u64, x: u64) -> u64 {
    vstd::wrapping::u64_specs::wrapping_mul(h ^ x, FNV_PRIME)
}

/// The FNV-1a fold over a sequence of characters.
pub open spec fn fnv_chars(h: u64, s: Seq<char>) -> u64
    decreases s.len(),
{
    if s.len() == 0 {
        h
    } else {
        fnv_chars(fnv_step(h, s[0] as u64), s.drop_first())
    }
}

/// The fingerprint of (path, line, raw text): a deterministic function of
/// exactly those three values.
pub open spec fn fingerprint_of(path: Seq<char>, line: usize, content: Seq<char>) -> u64 {
    fnv_chars(fnv_step(fnv_chars(FNV_OFFSET, path), line as u64), content)
}

fn fnv_str(h0: u64, s: &str) -> (r: u64)
    ensures
        r == fnv_chars(h0, s@),
{
    let n = s.unicode_len();
    let mut h = h0;
    let mut i: usize = 0;
    proof {
        assert(s@.subrange(0, n as int) =~= s@);
    }
    while i < n
        invariant
            i <= n,
            n == s@.len(),
            fnv_chars(h0, s@) == fnv_chars(h, s@.subrange(i as int, n as int)),
        decreases n - i,
    {
        let c = s.get_char(i);
        let ghost pre = s@.subrange(i as int, n as int);
        h = (h ^ (c as u64)).wrapping_mul(FNV_PRIME);
        proof {
            assert(pre[0] == s@[i as int]);
            assert(pre.drop_first() =~= s@.subrange(i + 1, n as int));
        }
        i += 1;
    }
    h
}

/// Computes the render-cache fingerprint of a result, over its source path,
/// line number and raw line text alone.
pub fn fingerprint(result: &SearchResult) -> (fp: u64)
    ensures
        fp == fingerprint_of(result.file_path@, result.line_number, result.line_content@),
{
    let h = fnv_str(FNV_OFFSET, result.file_path.as_str());
    let h = (h ^ (result.line_number as u64)).wrapping_mul(FNV_PRIME);
    fnv_str(h, result.line_content.as_str())
}

/// The map that the parallel key and value rows stand for.
spec fn table_of(keys: Seq<u64>, vals: Seq<String>) -> Map<u64, Seq<char>>
    decreases keys.len(),
{
    if keys.len() == 0 || vals.len() == 0 {
        Map::empty()
    } else {
        table_of(keys.drop_last(), vals.drop_last()).insert(keys.last(), vals.last()@)
    }
}

spec fn keys_distinct(keys: Seq<u64>) -> bool {
    forall|i: int, j: int| 0 <= i < j < keys.len() ==> keys[i] != keys[j]
}

proof fn lemma_table_of_domain(keys: Seq<u64>, vals: Seq<String>, k: u64)
    requires
        keys.len() == vals.len(),
    ensures
        table_of(keys, vals).contains_key(k) <==> keys.contains(k),
    decreases keys.len(),
{
    if keys.len() > 0 {
        lemma_table_of_domain(keys.drop_last(), vals.drop_last(), k);
        if table_of(keys, vals).contains_key(k) {
            if k == keys.last() {
                assert(keys[keys.len() - 1] == k);
            } else {
                let i = choose|i: int|
                    0 <= i < keys.drop_last().len() && keys.drop_last()[i] == k;
                assert(keys[i] == k);
            }
        }
        if keys.contains(k) {
            let i = choose|i: int| 0 <= i < keys.len() && keys[i] == k;
            if i < keys.len() - 1 {
                assert(keys.drop_last()[i] == k);
            }
        }
    }
}

proof fn lemma_table_of_value(keys: Seq<u64>, vals: Seq<String>, i: int)
    requires
        keys.len() == vals.len(),
        keys_distinct(keys),
        0 <= i < keys.len(),
    ensures
        table_of(keys, vals).contains_key(keys[i]),
        table_of(keys, vals)[keys[i]] == vals[i]@,
    decreases keys.len(),
{
    if i == keys.len() - 1 {
    } else {
        assert(keys.drop_last()[i] == keys[i]);
        assert(vals.drop_last()[i] == vals[i]);
        lemma_table_of_value(keys.drop_last(), vals.drop_last(), i);
        assert(keys.last() != keys[i]);
    }
}

/// A size-bounded memo table from fingerprints to rendered lines.
pub struct RenderCache {
    keys: Vec<u64>,
    vals: Vec<String>,
    limit: usize,
}

impl RenderCache {
    /// The stored entries, keyed by fingerprint.
    pub closed spec fn table(self) -> Map<u64, Seq<char>> {
        table_of(self.keys@, self.vals@)
    }

    /// The stored fingerprints, oldest first.
    pub closed spec fn key_order(self) -> Seq<u64> {
        self.keys@
    }

    /// The number of stored entries.
    pub closed spec fn size(self) -> nat {
        self.keys@.len()
    }

    /// The configured bound.
    pub closed spec fn cap(self) -> nat {
        self.limit as nat
    }

    /// Rows line up, keys are unique, and the bound holds.
    pub closed spec fn wf(self) -> bool {
        &&& self.keys@.len() == self.vals@.len()
        &&& keys_distinct(self.keys@)
        &&& self.keys@.len() <= self.limit
        &&& self.limit >= 1
    }

    /// How many entries an eviction removes: a quarter of the bound, and at
    /// least one, so that the bound can never be exceeded.
    pub open spec fn evict_count(self) -> nat {
        if self.cap() / 4 >= 1 {
            self.cap() / 4
        } else {
            1
        }
    }

    /// Creates an empty cache bounded by `limit` entries.
    pub fn new(limit: usize) -> (c: RenderCache)
        requires
            limit >= 1,
        ensures
            c.wf(),
            c.size() == 0,
            c.cap() == limit,
            c.table() == Map::<u64, Seq<char>>::empty(),
            c.key_order() == Seq::<u64>::empty(),
    {
        RenderCache { keys: Vec::new(), vals: Vec::new(), limit }
    }

    /// Removes every entry.
    pub fn clear(&mut self)
        requires
            old(self).wf(),
        ensures
            final(self).wf(),
            final(self).cap() == old(self).cap(),
            final(self).size() == 0,
            final(self).table() == Map::<u64, Seq<char>>::empty(),
            final(self).key_order() == Seq::<u64>::empty(),
    {
        self.keys.clear();
        self.vals.clear();
    }

    /// The current size and the bound.
    pub fn stats(&self) -> (r: (usize, usize))
        ensures
            r.0 == self.size(),
            r.1 == self.cap(),
    {
        (self.keys.len(), self.limit)
    }

    fn find_index(&self, fp: u64) -> (r: Option<usize>)
        requires
            self.wf(),
        ensures
            match r {
                Some(i) => i < self.key_order().len() && self.key_order()[i as int] == fp
                    && self.table().contains_key(fp),
                None => !self.table().contains_key(fp),
            },
    {
        let mut i: usize = 0;
        while i < self.keys.len()
            invariant
                self.wf(),
                i <= self.keys@.len(),
                forall|j: int| 0 <= j < i ==> self.keys@[j] != fp,
            decreases self.keys@.len() - i,
        {
            if self.keys[i] == fp {
                proof {
                    lemma_table_of_value(self.keys@, self.vals@, i as int);
                }
                return Some(i);
            }
            i += 1;
        }
        proof {
            lemma_table_of_domain(self.keys@, self.vals@, fp);
        }
        None
    }

    /// The stored line for a fingerprint, if any.
    pub fn get(&self, fp: u64) -> (r: Option<&String>)
        requires
            self.wf(),
        ensures
            match r {
                Some(line) => self.table().contains_key(fp) && line@ == self.table()[fp],
                None => !self.table().contains_key(fp),
            },
    {
        match self.find_index(fp) {
            Some(i) => {
                proof {
                    lemma_table_of_value(self.keys@, self.vals@, i as int);
                }
                Some(&self.vals[i])
            },
            None => None,
        }
    }

    /// Stores a line under a fingerprint.  A fingerprint already stored
    /// keeps its line.  A full cache first evicts its oldest quarter, so
    /// the size never exceeds the bound.
    pub fn insert(&mut self, fp: u64, line: String)
        requires
            old(self).wf(),
        ensures
            final(self).wf(),
            final(self).cap() == old(self).cap(),
            final(self).table().contains_key(fp),
            old(self).table().contains_key(fp) ==> *final(self) == *old(self),
            !old(self).table().contains_key(fp) && old(self).size() < old(self).cap() ==> {
                &&& final(self).key_order() == old(self).key_order().push(fp)
                &&& final(self).table() == old(self).table().insert(fp, line@)
                &&& final(self).size() == old(self).size() + 1
            },
            !old(self).table().contains_key(fp) && old(self).size() >= old(self).cap() ==> {
                &&& final(self).key_order() == old(self).key_order().subrange(
                    old(self).evict_count() as int,
                    old(self).key_order().len() as int,
                ).push(fp)
                &&& final(self).size() == old(self).size() - old(self).evict_count() + 1
                &&& final(self).table()[fp] == line@
                &&& forall|k: u64|
                    final(self).table().contains_key(k) && k != fp ==> old(
                        self,
                    ).table().contains_key(k) && final(self).table()[k] == old(self).table()[k]
            },
    {
        match self.find_index(fp) {
            Some(_) => {},
            None => {
                if self.keys.len() >= self.limit {
                    let quarter = self.limit / 4;
                    let evict = if quarter >= 1 {
                        quarter
                    } else {
                        1
                    };
                    let mut t: usize = 0;
                    while t < evict
                        invariant
                            t <= evict,
                            evict <= old(self).keys@.len(),
                            old(self).keys@.len() == old(self).vals@.len(),
                            self.limit == old(self).limit,
                            self.keys@ == old(self).keys@.subrange(
                                t as int,
                                old(self).keys@.len() as int,
                            ),
                            self.vals@ == old(self).vals@.subrange(
                                t as int,
                                old(self).vals@.len() as int,
                            ),
                        decreases evict - t,
                    {
                        self.keys.remove(0);
                        self.vals.remove(0);
                        proof {
                            assert(old(self).keys@.subrange(
                                t as int,
                                old(self).keys@.len() as int,
                            ).remove(0) =~= old(self).keys@.subrange(
                                t + 1,
                                old(self).keys@.len() as int,
                            ));
                            assert(old(self).vals@.subrange(
                                t as int,
                                old(self).vals@.len() as int,
                            ).remove(0) =~= old(self).vals@.subrange(
                                t + 1,
                                old(self).vals@.len() as int,
                            ));
                        }
                        t += 1;
                    }
                    proof {
                        assert(evict as int == old(self).evict_count() as int);
                    }
                }
                let ghost kept_keys = self.keys@;
                let ghost kept_vals = self.vals@;
                proof {
                    assert(keys_distinct(kept_keys)) by {
                        if self.keys@ != old(self).keys@ {
                            assert(forall|i: int, j: int|
                                0 <= i < j < kept_keys.len() ==> kept_keys[i] != kept_keys[j]);
                        }
                    }
                    assert(!kept_keys.contains(fp)) by {
                        lemma_table_of_domain(old(self).keys@, old(self).vals@, fp);
                        if kept_keys.contains(fp) {
                            let i = choose|i: int|
                                0 <= i < kept_keys.len() && kept_keys[i] == fp;
                            assert(old(self).keys@.contains(fp));
                        }
                    }
                }
                self.keys.push(fp);
                self.vals.push(line);
                proof {
                    assert(self.keys@.drop_last() =~= kept_keys);
                    assert(self.vals@.drop_last() =~= kept_vals);
                    assert(self.table() == table_of(kept_keys, kept_vals).insert(
                        fp,
                        self.vals@.last()@,
                    ));
                    assert forall|i: int, j: int|
                        0 <= i < j < self.keys@.len() implies self.keys@[i] != self.keys@[j] by {
                        if j == self.keys@.len() - 1 {
                            assert(kept_keys[i] == self.keys@[i]);
                            assert(!kept_keys.contains(fp));
                        }
                    }
                    if old(self).keys@.len() < old(self).limit {
                        assert(kept_keys == old(self).keys@);
                        assert(self.table() == old(self).table().insert(fp, line@));
                    } else {
                        assert forall|k: u64|
                            (#[trigger] self.table().contains_key(k)) && k != fp implies old(
                            self,
                        ).table().contains_key(k) && self.table()[k] == old(self).table()[k] by {
                            lemma_table_of_domain(self.keys@, self.vals@, k);
                            let i = choose|i: int|
                                0 <= i < self.keys@.len() && self.keys@[i] == k;
                            assert(i < self.keys@.len() - 1);
                            assert(kept_keys[i] == k);
                            let ghost e = old(self).evict_count() as int;
                            assert(old(self).keys@[i + e] == k);
                            assert(old(self).vals@[i + e] == kept_vals[i]);
                            lemma_table_of_value(self.keys@, self.vals@, i);
                            lemma_table_of_value(old(self).keys@, old(self).vals@, i + e);
                        }
                    }
                }
            },
        }
    }

    /// Returns the rendered line for a result, rendering at most once: a
    /// fingerprint already cached is returned as stored, without invoking
    /// the render function; a miss renders, stores, and returns the line.
    pub fn get_or_render<F>(&mut self, result: &SearchResult, render: F) -> (line: String) where
        F: Fn(&SearchResult) -> String,

        requires
            old(self).wf(),
            render.requires((result,)),
        ensures
            final(self).wf(),
            final(self).cap() == old(self).cap(),
            ({
                let fp = fingerprint_of(
                    result.file_path@,
                    result.line_number,
                    result.line_content@,
                );
                &&& (old(self).table().contains_key(fp) ==> line@ == old(self).table()[fp]
                    && *final(self) == *old(self))
                &&& (!old(self).table().contains_key(fp) ==> render.ensures((result,), line))
                &&& final(self).table().contains_key(fp)
                &&& final(self).table()[fp] == line@
            }),
    {
        let fp = fingerprint(result);
        match self.get(fp) {
            Some(cached) => cached.clone(),
            None => {
                let line = render(result);
                self.insert(fp, line.clone());
                line
            },
        }
    }
}

} // verus!
