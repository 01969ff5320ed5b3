//! The table of game-center names: for each name a group uses, the
//! game center it stands for.

use crate::text::{chars_eq, int_text, push_chars, push_int, push_str};
use vstd::prelude::*;
use vstd::string::*;

verus! {

/// The game center a name stands for.
pub struct GcData {
    pub gc_id: i64,
}

/// Names of game centers, keyed by the name followed by the group id.
///
/// The entries are held as a list of (key, game center) pairs, where the
/// first entry of a key counts, not as a `HashMap<String, _>`: vstd's
/// specification of `HashMap` holds only for keys whose hashing it models
/// (the integer types), so nothing could be proved of a map keyed by text.
pub struct GcName {
    entries: Vec<(Vec<char>, i64)>,
}

/// One row of the names table in the database.
pub struct GcRow {
    pub name: String,
    pub gc_id: i64,
    pub gid: i64,
}

/// The key of a name in a group, as the table is filled.
pub open spec fn gc_key(name: Seq<char>, gid: i64) -> Seq<char> {
    name + int_text(gid as int)
}

/// The table that rows give, a later row winning over an earlier one with
/// the same key.
pub open spec fn rows_table(rows: Seq<(Seq<char>, i64, i64)>) -> Map<Seq<char>, i64>
    decreases rows.len(),
{
    if rows.len() == 0 {
        Map::empty()
    } else {
        let r = rows.last();
        rows_table(rows.drop_last()).insert(gc_key(r.0, r.2), r.1)
    }
}

/// The rows as plain values.
pub open spec fn row_views(rows: Seq<GcRow>) -> Seq<(Seq<char>, i64, i64)> {
    rows.map_values(|r: GcRow| (r.name@, r.gc_id, r.gid))
}

/// The first entry holding key `k` is at `i`.
pub open spec fn first_at(e: Seq<(Vec<char>, i64)>, k: Seq<char>, i: int) -> bool {
    0 <= i < e.len() && e[i].0@ == k && forall|j: int| 0 <= j < i ==> e[j].0@ != k
}

/// Some entry holds key `k`.
pub open spec fn has_key(e: Seq<(Vec<char>, i64)>, k: Seq<char>) -> bool {
    exists|i: int| 0 <= i < e.len() && e[i].0@ == k
}

proof fn lemma_first_exists(e: Seq<(Vec<char>, i64)>, k: Seq<char>)
    requires
        has_key(e, k),
    ensures
        exists|i: int| first_at(e, k, i),
    decreases e.len(),
{
    if e[0].0@ == k {
        assert(first_at(e, k, 0));
    } else {
        let t = e.drop_first();
        let i = choose|i: int| 0 <= i < e.len() && e[i].0@ == k;
        assert(t[i - 1].0@ == k);
        lemma_first_exists(t, k);
        let j = choose|j: int| first_at(t, k, j);
        assert forall|m: int| 0 <= m < j + 1 implies e[m].0@ != k by {
            if m > 0 {
                assert(e[m] == t[m - 1]);
            }
        }
        assert(first_at(e, k, j + 1));
    }
}

proof fn lemma_first_unique(e: Seq<(Vec<char>, i64)>, k: Seq<char>, i: int, j: int)
    requires
        first_at(e, k, i),
        first_at(e, k, j),
    ensures
        i == j,
{
}

impl GcName {
    /// What the table holds: for each key, the game-center id of its first
    /// entry.
    pub closed spec fn table(&self) -> Map<Seq<char>, i64> {
        Map::new(
            |k: Seq<char>| has_key(self.entries@, k),
            |k: Seq<char>| self.entries@[choose|i: int| first_at(self.entries@, k, i)].1,
        )
    }

    /// An empty table.
    pub fn new() -> (r: GcName)
        ensures
            r.table() == Map::<Seq<char>, i64>::empty(),
    {
        let r = GcName { entries: Vec::new() };
        assert(r.table() =~= Map::<Seq<char>, i64>::empty());
        r
    }

    fn position(&self, key: &[char]) -> (r: Option<usize>)
        ensures
            match r {
                Some(i) => first_at(self.entries@, key@, i as int),
                None => !has_key(self.entries@, key@),
            },
    {
        let mut i: usize = 0;
        while i < self.entries.len()
            invariant
                i <= self.entries.len(),
                forall|j: int| 0 <= j < i ==> self.entries@[j].0@ != key@,
            decreases self.entries.len() - i,
        {
            if chars_eq(self.entries[i].0.as_slice(), key) {
                return Some(i);
            }
            i = i + 1;
        }
        None
    }

    /// The game center of a key, if the table has the key.
    pub fn get(&self, key: &[char]) -> (r: Option<GcData>)
        ensures
            match r {
                Some(d) => self.table().contains_key(key@) && self.table()[key@] == d.gc_id,
                None => !self.table().contains_key(key@),
            },
    {
        match self.position(key) {
            Some(i) => {
                proof {
                    let k = key@;
                    assert(self.table().contains_key(k));
                    let c = choose|j: int| first_at(self.entries@, k, j);
                    lemma_first_unique(self.entries@, k, c, i as int);
                }
                Some(GcData { gc_id: self.entries[i].1 })
            },
            None => None,
        }
    }

    /// Whether the table has the key.
    pub fn contains_key(&self, key: &[char]) -> (r: bool)
        ensures
            r == self.table().contains_key(key@),
    {
        self.get(key).is_some()
    }

    /// Sets the game center of a key.
    pub fn insert(&mut self, key: Vec<char>, gc_id: i64)
        ensures
            final(self).table() == old(self).table().insert(key@, gc_id),
    {
        let ghost old_table = self.table();
        let ghost e0 = self.entries@;
        let ghost k = key@;
        match self.position(key.as_slice()) {
            Some(i) => {
                self.entries.set(i, (key, gc_id));
                proof {
                    let e1 = self.entries@;
                    assert forall|kk: Seq<char>| #[trigger] has_key(e1, kk) == has_key(e0, kk) by {
                        if has_key(e0, kk) {
                            let c = choose|j: int| 0 <= j < e0.len() && e0[j].0@ == kk;
                            if c == i { assert(e1[c].0@ == kk); } else { assert(e1[c] == e0[c]); }
                        }
                        if has_key(e1, kk) {
                            let c = choose|j: int| 0 <= j < e1.len() && e1[j].0@ == kk;
                            if c == i { assert(e0[c].0@ == kk); } else { assert(e1[c] == e0[c]); }
                        }
                    }
                    assert forall|kk: Seq<char>| has_key(e1, kk) implies
                        e1[choose|j: int| first_at(e1, kk, j)].1 == old_table.insert(k, gc_id)[kk] by {
                        lemma_first_exists(e1, kk);
                        let c1 = choose|j: int| first_at(e1, kk, j);
                        lemma_first_exists(e0, kk);
                        let c0 = choose|j: int| first_at(e0, kk, j);
                        if kk == k {
                            if c1 != i as int {
                                if c1 < i as int { assert(e0[c1] == e1[c1]); } else { assert(e1[i as int].0@ == kk); }
                            }
                        } else {
                            assert forall|m: int| 0 <= m < c1 implies e0[m].0@ != kk by {
                                if m != i as int { assert(e0[m] == e1[m]); }
                            }
                            assert(c1 != i as int);
                            assert(e0[c1] == e1[c1]);
                            assert(first_at(e0, kk, c1));
                            lemma_first_unique(e0, kk, c0, c1);
                        }
                    }
                    assert(self.table() =~= old_table.insert(k, gc_id));
                }
            },
            None => {
                self.entries.push((key, gc_id));
                proof {
                    let e1 = self.entries@;
                    let n = e0.len() as int;
                    assert(e1[n].0@ == k);
                    assert forall|kk: Seq<char>| #[trigger] has_key(e1, kk) == (has_key(e0, kk) || kk == k) by {
                        if has_key(e0, kk) {
                            let c = choose|j: int| 0 <= j < e0.len() && e0[j].0@ == kk;
                            assert(e1[c] == e0[c]);
                        }
                        if has_key(e1, kk) && kk != k {
                            let c = choose|j: int| 0 <= j < e1.len() && e1[j].0@ == kk;
                            assert(c < n);
                            assert(e1[c] == e0[c]);
                        }
                    }
                    assert forall|kk: Seq<char>| has_key(e1, kk) implies
                        e1[choose|j: int| first_at(e1, kk, j)].1 == old_table.insert(k, gc_id)[kk] by {
                        lemma_first_exists(e1, kk);
                        let c1 = choose|j: int| first_at(e1, kk, j);
                        if kk == k {
                            assert(first_at(e1, kk, n));
                            lemma_first_unique(e1, kk, c1, n);
                        } else {
                            assert(c1 < n);
                            assert forall|m: int| 0 <= m < c1 implies e0[m].0@ != kk by {
                                assert(e0[m] == e1[m]);
                            }
                            assert(e0[c1] == e1[c1]);
                            assert(first_at(e0, kk, c1));
                            lemma_first_exists(e0, kk);
                            let c0 = choose|j: int| first_at(e0, kk, j);
                            lemma_first_unique(e0, kk, c0, c1);
                        }
                    }
                    assert(self.table() =~= old_table.insert(k, gc_id));
                }
            },
        }
    }

    /// Empties the table.
    pub fn clear(&mut self)
        ensures
            final(self).table() == Map::<Seq<char>, i64>::empty(),
    {
        self.entries = Vec::new();
        assert(self.table() =~= Map::<Seq<char>, i64>::empty());
    }

    /// Refills the table from the rows of the names table: each name is
    /// keyed by the name followed by its group id.
    pub fn init(&mut self, rows: &Vec<GcRow>)
        ensures
            final(self).table() == rows_table(row_views(rows@)),
    {
        self.clear();
        let mut i: usize = 0;
        assert(row_views(rows@).take(0) =~= Seq::<(Seq<char>, i64, i64)>::empty());
        while i < rows.len()
            invariant
                i <= rows.len(),
                self.table() == rows_table(row_views(rows@).take(i as int)),
            decreases rows.len() - i,
        {
            let row = &rows[i];
            let mut key: Vec<char> = Vec::new();
            push_str(&mut key, row.name.as_str());
            push_int(&mut key, row.gid);
            assert(key@ =~= gc_key(row.name@, row.gid));
            self.insert(key, row.gc_id);
            assert(row_views(rows@).take(i + 1).drop_last() =~= row_views(rows@).take(i as int));
            i = i + 1;
        }
        assert(row_views(rows@).take(rows.len() as int) =~= row_views(rows@));
    }

    /// Module name.
    pub fn name(&self) -> (r: String)
        ensures
            r@ == "机厅名字"@,
    {
        String::from_str("机厅名字")
    }
}

/// The key of `name` in group `gid`.
pub fn key_of(name: &[char], gid: i64) -> (r: Vec<char>)
    ensures
        r@ == gc_key(name@, gid),
{
    let mut v: Vec<char> = Vec::new();
    push_chars(&mut v, name);
    push_int(&mut v, gid);
    assert(v@ =~= gc_key(name@, gid));
    v
}

} // verus!
