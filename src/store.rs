use vstd::prelude::*;

use crate::model::BlockRecord;

verus! {

/// The table that a sequence of rows stands for: each row under its height,
/// later rows over earlier ones.
pub open spec fn table_of(rows: Seq<BlockRecord>) -> Map<u64, BlockRecord>
    decreases rows.len(),
{
    if rows.len() == 0 {
        Map::empty()
    } else {
        table_of(rows.drop_last()).insert(rows.last().block_height, rows.last())
    }
}

/// No two rows share a height.
pub open spec fn heights_unique(rows: Seq<BlockRecord>) -> bool {
    forall|i: int, j: int|
        0 <= i < rows.len() && 0 <= j < rows.len() && i != j
            ==> #[trigger] rows[i].block_height != #[trigger] rows[j].block_height
}

/// The table after an upsert of `r`: a row under `r`'s height, equal to `r`
/// in every field, whatever stood there before.
pub open spec fn upserted(t: Map<u64, BlockRecord>, r: BlockRecord) -> Map<u64, BlockRecord> {
    t.insert(r.block_height, r)
}

/// The latest state of each block, one record per height.
pub struct BlockStore {
    rows: Vec<BlockRecord>,
}

proof fn lemma_table_lookup(rows: Seq<BlockRecord>, h: u64)
    requires
        heights_unique(rows),
    ensures
        table_of(rows).contains_key(h) <==> exists|i: int|
            0 <= i < rows.len() && #[trigger] rows[i].block_height == h,
        forall|i: int|
            0 <= i < rows.len() && #[trigger] rows[i].block_height == h
                ==> table_of(rows)[h] == rows[i],
    decreases rows.len(),
{
    if rows.len() > 0 {
        let prefix = rows.drop_last();
        assert(heights_unique(prefix));
        lemma_table_lookup(prefix, h);
        if table_of(prefix).contains_key(h) {
            let i = choose|i: int| 0 <= i < prefix.len() && #[trigger] prefix[i].block_height == h;
            assert(rows[i].block_height == h);
        }
        assert forall|i: int| 0 <= i < rows.len() && #[trigger] rows[i].block_height == h
            implies table_of(rows)[h] == rows[i] by {
            if i < rows.len() - 1 {
                assert(prefix[i] == rows[i]);
            }
        }
        if exists|i: int| 0 <= i < rows.len() && #[trigger] rows[i].block_height == h {
            let i = choose|i: int| 0 <= i < rows.len() && #[trigger] rows[i].block_height == h;
            if i < rows.len() - 1 {
                assert(prefix[i] == rows[i]);
            }
        }
    }
}

proof fn lemma_table_update(rows: Seq<BlockRecord>, i: int, r: BlockRecord)
    requires
        heights_unique(rows),
        0 <= i < rows.len(),
        rows[i].block_height == r.block_height,
    ensures
        table_of(rows.update(i, r)) == upserted(table_of(rows), r),
    decreases rows.len(),
{
    let h = r.block_height;
    let prefix = rows.drop_last();
    let n = rows.len() - 1;
    if i == n {
        assert(rows.update(i, r).drop_last() =~= prefix);
        assert(table_of(rows.update(i, r)) =~= upserted(table_of(rows), r));
    } else {
        assert(heights_unique(prefix));
        assert(rows.update(i, r).drop_last() =~= prefix.update(i, r));
        lemma_table_update(prefix, i, r);
        assert(rows[n].block_height != rows[i].block_height);
        assert(table_of(rows.update(i, r)) =~= upserted(table_of(rows), r));
    }
}

impl BlockStore {
    /// The stored records, by height.
    pub closed spec fn view(&self) -> Map<u64, BlockRecord> {
        table_of(self.rows@)
    }

    pub closed spec fn wf(&self) -> bool {
        heights_unique(self.rows@)
    }

    /// An empty store.
    pub fn new() -> (r: BlockStore)
        ensures
            r.wf(),
            r@ == Map::<u64, BlockRecord>::empty(),
    {
        BlockStore { rows: Vec::new() }
    }

    /// Number of stored records.
    pub fn len(&self) -> (r: usize)
        requires
            self.wf(),
        ensures
            r == self@.len(),
    {
        proof {
            self.lemma_len();
        }
        self.rows.len()
    }

    proof fn lemma_len(&self)
        requires
            self.wf(),
        ensures
            self@.dom().finite(),
            self@.len() == self.rows@.len(),
    {
        lemma_table_len(self.rows@);
    }

    fn find(&self, height: u64) -> (r: Option<usize>)
        requires
            self.wf(),
        ensures
            match r {
                Some(i) => i < self.rows@.len() && self.rows@[i as int].block_height == height,
                None => forall|i: int|
                    0 <= i < self.rows@.len() ==> #[trigger] self.rows@[i].block_height != height,
            },
    {
        let mut i: usize = 0;
        while i < self.rows.len()
            invariant
                i <= self.rows@.len(),
                forall|k: int| 0 <= k < i ==> #[trigger] self.rows@[k].block_height != height,
            decreases self.rows@.len() - i,
        {
            if self.rows[i].block_height == height {
                return Some(i);
            }
            i = i + 1;
        }
        None
    }

    /// The record stored under `height`, if any.
    pub fn get(&self, height: u64) -> (r: Option<&BlockRecord>)
        requires
            self.wf(),
        ensures
            match r {
                Some(rec) => self@.contains_key(height) && *rec == self@[height],
                None => !self@.contains_key(height),
            },
    {
        proof {
            lemma_table_lookup(self.rows@, height);
        }
        match self.find(height) {
            Some(i) => Some(&self.rows[i]),
            None => None,
        }
    }

    /// Stores `record` under its height: inserts it where the height is new,
    /// replaces every field of the stored record where it is not.
    pub fn upsert(&mut self, record: BlockRecord)
        requires
            old(self).wf(),
        ensures
            final(self).wf(),
            final(self)@ == upserted(old(self)@, record),
    {
        let h = record.block_height;
        match self.find(h) {
            Some(i) => {
                proof {
                    lemma_table_update(self.rows@, i as int, record);
                }
                self.rows.set(i, record);
            },
            None => {
                self.rows.push(record);
                proof {
                    assert(self.rows@.drop_last() =~= old(self).rows@);
                }
            },
        }
    }
}

proof fn lemma_table_len(rows: Seq<BlockRecord>)
    requires
        heights_unique(rows),
    ensures
        table_of(rows).dom().finite(),
        table_of(rows).len() == rows.len(),
    decreases rows.len(),
{
    if rows.len() > 0 {
        let prefix = rows.drop_last();
        assert(heights_unique(prefix));
        lemma_table_len(prefix);
        lemma_table_lookup(prefix, rows.last().block_height);
        assert(!table_of(prefix).contains_key(rows.last().block_height));
    }
}

/// Upserting the same record twice leaves the store as upserting it once.
pub proof fn lemma_upsert_idempotent(t: Map<u64, BlockRecord>, r: BlockRecord)
    ensures
        upserted(upserted(t, r), r) == upserted(t, r),
{
    assert(upserted(upserted(t, r), r) =~= upserted(t, r));
}

/// Of two upserts under one height the second wins in every field: the store
/// is as if only the second had been made.
pub proof fn lemma_upsert_overwrites(t: Map<u64, BlockRecord>, r1: BlockRecord, r2: BlockRecord)
    requires
        r1.block_height == r2.block_height,
    ensures
        upserted(upserted(t, r1), r2) == upserted(t, r2),
        upserted(upserted(t, r1), r2)[r2.block_height] == r2,
{
    assert(upserted(upserted(t, r1), r2) =~= upserted(t, r2));
}

} // verus!
