//! A table of records keyed by identifier, with the primary-key constraint
//! of the storage layer: a row is inserted once and never changed.
use vstd::prelude::*;
use crate::ident::RecordId;
use crate::record::{Record, RecordView, StorageError};

verus! {

/// The table that a sequence of rows makes, each row under its identifier.
pub open spec fn table_of(rows: Seq<RecordView>) -> Map<u128, RecordView>
    decreases rows.len(),
{
    if rows.len() == 0 {
        Map::empty()
    } else {
        table_of(rows.drop_last()).insert(rows.last().id, rows.last())
    }
}

/// What an insert does to a table: it fails on a taken identifier and leaves
/// the table as it was, and otherwise adds the record.
pub open spec fn insert_spec(t: Map<u128, RecordView>, r: RecordView) -> (Map<u128, RecordView>, Result<(), StorageError>) {
    if t.contains_key(r.id) {
        (t, Err(StorageError::ConstraintViolation))
    } else {
        (t.insert(r.id, r), Ok(()))
    }
}

/// What a lookup finds in a table.
pub open spec fn lookup_spec(t: Map<u128, RecordView>, id: u128) -> Option<RecordView> {
    if t.contains_key(id) {
        Some(t[id])
    } else {
        None
    }
}

proof fn lemma_table_of_index(rows: Seq<RecordView>, i: int)
    requires
        0 <= i < rows.len(),
        forall|a: int, b: int| 0 <= a < b < rows.len() ==> rows[a].id != rows[b].id,
    ensures
        table_of(rows).contains_key(rows[i].id),
        table_of(rows)[rows[i].id] == rows[i],
    decreases rows.len(),
{
    if i < rows.len() - 1 {
        lemma_table_of_index(rows.drop_last(), i);
    }
}

proof fn lemma_table_of_absent(rows: Seq<RecordView>, id: u128)
    requires
        forall|a: int| 0 <= a < rows.len() ==> rows[a].id != id,
    ensures
        !table_of(rows).contains_key(id),
    decreases rows.len(),
{
    if rows.len() > 0 {
        lemma_table_of_absent(rows.drop_last(), id);
    }
}

/// A table of records held in memory.
pub struct RecordStore {
    rows: Vec<Record>,
}

impl RecordStore {
    /// The rows as values.
    pub closed spec fn rows_view(&self) -> Seq<RecordView> {
        self.rows@.map_values(|r: Record| r@)
    }

    /// The table: each stored record under its identifier.
    pub closed spec fn table(&self) -> Map<u128, RecordView> {
        table_of(self.rows_view())
    }

    /// No two rows share an identifier.
    pub closed spec fn wf(&self) -> bool {
        forall|a: int, b: int|
            0 <= a < b < self.rows@.len() ==> self.rows@[a].id.value != self.rows@[b].id.value
    }

    /// An empty table.
    pub fn new() -> (s: RecordStore)
        ensures
            s.wf(),
            s.table() == Map::<u128, RecordView>::empty(),
    {
        let s = RecordStore { rows: Vec::new() };
        assert(s.rows_view().len() == 0);
        s
    }

    proof fn lemma_unique_view(&self)
        requires
            self.wf(),
        ensures
            forall|a: int, b: int|
                0 <= a < b < self.rows_view().len() ==> self.rows_view()[a].id != self.rows_view()[b].id,
    {
        let rows = self.rows_view();
        assert forall|a: int, b: int| 0 <= a < b < rows.len() implies rows[a].id != rows[b].id by {
            assert(rows[a] == self.rows@[a]@);
            assert(rows[b] == self.rows@[b]@);
        }
    }

    /// Looks a record up by identifier.
    pub fn lookup(&self, id: RecordId) -> (r: Option<Record>)
        requires
            self.wf(),
        ensures
            match r {
                Some(rec) => lookup_spec(self.table(), id.value) == Some(rec@),
                None => lookup_spec(self.table(), id.value) is None,
            },
    {
        let ghost rows = self.rows_view();
        proof {
            self.lemma_unique_view();
        }
        let mut i: usize = 0;
        while i < self.rows.len()
            invariant
                0 <= i <= self.rows@.len(),
                rows == self.rows_view(),
                forall|a: int, b: int| 0 <= a < b < rows.len() ==> rows[a].id != rows[b].id,
                forall|a: int| 0 <= a < i ==> rows[a].id != id.value,
            decreases self.rows@.len() - i,
        {
            if self.rows[i].id.value == id.value {
                proof {
                    lemma_table_of_index(rows, i as int);
                }
                return Some(self.rows[i].duplicate());
            }
            i += 1;
        }
        proof {
            lemma_table_of_absent(rows, id.value);
        }
        None
    }

    /// Inserts a record; refused where its identifier is taken.
    pub fn insert(&mut self, rec: Record) -> (r: Result<(), StorageError>)
        requires
            old(self).wf(),
        ensures
            final(self).wf(),
            (final(self).table(), r) == insert_spec(old(self).table(), rec@),
    {
        let ghost before = self.rows_view();
        match self.lookup(rec.id) {
            Some(_) => Err(StorageError::ConstraintViolation),
            None => {
                proof {
                    self.lemma_unique_view();
                    assert forall|a: int| 0 <= a < self.rows@.len() implies self.rows@[a].id.value != rec.id.value by {
                        assert(before[a] == self.rows@[a]@);
                        if self.rows@[a].id.value == rec.id.value {
                            lemma_table_of_index(before, a);
                        }
                    }
                }
                self.rows.push(rec);
                proof {
                    assert(self.rows_view().drop_last() =~= before);
                }
                Ok(())
            }
        }
    }
}

} // verus!
