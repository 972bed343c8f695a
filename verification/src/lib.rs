//! Rows-with-quota service core: a record store capability, a key-based
//! authorization capability, and the composition that shapes a result set
//! according to the resolved quota.

use vstd::prelude::*;

pub mod auth;
pub mod handlers;
pub mod model;

verus! {

/// A single row of the backing store: an identity and one text column.
#[derive(Debug, PartialEq, Eq)]
pub struct TR {
    pub id: i32,
    pub col1: String,
}

impl Clone for TR {
    fn clone(&self) -> (res: Self)
        ensures
            res == *self,
    {
        TR { id: self.id, col1: self.col1.clone() }
    }
}

/// Failure reaching or reading the backing store during a row fetch.
#[derive(Debug, Clone, Copy, PartialEq, Eq, Structural)]
pub enum DataSourceError {
    /// The store could not be reached, or reading it failed.
    Backend,
    /// The store holds no row to return.
    NotFound,
}

/// Read capability over the row store. Implementations fix what the store
/// would answer through `spec_rows` and `spec_last`; call sites depend only
/// on this interface, so a scripted stand-in can replace a real store.
pub trait Datasource {
    /// What a row fetch would answer: every record in store order, or the
    /// error. An implementation that leaves this unstated promises nothing.
    open spec fn spec_rows(&self) -> Result<Seq<TR>, DataSourceError> {
        arbitrary()
    }

    /// What a most-recent-row fetch would answer.
    open spec fn spec_last(&self) -> Result<TR, DataSourceError> {
        arbitrary()
    }

    /// Returns every record currently in the store, in store order.
    fn select_all_test(&self) -> (r: Result<Vec<TR>, DataSourceError>)
        ensures
            match self.spec_rows() {
                Ok(rows) => r matches Ok(v) && v@ == rows,
                Err(e) => r matches Err(e2) && e2 == e,
            },
    ;

    /// Returns the record the store considers most recent.
    fn select_last_test(&self) -> (r: Result<TR, DataSourceError>)
        ensures
            r == self.spec_last(),
    ;
}

/// The most recent record of a non-empty row sequence: the greatest
/// identity wins, and among equal identities the earliest row.
pub open spec fn max_row(rows: Seq<TR>) -> TR
    recommends
        rows.len() > 0,
    decreases rows.len(),
{
    if rows.len() <= 1 {
        rows[0]
    } else {
        let prev = max_row(rows.drop_last());
        if rows.last().id > prev.id {
            rows.last()
        } else {
            prev
        }
    }
}

/// A scripted in-memory store: answers with its fixed rows, in their held
/// order, or fails when scripted to. Stands in for a real store wherever a
/// `Datasource` is expected.
pub struct FixedDatasource {
    pub rows: Vec<TR>,
    pub fail: bool,
}

impl Datasource for FixedDatasource {
    open spec fn spec_rows(&self) -> Result<Seq<TR>, DataSourceError> {
        if self.fail {
            Err(DataSourceError::Backend)
        } else {
            Ok(self.rows@)
        }
    }

    open spec fn spec_last(&self) -> Result<TR, DataSourceError> {
        if self.fail {
            Err(DataSourceError::Backend)
        } else if self.rows@.len() == 0 {
            Err(DataSourceError::NotFound)
        } else {
            Ok(max_row(self.rows@))
        }
    }

    fn select_all_test(&self) -> (r: Result<Vec<TR>, DataSourceError>) {
        if self.fail {
            return Err(DataSourceError::Backend);
        }
        let mut out: Vec<TR> = Vec::new();
        let mut i: usize = 0;
        while i < self.rows.len()
            invariant
                i <= self.rows@.len(),
                out@ == self.rows@.take(i as int),
            decreases self.rows@.len() - i,
        {
            out.push(self.rows[i].clone());
            proof {
                assert(self.rows@.take(i + 1) =~= self.rows@.take(i as int).push(
                    self.rows@[i as int],
                ));
            }
            i = i + 1;
        }
        proof {
            assert(self.rows@.take(self.rows@.len() as int) =~= self.rows@);
        }
        Ok(out)
    }

    fn select_last_test(&self) -> (r: Result<TR, DataSourceError>) {
        if self.fail {
            return Err(DataSourceError::Backend);
        }
        if self.rows.len() == 0 {
            return Err(DataSourceError::NotFound);
        }
        let mut best: usize = 0;
        let mut i: usize = 1;
        while i < self.rows.len()
            invariant
                best < i <= self.rows@.len(),
                self.rows@.len() > 0,
                self.rows@[best as int] == max_row(self.rows@.take(i as int)),
            decreases self.rows@.len() - i,
        {
            proof {
                assert(self.rows@.take(i + 1).drop_last() =~= self.rows@.take(i as int));
                assert(self.rows@.take(i + 1).last() == self.rows@[i as int]);
            }
            if self.rows[i].id > self.rows[best].id {
                best = i;
            }
            i = i + 1;
        }
        proof {
            assert(self.rows@.take(self.rows@.len() as int) =~= self.rows@);
        }
        Ok(self.rows[best].clone())
    }
}

} // verus!
