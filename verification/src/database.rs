//! Values and result sets as the SQL connector reads them from a database,
//! and the connector's error type.

use vstd::prelude::*;
use crate::datetime::UtcDateTime;

verus! {

/// A value in a query or a result row.
#[derive(Debug)]
pub enum DbValue {
    Null,
    Integer(i64),
    Text(String),
    Boolean(bool),
    DateTime(UtcDateTime),
}

impl DbValue {
    /// The value as an `i64`, when it is an integer.
    pub open spec fn spec_as_i64(self) -> Option<i64> {
        match self {
            DbValue::Integer(i) => Some(i),
            _ => None,
        }
    }

    /// The value as an `i64`, when it is an integer.
    pub fn as_i64(&self) -> (res: Option<i64>)
        ensures
            res == self.spec_as_i64(),
    {
        match self {
            DbValue::Integer(i) => Some(*i),
            _ => None,
        }
    }
}

/// The rows that a query returned, in order; each row holds its values in
/// the order of `columns`, the names of the columns.
#[derive(Debug)]
pub struct ResultSet {
    pub columns: Vec<String>,
    pub rows: Vec<Vec<DbValue>>,
}

/// The position of the first column named `name`.
pub open spec fn column_position(columns: Seq<String>, name: Seq<char>) -> Option<int>
    decreases columns.len(),
{
    if columns.len() == 0 {
        None
    } else if columns[0]@ == name {
        Some(0)
    } else {
        match column_position(columns.drop_first(), name) {
            Some(k) => Some(k + 1),
            None => None,
        }
    }
}

/// The first column named `name` is at position `k`.
pub proof fn lemma_column_position_at(columns: Seq<String>, name: Seq<char>, k: int)
    requires
        0 <= k < columns.len(),
        columns[k]@ == name,
        forall|j: int| 0 <= j < k ==> (#[trigger] columns[j])@ != name,
    ensures
        column_position(columns, name) == Some(k),
    decreases k,
{
    if k > 0 {
        assert forall|j: int| 0 <= j < k - 1 implies (#[trigger] columns.drop_first()[j])@ != name by {
            assert(columns.drop_first()[j] == columns[j + 1]);
        }
        lemma_column_position_at(columns.drop_first(), name, k - 1);
    }
}

impl ResultSet {
    /// The position of the first column named `name`.
    pub fn column_index(&self, name: &str) -> (res: Option<usize>)
        ensures
            match res {
                Some(k) => column_position(self.columns@, name@) == Some(k as int),
                None => column_position(self.columns@, name@) is None,
            },
    {
        let n = self.columns.len();
        assert(self.columns@.skip(0) =~= self.columns@);
        for i in 0..n
            invariant
                n == self.columns@.len(),
                column_position(self.columns@, name@) == match column_position(
                    self.columns@.skip(i as int),
                    name@,
                ) {
                    Some(k) => Some(k + i),
                    None => None,
                },
        {
            proof {
                assert(self.columns@.skip(i as int)[0] == self.columns@[i as int]);
                assert(self.columns@.skip(i as int).drop_first() =~= self.columns@.skip(i + 1));
            }
            if crate::text::str_eq(self.columns[i].as_str(), name) {
                return Some(i);
            }
        }
        assert(self.columns@.skip(n as int).len() == 0);
        None
    }

    /// The first column of the first row, as an `i64`: `None` when there is
    /// no row, `Some(None)` when that row has no first column or it is not an
    /// integer.
    pub open spec fn spec_first_count(self) -> Option<Option<i64>> {
        if self.rows@.len() == 0 {
            None
        } else if self.rows@[0]@.len() == 0 {
            Some(None)
        } else {
            Some(self.rows@[0]@[0].spec_as_i64())
        }
    }

    /// The first column of the first row, as an `i64` (see `spec_first_count`).
    pub fn first_count(&self) -> (res: Option<Option<i64>>)
        ensures
            res == self.spec_first_count(),
    {
        if self.rows.len() == 0 {
            None
        } else if self.rows[0].len() == 0 {
            Some(None)
        } else {
            Some(self.rows[0][0].as_i64())
        }
    }
}

/// Errors of the SQL connector.
#[derive(Debug)]
pub enum SqlError {
    /// An error with a message.
    Generic(String),
    /// An error that the database reported for a query.
    QueryError(String),
}

} // verus!
