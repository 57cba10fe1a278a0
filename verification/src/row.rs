//! Rows / records: sequences of SQL values.
use vstd::prelude::*;

use crate::value::sql_value::SqlValue;

verus! {

/// A row (or a record): SQL values in field order.
#[derive(PartialEq, Debug)]
pub struct Row {
    values: Vec<SqlValue>,
}

/// Another name of [Row], used for records of query results.
pub type Record = Row;

impl Clone for Row {
    fn clone(&self) -> (r: Self)
        ensures
            r@ == self@,
    {
        let mut values: Vec<SqlValue> = Vec::new();
        let mut i: usize = 0;
        while i < self.values.len()
            invariant
                i <= self.values@.len(),
                values@ == self.values@.take(i as int),
            decreases self.values@.len() - i,
        {
            values.push(self.values[i].clone());
            i = i + 1;
            assert(values@ =~= self.values@.take(i as int));
        }
        assert(self.values@.take(self.values@.len() as int) =~= self.values@);
        Row { values }
    }
}

impl View for Row {
    type V = Seq<SqlValue>;

    closed spec fn view(&self) -> Seq<SqlValue> {
        self.values@
    }
}

impl Row {
    /// A row of these values.
    pub fn factory(values: Vec<SqlValue>) -> (r: Self)
        ensures
            r@ == values@,
    {
        Row { values }
    }

    /// The values of this row.
    pub fn values(&self) -> (r: &[SqlValue])
        ensures
            r@ == self@,
    {
        self.values.as_slice()
    }
}

} // verus!
