//! The columnar table of the points kept from a capture.
//!
//! The table has six columns, `x`, `y`, `z`, `r`, `g`, `b`, and one row per
//! kept point. All six columns always have the same length. Its view is the
//! sequence of its rows.

use crate::error::{ErrorKind, SegmentationError};
use crate::record::{decode_point, point_row, retained, PointRow, RecordValue};
use vstd::prelude::*;

verus! {

/// A table of points in six columns of equal length.
#[derive(Debug)]
pub struct PointCloudTable {
    x: Vec<u32>,
    y: Vec<u32>,
    z: Vec<u32>,
    r: Vec<i64>,
    g: Vec<i64>,
    b: Vec<i64>,
}

/// The rows that six columns of equal length hold.
pub open spec fn rows_of(
    x: Seq<u32>,
    y: Seq<u32>,
    z: Seq<u32>,
    r: Seq<i64>,
    g: Seq<i64>,
    b: Seq<i64>,
) -> Seq<PointRow> {
    Seq::new(x.len(), |i: int| PointRow { x: x[i], y: y[i], z: z[i], r: r[i], g: g[i], b: b[i] })
}

/// Whether six columns have one common length.
pub open spec fn same_length(
    x: Seq<u32>,
    y: Seq<u32>,
    z: Seq<u32>,
    r: Seq<i64>,
    g: Seq<i64>,
    b: Seq<i64>,
) -> bool {
    x.len() == y.len() && x.len() == z.len() && x.len() == r.len() && x.len() == g.len()
        && x.len() == b.len()
}

/// The views of a sequence of raw points.
pub open spec fn record_views(records: Seq<Vec<RecordValue>>) -> Seq<Seq<RecordValue>> {
    Seq::new(records.len(), |i: int| records[i]@)
}

/// The detail text of the failure to put columns of different lengths together.
pub open spec fn unequal_columns_text() -> Seq<char> {
    "the six columns do not have the same length"@
}

impl View for PointCloudTable {
    type V = Seq<PointRow>;

    closed spec fn view(&self) -> Seq<PointRow> {
        rows_of(self.x@, self.y@, self.z@, self.r@, self.g@, self.b@)
    }
}

impl PointCloudTable {
    #[verifier::type_invariant]
    spec fn columns_agree(self) -> bool {
        same_length(self.x@, self.y@, self.z@, self.r@, self.g@, self.b@)
    }

    /// The table without rows.
    pub fn new() -> (table: PointCloudTable)
        ensures
            table@ == Seq::<PointRow>::empty(),
    {
        let table = PointCloudTable {
            x: Vec::new(),
            y: Vec::new(),
            z: Vec::new(),
            r: Vec::new(),
            g: Vec::new(),
            b: Vec::new(),
        };
        table
    }

    /// Puts six columns together. This succeeds exactly when the columns have
    /// one common length; the rows are then read across the columns.
    pub fn from_columns(
        x: Vec<u32>,
        y: Vec<u32>,
        z: Vec<u32>,
        r: Vec<i64>,
        g: Vec<i64>,
        b: Vec<i64>,
    ) -> (made: Result<PointCloudTable, SegmentationError>)
        ensures
            same_length(x@, y@, z@, r@, g@, b@) ==> (made matches Ok(table) && table@ == rows_of(
                x@,
                y@,
                z@,
                r@,
                g@,
                b@,
            )),
            !same_length(x@, y@, z@, r@, g@, b@) ==> (made matches Err(e) && e@.kind
                == ErrorKind::DataFrameError && e@.detail == unequal_columns_text()),
    {
        let n = x.len();
        if y.len() == n && z.len() == n && r.len() == n && g.len() == n && b.len() == n {
            Ok(PointCloudTable { x, y, z, r, g, b })
        } else {
            Err(
                SegmentationError::DataFrameError(
                    String::from_str("the six columns do not have the same length"),
                ),
            )
        }
    }

    /// The number of rows.
    pub fn len(&self) -> (n: usize)
        ensures
            n == self@.len(),
    {
        self.x.len()
    }

    /// Whether the table has no rows.
    pub fn is_empty(&self) -> (empty: bool)
        ensures
            empty == (self@.len() == 0),
    {
        self.x.len() == 0
    }

    /// The row at `index`.
    pub fn row(&self, index: usize) -> (row: PointRow)
        requires
            index < self@.len(),
        ensures
            row == self@[index as int],
    {
        proof {
            use_type_invariant(self);
        }
        PointRow {
            x: self.x[index],
            y: self.y[index],
            z: self.z[index],
            r: self.r[index],
            g: self.g[index],
            b: self.b[index],
        }
    }

    /// The row at `index`, or `None` where the table has no such row.
    pub fn get(&self, index: usize) -> (row: Option<PointRow>)
        ensures
            index < self@.len() ==> row == Some(self@[index as int]),
            index >= self@.len() ==> row is None,
    {
        if index < self.len() {
            Some(self.row(index))
        } else {
            None
        }
    }

    /// The table with one more row at the end.
    pub fn with_row(self, row: PointRow) -> (table: PointCloudTable)
        ensures
            table@ == self@.push(row),
    {
        proof {
            use_type_invariant(&self);
        }
        let PointCloudTable { mut x, mut y, mut z, mut r, mut g, mut b } = self;
        x.push(row.x);
        y.push(row.y);
        z.push(row.z);
        r.push(row.r);
        g.push(row.g);
        b.push(row.b);
        let table = PointCloudTable { x, y, z, r, g, b };
        table
    }

    /// Adds one row at the end.
    pub fn push(&mut self, row: PointRow)
        ensures
            final(self)@ == old(self)@.push(row),
    {
        let mut taken = PointCloudTable::new();
        std::mem::swap(self, &mut taken);
        *self = taken.with_row(row);
    }

    /// Builds the table of the raw points that are kept: one row for each point
    /// of the expected shape, in the order of the points, and nothing for the
    /// others.
    pub fn from_records(records: &Vec<Vec<RecordValue>>) -> (table: PointCloudTable)
        ensures
            table@ == retained(record_views(records@)),
    {
        let ghost all = record_views(records@);
        let ghost keep = |record: Seq<RecordValue>| point_row(record);
        let mut table = PointCloudTable::new();
        let mut i: usize = 0;
        while i < records.len()
            invariant
                i <= records.len(),
                all == record_views(records@),
                keep == |record: Seq<RecordValue>| point_row(record),
                table@ == all.take(i as int).filter_map(keep),
            decreases records.len() - i,
        {
            proof {
                all.lemma_filter_map_take_succ(keep, i as int);
            }
            match decode_point(records[i].as_slice()) {
                Some(row) => {
                    table.push(row);
                },
                None => {},
            }
            i = i + 1;
        }
        assert(all.take(i as int) =~= all);
        table
    }
}

} // verus!
