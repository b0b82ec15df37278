//! One raw point of a capture, and the decision whether it is kept.
//!
//! A raw point is a sequence of values. It is kept only if it has the shape of
//! a coloured cartesian point: three single-precision positions followed by
//! three integer colour channels. A point of any other shape is skipped.

use vstd::prelude::*;

verus! {

/// One value of a raw point. Floating-point values are held as their bits.
#[derive(Clone, Copy, Debug, PartialEq, Eq, Structural)]
pub enum RecordValue {
    /// The 32 bits of a single-precision number.
    Single(u32),
    /// The 64 bits of a double-precision number.
    Double(u64),
    /// A scaled integer, before scale and offset are applied.
    ScaledInteger(i64),
    /// An integer.
    Integer(i64),
}

/// One row of a point-cloud table: the bits of the three single-precision
/// positions, and the three colour channels.
#[derive(Clone, Copy, Debug, PartialEq, Eq, Structural)]
pub struct PointRow {
    pub x: u32,
    pub y: u32,
    pub z: u32,
    pub r: i64,
    pub g: i64,
    pub b: i64,
}

/// The row that a raw point gives, or `None` where its shape is not
/// single, single, single, integer, integer, integer.
pub open spec fn point_row(record: Seq<RecordValue>) -> Option<PointRow> {
    if record.len() == 6 && record[0] is Single && record[1] is Single && record[2] is Single
        && record[3] is Integer && record[4] is Integer && record[5] is Integer {
        Some(
            PointRow {
                x: record[0]->Single_0,
                y: record[1]->Single_0,
                z: record[2]->Single_0,
                r: record[3]->Integer_0,
                g: record[4]->Integer_0,
                b: record[5]->Integer_0,
            },
        )
    } else {
        None
    }
}

/// The rows of the raw points that are kept, in the order of the points.
pub open spec fn retained(records: Seq<Seq<RecordValue>>) -> Seq<PointRow> {
    records.filter_map(|record: Seq<RecordValue>| point_row(record))
}

/// Decodes one raw point: its row where it has the expected shape, else `None`.
pub fn decode_point(record: &[RecordValue]) -> (row: Option<PointRow>)
    ensures
        row == point_row(record@),
{
    if record.len() != 6 {
        return None;
    }
    match (record[0], record[1], record[2], record[3], record[4], record[5]) {
        (
            RecordValue::Single(x),
            RecordValue::Single(y),
            RecordValue::Single(z),
            RecordValue::Integer(r),
            RecordValue::Integer(g),
            RecordValue::Integer(b),
        ) => Some(PointRow { x, y, z, r, g, b }),
        _ => None,
    }
}

/// Whether a raw point is kept: true exactly for the points with the expected shape.
pub fn is_retained(record: &[RecordValue]) -> (keep: bool)
    ensures
        keep == point_row(record@).is_some(),
{
    decode_point(record).is_some()
}

/// One more raw point adds its row at the end where it has the expected
/// shape, and changes nothing where it has not.
pub proof fn lemma_retained_push(records: Seq<Seq<RecordValue>>, record: Seq<RecordValue>)
    ensures
        retained(records.push(record)) == match point_row(record) {
            Some(row) => retained(records).push(row),
            None => retained(records),
        },
{
    let all = records.push(record);
    assert(all.drop_last() =~= records);
    assert(all.last() == record);
    match point_row(record) {
        Some(row) => {
            assert(retained(records) + seq![row] =~= retained(records).push(row));
        },
        None => {},
    }
}

/// Lenient reading: the rows that are kept are exactly the rows of the raw
/// points with the expected shape. No row comes from a point of another
/// shape, and no point of the expected shape is lost.
pub proof fn lemma_retained_rows(records: Seq<Seq<RecordValue>>)
    ensures
        retained(records).len() <= records.len(),
        forall|row: PointRow|
            retained(records).contains(row) <==> exists|i: int|
                0 <= i < records.len() && point_row(#[trigger] records[i]) == Some(row),
    decreases records.len(),
{
    if records.len() > 0 {
        let rest = records.drop_last();
        let last = records.last();
        lemma_retained_rows(rest);
        assert(rest.push(last) =~= records);
        lemma_retained_push(rest, last);
        assert forall|row: PointRow|
            retained(records).contains(row) <==> exists|i: int|
                0 <= i < records.len() && point_row(#[trigger] records[i]) == Some(row) by {
            if retained(records).contains(row) {
                let k = choose|k: int|
                    0 <= k < retained(records).len() && retained(records)[k] == row;
                if point_row(last) is Some && k == retained(rest).len() {
                    assert(point_row(records[records.len() - 1]) == Some(row));
                } else {
                    assert(retained(rest)[k] == row);
                    assert(retained(rest).contains(row));
                    let i = choose|i: int|
                        0 <= i < rest.len() && point_row(#[trigger] rest[i]) == Some(row);
                    assert(records[i] == rest[i]);
                }
            }
            if exists|i: int|
                0 <= i < records.len() && point_row(#[trigger] records[i]) == Some(row) {
                let i = choose|i: int|
                    0 <= i < records.len() && point_row(#[trigger] records[i]) == Some(row);
                if i == records.len() - 1 {
                    assert(retained(records)[retained(rest).len() as int] == row);
                } else {
                    assert(rest[i] == records[i]);
                    assert(retained(rest).contains(row));
                    let k = choose|k: int| 0 <= k < retained(rest).len() && retained(rest)[k] == row;
                    assert(retained(records)[k] == row);
                }
            }
        }
    } else {
        assert(retained(records) =~= Seq::<PointRow>::empty());
    }
}

/// Where every raw point has the expected shape, every point is kept, each
/// in its place.
pub proof fn lemma_retained_all(records: Seq<Seq<RecordValue>>)
    requires
        forall|i: int| 0 <= i < records.len() ==> point_row(#[trigger] records[i]) is Some,
    ensures
        retained(records).len() == records.len(),
        forall|i: int|
            0 <= i < records.len() ==> Some(retained(records)[i]) == point_row(
                #[trigger] records[i],
            ),
    decreases records.len(),
{
    if records.len() > 0 {
        let rest = records.drop_last();
        let last = records.last();
        assert forall|i: int| 0 <= i < rest.len() implies point_row(#[trigger] rest[i]) is Some by {
            assert(rest[i] == records[i]);
        }
        lemma_retained_all(rest);
        assert(rest.push(last) =~= records);
        lemma_retained_push(rest, last);
        assert(point_row(records[records.len() - 1]) is Some);
        assert forall|i: int| 0 <= i < records.len() implies Some(retained(records)[i])
            == point_row(#[trigger] records[i]) by {
            if i < rest.len() {
                assert(rest[i] == records[i]);
            }
        }
    } else {
        assert(retained(records) =~= Seq::<PointRow>::empty());
    }
}

} // verus!
