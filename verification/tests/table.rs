use sail::error::{ErrorKind, SegmentationError};
use sail::record::{decode_point, is_retained, PointRow, RecordValue};
use sail::table::PointCloudTable;

fn point(x: u32, y: u32, z: u32, r: i64, g: i64, b: i64) -> Vec<RecordValue> {
    vec![
        RecordValue::Single(x),
        RecordValue::Single(y),
        RecordValue::Single(z),
        RecordValue::Integer(r),
        RecordValue::Integer(g),
        RecordValue::Integer(b),
    ]
}

#[test]
fn a_point_of_the_expected_shape_is_decoded() {
    let record = point(1, 2, 3, 4, 5, 6);
    assert!(is_retained(&record));
    assert_eq!(decode_point(&record), Some(PointRow { x: 1, y: 2, z: 3, r: 4, g: 5, b: 6 }));
}

#[test]
fn points_of_other_shapes_are_skipped() {
    // too short, too long, empty
    assert_eq!(decode_point(&point(1, 2, 3, 4, 5, 6)[..5]), None);
    let mut long = point(1, 2, 3, 4, 5, 6);
    long.push(RecordValue::Integer(7));
    assert_eq!(decode_point(&long), None);
    assert_eq!(decode_point(&[]), None);
    // a wrong kind in each position
    for at in 0..6 {
        let mut record = point(1, 2, 3, 4, 5, 6);
        record[at] = RecordValue::Double(9);
        assert!(!is_retained(&record), "position {}", at);
        record[at] = RecordValue::ScaledInteger(9);
        assert!(!is_retained(&record), "position {}", at);
    }
    // positions and colours swapped
    let swapped = vec![
        RecordValue::Integer(4),
        RecordValue::Integer(5),
        RecordValue::Integer(6),
        RecordValue::Single(1),
        RecordValue::Single(2),
        RecordValue::Single(3),
    ];
    assert!(!is_retained(&swapped));
}

#[test]
fn malformed_points_beside_well_formed_ones_leave_only_the_well_formed_rows() {
    let records = vec![
        point(1, 1, 1, 10, 10, 10),
        vec![RecordValue::Double(5), RecordValue::Double(5), RecordValue::Double(5)],
        point(2, 2, 2, 20, 20, 20),
        vec![],
        point(3, 3, 3, 30, 30, 30),
        vec![RecordValue::Integer(1); 6],
    ];
    let table = PointCloudTable::from_records(&records);
    assert_eq!(table.len(), 3);
    assert_eq!(table.row(0), PointRow { x: 1, y: 1, z: 1, r: 10, g: 10, b: 10 });
    assert_eq!(table.row(1), PointRow { x: 2, y: 2, z: 2, r: 20, g: 20, b: 20 });
    assert_eq!(table.row(2), PointRow { x: 3, y: 3, z: 3, r: 30, g: 30, b: 30 });
}

#[test]
fn no_points_give_an_empty_table() {
    let table = PointCloudTable::from_records(&vec![]);
    assert!(table.is_empty());
    assert_eq!(table.get(0), None);
    assert!(PointCloudTable::new().is_empty());
}

#[test]
fn columns_of_one_length_are_put_together() {
    let table = PointCloudTable::from_columns(
        vec![1, 2],
        vec![3, 4],
        vec![5, 6],
        vec![7, 8],
        vec![9, 10],
        vec![11, 12],
    )
    .unwrap();
    assert_eq!(table.len(), 2);
    assert_eq!(table.row(0), PointRow { x: 1, y: 3, z: 5, r: 7, g: 9, b: 11 });
    assert_eq!(table.row(1), PointRow { x: 2, y: 4, z: 6, r: 8, g: 10, b: 12 });
}

#[test]
fn columns_of_different_lengths_are_a_data_frame_error() {
    let failure = PointCloudTable::from_columns(
        vec![1, 2],
        vec![3, 4],
        vec![5, 6],
        vec![7],
        vec![9, 10],
        vec![11, 12],
    )
    .unwrap_err();
    assert_eq!(failure.kind(), ErrorKind::DataFrameError);
    assert_eq!(
        failure,
        SegmentationError::DataFrameError("the six columns do not have the same length".into())
    );
    assert!(PointCloudTable::from_columns(vec![], vec![], vec![], vec![], vec![], vec![1]).is_err());
    assert!(PointCloudTable::from_columns(vec![], vec![], vec![], vec![], vec![], vec![]).is_ok());
}

#[test]
fn rows_are_added_at_the_end() {
    let mut table = PointCloudTable::new();
    table.push(PointRow { x: 1, y: 2, z: 3, r: 4, g: 5, b: 6 });
    let table = table.with_row(PointRow { x: 7, y: 8, z: 9, r: 10, g: 11, b: 12 });
    assert_eq!(table.len(), 2);
    assert_eq!(table.get(1), Some(PointRow { x: 7, y: 8, z: 9, r: 10, g: 11, b: 12 }));
    assert_eq!(table.get(0), Some(PointRow { x: 1, y: 2, z: 3, r: 4, g: 5, b: 6 }));
}
