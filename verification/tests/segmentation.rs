use e57::{E57Writer, Record, RecordDataType, RecordName, RecordValue as Raw};
use sail::capture::{load, Capture};
use sail::document::{dummy_ifc, enrich, has_labels, save, Document, Label};
use sail::engine::{SegmentationEngine, SegmentationEngineMsg};
use sail::error::{ErrorKind, SegmentationError};
use sail::params::SegmentationParams;
use sail::record::PointRow;
use std::io::Cursor;

/// The bytes of a capture with one point cloud of coloured single-precision points.
fn capture_of(points: &[(f32, f32, f32, i64, i64, i64)]) -> Vec<u8> {
    let mut cursor = Cursor::new(Vec::new());
    {
        let mut writer = E57Writer::new(&mut cursor, "capture").unwrap();
        let prototype = vec![
            Record::CARTESIAN_X_F32,
            Record::CARTESIAN_Y_F32,
            Record::CARTESIAN_Z_F32,
            Record::COLOR_RED_U8,
            Record::COLOR_GREEN_U8,
            Record::COLOR_BLUE_U8,
        ];
        let mut cloud = writer.add_pointcloud("cloud", prototype).unwrap();
        for p in points {
            cloud
                .add_point(vec![
                    Raw::Single(p.0),
                    Raw::Single(p.1),
                    Raw::Single(p.2),
                    Raw::Integer(p.3),
                    Raw::Integer(p.4),
                    Raw::Integer(p.5),
                ])
                .unwrap();
        }
        cloud.finalize().unwrap();
        writer.finalize().unwrap();
    }
    cursor.into_inner()
}

/// A capture with one point cloud of four coloured points.
fn valid_capture() -> Vec<u8> {
    capture_of(&[
        (0.0, 0.0, 0.0, 255, 0, 0),
        (1.0, 0.0, 0.5, 0, 255, 0),
        (0.0, 1.0, 2.5, 0, 0, 255),
        (-1.5, 1.0, 3.0, 10, 20, 30),
    ])
}

/// A capture whose point cloud stores its positions in double precision.
fn double_precision_capture() -> Vec<u8> {
    let mut cursor = Cursor::new(Vec::new());
    {
        let mut writer = E57Writer::new(&mut cursor, "capture").unwrap();
        let prototype =
            vec![Record::CARTESIAN_X_F64, Record::CARTESIAN_Y_F64, Record::CARTESIAN_Z_F64];
        let mut cloud = writer.add_pointcloud("cloud", prototype).unwrap();
        cloud.add_point(vec![Raw::Double(1.0), Raw::Double(2.0), Raw::Double(3.0)]).unwrap();
        cloud.add_point(vec![Raw::Double(4.0), Raw::Double(5.0), Raw::Double(6.0)]).unwrap();
        cloud.finalize().unwrap();
        writer.finalize().unwrap();
    }
    cursor.into_inner()
}

/// A capture that holds no point cloud at all.
fn cloudless_capture() -> Vec<u8> {
    let mut cursor = Cursor::new(Vec::new());
    {
        let mut writer = E57Writer::new(&mut cursor, "capture").unwrap();
        writer.finalize().unwrap();
    }
    cursor.into_inner()
}

fn start(file_path: &str, params: SegmentationParams, capture: Capture) -> SegmentationEngineMsg {
    SegmentationEngineMsg::Start { file_path: file_path.into(), params, capture }
}

fn missing() -> Capture {
    Capture::Unreadable("No such file or directory (os error 2)".into())
}

#[test]
fn segmentation_engine_test_usage() {
    // Client instantiates the SegmentationEngine in its Idle state
    let mut engine = SegmentationEngine::new();

    // Client prepares parameters for segmentation
    let params = SegmentationParams::default();

    // Client sends a "Start" message with a valid input file
    let start_result =
        engine.send(start("test/segmentation/test.e57", params, Capture::Bytes(valid_capture())));

    assert!(start_result.is_ok(), "Segmentation should start succestest");

    // Manually move to completed state for this test
    engine = SegmentationEngine::Completed(dummy_ifc());

    // Client now requests an export to IFC
    let export_result =
        engine.send(SegmentationEngineMsg::Export { output_path: "output.ifc".into() });

    assert!(export_result.is_ok(), "Export should succeed once Completed");
}

#[test]
fn test_start_from_idle_with_valid_file() {
    let mut seg = SegmentationEngine::new();
    let params = SegmentationParams::default();
    let result = seg.send(start("test_data/valid.e57", params, Capture::Bytes(valid_capture())));
    assert!(result.is_ok());
    match seg {
        SegmentationEngine::Running | SegmentationEngine::Completed(_) => {}
        _ => panic!("Engine did not transition correctly"),
    }
}

#[test]
fn test_start_with_invalid_file() {
    let mut seg = SegmentationEngine::new();
    let params = SegmentationParams::default();
    let result = seg.send(start("missing_file.e57", params, missing()));
    assert!(result.is_err());
    match seg {
        SegmentationEngine::Failed(_) => {}
        _ => panic!("Engine should have failed"),
    }
}

#[test]
fn test_start_when_not_idle() {
    let mut engine = SegmentationEngine::new();
    let params = SegmentationParams::default();
    // First start (ok)
    engine
        .send(start("test_data/valid.e57", params.clone(), Capture::Bytes(valid_capture())))
        .unwrap();
    // Second start should fail unless reset
    let result =
        engine.send(start("test_data/valid.e57", params.clone(), Capture::Bytes(valid_capture())));
    assert!(result.is_err());
}

#[test]
fn test_export_after_completion() {
    let mut seg = SegmentationEngine::Completed(dummy_ifc());
    let result = seg.send(SegmentationEngineMsg::Export { output_path: "out.ifc".into() });
    assert!(result.is_ok());
}

#[test]
fn test_export_when_incomplete() {
    let mut seg = SegmentationEngine::Running;
    let result = seg.send(SegmentationEngineMsg::Export { output_path: "out.ifc".into() });
    assert!(result.is_err());
}

#[test]
fn test_parse_valid_file() {
    let result = load("test/segmentation/test.e57", Capture::Bytes(valid_capture()));

    if !result.is_ok() {
        panic!("Failed to parse valid file: {:?}", result.err());
    }
    assert!(result.is_ok());
}

#[test]
fn test_parse_invalid_file() {
    let result = load("test_data/corrupt.e57", Capture::Bytes(vec![0x13; 2048]));
    assert!(result.is_err());
}

#[test]
fn test_save_ifc_to_path() {
    let ifc = dummy_ifc();
    let result = save(Some("out.ifc"), &ifc);
    assert!(result.is_ok());
}

#[test]
fn test_save_ifc_in_memory() {
    let ifc = dummy_ifc();
    let result = save(None, &ifc).unwrap();
    // should return same IFC object when no path is given
    assert_eq!(result, ifc);
}

#[test]
fn test_segmentation_labels_applied() {
    let params = SegmentationParams::default();
    let e57 = load("test_data/valid.e57", Capture::Bytes(valid_capture())).unwrap();
    let ifc = enrich(e57, params).unwrap();
    assert!(has_labels(&ifc, &["Wall", "Floor", "Slab"]));
}

#[test]
fn test_segmentation_params_affect_output() {
    let params_a = SegmentationParams::from_voxel_bits(0.1f32.to_bits());
    let params_b = SegmentationParams::from_voxel_bits(0.5f32.to_bits());

    let e57_a = load("test_data/valid.e57", Capture::Bytes(valid_capture())).unwrap();
    let e57_b = load("test_data/valid.e57", Capture::Bytes(valid_capture())).unwrap();
    let ifc_a = enrich(e57_a, params_a).unwrap();
    let ifc_b = enrich(e57_b, params_b).unwrap();

    assert_ne!(ifc_a, ifc_b, "Different params should yield different results");
}

// ---- the reader ----

#[test]
fn load_keeps_every_well_formed_point_with_its_values() {
    let table = load("scan.e57", Capture::Bytes(valid_capture())).unwrap();
    assert_eq!(table.len(), 4);
    assert_eq!(
        table.row(0),
        PointRow { x: 0.0f32.to_bits(), y: 0.0f32.to_bits(), z: 0.0f32.to_bits(), r: 255, g: 0, b: 0 }
    );
    assert_eq!(
        table.row(3),
        PointRow {
            x: (-1.5f32).to_bits(),
            y: 1.0f32.to_bits(),
            z: 3.0f32.to_bits(),
            r: 10,
            g: 20,
            b: 30
        }
    );
    assert_eq!(table.get(4), None);
}

#[test]
fn load_of_an_unreadable_path_is_file_not_found() {
    let failure = load("missing_file.e57", missing()).unwrap_err();
    assert_eq!(failure.kind(), ErrorKind::FileNotFound);
    assert_eq!(
        failure.detail(),
        "Could not open missing_file.e57: No such file or directory (os error 2)"
    );
    assert_eq!(
        failure.message(),
        "File not found: Could not open missing_file.e57: No such file or directory (os error 2)"
    );
}

#[test]
fn load_of_an_unparsable_container_is_invalid_format() {
    let failure = load("corrupt.e57", Capture::Bytes(vec![0x13; 2048])).unwrap_err();
    assert_eq!(failure.kind(), ErrorKind::InvalidFormat);
    assert!(failure.detail().starts_with("Invalid E57 format: "));
    // the parser's own account follows the heading
    assert!(failure.detail().len() > "Invalid E57 format: ".len());
    assert!(failure.detail().contains("signature"));
}

#[test]
fn load_of_no_bytes_is_invalid_format() {
    let failure = load("empty.e57", Capture::Bytes(Vec::new())).unwrap_err();
    assert_eq!(failure.kind(), ErrorKind::InvalidFormat);
}

#[test]
fn load_of_a_capture_without_point_clouds_is_load_error() {
    let failure = load("empty.e57", Capture::Bytes(cloudless_capture())).unwrap_err();
    assert_eq!(
        failure,
        SegmentationError::LoadError("the capture holds no point cloud".into())
    );
}

#[test]
fn load_skips_points_of_another_shape_without_failing() {
    let table = load("doubles.e57", Capture::Bytes(double_precision_capture())).unwrap();
    assert_eq!(table.len(), 0);
    assert!(table.is_empty());
}

#[test]
fn load_of_a_capture_with_a_damaged_data_section_is_load_error() {
    let mut bytes = capture_of(&[(1.0, 2.0, 3.0, 1, 2, 3); 300]);
    // the header is 48 bytes long; the data of the first point cloud follows it
    // in the first page, whose checksum no longer matches
    bytes[200] ^= 0xff;
    let failure = load("damaged.e57", Capture::Bytes(bytes)).unwrap_err();
    assert!(
        failure.kind() == ErrorKind::LoadError || failure.kind() == ErrorKind::InvalidFormat
    );
}

#[test]
fn load_selects_the_first_point_cloud() {
    let mut cursor = Cursor::new(Vec::new());
    {
        let mut writer = E57Writer::new(&mut cursor, "capture").unwrap();
        let prototype = vec![
            Record::CARTESIAN_X_F32,
            Record::CARTESIAN_Y_F32,
            Record::CARTESIAN_Z_F32,
            Record::COLOR_RED_U8,
            Record::COLOR_GREEN_U8,
            Record::COLOR_BLUE_U8,
        ];
        let mut first = writer.add_pointcloud("first", prototype.clone()).unwrap();
        first
            .add_point(vec![
                Raw::Single(7.0),
                Raw::Single(8.0),
                Raw::Single(9.0),
                Raw::Integer(1),
                Raw::Integer(2),
                Raw::Integer(3),
            ])
            .unwrap();
        first.finalize().unwrap();
        let mut second = writer.add_pointcloud("second", prototype).unwrap();
        for _ in 0..5 {
            second
                .add_point(vec![
                    Raw::Single(0.0),
                    Raw::Single(0.0),
                    Raw::Single(0.0),
                    Raw::Integer(0),
                    Raw::Integer(0),
                    Raw::Integer(0),
                ])
                .unwrap();
        }
        second.finalize().unwrap();
        writer.finalize().unwrap();
    }
    let table = load("two.e57", Capture::Bytes(cursor.into_inner())).unwrap();
    assert_eq!(table.len(), 1);
    assert_eq!(
        table.row(0),
        PointRow { x: 7.0f32.to_bits(), y: 8.0f32.to_bits(), z: 9.0f32.to_bits(), r: 1, g: 2, b: 3 }
    );
}

/// The checksum that closes each page of a capture file.
fn page_checksum(data: &[u8]) -> u32 {
    let mut sum: u32 = !0;
    for &byte in data {
        sum ^= byte as u32;
        for _ in 0..8 {
            sum = if sum & 1 == 1 { (sum >> 1) ^ 0x82f6_3b78 } else { sum >> 1 };
        }
    }
    !sum
}

/// Replaces every `from` by `to` in the content of a capture file, and closes
/// each page with its checksum again.
fn rewritten(bytes: &[u8], from: &[u8], to: &[u8]) -> Vec<u8> {
    assert_eq!(from.len(), to.len());
    assert_eq!(bytes.len() % 1024, 0);
    let mut content: Vec<u8> = Vec::new();
    for page in bytes.chunks(1024) {
        content.extend_from_slice(&page[..1020]);
    }
    let mut at = 48;
    while at + from.len() <= content.len() {
        if &content[at..at + from.len()] == from {
            content[at..at + from.len()].copy_from_slice(to);
        }
        at += 1;
    }
    let mut out: Vec<u8> = Vec::new();
    for page in content.chunks(1020) {
        out.extend_from_slice(page);
        out.extend_from_slice(&page_checksum(page).to_be_bytes());
    }
    out
}

#[test]
fn rewriting_nothing_gives_the_same_capture() {
    let bytes = valid_capture();
    assert_eq!(rewritten(&bytes, b"no such text", b"no such text"), bytes);
}

#[test]
fn load_refuses_a_point_cloud_whose_fields_take_up_no_bits() {
    let mut cursor = Cursor::new(Vec::new());
    {
        let mut writer = E57Writer::new(&mut cursor, "capture").unwrap();
        let narrow = RecordDataType::ScaledInteger { min: 0, max: 1, scale: 1.0, offset: 0.0 };
        let prototype = vec![
            Record { name: RecordName::CartesianX, data_type: narrow.clone() },
            Record { name: RecordName::CartesianY, data_type: narrow.clone() },
            Record { name: RecordName::CartesianZ, data_type: narrow },
        ];
        let mut cloud = writer.add_pointcloud("cloud", prototype).unwrap();
        cloud
            .add_point(vec![Raw::ScaledInteger(0), Raw::ScaledInteger(1), Raw::ScaledInteger(0)])
            .unwrap();
        cloud.finalize().unwrap();
        writer.finalize().unwrap();
    }
    let narrow = cursor.into_inner();
    // as written, the point cloud can be read; its points are of another shape
    let table = load("narrow.e57", Capture::Bytes(narrow.clone())).unwrap();
    assert_eq!(table.len(), 0);

    // with every range shrunk to one value, no field takes up any bits
    let flat = rewritten(&narrow, b"minimum=\"0\" maximum=\"1\"", b"minimum=\"0\" maximum=\"0\"");
    assert_ne!(flat, narrow);
    let failure = load("flat.e57", Capture::Bytes(flat)).unwrap_err();
    assert_eq!(
        failure,
        SegmentationError::LoadError(
            "the first point cloud has fields, but none that takes up any bits".into()
        )
    );
}

// ---- the enrichment stage and the serializer ----

#[test]
fn enrich_is_deterministic() {
    let params = SegmentationParams::from_voxel_bits(0.25f32.to_bits());
    let first = enrich(load("a.e57", Capture::Bytes(valid_capture())).unwrap(), params).unwrap();
    let second = enrich(load("a.e57", Capture::Bytes(valid_capture())).unwrap(), params).unwrap();
    assert_eq!(first, second);
    assert_eq!(first.points(), 4);
    assert_eq!(first.voxel_size_bits(), 0.25f32.to_bits());
    assert_eq!(first.labels(), &vec![Label::Wall, Label::Floor, Label::Slab]);
}

#[test]
fn documents_of_tables_of_different_size_differ() {
    let params = SegmentationParams::default();
    let four = enrich(load("a.e57", Capture::Bytes(valid_capture())).unwrap(), params).unwrap();
    let none =
        enrich(load("b.e57", Capture::Bytes(double_precision_capture())).unwrap(), params).unwrap();
    assert_ne!(four, none);
    assert_eq!(none, dummy_ifc());
}

#[test]
fn has_labels_checks_against_the_vocabulary() {
    let doc = dummy_ifc();
    assert!(has_labels(&doc, &[]));
    assert!(has_labels(&doc, &["Wall"]));
    assert!(has_labels(&doc, &["Slab", "Slab", "Floor"]));
    assert!(!has_labels(&doc, &["NoSuchLabel"]));
    assert!(!has_labels(&doc, &["Wall", "NoSuchLabel"]));
    assert!(!has_labels(&doc, &["wall"]));
    assert!(!has_labels(&doc, &[""]));
    assert!(doc.has_label(Label::Floor));
    assert_eq!(Label::parse("Floor"), Some(Label::Floor));
    assert_eq!(Label::parse("Roof"), None);
}

#[test]
fn a_document_carries_the_labels_it_was_made_with() {
    let doc = Document::from_parts(9, 2, vec![Label::Slab, Label::Wall]);
    assert_eq!(doc.voxel_size_bits(), 9);
    assert_eq!(doc.points(), 2);
    assert_eq!(doc.labels(), &vec![Label::Slab, Label::Wall]);
    assert!(has_labels(&doc, &["Wall", "Slab"]));
    assert!(has_labels(&doc, &[]));
    assert!(!has_labels(&doc, &["Floor"]));
    assert!(!has_labels(&doc, &["Wall", "Floor"]));
    assert!(!doc.has_label(Label::Floor));
    // the order of the labels is part of the document
    assert_ne!(doc, Document::from_parts(9, 2, vec![Label::Wall, Label::Slab]));
    assert_ne!(doc, Document::from_parts(9, 3, vec![Label::Slab, Label::Wall]));
    assert_ne!(doc, Document::from_parts(8, 2, vec![Label::Slab, Label::Wall]));
    assert_eq!(doc, Document::from_parts(9, 2, vec![Label::Slab, Label::Wall]));
    let empty = Document::from_parts(0, 0, vec![]);
    assert!(has_labels(&empty, &[]));
    assert!(!has_labels(&empty, &["Wall"]));
}

#[test]
fn every_label_is_read_back_from_its_name() {
    for label in [Label::Wall, Label::Floor, Label::Slab] {
        assert_eq!(Label::parse(label.as_str()), Some(label));
    }
    assert_eq!(Label::Wall.as_str(), "Wall");
    assert_eq!(Label::Floor.as_str(), "Floor");
    assert_eq!(Label::Slab.as_str(), "Slab");
}

#[test]
fn save_hands_back_an_equal_document_with_or_without_a_path() {
    let params = SegmentationParams::from_voxel_bits(7);
    let doc = enrich(load("a.e57", Capture::Bytes(valid_capture())).unwrap(), params).unwrap();
    assert_eq!(save(None, &doc).unwrap(), doc);
    assert_eq!(save(Some("out.doc"), &doc).unwrap(), doc);
    assert_eq!(doc.clone(), doc);
}

#[test]
fn default_params_have_a_zero_voxel_size() {
    assert_eq!(SegmentationParams::default().voxel_size_bits(), 0.0f32.to_bits());
    assert_eq!(SegmentationParams::from_voxel_bits(5).voxel_size_bits(), 5);
    assert_eq!(SegmentationParams::default(), SegmentationParams::from_voxel_bits(0));
}

// ---- the engine ----

#[test]
fn a_new_engine_is_idle() {
    let engine = SegmentationEngine::new();
    assert!(engine.is_idle());
    assert!(!engine.is_completed());
    assert!(engine.document().is_none());
}

#[test]
fn start_with_a_nonexistent_path_fails_and_export_is_then_incomplete() {
    let mut engine = SegmentationEngine::new();
    let answer = engine.send(start("nowhere.e57", SegmentationParams::default(), missing()));
    let failure = answer.unwrap_err();
    assert_eq!(failure.kind(), ErrorKind::FileNotFound);
    match &engine {
        SegmentationEngine::Failed(held) => assert_eq!(held, &failure),
        _ => panic!("the engine should have failed"),
    }
    let export = engine.send(SegmentationEngineMsg::Export { output_path: "out.doc".into() });
    assert_eq!(
        export,
        Err(SegmentationError::Incomplete(
            "The segmentation has not started / is still incomplete".into()
        ))
    );
    assert!(matches!(engine, SegmentationEngine::Failed(_)));
}

#[test]
fn start_with_a_minimal_capture_completes_with_a_labelled_document() {
    let mut engine = SegmentationEngine::new();
    let answer =
        engine.send(start("four.e57", SegmentationParams::default(), Capture::Bytes(valid_capture())));
    assert_eq!(answer, Ok(()));
    assert!(engine.is_completed());
    let doc = engine.document().unwrap();
    assert_eq!(doc.points(), 4);
    assert!(doc.has_labels(&[]));
    assert!(!doc.has_labels(&["NoSuchLabel"]));
}

#[test]
fn export_from_completed_succeeds_again_and_again() {
    let mut engine = SegmentationEngine::Completed(dummy_ifc());
    let first = engine.send(SegmentationEngineMsg::Export { output_path: "out.doc".into() });
    assert_eq!(first, Ok(()));
    assert!(engine.is_completed());
    let second = engine.send(SegmentationEngineMsg::Export { output_path: "other.doc".into() });
    assert_eq!(second, Ok(()));
    assert_eq!(engine.document(), Some(&dummy_ifc()));
    assert_eq!(engine.export(Some("third.doc")).unwrap(), dummy_ifc());
    assert_eq!(engine.export(None).unwrap(), dummy_ifc());
}

#[test]
fn a_second_start_is_incomplete_whatever_the_first_gave() {
    // first start succeeds
    let mut engine = SegmentationEngine::new();
    let params = SegmentationParams::default();
    assert!(engine.send(start("a.e57", params, Capture::Bytes(valid_capture()))).is_ok());
    let again = engine.send(start("a.e57", params, Capture::Bytes(valid_capture())));
    assert_eq!(again.unwrap_err().kind(), ErrorKind::Incomplete);
    assert_eq!(engine.document().unwrap().points(), 4);

    // first start fails
    let mut engine = SegmentationEngine::new();
    assert!(engine.send(start("a.e57", params, missing())).is_err());
    let again = engine.send(start("a.e57", params, Capture::Bytes(valid_capture())));
    assert_eq!(
        again,
        Err(SegmentationError::Incomplete(
            "The engine is not idle: a segmentation has already been started".into()
        ))
    );
    match engine {
        SegmentationEngine::Failed(held) => assert_eq!(held.kind(), ErrorKind::FileNotFound),
        _ => panic!("the engine should still be failed"),
    }
}

#[test]
fn start_is_refused_by_a_running_engine() {
    let mut engine = SegmentationEngine::Running;
    let answer = engine.send(start(
        "a.e57",
        SegmentationParams::default(),
        Capture::Bytes(valid_capture()),
    ));
    assert_eq!(answer.unwrap_err().kind(), ErrorKind::Incomplete);
    assert!(matches!(engine, SegmentationEngine::Running));
}

#[test]
fn export_is_refused_by_an_idle_engine() {
    let mut engine = SegmentationEngine::new();
    let answer = engine.send(SegmentationEngineMsg::Export { output_path: "out.doc".into() });
    assert_eq!(answer.unwrap_err().kind(), ErrorKind::Incomplete);
    assert!(engine.is_idle());
    assert!(engine.export(None).is_err());
}

#[test]
fn two_fresh_engines_give_equal_documents() {
    let params = SegmentationParams::from_voxel_bits(0.1f32.to_bits());
    let mut first = SegmentationEngine::new();
    let mut second = SegmentationEngine::new();
    first.send(start("a.e57", params, Capture::Bytes(valid_capture()))).unwrap();
    second.send(start("a.e57", params, Capture::Bytes(valid_capture()))).unwrap();
    assert_eq!(first.document(), second.document());

    let mut third = SegmentationEngine::new();
    let other = SegmentationParams::from_voxel_bits(0.5f32.to_bits());
    third.send(start("a.e57", other, Capture::Bytes(valid_capture()))).unwrap();
    assert_ne!(first.document(), third.document());
}

#[test]
fn start_with_an_unparsable_capture_fails_with_invalid_format() {
    let mut engine = SegmentationEngine::new();
    let answer = engine.send(start(
        "corrupt.e57",
        SegmentationParams::default(),
        Capture::Bytes(b"not a capture".to_vec()),
    ));
    let failure = answer.unwrap_err();
    assert_eq!(failure.kind(), ErrorKind::InvalidFormat);
    match engine {
        SegmentationEngine::Failed(held) => assert_eq!(held, failure),
        _ => panic!("the engine should have failed"),
    }
}

#[test]
fn each_kind_has_its_heading() {
    assert_eq!(SegmentationError::LoadError("x".into()).message(), "Load error: x");
    assert_eq!(SegmentationError::Incomplete("x".into()).message(), "Incomplete operation: x");
    assert_eq!(SegmentationError::FileNotFound("x".into()).message(), "File not found: x");
    assert_eq!(SegmentationError::InvalidFormat("x".into()).message(), "Invalid file format: x");
    assert_eq!(
        SegmentationError::DataFrameError("x".into()).message(),
        "Cannot generate dataframe from supplied data: x"
    );
    let failure = SegmentationError::InvalidFormat("bad header".into());
    assert_eq!(failure.clone(), failure);
    assert_eq!(failure.kind(), ErrorKind::InvalidFormat);
    assert_eq!(failure.detail(), "bad header");
}
