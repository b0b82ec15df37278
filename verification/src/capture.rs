//! Reading a capture: from the bytes of a scanned-scene file to the table of
//! the points that are kept.
//!
//! The container format is decoded by the `e57` crate. This module decides what
//! is read and what each outcome means: a path that could not be opened, a
//! container that cannot be parsed, a capture without point clouds, and the
//! first point cloud's points, of which only those of the expected shape are
//! kept.

use crate::error::{ErrorKind, SegmentationError};
use crate::record::{retained, PointRow, RecordValue};
use crate::table::{record_views, PointCloudTable};
use vstd::prelude::*;

verus! {

/// What the front end found at the path of a capture.
#[derive(Clone, Debug, PartialEq, Eq)]
pub enum Capture {
    /// The path could not be opened; the text says why.
    Unreadable(String),
    /// The path was opened, and these are the bytes of the file.
    Bytes(Vec<u8>),
}

/// What a `Capture` stands for.
pub enum CaptureView {
    Unreadable(Seq<char>),
    Bytes(Seq<u8>),
}

impl View for Capture {
    type V = CaptureView;

    open spec fn view(&self) -> CaptureView {
        match self {
            Capture::Unreadable(reason) => CaptureView::Unreadable(reason@),
            Capture::Bytes(bytes) => CaptureView::Bytes(bytes@),
        }
    }
}

/// How one field of a point cloud's points is stored.
#[derive(Clone, Copy, Debug, PartialEq, Eq, Structural)]
pub enum FieldKind {
    Single,
    Double,
    ScaledInteger { min: i64, max: i64 },
    Integer { min: i64, max: i64 },
}

/// Whether values of a field take up any bits in the container: floating-point
/// fields always do, integer fields only when their range holds more than one
/// value.
pub open spec fn has_width(field: FieldKind) -> bool {
    match field {
        FieldKind::Single => true,
        FieldKind::Double => true,
        FieldKind::ScaledInteger { min, max } => min < max,
        FieldKind::Integer { min, max } => min < max,
    }
}

/// Whether a point cloud's points can be counted from the container: a layout
/// with fields, none of which takes up any bits, gives no way to tell where
/// the points end.
pub open spec fn countable(layout: Seq<FieldKind>) -> bool {
    layout.len() == 0 || exists|i: int| 0 <= i < layout.len() && has_width(#[trigger] layout[i])
}

/// An open capture: the `e57` crate's reader over the bytes of the file.
#[verifier::external_body]
pub struct CaptureReader {
    inner: e57::E57Reader<std::io::Cursor<Vec<u8>>>,
}

/// The error type of the `e57` crate.
#[verifier::external_type_specification]
#[verifier::external_body]
pub struct ExCaptureError(e57::Error);

/// The bytes that an open capture was made from.
pub uninterp spec fn reader_source(reader: CaptureReader) -> Seq<u8>;

/// Whether `e57::E57Reader::new` accepts these bytes: header, page checksums
/// and the XML section can all be parsed.
pub uninterp spec fn capture_opens(bytes: Seq<u8>) -> bool;

/// For each point cloud that `e57::E57Reader::pointclouds` lists for these
/// bytes, in its order, how the fields of its points are stored.
pub uninterp spec fn capture_layouts(bytes: Seq<u8>) -> Seq<Seq<FieldKind>>;

/// The raw points that `e57::E57Reader::pointcloud_raw` yields for the point
/// cloud at `index` of these bytes, or `None` where reading them fails.
pub uninterp spec fn capture_points(bytes: Seq<u8>, index: nat) -> Option<Seq<Seq<RecordValue>>>;

/// Calls `e57::E57Reader::new` on a cursor over `bytes`.
///
/// The contract claims that whether the call succeeds depends on the bytes
/// alone, and that the reader it gives is a reader of these bytes.
#[verifier::external_body]
fn open_capture(bytes: Vec<u8>) -> (opened: Result<CaptureReader, e57::Error>)
    ensures
        opened is Ok <==> capture_opens(bytes@),
        opened matches Ok(reader) ==> reader_source(reader) == bytes@,
{
    match e57::E57Reader::new(std::io::Cursor::new(bytes)) {
        Ok(inner) => Ok(CaptureReader { inner }),
        Err(e) => Err(e),
    }
}

/// Calls `e57::E57Reader::pointclouds` and hands out, for each descriptor, the
/// data types of its prototype.
///
/// The contract claims that the list depends on the bytes of the capture alone.
#[verifier::external_body]
fn cloud_layouts(reader: &CaptureReader) -> (layouts: Vec<Vec<FieldKind>>)
    ensures
        layouts.len() == capture_layouts(reader_source(*reader)).len(),
        forall|i: int|
            0 <= i < layouts.len() ==> (#[trigger] layouts[i])@ == capture_layouts(
                reader_source(*reader),
            )[i],
{
    let kind = |record: &e57::Record| match record.data_type {
        e57::RecordDataType::Single { .. } => FieldKind::Single,
        e57::RecordDataType::Double { .. } => FieldKind::Double,
        e57::RecordDataType::ScaledInteger { min, max, .. } => FieldKind::ScaledInteger { min, max },
        e57::RecordDataType::Integer { min, max } => FieldKind::Integer { min, max },
    };
    reader.inner.pointclouds().iter().map(|cloud| cloud.prototype.iter().map(kind).collect()).collect()
}

/// Calls `e57::E57Reader::pointcloud_raw` for the point cloud at `index` and
/// draws every point from the iterator it gives, up to the first that fails.
///
/// The contract claims that the points depend on the bytes and the index
/// alone, and that the reader stays a reader of the same bytes. The layout
/// must be countable: on a layout whose fields all take up no bits the crate
/// fills its queues without end.
#[verifier::external_body]
fn read_cloud(reader: &mut CaptureReader, index: usize) -> (read: Result<
    Vec<Vec<RecordValue>>,
    e57::Error,
>)
    requires
        index < capture_layouts(reader_source(*old(reader))).len(),
        countable(capture_layouts(reader_source(*old(reader)))[index as int]),
    ensures
        reader_source(*final(reader)) == reader_source(*old(reader)),
        match capture_points(reader_source(*old(reader)), index as nat) {
            Some(points) => read matches Ok(found) && record_views(found@) == points,
            None => read is Err,
        },
{
    let cloud = reader.inner.pointclouds().swap_remove(index);
    let mut points = Vec::new();
    for point in reader.inner.pointcloud_raw(&cloud)? {
        points.push(point?.iter().map(|value| match value {
            e57::RecordValue::Single(x) => RecordValue::Single(x.to_bits()),
            e57::RecordValue::Double(x) => RecordValue::Double(x.to_bits()),
            e57::RecordValue::ScaledInteger(i) => RecordValue::ScaledInteger(*i),
            e57::RecordValue::Integer(i) => RecordValue::Integer(*i),
        }).collect());
    }
    Ok(points)
}

/// Renders an error of the `e57` crate with its `Debug` formatting.
/// Nothing is claimed of the text.
#[verifier::external_body]
fn failure_text(failure: &e57::Error) -> (text: String) {
    format!("{:?}", failure)
}

/// The detail text of the failure to open `file`, given the reason.
pub open spec fn unopened_text(file: Seq<char>, reason: Seq<char>) -> Seq<char> {
    "Could not open "@ + file + ": "@ + reason
}

/// The words before the parser's own account of an unparsable container.
pub open spec fn unparsed_heading() -> Seq<char> {
    "Invalid E57 format: "@
}

/// The detail text for a capture that holds no point cloud.
pub open spec fn no_cloud_text() -> Seq<char> {
    "the capture holds no point cloud"@
}

/// The detail text for a point cloud whose points cannot be counted.
pub open spec fn uncountable_text() -> Seq<char> {
    "the first point cloud has fields, but none that takes up any bits"@
}

/// The words before the parser's own account of a point cloud that cannot be read.
pub open spec fn unread_heading() -> Seq<char> {
    "Could not read the first point cloud: "@
}

/// What loading gives for each capture: the rows kept from the first point
/// cloud, or the kind of the failure.
pub open spec fn load_outcome(capture: CaptureView) -> Result<Seq<PointRow>, ErrorKind> {
    match capture {
        CaptureView::Unreadable(_) => Err(ErrorKind::FileNotFound),
        CaptureView::Bytes(bytes) => {
            if !capture_opens(bytes) {
                Err(ErrorKind::InvalidFormat)
            } else if capture_layouts(bytes).len() == 0 {
                Err(ErrorKind::LoadError)
            } else if !countable(capture_layouts(bytes)[0]) {
                Err(ErrorKind::LoadError)
            } else {
                match capture_points(bytes, 0) {
                    Some(points) => Ok(retained(points)),
                    None => Err(ErrorKind::LoadError),
                }
            }
        },
    }
}

/// Whether `detail` is the detail text that a failed load of `capture` from
/// `file` carries. Where the parser gives its own account of the failure, only
/// the words before it are fixed.
pub open spec fn load_detail(file: Seq<char>, capture: CaptureView, detail: Seq<char>) -> bool {
    match capture {
        CaptureView::Unreadable(reason) => detail == unopened_text(file, reason),
        CaptureView::Bytes(bytes) => {
            if !capture_opens(bytes) {
                unparsed_heading().is_prefix_of(detail)
            } else if capture_layouts(bytes).len() == 0 {
                detail == no_cloud_text()
            } else if !countable(capture_layouts(bytes)[0]) {
                detail == uncountable_text()
            } else {
                unread_heading().is_prefix_of(detail)
            }
        },
    }
}

/// Whether `loaded` is what loading `capture` from `file` gives.
pub open spec fn load_meets(
    file: Seq<char>,
    capture: CaptureView,
    loaded: Result<PointCloudTable, SegmentationError>,
) -> bool {
    match load_outcome(capture) {
        Ok(rows) => loaded matches Ok(table) && table@ == rows,
        Err(kind) => loaded matches Err(e) && e@.kind == kind && load_detail(
            file,
            capture,
            e@.detail,
        ),
    }
}

/// Lenient reading: once the container is parsed and the first point cloud
/// is read, the load succeeds whatever the shapes of the points are, and the
/// table holds the rows of the points with the expected shape.
pub proof fn lemma_load_is_lenient(bytes: Seq<u8>, points: Seq<Seq<RecordValue>>)
    requires
        capture_opens(bytes),
        capture_layouts(bytes).len() > 0,
        countable(capture_layouts(bytes)[0]),
        capture_points(bytes, 0) == Some(points),
    ensures
        load_outcome(CaptureView::Bytes(bytes)) == Ok::<Seq<PointRow>, ErrorKind>(
            retained(points),
        ),
{
}

/// A load fails in one of three ways only: the path could not be opened, the
/// container could not be parsed, or there is no first point cloud that can
/// be read. It never fails for want of agreeing columns.
pub proof fn lemma_load_failures(capture: CaptureView)
    ensures
        load_outcome(capture) matches Err(kind) ==> (kind == ErrorKind::FileNotFound || kind
            == ErrorKind::InvalidFormat || kind == ErrorKind::LoadError),
        load_outcome(capture) == Err::<Seq<PointRow>, ErrorKind>(ErrorKind::FileNotFound)
            <==> capture is Unreadable,
        load_outcome(capture) == Err::<Seq<PointRow>, ErrorKind>(ErrorKind::InvalidFormat)
            <==> (capture matches CaptureView::Bytes(bytes) && !capture_opens(bytes)),
{
}

/// Decides whether the points of a layout can be counted.
pub fn is_countable(layout: &[FieldKind]) -> (yes: bool)
    ensures
        yes == countable(layout@),
{
    if layout.len() == 0 {
        return true;
    }
    let mut i: usize = 0;
    while i < layout.len()
        invariant
            i <= layout.len(),
            forall|j: int| 0 <= j < i ==> !has_width(#[trigger] layout@[j]),
        decreases layout.len() - i,
    {
        let wide = match layout[i] {
            FieldKind::Single => true,
            FieldKind::Double => true,
            FieldKind::ScaledInteger { min, max } => min < max,
            FieldKind::Integer { min, max } => min < max,
        };
        if wide {
            return true;
        }
        i = i + 1;
    }
    false
}

/// Loads the table of a capture that the front end looked for at `file`.
///
/// A path that could not be opened gives `FileNotFound`. Bytes that the
/// container parser refuses give `InvalidFormat`. A capture without point
/// clouds gives `LoadError`, and so does a first point cloud that cannot be
/// read. Otherwise the table holds the points of the first point cloud that
/// have the expected shape; points of another shape are skipped and never
/// make the load fail.
pub fn load(file: &str, capture: Capture) -> (loaded: Result<PointCloudTable, SegmentationError>)
    ensures
        load_meets(file@, capture@, loaded),
{
    match capture {
        Capture::Unreadable(reason) => {
            let text = String::from_str("Could not open ").concat(file).concat(": ").concat(
                reason.as_str(),
            );
            Err(SegmentationError::FileNotFound(text))
        },
        Capture::Bytes(bytes) => {
            let ghost source = bytes@;
            match open_capture(bytes) {
                Err(failure) => {
                    let account = failure_text(&failure);
                    let text = String::from_str("Invalid E57 format: ").concat(account.as_str());
                    Err(SegmentationError::InvalidFormat(text))
                },
                Ok(reader) => {
                    let mut reader = reader;
                    let layouts = cloud_layouts(&reader);
                    if layouts.len() == 0 {
                        return Err(
                            SegmentationError::LoadError(
                                String::from_str("the capture holds no point cloud"),
                            ),
                        );
                    }
                    if !is_countable(layouts[0].as_slice()) {
                        return Err(
                            SegmentationError::LoadError(
                                String::from_str(
                                    "the first point cloud has fields, but none that takes up any bits",
                                ),
                            ),
                        );
                    }
                    match read_cloud(&mut reader, 0) {
                        Err(failure) => {
                            let account = failure_text(&failure);
                            let text = String::from_str(
                                "Could not read the first point cloud: ",
                            ).concat(account.as_str());
                            Err(SegmentationError::LoadError(text))
                        },
                        Ok(points) => Ok(PointCloudTable::from_records(&points)),
                    }
                },
            }
        },
    }
}

} // verus!
