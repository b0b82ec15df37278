//! The labelled document that a segmentation run produces, the stage that
//! produces it, and the serializer that hands it on.
//!
//! How points are grouped into building elements is not decided here. What is
//! fixed is what every labelling must keep to: the document is a function of
//! the table and the parameters alone, it records the parameters it was made
//! with, and its labels come from one declared vocabulary.

use crate::error::SegmentationError;
use crate::params::SegmentationParams;
use crate::record::PointRow;
use crate::table::PointCloudTable;
use vstd::prelude::*;
use vstd::std_specs::cmp::PartialEqSpecImpl;

verus! {

/// A semantic label: the category of a building element.
#[derive(Clone, Copy, Debug, PartialEq, Eq, Structural)]
pub enum Label {
    Wall,
    Floor,
    Slab,
}

/// The label that a text names, if it names one.
pub open spec fn label_named(text: Seq<char>) -> Option<Label> {
    if text == "Wall"@ {
        Some(Label::Wall)
    } else if text == "Floor"@ {
        Some(Label::Floor)
    } else if text == "Slab"@ {
        Some(Label::Slab)
    } else {
        None
    }
}

/// The declared vocabulary: every label that a document can carry.
pub open spec fn vocabulary() -> Seq<Label> {
    seq![Label::Wall, Label::Floor, Label::Slab]
}

impl Label {
    /// The name of the label.
    pub open spec fn name(self) -> Seq<char> {
        match self {
            Label::Wall => "Wall"@,
            Label::Floor => "Floor"@,
            Label::Slab => "Slab"@,
        }
    }

    /// The name of the label.
    pub fn as_str(&self) -> (text: &'static str)
        ensures
            text@ == self.name(),
    {
        match self {
            Label::Wall => "Wall",
            Label::Floor => "Floor",
            Label::Slab => "Slab",
        }
    }

    /// The label that `text` names, or `None` where it names none.
    pub fn parse(text: &str) -> (label: Option<Label>)
        ensures
            label == label_named(text@),
    {
        let text = String::from_str(text);
        if text == String::from_str("Wall") {
            Some(Label::Wall)
        } else if text == String::from_str("Floor") {
            Some(Label::Floor)
        } else if text == String::from_str("Slab") {
            Some(Label::Slab)
        } else {
            None
        }
    }
}

/// Every label is named by its own name, and by no other text.
pub proof fn lemma_label_names(label: Label, text: Seq<char>)
    ensures
        label_named(label.name()) == Some(label),
        label_named(text) == Some(label) <==> text == label.name(),
{
    reveal_strlit("Wall");
    reveal_strlit("Floor");
    reveal_strlit("Slab");
    assert("Wall"@.len() == 4 && "Floor"@.len() == 5 && "Slab"@[0] == 'S' && "Wall"@[0] == 'W');
}

/// A labelled building-model document.
#[derive(Debug)]
pub struct Document {
    voxel_size: u32,
    points: usize,
    labels: Vec<Label>,
}

/// What a `Document` stands for: the bits of the voxel size it was made with,
/// the number of points it covers, and the labels it carries.
pub struct DocumentView {
    pub voxel_size: u32,
    pub points: nat,
    pub labels: Seq<Label>,
}

impl View for Document {
    type V = DocumentView;

    closed spec fn view(&self) -> DocumentView {
        DocumentView {
            voxel_size: self.voxel_size,
            points: self.points as nat,
            labels: self.labels@,
        }
    }
}

/// The document that enrichment makes of a table's rows under `params`.
pub open spec fn enriched(rows: Seq<PointRow>, params: SegmentationParams) -> DocumentView {
    DocumentView { voxel_size: params.voxel_bits(), points: rows.len(), labels: vocabulary() }
}

/// Whether a document with these labels carries the label that `text` names.
/// A text that names no label of the vocabulary is carried by no document.
pub open spec fn carries(labels: Seq<Label>, text: Seq<char>) -> bool {
    match label_named(text) {
        Some(label) => labels.contains(label),
        None => false,
    }
}

/// Whether a document with these labels carries every one of the candidates.
pub open spec fn carries_all(labels: Seq<Label>, candidates: Seq<&str>) -> bool {
    forall|i: int| 0 <= i < candidates.len() ==> carries(labels, (#[trigger] candidates[i])@)
}

impl Document {
    /// The document with the given content.
    pub fn from_parts(voxel_size: u32, points: usize, labels: Vec<Label>) -> (document: Document)
        ensures
            document@ == (DocumentView { voxel_size, points: points as nat, labels: labels@ }),
    {
        Document { voxel_size, points, labels }
    }

    /// The bits of the voxel size that the document was made with.
    pub fn voxel_size_bits(&self) -> (bits: u32)
        ensures
            bits == self@.voxel_size,
    {
        self.voxel_size
    }

    /// The number of points that the document covers.
    pub fn points(&self) -> (n: usize)
        ensures
            n == self@.points,
    {
        self.points
    }

    /// The labels that the document carries.
    pub fn labels(&self) -> (labels: &Vec<Label>)
        ensures
            labels@ == self@.labels,
    {
        &self.labels
    }

    /// Whether the document carries `label`.
    pub fn has_label(&self, label: Label) -> (found: bool)
        ensures
            found == self@.labels.contains(label),
    {
        let mut i: usize = 0;
        while i < self.labels.len()
            invariant
                i <= self.labels.len(),
                forall|j: int| 0 <= j < i ==> self.labels@[j] != label,
            decreases self.labels.len() - i,
        {
            if self.labels[i] == label {
                return true;
            }
            i = i + 1;
        }
        false
    }

    /// Whether the document carries every one of the candidate labels. With no
    /// candidates this is true of every document.
    pub fn has_labels(&self, candidates: &[&str]) -> (all: bool)
        ensures
            all == carries_all(self@.labels, candidates@),
    {
        let mut i: usize = 0;
        while i < candidates.len()
            invariant
                i <= candidates.len(),
                forall|j: int| 0 <= j < i ==> carries(self@.labels, (#[trigger] candidates@[j])@),
            decreases candidates.len() - i,
        {
            let carried = match Label::parse(candidates[i]) {
                Some(label) => self.has_label(label),
                None => false,
            };
            if !carried {
                return false;
            }
            i = i + 1;
        }
        true
    }
}

impl Clone for Document {
    fn clone(&self) -> (copy: Document)
        ensures
            copy@ == self@,
    {
        let mut labels: Vec<Label> = Vec::new();
        let mut i: usize = 0;
        while i < self.labels.len()
            invariant
                i <= self.labels.len(),
                labels@ == self.labels@.take(i as int),
            decreases self.labels.len() - i,
        {
            labels.push(self.labels[i]);
            i = i + 1;
        }
        assert(self.labels@.take(i as int) =~= self.labels@);
        Document { voxel_size: self.voxel_size, points: self.points, labels }
    }
}

impl PartialEq for Document {
    /// Two documents are equal when they were made with the same voxel size,
    /// cover the same number of points and carry the same labels in the same order.
    fn eq(&self, other: &Document) -> (same: bool) {
        if self.voxel_size != other.voxel_size || self.points != other.points
            || self.labels.len() != other.labels.len() {
            return false;
        }
        let mut i: usize = 0;
        while i < self.labels.len()
            invariant
                i <= self.labels.len(),
                self.labels.len() == other.labels.len(),
                forall|j: int| 0 <= j < i ==> self.labels@[j] == other.labels@[j],
            decreases self.labels.len() - i,
        {
            if self.labels[i] != other.labels[i] {
                return false;
            }
            i = i + 1;
        }
        assert(self.labels@ =~= other.labels@);
        true
    }
}

impl PartialEqSpecImpl for Document {
    open spec fn obeys_eq_spec() -> bool {
        true
    }

    open spec fn eq_spec(&self, other: &Document) -> bool {
        self@ == other@
    }
}

/// The enrichment stage: makes the labelled document of a table under the
/// given parameters. Equal tables and equal parameters give equal documents,
/// and the document records the voxel size, so that a change of it shows.
pub fn enrich(e57: PointCloudTable, params: SegmentationParams) -> (made: Result<
    Document,
    SegmentationError,
>)
    ensures
        made matches Ok(document) && document@ == enriched(e57@, params),
{
    let mut labels: Vec<Label> = Vec::new();
    labels.push(Label::Wall);
    labels.push(Label::Floor);
    labels.push(Label::Slab);
    assert(labels@ =~= vocabulary());
    Ok(Document { voxel_size: params.voxel_size_bits(), points: e57.len(), labels })
}

/// The document of the empty table under the default parameters.
pub fn dummy_ifc() -> (document: Document)
    ensures
        document@ == enriched(Seq::<PointRow>::empty(), crate::params::params_with_bits(0)),
        document@ == (DocumentView { voxel_size: 0, points: 0, labels: vocabulary() }),
{
    let mut labels: Vec<Label> = Vec::new();
    labels.push(Label::Wall);
    labels.push(Label::Floor);
    labels.push(Label::Slab);
    assert(labels@ =~= vocabulary());
    proof {
        crate::params::lemma_params_with_bits(0);
    }
    Document { voxel_size: 0, points: 0, labels }
}

/// Whether the document carries every one of the candidate labels.
pub fn has_labels(ifc: &Document, labels: &[&str]) -> (all: bool)
    ensures
        all == carries_all(ifc@.labels, labels@),
{
    ifc.has_labels(labels)
}

/// The serializer: hands back the document that is to be kept, equal to the
/// one it was given, whether or not a destination is named. Writing it to the
/// destination is left to the caller.
pub fn save(file: Option<&str>, ifc: &Document) -> (saved: Result<Document, SegmentationError>)
    ensures
        saved matches Ok(document) && document@ == ifc@,
{
    Ok(ifc.clone())
}

/// A change of the voxel size changes the document: for every table and every
/// two parameter sets whose voxel sizes differ in their bits, the two
/// documents differ.
pub proof fn lemma_voxel_size_shows(
    rows: Seq<PointRow>,
    first: SegmentationParams,
    second: SegmentationParams,
)
    requires
        first.voxel_bits() != second.voxel_bits(),
    ensures
        enriched(rows, first) != enriched(rows, second),
{
}

/// Enrichment is sensitive to its parameters: whatever the table and the
/// parameters, some other parameters give a different document.
pub proof fn lemma_enrichment_is_sensitive(rows: Seq<PointRow>, params: SegmentationParams)
    ensures
        exists|other: SegmentationParams| enriched(rows, other) != #[trigger] enriched(rows, params),
{
    let bits: u32 = if params.voxel_bits() == 0 {
        1
    } else {
        0
    };
    let other = crate::params::params_with_bits(bits);
    crate::params::lemma_params_with_bits(bits);
    assert(enriched(rows, other) != enriched(rows, params));
}

} // verus!
