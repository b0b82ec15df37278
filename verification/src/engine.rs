//! The segmentation engine: a state machine that is driven by messages.
//!
//! An engine is created idle. A `Start` message is accepted only by an idle
//! engine: it loads the capture, enriches the table, and leaves the engine
//! completed with the document, or failed with the failure. An `Export`
//! message is accepted only by a completed engine and leaves it as it is. A
//! message that arrives in any other state is refused as incomplete and
//! changes nothing. There is no way back to idle.

use crate::capture::{load, load_detail, load_outcome, Capture, CaptureView};
use crate::document::{enrich, enriched, save, Document, DocumentView};
use crate::error::{ErrorKind, ErrorView, SegmentationError};
use crate::params::SegmentationParams;
use vstd::prelude::*;

verus! {

/// The engine, which is always in exactly one of four states.
#[derive(Debug)]
pub enum SegmentationEngine {
    /// Nothing has been started.
    Idle,
    /// A start is in flight. An engine that handles each message in one step
    /// never rests in this state; it is there for front ends that run the
    /// start in the background.
    Running,
    /// The start succeeded, and this is its document.
    Completed(Document),
    /// The start failed, and this is why.
    Failed(SegmentationError),
}

/// A message to the engine.
#[derive(Clone, Debug)]
pub enum SegmentationEngineMsg {
    /// Segment the capture at `file_path` under `params`. `capture` is what
    /// the front end found at that path.
    Start { file_path: String, params: SegmentationParams, capture: Capture },
    /// Hand the document on, to be kept at `output_path`.
    Export { output_path: String },
}

/// What a `SegmentationEngine` stands for.
pub enum EngineView {
    Idle,
    Running,
    Completed(DocumentView),
    Failed(ErrorView),
}

impl View for SegmentationEngine {
    type V = EngineView;

    open spec fn view(&self) -> EngineView {
        match self {
            SegmentationEngine::Idle => EngineView::Idle,
            SegmentationEngine::Running => EngineView::Running,
            SegmentationEngine::Completed(document) => EngineView::Completed(document@),
            SegmentationEngine::Failed(failure) => EngineView::Failed(failure@),
        }
    }
}

/// What a start gives for each capture and parameter set: the document, or
/// the kind of the failure.
pub open spec fn start_outcome(capture: CaptureView, params: SegmentationParams) -> Result<
    DocumentView,
    ErrorKind,
> {
    match load_outcome(capture) {
        Ok(rows) => Ok(enriched(rows, params)),
        Err(kind) => Err(kind),
    }
}

/// The detail text of a start that is refused because the engine is not idle.
pub open spec fn not_idle_text() -> Seq<char> {
    "The engine is not idle: a segmentation has already been started"@
}

/// The detail text of an export that is refused because the engine has not completed.
pub open spec fn not_completed_text() -> Seq<char> {
    "The segmentation has not started / is still incomplete"@
}

/// Whether `failure` is the refusal of a message with the given detail text.
pub open spec fn refused_with(failure: SegmentationError, text: Seq<char>) -> bool {
    failure@ == (ErrorView { kind: ErrorKind::Incomplete, detail: text })
}

/// Whether `made` is what segmenting `capture`, found at `file`, under
/// `params` gives.
pub open spec fn segment_meets(
    file: Seq<char>,
    params: SegmentationParams,
    capture: CaptureView,
    made: Result<Document, SegmentationError>,
) -> bool {
    match start_outcome(capture, params) {
        Ok(document) => made matches Ok(found) && found@ == document,
        Err(kind) => made matches Err(e) && e@.kind == kind && load_detail(file, capture, e@.detail),
    }
}

/// Whether an engine that was in state `before` and was sent `msg` may be in
/// state `after` and answer `answer`.
pub open spec fn send_meets(
    before: SegmentationEngine,
    msg: SegmentationEngineMsg,
    after: SegmentationEngine,
    answer: Result<(), SegmentationError>,
) -> bool {
    match msg {
        SegmentationEngineMsg::Start { file_path, params, capture } => {
            if before is Idle {
                match start_outcome(capture@, params) {
                    Ok(document) => answer is Ok && after@ == EngineView::Completed(document),
                    Err(kind) => answer matches Err(e) && e@.kind == kind && load_detail(
                        file_path@,
                        capture@,
                        e@.detail,
                    ) && after == SegmentationEngine::Failed(e),
                }
            } else {
                after == before && (answer matches Err(e) && refused_with(e, not_idle_text()))
            }
        },
        SegmentationEngineMsg::Export { output_path } => {
            after == before && if before is Completed {
                answer is Ok
            } else {
                answer matches Err(e) && refused_with(e, not_completed_text())
            }
        },
    }
}

impl SegmentationEngine {
    /// A new engine, which is idle.
    pub fn new() -> (engine: SegmentationEngine)
        ensures
            engine == SegmentationEngine::Idle,
    {
        SegmentationEngine::Idle
    }

    /// Handles one message.
    ///
    /// `Start` from `Idle` ends in `Completed` with the document and answers
    /// `Ok`, or ends in `Failed` with the failure and answers with the same
    /// failure. `Start` from any other state answers `Incomplete` and changes
    /// nothing. `Export` never changes the state: from `Completed` it answers
    /// `Ok`, from any other state `Incomplete`.
    pub fn send(&mut self, msg: SegmentationEngineMsg) -> (answer: Result<(), SegmentationError>)
        ensures
            send_meets(*old(self), msg, *final(self), answer),
    {
        match msg {
            SegmentationEngineMsg::Start { file_path, params, capture } => {
                match self {
                    SegmentationEngine::Idle => {},
                    _ => {
                        return Err(
                            SegmentationError::Incomplete(
                                String::from_str(
                                    "The engine is not idle: a segmentation has already been started",
                                ),
                            ),
                        );
                    },
                }
                match self.segment(file_path.as_str(), &params, capture) {
                    Ok(document) => {
                        *self = SegmentationEngine::Completed(document);
                        Ok(())
                    },
                    Err(failure) => {
                        *self = SegmentationEngine::Failed(failure.clone());
                        Err(failure)
                    },
                }
            },
            SegmentationEngineMsg::Export { output_path } => {
                match self.export(Some(output_path.as_str())) {
                    Ok(_) => Ok(()),
                    Err(failure) => Err(failure),
                }
            },
        }
    }

    /// Loads the capture that was found at `file` and enriches its table under `params`.
    fn segment(&self, file: &str, params: &SegmentationParams, capture: Capture) -> (made: Result<
        Document,
        SegmentationError,
    >)
        ensures
            segment_meets(file@, *params, capture@, made),
    {
        match load(file, capture) {
            Ok(table) => enrich(table, *params),
            Err(failure) => Err(failure),
        }
    }

    /// Hands the document of a completed engine to the serializer, and gives
    /// back what the serializer gives: a document equal to the one held. From
    /// any other state the export is refused as incomplete.
    pub fn export(&self, path: Option<&str>) -> (exported: Result<Document, SegmentationError>)
        ensures
            match *self {
                SegmentationEngine::Completed(held) => exported matches Ok(document) && document@
                    == held@,
                _ => exported matches Err(e) && refused_with(e, not_completed_text()),
            },
    {
        match self {
            SegmentationEngine::Completed(output) => save(path, output),
            _ => Err(
                SegmentationError::Incomplete(
                    String::from_str("The segmentation has not started / is still incomplete"),
                ),
            ),
        }
    }

    /// The document of a completed engine, and `None` in every other state.
    pub fn document(&self) -> (held: Option<&Document>)
        ensures
            match *self {
                SegmentationEngine::Completed(document) => held == Some(&document),
                _ => held is None,
            },
    {
        match self {
            SegmentationEngine::Completed(document) => Some(document),
            _ => None,
        }
    }

    /// Whether the engine is idle, that is, whether it accepts a start.
    pub fn is_idle(&self) -> (idle: bool)
        ensures
            idle == (*self is Idle),
    {
        match self {
            SegmentationEngine::Idle => true,
            _ => false,
        }
    }

    /// Whether the engine has completed, that is, whether it accepts an export.
    pub fn is_completed(&self) -> (completed: bool)
        ensures
            completed == (*self is Completed),
    {
        match self {
            SegmentationEngine::Completed(_) => true,
            _ => false,
        }
    }
}

/// An engine that is not idle refuses every start as incomplete and stays
/// exactly as it was.
pub proof fn lemma_start_needs_idle(
    before: SegmentationEngine,
    msg: SegmentationEngineMsg,
    after: SegmentationEngine,
    answer: Result<(), SegmentationError>,
)
    requires
        msg is Start,
        !(before is Idle),
        send_meets(before, msg, after, answer),
    ensures
        after == before,
        answer matches Err(e) && e@.kind == ErrorKind::Incomplete,
{
}

/// An engine that has not completed refuses every export as incomplete and
/// stays exactly as it was.
pub proof fn lemma_export_needs_completed(
    before: SegmentationEngine,
    msg: SegmentationEngineMsg,
    after: SegmentationEngine,
    answer: Result<(), SegmentationError>,
)
    requires
        msg is Export,
        !(before is Completed),
        send_meets(before, msg, after, answer),
    ensures
        after == before,
        answer matches Err(e) && e@.kind == ErrorKind::Incomplete,
{
}

/// An export never changes the state of the engine, whatever it answers.
pub proof fn lemma_export_keeps_state(
    before: SegmentationEngine,
    msg: SegmentationEngineMsg,
    after: SegmentationEngine,
    answer: Result<(), SegmentationError>,
)
    requires
        msg is Export,
        send_meets(before, msg, after, answer),
    ensures
        after == before,
        before is Completed <==> answer is Ok,
{
}

/// A start is deterministic: two idle engines that are sent starts with the
/// same capture and the same parameters either both complete, with equal
/// documents, or both fail, with failures of the same kind.
pub proof fn lemma_start_is_deterministic(
    first_msg: SegmentationEngineMsg,
    first_after: SegmentationEngine,
    first_answer: Result<(), SegmentationError>,
    second_msg: SegmentationEngineMsg,
    second_after: SegmentationEngine,
    second_answer: Result<(), SegmentationError>,
)
    requires
        first_msg is Start,
        second_msg is Start,
        first_msg->params == second_msg->params,
        first_msg->capture@ == second_msg->capture@,
        send_meets(SegmentationEngine::Idle, first_msg, first_after, first_answer),
        send_meets(SegmentationEngine::Idle, second_msg, second_after, second_answer),
    ensures
        first_answer is Ok <==> second_answer is Ok,
        first_after is Completed <==> second_after is Completed,
        first_after is Failed <==> second_after is Failed,
        first_after is Completed ==> first_after@ == second_after@,
        first_after matches SegmentationEngine::Failed(e1) ==> (second_after
            matches SegmentationEngine::Failed(e2) ==> e1@.kind == e2@.kind),
{
}

/// After a start, whatever its outcome, the engine is completed or failed,
/// and so refuses every further start.
pub proof fn lemma_start_is_final(
    msg: SegmentationEngineMsg,
    after: SegmentationEngine,
    answer: Result<(), SegmentationError>,
)
    requires
        msg is Start,
        send_meets(SegmentationEngine::Idle, msg, after, answer),
    ensures
        after is Completed || after is Failed,
        answer is Ok <==> after is Completed,
        after matches SegmentationEngine::Failed(e) ==> answer == Err::<(), SegmentationError>(e),
{
}

} // verus!
