//! The stages of a preprocessing pipeline for tables, and the kinds of data
//! that a column can hold.

use vstd::prelude::*;

verus! {

/// The level of measurement of a column.
#[derive(Clone, Copy, Debug, PartialEq, Eq, Structural)]
pub enum DataType {
    Ordinal,
    Nominal,
    Interval,
    Ratio,
}

/// One stage of a pipeline.
#[derive(Clone, Copy, Debug, PartialEq, Eq)]
pub enum Stage<'a> {
    /// Fills the gaps of a column by the named strategy.
    Imputer(&'a str),
    /// Brings a column to a common scale by the named method.
    Scaler(&'a str),
    /// Encodes categories as numbers.
    Encoder,
    /// Reduces the table to this many principal components.
    PCA(i32),
}

/// A pipeline: its stages, in the order in which they are applied.
#[derive(Debug)]
pub struct Pipeline {
    stages: Vec<Stage<'static>>,
}

impl View for Pipeline {
    type V = Seq<Stage<'static>>;

    closed spec fn view(&self) -> Seq<Stage<'static>> {
        self.stages@
    }
}

impl Pipeline {
    /// The pipeline of the given stages.
    pub fn new(stages: Vec<Stage<'static>>) -> (pipeline: Pipeline)
        ensures
            pipeline@ == stages@,
    {
        Pipeline { stages }
    }

    /// The stages of the pipeline, in the order in which they are applied.
    pub fn stages(&self) -> (stages: &Vec<Stage<'static>>)
        ensures
            stages@ == self@,
    {
        &self.stages
    }
}

} // verus!
