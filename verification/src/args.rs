use vstd::prelude::*;

verus! {

/// When the output is colored.
#[derive(Clone, Copy, Debug, PartialEq, Eq, Structural)]
pub enum ColorChoice {
    /// Colored where the output is a terminal.
    Auto,
    /// Colored wherever the output goes.
    Always,
    /// Never colored.
    Never,
}

/// Which parts of a job log are asked for.
#[derive(Clone, Debug, PartialEq, Eq)]
pub struct PipelineLog {
    /// Show every line, whatever section it stands in.
    pub all: bool,
    /// The name of the section to show where `all` is not set.
    pub step: String,
}

/// A `PipelineLog` as contracts see it.
pub struct PipelineLogView {
    pub all: bool,
    pub step: Seq<char>,
}

impl View for PipelineLog {
    type V = PipelineLogView;

    open spec fn view(&self) -> PipelineLogView {
        PipelineLogView { all: self.all, step: self.step@ }
    }
}

} // verus!
