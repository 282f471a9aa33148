//! Decisions of the interaction entry points that are not I/O: whether
//! batch mode may run, whether an input line is dispatched at all, and
//! whether the record separator follows it.

use vstd::prelude::*;

verus! {

/// What a batch-mode invocation does.
pub enum BatchPlan {
    /// No project was loaded at startup: report to the error stream
    /// and run no analysis.
    MissingProject,
    /// Analyze the whole project, decompile it, render, and exit.
    RunAnalysis,
}

/// Batch mode runs only over a project the bootstrap already loaded.
pub fn batch_plan(loaded: bool) -> (p: BatchPlan)
    ensures
        loaded ==> p matches BatchPlan::RunAnalysis,
        !loaded ==> p matches BatchPlan::MissingProject,
{
    if loaded {
        BatchPlan::RunAnalysis
    } else {
        BatchPlan::MissingProject
    }
}

/// An interactive line is dispatched exactly when it is non-empty.
pub fn dispatches_line(line: &str) -> (b: bool)
    ensures
        b == (line@.len() != 0),
{
    !line.is_empty()
}

/// The separator is printed after a line exactly when append mode is
/// set and the line was dispatched.
pub fn emits_separator(line: &str, append_mode: bool) -> (b: bool)
    ensures
        b == (append_mode && line@.len() != 0),
{
    append_mode && !line.is_empty()
}

} // verus!
