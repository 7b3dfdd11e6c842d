//! Validating an output request: an ordered list of zero, one, or two
//! optional destinations, where an absent entry means the standard-error
//! stream, the reserved literal `journal` means the system journal, and any
//! other string is a file path.
//!
//! The rules, kept exactly as documented: a single `journal` entry replaces
//! the standard-error sink entirely, while an explicit absent entry always
//! keeps it; a two-entry request is only valid in the shape
//! (absent, present); anything longer is rejected.

use vstd::prelude::*;

use crate::errors::ConfigError;

verus! {

/// The reserved destination name that selects the system journal.
pub open spec fn journal_name() -> Seq<char> {
    "journal"@
}

/// The validated shape of an output request: which sinks are active, with
/// file paths carried as strings.
#[derive(Debug, PartialEq, Eq)]
pub enum SinkPlan {
    /// Formatted records to standard error only.
    StderrOnly,
    /// Records to the system journal only; no standard-error sink.
    JournalOnly,
    /// Formatted records to one file only.
    FileOnly(String),
    /// Standard error plus the system journal.
    StderrAndJournal,
    /// Standard error plus one file.
    StderrAndFile(String),
}

/// The shape of a validated output request at the specification level, with
/// file paths as character sequences.
pub enum PlanShape {
    StderrOnly,
    JournalOnly,
    FileOnly(Seq<char>),
    StderrAndJournal,
    StderrAndFile(Seq<char>),
}

impl View for SinkPlan {
    type V = PlanShape;

    open spec fn view(&self) -> PlanShape {
        match self {
            SinkPlan::StderrOnly => PlanShape::StderrOnly,
            SinkPlan::JournalOnly => PlanShape::JournalOnly,
            SinkPlan::FileOnly(p) => PlanShape::FileOnly(p@),
            SinkPlan::StderrAndJournal => PlanShape::StderrAndJournal,
            SinkPlan::StderrAndFile(p) => PlanShape::StderrAndFile(p@),
        }
    }
}

/// Whether a plan activates the standard-error sink.
pub open spec fn plan_stderr(p: PlanShape) -> bool {
    match p {
        PlanShape::StderrOnly => true,
        PlanShape::JournalOnly => false,
        PlanShape::FileOnly(_) => false,
        PlanShape::StderrAndJournal => true,
        PlanShape::StderrAndFile(_) => true,
    }
}

/// Whether a plan activates the system-journal sink.
pub open spec fn plan_journal(p: PlanShape) -> bool {
    match p {
        PlanShape::JournalOnly => true,
        PlanShape::StderrAndJournal => true,
        _ => false,
    }
}

/// The file path a plan writes to, if any.
pub open spec fn plan_file(p: PlanShape) -> Option<Seq<char>> {
    match p {
        PlanShape::FileOnly(path) => Some(path),
        PlanShape::StderrAndFile(path) => Some(path),
        _ => None,
    }
}

/// The sink-selection rule: how a requested output list maps to a plan, or
/// to a configuration error.
pub open spec fn plan_of(outs: Seq<Option<Seq<char>>>) -> Result<PlanShape, ConfigError> {
    if outs.len() == 0 {
        Ok(PlanShape::StderrOnly)
    } else if outs.len() == 1 {
        match outs[0] {
            None => Ok(PlanShape::StderrOnly),
            Some(p) => if p == journal_name() {
                Ok(PlanShape::JournalOnly)
            } else {
                Ok(PlanShape::FileOnly(p))
            },
        }
    } else if outs.len() == 2 {
        match (outs[0], outs[1]) {
            (None, Some(p)) => if p == journal_name() {
                Ok(PlanShape::StderrAndJournal)
            } else {
                Ok(PlanShape::StderrAndFile(p))
            },
            _ => Err(ConfigError::InvalidOutputShape),
        }
    } else {
        Err(ConfigError::TooManyOutputs)
    }
}

/// Whether `p` names the system journal.
fn is_journal(p: &String) -> (r: bool)
    ensures
        r == (p@ == journal_name()),
{
    let j = String::from_str("journal");
    p.eq(&j)
}

/// Validates a requested output list against the sink-selection rule.
pub fn plan_outputs(outputs: &Vec<Option<String>>) -> (r: Result<SinkPlan, ConfigError>)
    ensures
        r matches Ok(p) ==> plan_of(outputs.deep_view()) matches Ok(q) && p@ == q,
        r matches Err(e) ==> plan_of(outputs.deep_view()) == Err::<PlanShape, ConfigError>(e),
{
    let n = outputs.len();
    if n == 0 {
        Ok(SinkPlan::StderrOnly)
    } else if n == 1 {
        match &outputs[0] {
            None => Ok(SinkPlan::StderrOnly),
            Some(p) => {
                if is_journal(p) {
                    Ok(SinkPlan::JournalOnly)
                } else {
                    Ok(SinkPlan::FileOnly(p.clone()))
                }
            },
        }
    } else if n == 2 {
        match (&outputs[0], &outputs[1]) {
            (None, Some(p)) => {
                if is_journal(p) {
                    Ok(SinkPlan::StderrAndJournal)
                } else {
                    Ok(SinkPlan::StderrAndFile(p.clone()))
                }
            },
            _ => Err(ConfigError::InvalidOutputShape),
        }
    } else {
        Err(ConfigError::TooManyOutputs)
    }
}

/// An empty request and a single absent entry select the same sinks: the
/// standard-error sink alone.
pub proof fn lemma_empty_equals_single_absent()
    ensures
        plan_of(Seq::<Option<Seq<char>>>::empty()) == plan_of(
            seq![Option::<Seq<char>>::None],
        ),
        plan_of(Seq::<Option<Seq<char>>>::empty()) == Ok::<PlanShape, ConfigError>(
            PlanShape::StderrOnly,
        ),
{
}

/// A single `journal` entry replaces the standard-error sink entirely: the
/// resulting plan activates the journal and no standard-error sink.
pub proof fn lemma_single_journal_no_stderr()
    ensures
        plan_of(seq![Some(journal_name())]) == Ok::<PlanShape, ConfigError>(
            PlanShape::JournalOnly,
        ),
        !plan_stderr(PlanShape::JournalOnly),
{
}

/// A two-entry request of an absent entry and a file path keeps the
/// standard-error sink and adds the file sink for that path.
pub proof fn lemma_stderr_plus_file(path: Seq<char>)
    requires
        path != journal_name(),
    ensures
        plan_of(seq![Option::<Seq<char>>::None, Some(path)]) == Ok::<PlanShape, ConfigError>(
            PlanShape::StderrAndFile(path),
        ),
        plan_stderr(PlanShape::StderrAndFile(path)),
        plan_file(PlanShape::StderrAndFile(path)) == Some(path),
{
}

/// A two-entry request whose first entry is present is rejected as a
/// configuration error, whatever the entries hold.
pub proof fn lemma_first_entry_present_rejected(outs: Seq<Option<Seq<char>>>)
    requires
        outs.len() == 2,
        outs[0] is Some,
    ensures
        plan_of(outs) == Err::<PlanShape, ConfigError>(ConfigError::InvalidOutputShape),
{
}

/// A request of three or more entries is rejected as a configuration error.
pub proof fn lemma_too_many_outputs(outs: Seq<Option<Seq<char>>>)
    requires
        outs.len() >= 3,
    ensures
        plan_of(outs) == Err::<PlanShape, ConfigError>(ConfigError::TooManyOutputs),
{
}

} // verus!
