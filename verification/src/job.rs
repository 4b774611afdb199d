use vstd::prelude::*;
use crate::command::{evaluated, EvaluationError, EvaluationErrorView, Position, RenameCommand};
use crate::name::stem_of;
use crate::outcome::{RenameError, RenameErrorView, RenameResult, RenameResultView};
use crate::text::same_text;

verus! {

/// What the driver of a job found out for it.
#[derive(Debug)]
pub enum Event {
    /// The source was looked up: whether anything exists at the path, whether
    /// the path has a parent directory, and its base name where that is text.
    SourceInspected { exists: bool, has_parent: bool, file_name: Option<String> },
    /// The parent directory was asked for the candidate name.
    TargetProbed { exists: bool },
    /// The rename was tried; `failure` is what the file system reported, if
    /// it refused.
    RenameDone { failure: Option<String> },
}

/// An `Event` with its texts as sequences of characters.
pub enum EventView {
    SourceInspected { exists: bool, has_parent: bool, file_name: Option<Seq<char>> },
    TargetProbed { exists: bool },
    RenameDone { failure: Option<Seq<char>> },
}

impl View for Event {
    type V = EventView;

    open spec fn view(&self) -> EventView {
        match *self {
            Event::SourceInspected { exists, has_parent, file_name } => EventView::SourceInspected {
                exists,
                has_parent,
                file_name: match file_name {
                    Some(name) => Some(name@),
                    None => None,
                },
            },
            Event::TargetProbed { exists } => EventView::TargetProbed { exists },
            Event::RenameDone { failure } => EventView::RenameDone {
                failure: match failure {
                    Some(reason) => Some(reason@),
                    None => None,
                },
            },
        }
    }
}

/// What a job asks its driver to do next.
#[derive(Debug)]
pub enum Action {
    /// Look the source up and answer with `Event::SourceInspected`.
    InspectSource,
    /// Ask the parent directory whether it holds an entry called `name`, and
    /// answer with `Event::TargetProbed`.
    ProbeTarget { name: String },
    /// Rename the source to `name` inside its parent directory, and answer
    /// with `Event::RenameDone`.
    Rename { name: String },
    /// Hand `result` to the caller: the job is over.
    Report { result: RenameResult },
}

/// An `Action` with its texts as sequences of characters.
pub enum ActionView {
    InspectSource,
    ProbeTarget { name: Seq<char> },
    Rename { name: Seq<char> },
    Report { result: RenameResultView },
}

impl View for Action {
    type V = ActionView;

    open spec fn view(&self) -> ActionView {
        match *self {
            Action::InspectSource => ActionView::InspectSource,
            Action::ProbeTarget { name } => ActionView::ProbeTarget { name: name@ },
            Action::Rename { name } => ActionView::Rename { name: name@ },
            Action::Report { result } => ActionView::Report { result: result@ },
        }
    }
}

/// One rename on its way from request to result. A job touches nothing
/// itself: it says what is to be done, and moves on when told what came of
/// it.
#[derive(Debug)]
pub enum RenameJob {
    /// Nothing is known of the source yet.
    Inspecting { path: String, command: RenameCommand },
    /// The rule gave `candidate`; whether that name is free is not known yet.
    Guarding { path: String, candidate: String },
    /// The name `candidate` is free; the rename itself is under way.
    Renaming { path: String, candidate: String },
    /// The job is over.
    Finished { result: RenameResult },
}

/// A `RenameJob` with its texts as sequences of characters.
pub enum RenameJobView {
    Inspecting { path: Seq<char>, command: RenameCommand },
    Guarding { path: Seq<char>, candidate: Seq<char> },
    Renaming { path: Seq<char>, candidate: Seq<char> },
    Finished { result: RenameResultView },
}

impl View for RenameJob {
    type V = RenameJobView;

    open spec fn view(&self) -> RenameJobView {
        match *self {
            RenameJob::Inspecting { path, command } => RenameJobView::Inspecting {
                path: path@,
                command,
            },
            RenameJob::Guarding { path, candidate } => RenameJobView::Guarding {
                path: path@,
                candidate: candidate@,
            },
            RenameJob::Renaming { path, candidate } => RenameJobView::Renaming {
                path: path@,
                candidate: candidate@,
            },
            RenameJob::Finished { result } => RenameJobView::Finished { result: result@ },
        }
    }
}

/// The job that stopped with `error`.
pub open spec fn failed(path: Seq<char>, error: RenameErrorView) -> RenameJobView {
    RenameJobView::Finished { result: RenameResultView::failure(path, error) }
}

/// Where a job stands once its rule has been evaluated on the base name
/// `old_name`. An error of the rule ends the job, and so does the empty name.
/// A name equal to the old one ends it with success and without a rename:
/// nothing is left to do, and the guard against collisions would only find
/// the source itself. Any other name is a candidate that still has to be
/// found free.
pub open spec fn settled(
    path: Seq<char>,
    old_name: Seq<char>,
    evaluation: Result<Seq<char>, EvaluationErrorView>,
) -> RenameJobView {
    match evaluation {
        Err(error) => failed(path, RenameErrorView::Evaluation { error }),
        Ok(candidate) => if candidate.len() == 0 {
            failed(path, RenameErrorView::EmptyResult)
        } else if candidate == old_name {
            RenameJobView::Finished { result: RenameResultView::success(path, candidate) }
        } else {
            RenameJobView::Guarding { path, candidate }
        },
    }
}

impl RenameJobView {
    /// What the job asks for while it stands here.
    pub open spec fn action(self) -> ActionView {
        match self {
            RenameJobView::Inspecting { .. } => ActionView::InspectSource,
            RenameJobView::Guarding { candidate, .. } => ActionView::ProbeTarget {
                name: candidate,
            },
            RenameJobView::Renaming { candidate, .. } => ActionView::Rename { name: candidate },
            RenameJobView::Finished { result } => ActionView::Report { result },
        }
    }

    /// What holds of every job that began with `RenameJob::new`: a candidate
    /// is never the empty name, and a result carries a new name only together
    /// with the status of success.
    pub open spec fn well_formed(self) -> bool {
        match self {
            RenameJobView::Inspecting { .. } => true,
            RenameJobView::Guarding { candidate, .. } => candidate.len() > 0,
            RenameJobView::Renaming { candidate, .. } => candidate.len() > 0,
            RenameJobView::Finished { result } => match result.new_name {
                Some(name) => name.len() > 0 && result.status == "Success"@,
                None => true,
            },
        }
    }

    /// The number of answers that the job may still need before it is over.
    pub open spec fn answers_left(self) -> nat {
        match self {
            RenameJobView::Inspecting { .. } => 3,
            RenameJobView::Guarding { .. } => 2,
            RenameJobView::Renaming { .. } => 1,
            RenameJobView::Finished { .. } => 0,
        }
    }

    /// Whether `event` answers what the job asks for while it stands here.
    pub open spec fn is_answered_by(self, event: EventView) -> bool {
        match self {
            RenameJobView::Inspecting { .. } => event is SourceInspected,
            RenameJobView::Guarding { .. } => event is TargetProbed,
            RenameJobView::Renaming { .. } => event is RenameDone,
            RenameJobView::Finished { .. } => false,
        }
    }

    /// Where the job stands after `event`. An event that does not answer what
    /// the job asked for leaves it where it is.
    pub open spec fn step(self, event: EventView) -> RenameJobView {
        match (self, event) {
            (
                RenameJobView::Inspecting { path, command },
                EventView::SourceInspected { exists, has_parent, file_name },
            ) => {
                if !exists {
                    failed(path, RenameErrorView::SourceNotFound)
                } else if !has_parent {
                    failed(path, RenameErrorView::InvalidPath)
                } else {
                    match file_name {
                        None => failed(path, RenameErrorView::InvalidName),
                        Some(name) => settled(path, name, command.outcome(name)),
                    }
                }
            },
            (RenameJobView::Guarding { path, candidate }, EventView::TargetProbed { exists }) => {
                if exists {
                    failed(path, RenameErrorView::TargetExists { name: candidate })
                } else {
                    RenameJobView::Renaming { path, candidate }
                }
            },
            (RenameJobView::Renaming { path, candidate }, EventView::RenameDone { failure }) => {
                match failure {
                    None => RenameJobView::Finished {
                        result: RenameResultView::success(path, candidate),
                    },
                    Some(reason) => failed(path, RenameErrorView::OperationFailed { reason }),
                }
            },
            (state, _) => state,
        }
    }
}

impl RenameJob {
    /// A job that is to rename the entry at `path` by the rule `command`.
    pub fn new(path: String, command: RenameCommand) -> (job: RenameJob)
        ensures
            job@ == (RenameJobView::Inspecting { path: path@, command }),
    {
        RenameJob::Inspecting { path, command }
    }

    /// The job that stopped with `error`.
    pub fn fail(path: String, error: RenameError) -> (job: RenameJob)
        ensures
            job@ == failed(path@, error@),
    {
        RenameJob::Finished { result: RenameResult::failure(path, &error) }
    }

    /// Where a job stands once its rule has given `evaluation` for the base
    /// name `old_name`.
    pub fn settle(path: String, old_name: &str, evaluation: Result<String, EvaluationError>) -> (job:
        RenameJob)
        ensures
            job@ == settled(path@, old_name@, evaluated(evaluation)),
    {
        match evaluation {
            Err(error) => RenameJob::fail(path, RenameError::Evaluation { error }),
            Ok(candidate) => {
                if candidate.as_str().is_empty() {
                    RenameJob::fail(path, RenameError::EmptyResult)
                } else if same_text(candidate.as_str(), old_name) {
                    RenameJob::Finished { result: RenameResult::success(path, candidate) }
                } else {
                    RenameJob::Guarding { path, candidate }
                }
            },
        }
    }

    /// What the job asks its driver to do next.
    pub fn action(&self) -> (action: Action)
        ensures
            action@ == self@.action(),
    {
        match self {
            RenameJob::Inspecting { .. } => Action::InspectSource,
            RenameJob::Guarding { candidate, .. } => Action::ProbeTarget { name: candidate.clone() },
            RenameJob::Renaming { candidate, .. } => Action::Rename { name: candidate.clone() },
            RenameJob::Finished { result } => Action::Report { result: result.duplicate() },
        }
    }

    /// Moves the job on by what the driver found out.
    pub fn step(self, event: Event) -> (next: RenameJob)
        ensures
            next@ == self@.step(event@),
    {
        match self {
            RenameJob::Inspecting { path, command } => match event {
                Event::SourceInspected { exists, has_parent, file_name } => {
                    if !exists {
                        RenameJob::fail(path, RenameError::SourceNotFound)
                    } else if !has_parent {
                        RenameJob::fail(path, RenameError::InvalidPath)
                    } else {
                        match file_name {
                            None => RenameJob::fail(path, RenameError::InvalidName),
                            Some(name) => {
                                let evaluation = command.evaluate(name.as_str());
                                RenameJob::settle(path, name.as_str(), evaluation)
                            },
                        }
                    }
                },
                _ => RenameJob::Inspecting { path, command },
            },
            RenameJob::Guarding { path, candidate } => match event {
                Event::TargetProbed { exists } => {
                    if exists {
                        RenameJob::fail(path, RenameError::TargetExists { name: candidate })
                    } else {
                        RenameJob::Renaming { path, candidate }
                    }
                },
                _ => RenameJob::Guarding { path, candidate },
            },
            RenameJob::Renaming { path, candidate } => match event {
                Event::RenameDone { failure } => match failure {
                    None => RenameJob::Finished { result: RenameResult::success(path, candidate) },
                    Some(reason) => RenameJob::fail(path, RenameError::OperationFailed { reason }),
                },
                _ => RenameJob::Renaming { path, candidate },
            },
            RenameJob::Finished { result } => RenameJob::Finished { result },
        }
    }
}

/// No event leads a job to an empty candidate, or to a result that carries a
/// new name without the status of success.
pub proof fn lemma_step_keeps_well_formed(job: RenameJobView, event: EventView)
    requires
        job.well_formed(),
    ensures
        job.step(event).well_formed(),
{
}

/// Every answer brings a job nearer to its end, and any other event leaves it
/// where it is: a job is over after three answers at most.
pub proof fn lemma_answers_end_job(job: RenameJobView, event: EventView)
    ensures
        job.is_answered_by(event) ==> job.step(event).answers_left() < job.answers_left(),
        !job.is_answered_by(event) ==> job.step(event) == job,
        job.answers_left() == 0 <==> job is Finished,
{
}

/// A job that is over stays as it is, whatever it is told.
pub proof fn lemma_finished_is_final(result: RenameResultView, event: EventView)
    ensures
        (RenameJobView::Finished { result }).step(event) == (RenameJobView::Finished { result }),
{
}

/// A job asks for the rename only while it stands at `Renaming`, and it comes
/// to stand there only from `Guarding`, on the answer that no entry of the
/// candidate name exists.
pub proof fn lemma_rename_needs_free_target(job: RenameJobView, event: EventView)
    ensures
        job.action() is Rename <==> job is Renaming,
        job.step(event) is Renaming ==> job is Renaming || (job is Guarding && event == (
            EventView::TargetProbed { exists: false }
        )),
{
}

/// If the parent directory already holds an entry of the candidate name, the
/// job ends with `TargetExists` and without a new name: what it asks for next
/// is the report, not the rename.
pub proof fn lemma_taken_target_ends_job(path: Seq<char>, candidate: Seq<char>)
    ensures
        ({
            let job = RenameJobView::Guarding { path, candidate };
            let next = job.step(EventView::TargetProbed { exists: true });
            let result = RenameResultView::failure(
                path,
                RenameErrorView::TargetExists { name: candidate },
            );
            &&& next == (RenameJobView::Finished { result })
            &&& next.action() == (ActionView::Report { result })
            &&& result.new_name is None
            &&& result.status == "Target exists: "@ + candidate
        }),
{
}

/// A `Trim` rule that asks for as many characters as the stem has, or more,
/// ends the job as soon as the source is known, with `TrimExceedsLength` and
/// without a new name: neither the probe nor the rename is asked for.
pub proof fn lemma_trim_overrun_ends_job(
    path: Seq<char>,
    name: Seq<char>,
    count: usize,
    position: Position,
)
    requires
        count >= stem_of(name).len(),
    ensures
        ({
            let job = RenameJobView::Inspecting {
                path,
                command: RenameCommand::Trim { count, position },
            };
            let next = job.step(
                EventView::SourceInspected { exists: true, has_parent: true, file_name: Some(name) },
            );
            let result = RenameResultView::failure(
                path,
                RenameErrorView::Evaluation {
                    error: EvaluationErrorView::TrimExceedsLength {
                        count: count as nat,
                        length: stem_of(name).len(),
                    },
                },
            );
            &&& next == (RenameJobView::Finished { result })
            &&& next.action() == (ActionView::Report { result })
            &&& result.new_name is None
        }),
{
}

} // verus!
