//! The per-file worker lifecycle: gate, read, transform, write, delete.
//!
//! One worker exists per dequeued file task and walks a fixed sequence of
//! steps, each of which can fail: clear the availability gate, read the
//! content, extract the file name, run the bound strategy, write the output
//! file, delete the source. Every step's outside work (the waiting, the I/O,
//! the offloaded transform) is performed by the driver; the worker is a
//! state machine that consumes the outcome of one step and decides the next
//! action. All decisions — failure classification, the output path, the
//! result record, and above all when the source may be deleted — are made
//! here.
//!
//! Lifecycle atomicity: the worker requests the source deletion exactly at
//! the step where the output write succeeded, and at no other; a failure at
//! any earlier step aborts the task with the source untouched.

use vstd::prelude::*;
use vstd::string::StringExecFns;
use vstd::utf8::encode_utf8;

use crate::config::ProcessingConfig;
use crate::error::AppError;
use crate::processor::ProcessingResult;
use crate::utils::derive_output_name;
use crate::utils::extract_file_name;
use crate::utils::join_path;
use crate::utils::spec_file_name;
use crate::utils::spec_join;
use crate::utils::spec_output_name;

verus! {

/// Where a worker stands in its file's lifecycle, with the data gathered so
/// far.
pub enum WorkerState {
    /// Waiting for the availability gate's verdict.
    AwaitingGate,
    /// Waiting for the file's content.
    AwaitingRead,
    /// Waiting for the strategy's output.
    AwaitingTransform { file_name: String, original_size: usize },
    /// Waiting for the output write.
    AwaitingWrite {
        original_size: usize,
        processed_size: usize,
        processing_time_ms: u64,
        output_path: String,
    },
    /// Output written; waiting for the source deletion.
    AwaitingDelete { result: ProcessingResult },
    /// Finished successfully.
    Completed { result: ProcessingResult },
    /// Finished with a classified failure.
    Failed { error: AppError },
}

/// The outcome of one lifecycle step, reported by the driver.
pub enum WorkerEvent {
    /// The availability gate cleared the file.
    GateCleared,
    /// The availability retries were exhausted.
    GateExhausted,
    /// The file's content was read.
    ReadCompleted { content: Vec<u8> },
    /// Reading failed; the rendered I/O error.
    ReadFailed { message: String },
    /// The strategy produced its text, and how long it took.
    TransformCompleted { output: String, elapsed_ms: u64 },
    /// The strategy or its offloaded task failed.
    TransformFailed { error: AppError },
    /// The output file was written.
    WriteCompleted,
    /// Writing failed; the rendered I/O error.
    WriteFailed { message: String },
    /// The source file was deleted.
    DeleteCompleted,
    /// Deleting failed; the rendered I/O error.
    DeleteFailed { message: String },
}

/// What the driver must do next.
pub enum WorkerAction {
    /// Read the source file's content.
    ReadSource,
    /// Run the bound strategy on this name and content, off the scheduler.
    RunTransform { file_name: String, content: Vec<u8> },
    /// Write this text to this output path.
    WriteOutput { output_path: String, data: String },
    /// Delete the source file.
    DeleteSource,
    /// The task is complete: report the result.
    ReportSuccess,
    /// The task failed: report the error.
    ReportFailure,
}

/// Which events belong to which state. Completed and failed workers take no
/// further events.
pub open spec fn spec_event_fits(state: WorkerState, event: WorkerEvent) -> bool {
    match state {
        WorkerState::AwaitingGate => event is GateCleared || event is GateExhausted,
        WorkerState::AwaitingRead => event is ReadCompleted || event is ReadFailed,
        WorkerState::AwaitingTransform { .. } => event is TransformCompleted
            || event is TransformFailed,
        WorkerState::AwaitingWrite { .. } => event is WriteCompleted || event is WriteFailed,
        WorkerState::AwaitingDelete { .. } => event is DeleteCompleted || event is DeleteFailed,
        WorkerState::Completed { .. } => false,
        WorkerState::Failed { .. } => false,
    }
}

/// The lifecycle phases, with the gathered data abstracted away.
pub enum LifecyclePhase {
    Gating,
    Reading,
    Transforming,
    Writing,
    Deleting,
    Done,
    Failed,
}

/// The phase a worker state belongs to.
pub open spec fn spec_phase_of(state: WorkerState) -> LifecyclePhase {
    match state {
        WorkerState::AwaitingGate => LifecyclePhase::Gating,
        WorkerState::AwaitingRead => LifecyclePhase::Reading,
        WorkerState::AwaitingTransform { .. } => LifecyclePhase::Transforming,
        WorkerState::AwaitingWrite { .. } => LifecyclePhase::Writing,
        WorkerState::AwaitingDelete { .. } => LifecyclePhase::Deleting,
        WorkerState::Completed { .. } => LifecyclePhase::Done,
        WorkerState::Failed { .. } => LifecyclePhase::Failed,
    }
}

/// The abstract lifecycle machine: how one event moves a phase. `name_ok`
/// tells whether the task's path has a file name. An event that does not
/// belong to the phase leaves it unchanged.
pub open spec fn spec_phase_step(p: LifecyclePhase, event: WorkerEvent, name_ok: bool) -> LifecyclePhase {
    match p {
        LifecyclePhase::Gating => match event {
            WorkerEvent::GateCleared => LifecyclePhase::Reading,
            WorkerEvent::GateExhausted => LifecyclePhase::Failed,
            _ => p,
        },
        LifecyclePhase::Reading => match event {
            WorkerEvent::ReadCompleted { .. } => if name_ok {
                LifecyclePhase::Transforming
            } else {
                LifecyclePhase::Failed
            },
            WorkerEvent::ReadFailed { .. } => LifecyclePhase::Failed,
            _ => p,
        },
        LifecyclePhase::Transforming => match event {
            WorkerEvent::TransformCompleted { .. } => LifecyclePhase::Writing,
            WorkerEvent::TransformFailed { .. } => LifecyclePhase::Failed,
            _ => p,
        },
        LifecyclePhase::Writing => match event {
            WorkerEvent::WriteCompleted => LifecyclePhase::Deleting,
            WorkerEvent::WriteFailed { .. } => LifecyclePhase::Failed,
            _ => p,
        },
        LifecyclePhase::Deleting => match event {
            WorkerEvent::DeleteCompleted => LifecyclePhase::Done,
            WorkerEvent::DeleteFailed { .. } => LifecyclePhase::Failed,
            _ => p,
        },
        LifecyclePhase::Done => p,
        LifecyclePhase::Failed => p,
    }
}

/// The phase after a whole event trace.
pub open spec fn spec_phase_run(p: LifecyclePhase, events: Seq<WorkerEvent>, name_ok: bool) -> LifecyclePhase
    decreases events.len(),
{
    if events.len() == 0 {
        p
    } else {
        spec_phase_run(spec_phase_step(p, events.first(), name_ok), events.drop_first(), name_ok)
    }
}

/// Whether the output write succeeds somewhere along a trace: some event is
/// a completed write arriving in the writing phase.
pub open spec fn spec_write_succeeded(p: LifecyclePhase, events: Seq<WorkerEvent>, name_ok: bool) -> bool
    decreases events.len(),
{
    if events.len() == 0 {
        false
    } else {
        (p is Writing && events.first() is WriteCompleted) || spec_write_succeeded(
            spec_phase_step(p, events.first(), name_ok),
            events.drop_first(),
            name_ok,
        )
    }
}

/// Whether a trace ever brings the worker to the deleting phase — the only
/// phase in which the source deletion is requested.
pub open spec fn spec_reaches_deleting(p: LifecyclePhase, events: Seq<WorkerEvent>, name_ok: bool) -> bool
    decreases events.len(),
{
    if p is Deleting {
        true
    } else if events.len() == 0 {
        false
    } else {
        spec_reaches_deleting(
            spec_phase_step(p, events.first(), name_ok),
            events.drop_first(),
            name_ok,
        )
    }
}

proof fn lemma_atomicity_from(p: LifecyclePhase, events: Seq<WorkerEvent>, name_ok: bool)
    requires
        !(p is Deleting),
    ensures
        spec_reaches_deleting(p, events, name_ok) <==> spec_write_succeeded(p, events, name_ok),
    decreases events.len(),
{
    if events.len() > 0 {
        let q = spec_phase_step(p, events.first(), name_ok);
        if p is Writing && events.first() is WriteCompleted {
            assert(spec_reaches_deleting(q, events.drop_first(), name_ok));
        } else {
            assert(!(q is Deleting));
            lemma_atomicity_from(q, events.drop_first(), name_ok);
        }
    }
}

proof fn lemma_done_via_deleting(p: LifecyclePhase, events: Seq<WorkerEvent>, name_ok: bool)
    requires
        !(p is Done),
    ensures
        (spec_phase_run(p, events, name_ok) is Done) ==> spec_reaches_deleting(
            p,
            events,
            name_ok,
        ),
    decreases events.len(),
{
    if !(p is Deleting) && events.len() > 0 {
        let q = spec_phase_step(p, events.first(), name_ok);
        assert(!(q is Done));
        lemma_done_via_deleting(q, events.drop_first(), name_ok);
    }
}

/// Lifecycle atomicity: over any event trace from the start of a task, the
/// worker enters the deleting phase — the only phase that requests the
/// source deletion — exactly when the output write has succeeded; and a
/// task can only complete by passing through it. A failure at any earlier
/// step leaves the source untouched.
pub proof fn lemma_lifecycle_atomicity(events: Seq<WorkerEvent>, name_ok: bool)
    ensures
        spec_reaches_deleting(LifecyclePhase::Gating, events, name_ok) <==> spec_write_succeeded(
            LifecyclePhase::Gating,
            events,
            name_ok,
        ),
        (spec_phase_run(LifecyclePhase::Gating, events, name_ok) is Done) ==> spec_write_succeeded(
            LifecyclePhase::Gating,
            events,
            name_ok,
        ),
{
    lemma_atomicity_from(LifecyclePhase::Gating, events, name_ok);
    lemma_done_via_deleting(LifecyclePhase::Gating, events, name_ok);
}

/// One file's worker: the task's fixed locations and its current state.
pub struct Worker {
    /// The detected file this worker owns.
    pub input_path: String,
    /// The directory that receives the output file.
    pub output_dir: String,
    /// The extension appended to the input file's stem.
    pub output_extension: String,
    /// Where the worker stands in the lifecycle.
    pub state: WorkerState,
}

impl Worker {
    /// A fresh worker for one detected file.
    pub fn new(input_path: String, output_dir: String, config: &ProcessingConfig) -> (w: Worker)
        ensures
            w.input_path == input_path,
            w.output_dir == output_dir,
            w.output_extension == config.output_extension,
            w.state is AwaitingGate,
    {
        Worker {
            input_path,
            output_dir,
            output_extension: config.output_extension.clone(),
            state: WorkerState::AwaitingGate,
        }
    }

    /// Consume the outcome of one lifecycle step and decide the next
    /// action.
    ///
    /// The deletion clause is the heart of the lifecycle: the source
    /// deletion is requested if and only if this very step reports the
    /// successful output write.
    pub fn step(self, event: WorkerEvent) -> (r: (Worker, WorkerAction))
        requires
            spec_event_fits(self.state, event),
        ensures
            r.0.input_path == self.input_path,
            r.0.output_dir == self.output_dir,
            r.0.output_extension == self.output_extension,
            spec_phase_of(r.0.state) == spec_phase_step(
                spec_phase_of(self.state),
                event,
                spec_file_name(self.input_path@) is Some,
            ),
            (r.1 is DeleteSource) <==> (self.state is AwaitingWrite && event is WriteCompleted),
            self.state is AwaitingGate && event is GateCleared ==> r.0.state is AwaitingRead
                && r.1 is ReadSource,
            self.state is AwaitingGate && event is GateExhausted ==> (
            r.0.state matches WorkerState::Failed { error } && (error
                matches AppError::Processing(m) && m@ == "File "@ + self.input_path@
                + " is not available after retries"@)) && r.1 is ReportFailure,
            self.state is AwaitingRead ==> (event matches WorkerEvent::ReadCompleted { content }
                ==> ((match spec_file_name(self.input_path@) {
                Some(name) => (r.0.state matches WorkerState::AwaitingTransform {
                    file_name,
                    original_size,
                } && file_name@ == name && original_size == content@.len()) && (
                r.1 matches WorkerAction::RunTransform { file_name: task_name, content: task_content }
                    && task_name@ == name && task_content == content),
                None => (r.0.state matches WorkerState::Failed { error } && (error
                    matches AppError::Processing(m) && m@ == "Could not get file name for "@
                    + self.input_path@)) && r.1 is ReportFailure,
            }))),
            self.state is AwaitingRead ==> (event matches WorkerEvent::ReadFailed { message } ==> (
            r.0.state matches WorkerState::Failed { error } && error == AppError::Io(message))
                && r.1 is ReportFailure),
            self.state matches WorkerState::AwaitingTransform { file_name, original_size } ==> (
            event matches WorkerEvent::TransformCompleted { output, elapsed_ms } ==> ({
                let target = spec_join(
                    self.output_dir@,
                    spec_output_name(file_name@, self.output_extension@),
                );
                (r.0.state matches WorkerState::AwaitingWrite {
                    original_size: kept_size,
                    processed_size,
                    processing_time_ms,
                    output_path,
                } && kept_size == original_size && processed_size == encode_utf8(
                    output@,
                ).len() as usize && processing_time_ms == elapsed_ms && output_path@ == target) && (
                r.1 matches WorkerAction::WriteOutput { output_path: target_path, data }
                    && target_path@ == target && data == output)
            })),
            self.state is AwaitingTransform ==> (event matches WorkerEvent::TransformFailed {
                error,
            } ==> (r.0.state matches WorkerState::Failed { error: kept } && kept == error)
                && r.1 is ReportFailure),
            self.state matches WorkerState::AwaitingWrite {
                original_size,
                processed_size,
                processing_time_ms,
                output_path,
            } ==> (event is WriteCompleted ==> (r.0.state matches WorkerState::AwaitingDelete {
                result,
            } && result.input_file == self.input_path && result.output_file == output_path
                && result.original_size == original_size && result.processed_size == processed_size
                && result.processing_time_ms == processing_time_ms && result.strategy_info is None)),
            self.state is AwaitingWrite ==> (event matches WorkerEvent::WriteFailed { message }
                ==> (r.0.state matches WorkerState::Failed { error } && error == AppError::Io(
                message,
            )) && r.1 is ReportFailure),
            self.state matches WorkerState::AwaitingDelete { result } ==> (event
                is DeleteCompleted ==> (r.0.state matches WorkerState::Completed { result: kept }
                && kept == result) && r.1 is ReportSuccess),
            self.state is AwaitingDelete ==> (event matches WorkerEvent::DeleteFailed { message }
                ==> (r.0.state matches WorkerState::Failed { error } && error == AppError::Io(
                message,
            )) && r.1 is ReportFailure),
    {
        let Worker { input_path, output_dir, output_extension, state } = self;
        match (state, event) {
            (WorkerState::AwaitingGate, WorkerEvent::GateCleared) => {
                let w = Worker {
                    input_path,
                    output_dir,
                    output_extension,
                    state: WorkerState::AwaitingRead,
                };
                (w, WorkerAction::ReadSource)
            },
            (WorkerState::AwaitingGate, WorkerEvent::GateExhausted) => {
                let mut m = String::from_str("File ");
                m.append(input_path.as_str());
                m.append(" is not available after retries");
                assert(m@ =~= "File "@ + input_path@ + " is not available after retries"@);
                let w = Worker {
                    input_path,
                    output_dir,
                    output_extension,
                    state: WorkerState::Failed { error: AppError::Processing(m) },
                };
                (w, WorkerAction::ReportFailure)
            },
            (WorkerState::AwaitingRead, WorkerEvent::ReadCompleted { content }) => {
                match extract_file_name(input_path.as_str()) {
                    Ok(file_name) => {
                        let task_name = file_name.clone();
                        let original_size = content.len();
                        let w = Worker {
                            input_path,
                            output_dir,
                            output_extension,
                            state: WorkerState::AwaitingTransform { file_name, original_size },
                        };
                        (w, WorkerAction::RunTransform { file_name: task_name, content })
                    },
                    Err(error) => {
                        let w = Worker {
                            input_path,
                            output_dir,
                            output_extension,
                            state: WorkerState::Failed { error },
                        };
                        (w, WorkerAction::ReportFailure)
                    },
                }
            },
            (WorkerState::AwaitingRead, WorkerEvent::ReadFailed { message }) => {
                let w = Worker {
                    input_path,
                    output_dir,
                    output_extension,
                    state: WorkerState::Failed { error: AppError::Io(message) },
                };
                (w, WorkerAction::ReportFailure)
            },
            (
                WorkerState::AwaitingTransform { file_name, original_size },
                WorkerEvent::TransformCompleted { output, elapsed_ms },
            ) => {
                let output_name = derive_output_name(
                    file_name.as_str(),
                    output_extension.as_str(),
                );
                let output_path = join_path(output_dir.as_str(), output_name.as_str());
                let target_path = output_path.clone();
                let processed_size = output.as_str().len();
                let w = Worker {
                    input_path,
                    output_dir,
                    output_extension,
                    state: WorkerState::AwaitingWrite {
                        original_size,
                        processed_size,
                        processing_time_ms: elapsed_ms,
                        output_path,
                    },
                };
                (w, WorkerAction::WriteOutput { output_path: target_path, data: output })
            },
            (WorkerState::AwaitingTransform { .. }, WorkerEvent::TransformFailed { error }) => {
                let w = Worker {
                    input_path,
                    output_dir,
                    output_extension,
                    state: WorkerState::Failed { error },
                };
                (w, WorkerAction::ReportFailure)
            },
            (
                WorkerState::AwaitingWrite {
                    original_size,
                    processed_size,
                    processing_time_ms,
                    output_path,
                },
                WorkerEvent::WriteCompleted,
            ) => {
                let result = ProcessingResult {
                    input_file: input_path.clone(),
                    output_file: output_path,
                    original_size,
                    processed_size,
                    processing_time_ms,
                    strategy_info: None,
                };
                let w = Worker {
                    input_path,
                    output_dir,
                    output_extension,
                    state: WorkerState::AwaitingDelete { result },
                };
                (w, WorkerAction::DeleteSource)
            },
            (WorkerState::AwaitingWrite { .. }, WorkerEvent::WriteFailed { message }) => {
                let w = Worker {
                    input_path,
                    output_dir,
                    output_extension,
                    state: WorkerState::Failed { error: AppError::Io(message) },
                };
                (w, WorkerAction::ReportFailure)
            },
            (WorkerState::AwaitingDelete { result }, WorkerEvent::DeleteCompleted) => {
                let w = Worker {
                    input_path,
                    output_dir,
                    output_extension,
                    state: WorkerState::Completed { result },
                };
                (w, WorkerAction::ReportSuccess)
            },
            (WorkerState::AwaitingDelete { .. }, WorkerEvent::DeleteFailed { message }) => {
                let w = Worker {
                    input_path,
                    output_dir,
                    output_extension,
                    state: WorkerState::Failed { error: AppError::Io(message) },
                };
                (w, WorkerAction::ReportFailure)
            },
            _ => {
                proof {
                    assert(false);
                }
                let w = Worker {
                    input_path,
                    output_dir,
                    output_extension,
                    state: WorkerState::AwaitingGate,
                };
                (w, WorkerAction::ReportFailure)
            },
        }
    }
}

} // verus!
