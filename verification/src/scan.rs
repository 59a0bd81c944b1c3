//! The range scan as a state machine. The worker that holds the store
//! reports what happened, and the task answers with the next thing to do;
//! the task itself touches neither the store nor the host.

use crate::barrier::{after_add, after_done, WaitGroup};
use crate::error::TaskError;
use crate::range::{
    is_key_out_of_range, out_of_range, resolve_cursor, resolve_seek, CursorStart, IterationOption,
    RangeSpec, Seek,
};
use vstd::prelude::*;

verus! {

/// One record of the store.
#[derive(Clone, Debug, PartialEq, Eq)]
pub struct KV {
    pub key: Vec<u8>,
    pub value: Vec<u8>,
}

/// How far a scan has come.
#[derive(Clone, Copy, Debug, PartialEq, Eq, Structural)]
pub enum Phase {
    /// Not started yet.
    Created,
    /// Walking the cursor and handing records to the host.
    Running,
    /// Done with the cursor, waiting for the host to acknowledge.
    Draining,
    /// Every record was handed over and acknowledged.
    Completed,
    /// Given up after a failure of the store or of the channel.
    Failed,
}

/// What the worker reports to the task.
#[derive(Clone, Debug, PartialEq, Eq)]
pub enum ScanEvent {
    /// The worker holds the store and is ready to scan.
    Started,
    /// The cursor stands on this record.
    Entry(KV),
    /// The cursor has run out of records.
    Exhausted,
    /// The store could not be locked or read; its message.
    StoreFailed(String),
    /// The channel to the host refused the last record; its message.
    DispatchFailed(String),
    /// The worker is back from yielding and asks whether to go on waiting.
    Poll,
}

/// What the task tells the worker to do next.
#[derive(Clone, Debug, PartialEq, Eq)]
pub enum ScanAction {
    /// Open the cursor at this position and report its first record.
    OpenCursor(Seek),
    /// Copy this record to the host, then step the cursor and report.
    Dispatch(KV),
    /// Acknowledgements are missing: yield, then report `Poll`.
    Yield,
    /// Report success with this value.
    Finish(u32),
    /// Report this failure.
    Fail(TaskError),
    /// The report does not fit the phase of the task: nothing to do.
    Ignore,
}

/// An answer of the task as mathematical values.
pub enum ActionView {
    OpenCursor(CursorStart),
    Dispatch(KV),
    Yield,
    Finish(u32),
    Fail(TaskError),
    Ignore,
}

impl View for ScanAction {
    type V = ActionView;

    open spec fn view(&self) -> ActionView {
        match *self {
            ScanAction::OpenCursor(seek) => ActionView::OpenCursor(seek@),
            ScanAction::Dispatch(record) => ActionView::Dispatch(record),
            ScanAction::Yield => ActionView::Yield,
            ScanAction::Finish(value) => ActionView::Finish(value),
            ScanAction::Fail(error) => ActionView::Fail(error),
            ScanAction::Ignore => ActionView::Ignore,
        }
    }
}

/// A range scan in progress.
#[derive(Debug)]
pub struct AsyncIter {
    options: IterationOption,
    phase: Phase,
    emitted: i64,
}

/// A scan as mathematical values: its options, its phase, and the number of
/// records that it has handed out.
pub struct TaskState {
    pub options: RangeSpec,
    pub phase: Phase,
    pub emitted: i64,
}

impl View for AsyncIter {
    type V = TaskState;

    closed spec fn view(&self) -> TaskState {
        TaskState { options: self.options@, phase: self.phase, emitted: self.emitted }
    }
}

/// A task after one report, the count of its barrier, and its answer.
pub struct Outcome {
    pub task: TaskState,
    pub outstanding: nat,
    pub action: ActionView,
}

/// A scan that has not started.
pub open spec fn created(options: RangeSpec) -> TaskState {
    TaskState { options, phase: Phase::Created, emitted: 0 }
}

/// The task in another phase.
pub open spec fn moved_to(task: TaskState, phase: Phase) -> TaskState {
    TaskState { phase, ..task }
}

/// The count of records handed out, after one more. It stops at the
/// largest value of its type. A scan with a limit halts long before, and
/// one without a limit never looks at the count.
pub open spec fn counted(emitted: i64) -> i64 {
    if emitted < i64::MAX {
        (emitted + 1) as i64
    } else {
        emitted
    }
}

/// What holds of the count of every scan: it is never negative, stays
/// within a limit that is not negative, and stays at zero under a limit
/// below `-1`.
pub open spec fn counts_within_limit(task: TaskState) -> bool {
    &&& 0 <= task.emitted
    &&& task.options.limit >= 0 ==> task.emitted <= task.options.limit
    &&& task.options.limit < -1 ==> task.emitted == 0
}

/// The task has no more records to hand out. It is complete once nothing
/// is outstanding at the barrier, and keeps waiting until then.
pub open spec fn drain(task: TaskState, outstanding: nat) -> Outcome {
    if outstanding == 0 {
        Outcome {
            task: moved_to(task, Phase::Completed),
            outstanding,
            action: ActionView::Finish(0),
        }
    } else {
        Outcome { task: moved_to(task, Phase::Draining), outstanding, action: ActionView::Yield }
    }
}

/// The task gives up. Records that are still unacknowledged are left
/// behind: the failure is reported at once.
pub open spec fn fail(task: TaskState, outstanding: nat, error: TaskError) -> Outcome {
    Outcome { task: moved_to(task, Phase::Failed), outstanding, action: ActionView::Fail(error) }
}

/// The report does not fit the phase: nothing changes.
pub open spec fn ignore(task: TaskState, outstanding: nat) -> Outcome {
    Outcome { task, outstanding, action: ActionView::Ignore }
}

/// One step of a scan: the task and its barrier after the report `event`,
/// and what the worker is to do next.
///
/// A task that was created starts running and has the cursor opened where
/// its options place it, or fails if the store could not be locked. A running task halts at the first record that is out of
/// range and when the cursor runs out; every record before that is
/// announced at the barrier and handed to the host, in the order in which
/// the cursor produced it. A failure of the store or of the channel ends
/// the scan. A draining task completes when it finds the barrier at zero.
pub open spec fn step(task: TaskState, outstanding: nat, event: ScanEvent) -> Outcome {
    match task.phase {
        Phase::Created => match event {
            ScanEvent::Started => Outcome {
                task: moved_to(task, Phase::Running),
                outstanding,
                action: ActionView::OpenCursor(resolve_cursor(task.options)),
            },
            ScanEvent::StoreFailed(message) => fail(
                task,
                outstanding,
                TaskError::StoreRead(message),
            ),
            _ => ignore(task, outstanding),
        },
        Phase::Running => match event {
            ScanEvent::Entry(record) => if out_of_range(task.options, record.key@, task.emitted) {
                drain(task, outstanding)
            } else {
                Outcome {
                    task: TaskState { emitted: counted(task.emitted), ..task },
                    outstanding: after_add(outstanding, 1),
                    action: ActionView::Dispatch(record),
                }
            },
            ScanEvent::Exhausted => drain(task, outstanding),
            ScanEvent::StoreFailed(message) => fail(
                task,
                outstanding,
                TaskError::StoreRead(message),
            ),
            ScanEvent::DispatchFailed(message) => fail(
                task,
                outstanding,
                TaskError::Dispatch(message),
            ),
            _ => ignore(task, outstanding),
        },
        Phase::Draining => match event {
            ScanEvent::Poll => drain(task, outstanding),
            _ => ignore(task, outstanding),
        },
        Phase::Completed => ignore(task, outstanding),
        Phase::Failed => ignore(task, outstanding),
    }
}

/// Sets up a scan with the given options, together with the barrier that
/// counts its unacknowledged records.
pub fn get_iterator(opts: IterationOption) -> (scan: (AsyncIter, WaitGroup))
    ensures
        scan.0@ == created(opts@),
        scan.1@ == 0,
{
    (AsyncIter { options: opts, phase: Phase::Created, emitted: 0 }, WaitGroup::new())
}

/// The host is done with `record`: takes it off the barrier and hands it
/// on as the one argument of the host's callback.
pub fn acknowledge(record: KV, barrier: &mut WaitGroup) -> (arguments: Vec<KV>)
    ensures
        final(barrier)@ == after_done(old(barrier)@),
        arguments@ == seq![record],
{
    barrier.done();
    let mut arguments: Vec<KV> = Vec::new();
    arguments.push(record);
    arguments
}

impl AsyncIter {
    /// The count of records handed out is never negative, stays within a
    /// limit that is not negative, and stays at zero under a limit below
    /// `-1`, which lets nothing through.
    #[verifier::type_invariant]
    spec fn counted_within_limit(self) -> bool {
        counts_within_limit(self@)
    }

    /// The options of the scan.
    pub fn options(&self) -> (options: &IterationOption)
        ensures
            options@ == self@.options,
    {
        &self.options
    }

    /// The phase of the scan.
    pub fn phase(&self) -> (phase: Phase)
        ensures
            phase == self@.phase,
    {
        self.phase
    }

    /// The number of records handed out so far.
    pub fn emitted(&self) -> (emitted: i64)
        ensures
            emitted == self@.emitted,
            counts_within_limit(self@),
    {
        proof {
            use_type_invariant(self);
        }
        self.emitted
    }

    fn drain(&mut self, barrier: &WaitGroup) -> (action: ScanAction)
        ensures
            drain(old(self)@, barrier@) == (Outcome {
                task: final(self)@,
                outstanding: barrier@,
                action: action@,
            }),
    {
        proof {
            use_type_invariant(&*self);
        }
        if barrier.try_wait() {
            self.phase = Phase::Completed;
            ScanAction::Finish(0)
        } else {
            self.phase = Phase::Draining;
            ScanAction::Yield
        }
    }

    fn fail(&mut self, error: TaskError) -> (action: ScanAction)
        ensures
            final(self)@ == moved_to(old(self)@, Phase::Failed),
            action == ScanAction::Fail(error),
    {
        proof {
            use_type_invariant(&*self);
        }
        self.phase = Phase::Failed;
        ScanAction::Fail(error)
    }

    /// Takes one report of the worker and answers with what to do next.
    /// `barrier` is the barrier of this scan, held for the length of the
    /// call: a record that is handed out is announced there first, and a
    /// scan completes only when it finds nothing outstanding there.
    pub fn compute(&mut self, event: ScanEvent, barrier: &mut WaitGroup) -> (action: ScanAction)
        requires
            old(barrier)@ < usize::MAX,
        ensures
            step(old(self)@, old(barrier)@, event) == (Outcome {
                task: final(self)@,
                outstanding: final(barrier)@,
                action: action@,
            }),
    {
        proof {
            use_type_invariant(&*self);
        }
        match self.phase {
            Phase::Created => match event {
                ScanEvent::Started => {
                    self.phase = Phase::Running;
                    ScanAction::OpenCursor(resolve_seek(&self.options))
                },
                ScanEvent::StoreFailed(message) => self.fail(TaskError::StoreRead(message)),
                _ => ScanAction::Ignore,
            },
            Phase::Running => match event {
                ScanEvent::Entry(record) => {
                    if is_key_out_of_range(&self.options, record.key.as_slice(), self.emitted) {
                        self.drain(barrier)
                    } else {
                        barrier.add(1);
                        if self.emitted < i64::MAX {
                            self.emitted = self.emitted + 1;
                        }
                        ScanAction::Dispatch(record)
                    }
                },
                ScanEvent::Exhausted => self.drain(barrier),
                ScanEvent::StoreFailed(message) => self.fail(TaskError::StoreRead(message)),
                ScanEvent::DispatchFailed(message) => self.fail(TaskError::Dispatch(message)),
                _ => ScanAction::Ignore,
            },
            Phase::Draining => match event {
                ScanEvent::Poll => self.drain(barrier),
                _ => ScanAction::Ignore,
            },
            Phase::Completed => ScanAction::Ignore,
            Phase::Failed => ScanAction::Ignore,
        }
    }
}

} // verus!
