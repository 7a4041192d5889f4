//! The task as a sequence of device actions, each followed by what the
//! device reported.
//!
//! A `Task` never touches the device. At every moment it names the one action
//! it is waiting for; the caller performs that action and reports the
//! outcome with `advance`. Control is linear: each outcome either moves the
//! task to the next action or fails it for good.
use vstd::prelude::*;
use crate::binding::{BindingEntry, BindingLayout, BindingSet, SlotLayout};
use crate::buffer::{plan_buffers, BufferPair};
use crate::command::{record_task, task_commands, Command, Submission};
use crate::error::{Stage, TaskError};
use crate::layout::{decode, encode, is_image_of, is_reading_of};

verus! {

/// Where the task stands: which outcome it is waiting for, or how it ended.
#[derive(Clone, Copy, Debug, PartialEq, Eq, Structural)]
pub enum Phase {
    AwaitingAdapter,
    AwaitingDevice,
    AwaitingBuffers,
    AwaitingProgram,
    AwaitingPipeline,
    AwaitingBindings,
    AwaitingSubmission,
    AwaitingMapping,
    Reading,
    Releasing,
    Finished,
    Failed(TaskError),
}

/// What the caller reports after performing the pending action.
#[derive(Debug)]
pub enum Event {
    /// The action was carried out.
    Succeeded,
    /// The device refused or could not carry out the action.
    Failed,
    /// The bytes found in the mapped output buffer.
    Bytes(Vec<u8>),
}

/// What the task asks the caller to do next.
#[derive(Debug)]
pub enum Action {
    /// Find an accelerator; any will do.
    RequestAdapter,
    /// Ask the accelerator for a logical device and its queue.
    RequestDevice,
    /// Allocate both buffers and fill the input buffer with `contents`.
    CreateBuffers { contents: Vec<u8>, buffers: BufferPair },
    /// Compile the program text.
    CompileProgram,
    /// Build the pipeline from the compiled program and this layout.
    CreatePipeline { layout: BindingLayout },
    /// Build the binding set.
    CreateBindings { bindings: BindingSet },
    /// Submit these operations to the queue.
    Submit { commands: Submission },
    /// Ask for the output buffer to be mapped for reading, drive the device
    /// until it answers, and wait for the answer.
    MapOutput { offset: u64, byte_len: u64 },
    /// Read the mapped bytes of the output buffer.
    ReadMapped { offset: u64, byte_len: u64 },
    /// Release the mapping of the output buffer.
    ReleaseMapping,
}

/// An event as a mathematical value.
pub enum EventView {
    Succeeded,
    Failed,
    Bytes(Seq<u8>),
}

/// An action as a mathematical value.
pub enum ActionView {
    RequestAdapter,
    RequestDevice,
    CreateBuffers { contents: Seq<u8>, buffers: BufferPair },
    CompileProgram,
    CreatePipeline { layout: Seq<SlotLayout> },
    CreateBindings { layout: Seq<SlotLayout>, entries: Seq<BindingEntry> },
    Submit { commands: Seq<Command> },
    MapOutput { offset: u64, byte_len: u64 },
    ReadMapped { offset: u64, byte_len: u64 },
    ReleaseMapping,
}

/// A task as a mathematical value.
pub struct TaskView {
    /// Where the task stands.
    pub phase: Phase,
    /// The host data as bytes, as it is uploaded.
    pub contents: Seq<u8>,
    /// The values read back; empty until they have been read.
    pub output: Seq<u32>,
}

impl View for Event {
    type V = EventView;

    open spec fn view(&self) -> EventView {
        match self {
            Event::Succeeded => EventView::Succeeded,
            Event::Failed => EventView::Failed,
            Event::Bytes(bytes) => EventView::Bytes(bytes@),
        }
    }
}

impl View for Action {
    type V = ActionView;

    open spec fn view(&self) -> ActionView {
        match self {
            Action::RequestAdapter => ActionView::RequestAdapter,
            Action::RequestDevice => ActionView::RequestDevice,
            Action::CreateBuffers { contents, buffers } => ActionView::CreateBuffers {
                contents: contents@,
                buffers: *buffers,
            },
            Action::CompileProgram => ActionView::CompileProgram,
            Action::CreatePipeline { layout } => ActionView::CreatePipeline { layout: layout@ },
            Action::CreateBindings { bindings } => ActionView::CreateBindings {
                layout: bindings.layout_view(),
                entries: bindings@,
            },
            Action::Submit { commands } => ActionView::Submit { commands: commands@ },
            Action::MapOutput { offset, byte_len } => ActionView::MapOutput {
                offset: *offset,
                byte_len: *byte_len,
            },
            Action::ReadMapped { offset, byte_len } => ActionView::ReadMapped {
                offset: *offset,
                byte_len: *byte_len,
            },
            Action::ReleaseMapping => ActionView::ReleaseMapping,
        }
    }
}

impl Phase {
    /// The task has ended, with or without a result.
    pub open spec fn terminal(self) -> bool {
        self is Finished || self is Failed
    }

    /// The stage that the phase belongs to.
    pub open spec fn stage_of(self) -> Stage {
        match self {
            Phase::AwaitingAdapter | Phase::AwaitingDevice => Stage::ContextAcquisition,
            Phase::AwaitingBuffers => Stage::ResourcePreparation,
            Phase::AwaitingProgram | Phase::AwaitingPipeline | Phase::AwaitingBindings =>
                Stage::ProgramBinding,
            Phase::AwaitingSubmission => Stage::Dispatch,
            Phase::AwaitingMapping | Phase::Reading | Phase::Releasing | Phase::Finished =>
                Stage::Readback,
            Phase::Failed(error) => error.stage_of(),
        }
    }

    /// How far the task has come: every accepted event raises it.
    pub open spec fn rank(self) -> nat {
        match self {
            Phase::AwaitingAdapter => 0,
            Phase::AwaitingDevice => 1,
            Phase::AwaitingBuffers => 2,
            Phase::AwaitingProgram => 3,
            Phase::AwaitingPipeline => 4,
            Phase::AwaitingBindings => 5,
            Phase::AwaitingSubmission => 6,
            Phase::AwaitingMapping => 7,
            Phase::Reading => 8,
            Phase::Releasing => 9,
            Phase::Finished => 10,
            Phase::Failed(_) => 10,
        }
    }

    /// The failure that a refusal in this phase amounts to, if the action of
    /// this phase can be refused at all. Submission and the steps after the
    /// mapping exists report no failure.
    pub open spec fn failure(self) -> Option<TaskError> {
        match self {
            Phase::AwaitingAdapter => Some(TaskError::NoAdapter),
            Phase::AwaitingDevice => Some(TaskError::DeviceRequest),
            Phase::AwaitingBuffers => Some(TaskError::Allocation),
            Phase::AwaitingProgram => Some(TaskError::Compilation),
            Phase::AwaitingPipeline => Some(TaskError::PipelineCreation),
            Phase::AwaitingBindings => Some(TaskError::PipelineCreation),
            Phase::AwaitingMapping => Some(TaskError::Mapping),
            _ => None,
        }
    }

    /// The phase that follows this one when its action was carried out.
    /// `Reading` is left by the bytes that were read, not by a plain success.
    pub open spec fn successor(self) -> Option<Phase> {
        match self {
            Phase::AwaitingAdapter => Some(Phase::AwaitingDevice),
            Phase::AwaitingDevice => Some(Phase::AwaitingBuffers),
            Phase::AwaitingBuffers => Some(Phase::AwaitingProgram),
            Phase::AwaitingProgram => Some(Phase::AwaitingPipeline),
            Phase::AwaitingPipeline => Some(Phase::AwaitingBindings),
            Phase::AwaitingBindings => Some(Phase::AwaitingSubmission),
            Phase::AwaitingSubmission => Some(Phase::AwaitingMapping),
            Phase::AwaitingMapping => Some(Phase::Reading),
            Phase::Releasing => Some(Phase::Finished),
            _ => None,
        }
    }

    /// Whether the task has ended.
    pub fn is_terminal(&self) -> (ended: bool)
        ensures
            ended == self.terminal(),
    {
        match self {
            Phase::Finished => true,
            Phase::Failed(_) => true,
            _ => false,
        }
    }

    /// The stage that the phase belongs to.
    pub fn stage(&self) -> (stage: Stage)
        ensures
            stage == self.stage_of(),
    {
        match self {
            Phase::AwaitingAdapter => Stage::ContextAcquisition,
            Phase::AwaitingDevice => Stage::ContextAcquisition,
            Phase::AwaitingBuffers => Stage::ResourcePreparation,
            Phase::AwaitingProgram => Stage::ProgramBinding,
            Phase::AwaitingPipeline => Stage::ProgramBinding,
            Phase::AwaitingBindings => Stage::ProgramBinding,
            Phase::AwaitingSubmission => Stage::Dispatch,
            Phase::AwaitingMapping => Stage::Readback,
            Phase::Reading => Stage::Readback,
            Phase::Releasing => Stage::Readback,
            Phase::Finished => Stage::Readback,
            Phase::Failed(error) => error.stage(),
        }
    }

    /// The failure that a refusal in this phase amounts to, if any.
    pub fn failure_on_refusal(&self) -> (error: Option<TaskError>)
        ensures
            error == self.failure(),
    {
        match self {
            Phase::AwaitingAdapter => Some(TaskError::NoAdapter),
            Phase::AwaitingDevice => Some(TaskError::DeviceRequest),
            Phase::AwaitingBuffers => Some(TaskError::Allocation),
            Phase::AwaitingProgram => Some(TaskError::Compilation),
            Phase::AwaitingPipeline => Some(TaskError::PipelineCreation),
            Phase::AwaitingBindings => Some(TaskError::PipelineCreation),
            Phase::AwaitingMapping => Some(TaskError::Mapping),
            _ => None,
        }
    }

    /// The phase that follows this one when its action was carried out.
    pub fn next_on_success(&self) -> (next: Option<Phase>)
        ensures
            next == self.successor(),
    {
        match self {
            Phase::AwaitingAdapter => Some(Phase::AwaitingDevice),
            Phase::AwaitingDevice => Some(Phase::AwaitingBuffers),
            Phase::AwaitingBuffers => Some(Phase::AwaitingProgram),
            Phase::AwaitingProgram => Some(Phase::AwaitingPipeline),
            Phase::AwaitingPipeline => Some(Phase::AwaitingBindings),
            Phase::AwaitingBindings => Some(Phase::AwaitingSubmission),
            Phase::AwaitingSubmission => Some(Phase::AwaitingMapping),
            Phase::AwaitingMapping => Some(Phase::Reading),
            Phase::Releasing => Some(Phase::Finished),
            _ => None,
        }
    }
}

/// The event is one that a task in this state takes: a success or a refusal
/// where the pending action can report one, and, while reading, bytes of
/// exactly the length of the data.
pub open spec fn accepts(task: TaskView, event: EventView) -> bool {
    match event {
        EventView::Succeeded => task.phase.successor() is Some,
        EventView::Failed => task.phase.failure() is Some,
        EventView::Bytes(bytes) => task.phase == Phase::Reading && bytes.len()
            == task.contents.len(),
    }
}

/// The phase that an accepted event leads to.
pub open spec fn next_phase(phase: Phase, event: EventView) -> Phase {
    match event {
        EventView::Succeeded => phase.successor()->0,
        EventView::Failed => Phase::Failed(phase.failure()->0),
        EventView::Bytes(_) => Phase::Releasing,
    }
}

/// The action that a task in this state is waiting for; none once it has
/// ended.
pub open spec fn pending(task: TaskView) -> Option<ActionView> {
    match task.phase {
        Phase::AwaitingAdapter => Some(ActionView::RequestAdapter),
        Phase::AwaitingDevice => Some(ActionView::RequestDevice),
        Phase::AwaitingBuffers => Some(
            ActionView::CreateBuffers {
                contents: task.contents,
                buffers: BufferPair::planned(task.contents.len() as u64),
            },
        ),
        Phase::AwaitingProgram => Some(ActionView::CompileProgram),
        Phase::AwaitingPipeline => Some(
            ActionView::CreatePipeline { layout: BindingLayout::storage_slot() },
        ),
        Phase::AwaitingBindings => Some(
            ActionView::CreateBindings {
                layout: BindingLayout::storage_slot(),
                entries: BindingSet::input_at_slot_zero(),
            },
        ),
        Phase::AwaitingSubmission => Some(
            ActionView::Submit {
                commands: task_commands(
                    (task.contents.len() / 4) as u32,
                    task.contents.len() as u64,
                ),
            },
        ),
        Phase::AwaitingMapping => Some(
            ActionView::MapOutput { offset: 0, byte_len: task.contents.len() as u64 },
        ),
        Phase::Reading => Some(
            ActionView::ReadMapped { offset: 0, byte_len: task.contents.len() as u64 },
        ),
        Phase::Releasing => Some(ActionView::ReleaseMapping),
        Phase::Finished => None,
        Phase::Failed(_) => None,
    }
}

/// One compute task over an array of 32-bit values.
#[derive(Debug)]
pub struct Task {
    phase: Phase,
    element_count: u32,
    contents: Vec<u8>,
    output: Vec<u32>,
}

impl View for Task {
    type V = TaskView;

    closed spec fn view(&self) -> TaskView {
        TaskView { phase: self.phase, contents: self.contents@, output: self.output@ }
    }
}

impl Task {
    #[verifier::type_invariant]
    spec fn sized(&self) -> bool {
        &&& self.contents@.len() == 4 * self.element_count
        &&& self.phase == Phase::Releasing || self.phase == Phase::Finished
            ==> self.output@.len() == self.element_count
    }

    /// Prepares a task for `values`. The task starts out waiting for an
    /// accelerator. There is no task for more values than one dispatch can
    /// count, that is more than `u32::MAX`.
    pub fn new(values: &[u32]) -> (task: Option<Task>)
        ensures
            task is Some <==> values@.len() <= u32::MAX,
            task matches Some(t) ==> {
                &&& t@.phase == Phase::AwaitingAdapter
                &&& is_image_of(t@.contents, values@)
                &&& t@.contents.len() == 4 * values@.len()
                &&& t@.output.len() == 0
            },
    {
        if values.len() > u32::MAX as usize {
            return None;
        }
        let contents = encode(values);
        Some(
            Task {
                phase: Phase::AwaitingAdapter,
                element_count: values.len() as u32,
                contents,
                output: Vec::new(),
            },
        )
    }

    /// Where the task stands.
    pub fn phase(&self) -> (phase: Phase)
        ensures
            phase == self@.phase,
    {
        self.phase
    }

    /// Number of values the task works on. The data is four bytes for each.
    pub fn element_count(&self) -> (n: u32)
        ensures
            4 * n == self@.contents.len(),
    {
        proof {
            use_type_invariant(self);
        }
        self.element_count
    }

    /// Length of the data in bytes, which is also the length of each buffer.
    pub fn byte_len(&self) -> (n: u64)
        ensures
            n == self@.contents.len(),
            n % 4 == 0,
    {
        proof {
            use_type_invariant(self);
        }
        self.contents.len() as u64
    }

    /// The action the task is waiting for; none once it has ended.
    pub fn action(&self) -> (action: Option<Action>)
        ensures
            action is Some <==> !self@.phase.terminal(),
            match (action, pending(self@)) {
                (Some(a), Some(p)) => a@ == p,
                (None, None) => true,
                _ => false,
            },
    {
        proof {
            use_type_invariant(self);
        }
        let byte_len = self.contents.len() as u64;
        match self.phase {
            Phase::AwaitingAdapter => Some(Action::RequestAdapter),
            Phase::AwaitingDevice => Some(Action::RequestDevice),
            Phase::AwaitingBuffers => {
                let contents = self.contents.clone();
                assert(contents@ =~= self.contents@);
                Some(Action::CreateBuffers { contents, buffers: plan_buffers(byte_len) })
            },
            Phase::AwaitingProgram => Some(Action::CompileProgram),
            Phase::AwaitingPipeline => Some(
                Action::CreatePipeline { layout: BindingLayout::single_storage() },
            ),
            Phase::AwaitingBindings => Some(
                Action::CreateBindings { bindings: BindingSet::for_task() },
            ),
            Phase::AwaitingSubmission => Some(
                Action::Submit { commands: record_task(self.element_count, byte_len) },
            ),
            Phase::AwaitingMapping => Some(Action::MapOutput { offset: 0, byte_len }),
            Phase::Reading => Some(Action::ReadMapped { offset: 0, byte_len }),
            Phase::Releasing => Some(Action::ReleaseMapping),
            Phase::Finished => None,
            Phase::Failed(_) => None,
        }
    }

    /// Takes the outcome of the pending action. An event that the task does
    /// not accept in its state changes nothing. A success moves on to the next
    /// action; a refusal ends the task with the failure of its phase; the
    /// bytes read from the mapping become the output values.
    pub fn advance(&mut self, event: Event) -> (accepted: bool)
        ensures
            accepted == accepts(old(self)@, event@),
            !accepted ==> final(self)@ == old(self)@,
            accepted ==> final(self)@.phase == next_phase(old(self)@.phase, event@),
            final(self)@.contents == old(self)@.contents,
            accepted ==> match event@ {
                EventView::Bytes(bytes) => {
                    &&& is_reading_of(final(self)@.output, bytes)
                    &&& 4 * final(self)@.output.len() == bytes.len()
                },
                _ => final(self)@.output == old(self)@.output,
            },
    {
        proof {
            use_type_invariant(&*self);
        }
        match event {
            Event::Succeeded => match self.phase.next_on_success() {
                Some(next) => {
                    self.phase = next;
                    true
                },
                None => false,
            },
            Event::Failed => match self.phase.failure_on_refusal() {
                Some(error) => {
                    self.phase = Phase::Failed(error);
                    true
                },
                None => false,
            },
            Event::Bytes(bytes) => {
                if !matches!(self.phase, Phase::Reading) || bytes.len() != self.contents.len() {
                    return false;
                }
                match decode(bytes.as_slice()) {
                    Some(values) => {
                        self.output = values;
                        self.phase = Phase::Releasing;
                        true
                    },
                    // The data is a whole number of values, and so are bytes
                    // of the same length: there is always something to read.
                    None => false,
                }
            },
        }
    }

    /// The values read back, once the task has finished.
    pub fn output(&self) -> (values: Option<&Vec<u32>>)
        ensures
            values is Some <==> self@.phase == Phase::Finished,
            values matches Some(v) ==> v@ == self@.output && 4 * v@.len() == self@.contents.len(),
    {
        proof {
            use_type_invariant(self);
        }
        match self.phase {
            Phase::Finished => Some(&self.output),
            _ => None,
        }
    }

    /// The failure that ended the task, if one did.
    pub fn error(&self) -> (error: Option<TaskError>)
        ensures
            error == match self@.phase {
                Phase::Failed(e) => Some(e),
                _ => None,
            },
    {
        match self.phase {
            Phase::Failed(e) => Some(e),
            _ => None,
        }
    }
}

/// The phases in which the output buffer is mapped or has been read.
pub open spec fn past_mapping(phase: Phase) -> bool {
    phase == Phase::Reading || phase == Phase::Releasing || phase == Phase::Finished
}

/// The output is never read before its mapping has been reported complete:
/// the only way past the mapping is a success reported while waiting for it,
/// bytes are taken only after that, and only then is reading asked for.
pub proof fn lemma_read_only_after_mapping(task: TaskView, event: EventView)
    requires
        accepts(task, event),
    ensures
        !past_mapping(task.phase) && past_mapping(next_phase(task.phase, event)) ==> task.phase
            == Phase::AwaitingMapping && event is Succeeded,
        event is Bytes ==> task.phase == Phase::Reading,
        pending(task) matches Some(action) && action is ReadMapped ==> task.phase
            == Phase::Reading,
        !past_mapping(Phase::AwaitingAdapter),
{
}

/// The phase of a task after the given events were reported one after
/// another. An event that the task does not accept changes nothing.
pub open spec fn phase_after(task: TaskView, events: Seq<EventView>) -> Phase
    decreases events.len(),
{
    if events.len() == 0 {
        task.phase
    } else {
        let before = phase_after(task, events.drop_last());
        if accepts(TaskView { phase: before, ..task }, events.last()) {
            next_phase(before, events.last())
        } else {
            before
        }
    }
}

/// Whatever is reported to a new task, and in whatever order: if the task
/// has come to read the output, then at some earlier moment it was waiting
/// for the mapping and was told that the mapping had succeeded.
pub proof fn lemma_mapping_precedes_reading(task: TaskView, events: Seq<EventView>)
    requires
        task.phase == Phase::AwaitingAdapter,
        past_mapping(phase_after(task, events)),
    ensures
        exists|i: int|
            0 <= i < events.len() && phase_after(task, #[trigger] events.take(i))
                == Phase::AwaitingMapping && events[i] is Succeeded,
    decreases events.len(),
{
    if events.len() > 0 {
        let earlier = events.drop_last();
        let before = phase_after(task, earlier);
        if past_mapping(before) {
            lemma_mapping_precedes_reading(task, earlier);
            let i = choose|i: int|
                0 <= i < earlier.len() && phase_after(task, #[trigger] earlier.take(i))
                    == Phase::AwaitingMapping && earlier[i] is Succeeded;
            assert(events.take(i) =~= earlier.take(i));
        } else {
            let last = events.len() - 1;
            assert(events.take(last) =~= earlier);
            assert(before == Phase::AwaitingMapping && events[last] is Succeeded);
        }
    }
}

/// A refusal ends the task at once, with the failure of the stage in which
/// it was reported, and a task that has ended takes no further event and
/// asks for nothing.
pub proof fn lemma_refusal_is_final(task: TaskView, event: EventView, later: EventView)
    requires
        accepts(task, event),
        event is Failed,
    ensures
        next_phase(task.phase, event) is Failed,
        next_phase(task.phase, event)->Failed_0.stage_of() == task.phase.stage_of(),
        next_phase(task.phase, event).terminal(),
        !accepts(TaskView { phase: next_phase(task.phase, event), ..task }, later),
        pending(TaskView { phase: next_phase(task.phase, event), ..task }) is None,
{
}

/// When no accelerator is found, the task fails with `NoAdapter` and ends.
pub proof fn lemma_no_adapter(task: TaskView)
    requires
        task.phase == Phase::AwaitingAdapter,
    ensures
        accepts(task, EventView::Failed),
        next_phase(task.phase, EventView::Failed) == Phase::Failed(TaskError::NoAdapter),
        next_phase(task.phase, EventView::Failed).terminal(),
{
}

/// Control is linear: every accepted event takes the task further, never back
/// and never to an earlier stage, so a task ends after at most ten events.
pub proof fn lemma_accepted_event_advances(task: TaskView, event: EventView)
    requires
        accepts(task, event),
    ensures
        next_phase(task.phase, event).rank() > task.phase.rank(),
        next_phase(task.phase, event).rank() <= 10,
        next_phase(task.phase, event).stage_of().index() >= task.phase.stage_of().index(),
        !task.phase.terminal(),
{
}

/// A task that has not ended always waits for an action, and there is an
/// event that it accepts; a task that has ended does neither.
pub proof fn lemma_never_stuck(task: TaskView)
    ensures
        task.phase.terminal() <==> pending(task) is None,
        !task.phase.terminal() ==> accepts(task, EventView::Succeeded) || accepts(
            task,
            EventView::Bytes(task.contents),
        ),
        task.phase.terminal() ==> forall|event: EventView| !accepts(task, event),
{
}

/// The buffers that the task asks for are equally long, and as long as the
/// data.
pub proof fn lemma_buffers_equally_long(task: TaskView)
    requires
        task.phase == Phase::AwaitingBuffers,
        task.contents.len() <= u64::MAX,
    ensures
        pending(task) matches Some(ActionView::CreateBuffers { contents, buffers }) && {
            &&& contents == task.contents
            &&& buffers.input.byte_len == task.contents.len()
            &&& buffers.output.byte_len == buffers.input.byte_len
        },
{
}

/// The one dispatch that the task submits has a grid of the element count
/// along the first dimension and one along the other two, and the copy
/// behind it covers the whole data.
pub proof fn lemma_dispatch_per_element(task: TaskView, element_count: u32)
    requires
        task.phase == Phase::AwaitingSubmission,
        task.contents.len() == 4 * element_count,
    ensures
        pending(task) matches Some(ActionView::Submit { commands }) && {
            &&& commands == task_commands(element_count, task.contents.len() as u64)
            &&& commands[2] == (Command::Dispatch { x: element_count, y: 1, z: 1 })
            &&& forall|i: int| 0 <= i < commands.len() && (#[trigger] commands[i]) is Dispatch ==> i == 2
        },
{
}

} // verus!
