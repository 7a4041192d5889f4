//! The device operations of the task, recorded in order and then finalised
//! into a unit that is submitted once.
use vstd::prelude::*;
use crate::buffer::{BufferPair, BufferRole};

verus! {

/// One device operation.
#[derive(Clone, Copy, Debug, PartialEq, Eq, Structural)]
pub enum Command {
    /// Activate the compute pipeline.
    SetPipeline,
    /// Activate the binding set for the given group.
    SetBindings { group: u32 },
    /// Run the program over a grid of workgroups.
    Dispatch { x: u32, y: u32, z: u32 },
    /// Copy `byte_len` bytes from one buffer to another.
    CopyBuffer {
        source: BufferRole,
        source_offset: u64,
        destination: BufferRole,
        destination_offset: u64,
        byte_len: u64,
    },
}

/// Operations being recorded; more can be appended.
#[derive(Debug)]
pub struct CommandSequence {
    ops: Vec<Command>,
}

/// A finalised sequence. It cannot be changed, and submitting it uses it up.
#[derive(Debug)]
pub struct Submission {
    ops: Vec<Command>,
}

/// The grid that covers `element_count` elements with one workgroup each:
/// that many along the first dimension and one along the other two.
pub open spec fn covering_grid(element_count: u32) -> Command {
    Command::Dispatch { x: element_count, y: 1, z: 1 }
}

/// The copy of the whole input buffer into the output buffer.
pub open spec fn result_copy(byte_len: u64) -> Command {
    Command::CopyBuffer {
        source: BufferRole::Input,
        source_offset: 0,
        destination: BufferRole::Output,
        destination_offset: 0,
        byte_len,
    }
}

/// The operations of the task, in the order in which they run: pipeline,
/// bindings, the dispatch over every element, then the copy of the result.
pub open spec fn task_commands(element_count: u32, byte_len: u64) -> Seq<Command> {
    seq![
        Command::SetPipeline,
        Command::SetBindings { group: 0 },
        covering_grid(element_count),
        result_copy(byte_len),
    ]
}

/// Before position `i`, a pipeline and a binding set have been activated.
pub open spec fn armed_before(ops: Seq<Command>, i: int) -> bool {
    &&& exists|p: int| 0 <= p < i && #[trigger] ops[p] == Command::SetPipeline
    &&& exists|b: int| 0 <= b < i && (#[trigger] ops[b]) is SetBindings
}

/// Every dispatch finds a pipeline and bindings active, and no copy is
/// recorded before a dispatch: a copy sees what every dispatch wrote.
pub open spec fn well_ordered(ops: Seq<Command>) -> bool {
    &&& forall|i: int| 0 <= i < ops.len() && (#[trigger] ops[i]) is Dispatch ==> armed_before(ops, i)
    &&& forall|c: int, d: int|
        0 <= c < ops.len() && 0 <= d < ops.len() && (#[trigger] ops[c]) is CopyBuffer && (
        #[trigger] ops[d]) is Dispatch ==> d < c
}

impl Command {
    /// The operation can run on buffers allocated as planned: a copy reads a
    /// buffer that allows it, writes another buffer that allows it, and stays
    /// inside both. The other operations touch no buffer.
    pub open spec fn valid_for(self, buffers: BufferPair) -> bool {
        match self {
            Command::CopyBuffer {
                source,
                source_offset,
                destination,
                destination_offset,
                byte_len,
            } => {
                &&& source != destination
                &&& buffers.plan_of(source).usage.copy_source
                &&& buffers.plan_of(destination).usage.copy_destination
                &&& source_offset + byte_len <= buffers.plan_of(source).byte_len
                &&& destination_offset + byte_len <= buffers.plan_of(destination).byte_len
            },
            _ => true,
        }
    }

    /// Whether the operation can run on buffers allocated as planned.
    pub fn is_valid_for(&self, buffers: &BufferPair) -> (ok: bool)
        ensures
            ok == self.valid_for(*buffers),
    {
        match self {
            Command::CopyBuffer {
                source,
                source_offset,
                destination,
                destination_offset,
                byte_len,
            } => {
                let from = buffers.plan(*source);
                let to = buffers.plan(*destination);
                let distinct = match (source, destination) {
                    (BufferRole::Input, BufferRole::Output) => true,
                    (BufferRole::Output, BufferRole::Input) => true,
                    _ => false,
                };
                distinct && from.usage.copy_source && to.usage.copy_destination && *byte_len
                    <= from.byte_len && *source_offset <= from.byte_len - *byte_len && *byte_len
                    <= to.byte_len && *destination_offset <= to.byte_len - *byte_len
            },
            _ => true,
        }
    }
}

impl CommandSequence {
    /// The operations recorded so far, in order.
    pub closed spec fn view(&self) -> Seq<Command> {
        self.ops@
    }

    /// Starts an empty sequence.
    pub fn new() -> (sequence: CommandSequence)
        ensures
            sequence@ == Seq::<Command>::empty(),
    {
        CommandSequence { ops: Vec::new() }
    }

    /// Appends one operation after those already recorded.
    pub fn record(&mut self, command: Command)
        ensures
            final(self)@ == old(self)@.push(command),
    {
        self.ops.push(command);
    }

    /// Appends the activation of the pipeline.
    pub fn set_pipeline(&mut self)
        ensures
            final(self)@ == old(self)@.push(Command::SetPipeline),
    {
        self.record(Command::SetPipeline);
    }

    /// Appends the activation of the binding set for `group`.
    pub fn set_bindings(&mut self, group: u32)
        ensures
            final(self)@ == old(self)@.push(Command::SetBindings { group }),
    {
        self.record(Command::SetBindings { group });
    }

    /// Appends a dispatch of one workgroup per element: `element_count` along
    /// the first dimension, one along the second and the third.
    pub fn dispatch_elements(&mut self, element_count: u32)
        ensures
            final(self)@ == old(self)@.push(covering_grid(element_count)),
    {
        self.record(Command::Dispatch { x: element_count, y: 1, z: 1 });
    }

    /// Appends the copy of the first `byte_len` bytes of the input buffer to
    /// the start of the output buffer.
    pub fn copy_result(&mut self, byte_len: u64)
        ensures
            final(self)@ == old(self)@.push(result_copy(byte_len)),
    {
        self.record(
            Command::CopyBuffer {
                source: BufferRole::Input,
                source_offset: 0,
                destination: BufferRole::Output,
                destination_offset: 0,
                byte_len,
            },
        );
    }

    /// Number of operations recorded so far.
    pub fn len(&self) -> (n: usize)
        ensures
            n == self@.len(),
    {
        self.ops.len()
    }

    /// Finalises the sequence. Nothing can be appended afterwards.
    pub fn finish(self) -> (unit: Submission)
        ensures
            unit@ == self@,
    {
        Submission { ops: self.ops }
    }
}

impl Submission {
    /// The operations, in the order in which the device runs them.
    pub closed spec fn view(&self) -> Seq<Command> {
        self.ops@
    }

    /// The operations, in the order in which the device runs them.
    pub fn commands(&self) -> (ops: &Vec<Command>)
        ensures
            ops@ == self@,
    {
        &self.ops
    }

    /// Whether every operation can run on buffers allocated as planned.
    pub fn is_valid_for(&self, buffers: &BufferPair) -> (ok: bool)
        ensures
            ok == forall|i: int| 0 <= i < self@.len() ==> (#[trigger] self@[i]).valid_for(*buffers),
    {
        let mut i: usize = 0;
        while i < self.ops.len()
            invariant
                i <= self.ops.len(),
                forall|k: int| 0 <= k < i ==> (#[trigger] self.ops@[k]).valid_for(*buffers),
            decreases self.ops.len() - i,
        {
            if !self.ops[i].is_valid_for(buffers) {
                assert(!self@[i as int].valid_for(*buffers));
                return false;
            }
            i += 1;
        }
        true
    }
}

/// Records and finalises the operations of the task for `element_count`
/// elements that take `byte_len` bytes.
pub fn record_task(element_count: u32, byte_len: u64) -> (unit: Submission)
    ensures
        unit@ == task_commands(element_count, byte_len),
{
    let mut sequence = CommandSequence::new();
    sequence.set_pipeline();
    sequence.set_bindings(0);
    sequence.dispatch_elements(element_count);
    sequence.copy_result(byte_len);
    assert(sequence@ =~= task_commands(element_count, byte_len));
    sequence.finish()
}

/// The task dispatches exactly once, and the grid of that dispatch is the
/// element count along the first dimension and one along the other two.
pub proof fn lemma_dispatch_covers_elements(element_count: u32, byte_len: u64)
    ensures
        task_commands(element_count, byte_len)[2] == (Command::Dispatch {
            x: element_count,
            y: 1,
            z: 1,
        }),
        forall|i: int|
            0 <= i < task_commands(element_count, byte_len).len() && (#[trigger] task_commands(
                element_count,
                byte_len,
            )[i]) is Dispatch ==> i == 2,
{
}

/// In the task's operations the dispatch finds pipeline and bindings active,
/// and the copy comes after the dispatch.
pub proof fn lemma_task_well_ordered(element_count: u32, byte_len: u64)
    ensures
        well_ordered(task_commands(element_count, byte_len)),
{
    let ops = task_commands(element_count, byte_len);
    assert(ops[0] == Command::SetPipeline);
    assert(ops[1] is SetBindings);
    assert forall|i: int| 0 <= i < ops.len() && (#[trigger] ops[i]) is Dispatch implies armed_before(
        ops,
        i,
    ) by {
        assert(i == 2);
    }
}

/// Every operation of the task can run on the buffers planned for data of
/// the same byte length: the copy fits both buffers exactly.
pub proof fn lemma_task_valid(element_count: u32, byte_len: u64)
    ensures
        forall|i: int|
            0 <= i < task_commands(element_count, byte_len).len() ==> (#[trigger] task_commands(
                element_count,
                byte_len,
            )[i]).valid_for(BufferPair::planned(byte_len)),
{
}

} // verus!
