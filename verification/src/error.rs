//! The stages of the task and the ways in which each can fail.
use vstd::prelude::*;

verus! {

/// The five stages the task passes through, in order.
#[derive(Clone, Copy, Debug, PartialEq, Eq, Structural)]
pub enum Stage {
    ContextAcquisition,
    ResourcePreparation,
    ProgramBinding,
    Dispatch,
    Readback,
}

/// Why the task was abandoned. Every failure is terminal: nothing is retried.
#[derive(Clone, Copy, Debug, PartialEq, Eq, Structural)]
pub enum TaskError {
    /// No accelerator was found.
    NoAdapter,
    /// An accelerator was found but would not hand out a logical device.
    DeviceRequest,
    /// The accelerator rejected the size or usage of a buffer.
    Allocation,
    /// The program text did not compile.
    Compilation,
    /// The program's interface does not fit the declared bindings.
    PipelineCreation,
    /// The output buffer could not be mapped into host memory.
    Mapping,
}

impl Stage {
    /// Position of the stage in the task, counted from zero.
    pub open spec fn index(self) -> nat {
        match self {
            Stage::ContextAcquisition => 0,
            Stage::ResourcePreparation => 1,
            Stage::ProgramBinding => 2,
            Stage::Dispatch => 3,
            Stage::Readback => 4,
        }
    }
}

impl TaskError {
    /// The stage in which this failure arises.
    pub open spec fn stage_of(self) -> Stage {
        match self {
            TaskError::NoAdapter => Stage::ContextAcquisition,
            TaskError::DeviceRequest => Stage::ContextAcquisition,
            TaskError::Allocation => Stage::ResourcePreparation,
            TaskError::Compilation => Stage::ProgramBinding,
            TaskError::PipelineCreation => Stage::ProgramBinding,
            TaskError::Mapping => Stage::Readback,
        }
    }

    /// The stage in which this failure arises.
    pub fn stage(&self) -> (s: Stage)
        ensures
            s == self.stage_of(),
    {
        match self {
            TaskError::NoAdapter => Stage::ContextAcquisition,
            TaskError::DeviceRequest => Stage::ContextAcquisition,
            TaskError::Allocation => Stage::ResourcePreparation,
            TaskError::Compilation => Stage::ProgramBinding,
            TaskError::PipelineCreation => Stage::ProgramBinding,
            TaskError::Mapping => Stage::Readback,
        }
    }
}

} // verus!
