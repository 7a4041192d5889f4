//! The two device buffers of the task: what is asked of each when it is
//! allocated.
use vstd::prelude::*;

verus! {

/// Which of the task's two buffers is meant.
#[derive(Clone, Copy, Debug, PartialEq, Eq, Structural)]
pub enum BufferRole {
    /// Holds the host data; the program works on it in place.
    Input,
    /// Receives a copy of the result and is read by the host.
    Output,
}

/// What a buffer may be used for once it exists.
#[derive(Clone, Copy, Debug, PartialEq, Eq, Structural)]
pub struct Usage {
    /// The program may read and write it as a storage binding.
    pub storage: bool,
    /// A copy command may read from it.
    pub copy_source: bool,
    /// A copy command may write to it.
    pub copy_destination: bool,
    /// The host may map it for reading.
    pub map_read: bool,
}

/// A request for one buffer of a fixed byte length.
#[derive(Clone, Copy, Debug, PartialEq, Eq, Structural)]
pub struct BufferPlan {
    pub role: BufferRole,
    pub byte_len: u64,
    pub usage: Usage,
}

/// The requests for both buffers of one task.
#[derive(Clone, Copy, Debug, PartialEq, Eq, Structural)]
pub struct BufferPair {
    pub input: BufferPlan,
    pub output: BufferPlan,
}

impl Usage {
    /// Usage of the input buffer: program access, and both ends of a copy, so
    /// that the buffer the program wrote can serve as the source of the
    /// result copy.
    pub open spec fn input() -> Usage {
        Usage { storage: true, copy_source: true, copy_destination: true, map_read: false }
    }

    /// Usage of the output buffer: destination of a copy and host-readable,
    /// nothing else.
    pub open spec fn output() -> Usage {
        Usage { storage: false, copy_source: false, copy_destination: true, map_read: true }
    }

    /// Usage that a buffer of the given role is allocated with.
    pub open spec fn of_role(role: BufferRole) -> Usage {
        match role {
            BufferRole::Input => Usage::input(),
            BufferRole::Output => Usage::output(),
        }
    }

    /// Usage that a buffer of the given role is allocated with.
    pub fn for_role(role: BufferRole) -> (usage: Usage)
        ensures
            usage == Usage::of_role(role),
    {
        match role {
            BufferRole::Input => Usage {
                storage: true,
                copy_source: true,
                copy_destination: true,
                map_read: false,
            },
            BufferRole::Output => Usage {
                storage: false,
                copy_source: false,
                copy_destination: true,
                map_read: true,
            },
        }
    }
}

impl BufferPlan {
    /// The request for the buffer of the given role and length.
    pub open spec fn planned(role: BufferRole, byte_len: u64) -> BufferPlan {
        BufferPlan { role, byte_len, usage: Usage::of_role(role) }
    }

    /// The request for the buffer of the given role and length.
    pub fn new(role: BufferRole, byte_len: u64) -> (plan: BufferPlan)
        ensures
            plan == BufferPlan::planned(role, byte_len),
    {
        BufferPlan { role, byte_len, usage: Usage::for_role(role) }
    }
}

impl BufferPair {
    /// Both requests for a task whose data is `byte_len` bytes long.
    pub open spec fn planned(byte_len: u64) -> BufferPair {
        BufferPair {
            input: BufferPlan::planned(BufferRole::Input, byte_len),
            output: BufferPlan::planned(BufferRole::Output, byte_len),
        }
    }

    /// The request for the buffer of the given role.
    pub open spec fn plan_of(self, role: BufferRole) -> BufferPlan {
        match role {
            BufferRole::Input => self.input,
            BufferRole::Output => self.output,
        }
    }

    /// The request for the buffer of the given role.
    pub fn plan(&self, role: BufferRole) -> (plan: BufferPlan)
        ensures
            plan == self.plan_of(role),
    {
        match role {
            BufferRole::Input => self.input,
            BufferRole::Output => self.output,
        }
    }
}

/// Plans both buffers for host data of `byte_len` bytes: an input buffer that
/// the data fills exactly, and an output buffer of the same length.
pub fn plan_buffers(byte_len: u64) -> (pair: BufferPair)
    ensures
        pair == BufferPair::planned(byte_len),
        pair.input.byte_len == byte_len,
        pair.output.byte_len == pair.input.byte_len,
        pair.input.usage == Usage::input(),
        pair.output.usage == Usage::output(),
{
    BufferPair {
        input: BufferPlan::new(BufferRole::Input, byte_len),
        output: BufferPlan::new(BufferRole::Output, byte_len),
    }
}

/// The output buffer is exactly as long as the input buffer, for data of any
/// length.
pub proof fn lemma_equal_lengths(byte_len: u64)
    ensures
        BufferPair::planned(byte_len).input.byte_len == byte_len,
        BufferPair::planned(byte_len).output.byte_len == byte_len,
{
}

} // verus!
