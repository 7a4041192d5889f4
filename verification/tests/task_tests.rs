use minimal_compute::buffer::BufferRole;
use minimal_compute::command::Command;
use minimal_compute::error::{Stage, TaskError};
use minimal_compute::layout::{decode, encode};
use minimal_compute::task::{Action, Event, Phase, Task};

/// A stand-in for the accelerator: two buffers in host memory and a program
/// that is applied to one element per workgroup.
struct Device {
    program: fn(f32) -> f32,
    input: Vec<u8>,
    output: Vec<u8>,
    mapped: bool,
    log: Vec<&'static str>,
}

impl Device {
    fn new(program: fn(f32) -> f32) -> Device {
        Device { program, input: Vec::new(), output: Vec::new(), mapped: false, log: Vec::new() }
    }

    fn buffer(&mut self, role: BufferRole) -> &mut Vec<u8> {
        match role {
            BufferRole::Input => &mut self.input,
            BufferRole::Output => &mut self.output,
        }
    }

    fn run(&mut self, commands: &[Command]) {
        for command in commands {
            match *command {
                Command::SetPipeline | Command::SetBindings { .. } => {}
                Command::Dispatch { x, y, z } => {
                    assert_eq!((y, z), (1, 1));
                    let mut values = decode(&self.input).expect("whole values");
                    for i in 0..x as usize {
                        values[i] = (self.program)(f32::from_bits(values[i])).to_bits();
                    }
                    self.input = encode(&values);
                }
                Command::CopyBuffer {
                    source,
                    source_offset,
                    destination,
                    destination_offset,
                    byte_len,
                } => {
                    let from = source_offset as usize;
                    let to = destination_offset as usize;
                    let len = byte_len as usize;
                    let bytes = self.buffer(source)[from..from + len].to_vec();
                    self.buffer(destination)[to..to + len].copy_from_slice(&bytes);
                }
            }
        }
    }

    fn perform(&mut self, action: Action) -> Event {
        match action {
            Action::RequestAdapter => self.log.push("adapter"),
            Action::RequestDevice => self.log.push("device"),
            Action::CreateBuffers { contents, buffers } => {
                self.log.push("buffers");
                assert_eq!(buffers.input.byte_len, contents.len() as u64);
                self.input = contents;
                self.output = vec![0; buffers.output.byte_len as usize];
            }
            Action::CompileProgram => self.log.push("program"),
            Action::CreatePipeline { layout } => {
                self.log.push("pipeline");
                assert_eq!(layout.len(), 1);
            }
            Action::CreateBindings { bindings } => {
                self.log.push("bindings");
                assert_eq!(bindings.entries()[0].buffer, BufferRole::Input);
            }
            Action::Submit { commands } => {
                self.log.push("submit");
                self.run(commands.commands());
            }
            Action::MapOutput { offset, byte_len } => {
                self.log.push("map");
                assert_eq!((offset, byte_len), (0, self.output.len() as u64));
                self.mapped = true;
            }
            Action::ReadMapped { offset, byte_len } => {
                self.log.push("read");
                assert!(self.mapped, "read before the mapping was complete");
                let from = offset as usize;
                return Event::Bytes(self.output[from..from + byte_len as usize].to_vec());
            }
            Action::ReleaseMapping => {
                self.log.push("release");
                self.mapped = false;
            }
        }
        Event::Succeeded
    }
}

fn bits(values: &[f32]) -> Vec<u32> {
    values.iter().map(|v| v.to_bits()).collect()
}

fn floats(values: &[u32]) -> Vec<f32> {
    values.iter().map(|v| f32::from_bits(*v)).collect()
}

fn run_on(device: &mut Device, input: &[f32]) -> Result<Vec<f32>, TaskError> {
    let mut task = Task::new(&bits(input)).expect("few enough values");
    while let Some(action) = task.action() {
        let event = device.perform(action);
        assert!(task.advance(event));
    }
    match task.error() {
        Some(error) => Err(error),
        None => Ok(floats(task.output().expect("finished"))),
    }
}

fn task_at(phase: Phase, input: &[f32]) -> Task {
    let mut device = Device::new(|x| x);
    let mut task = Task::new(&bits(input)).expect("few enough values");
    while task.phase() != phase {
        let action = task.action().expect("phase is on the way");
        assert!(task.advance(device.perform(action)));
    }
    task
}

const WAITING: [Phase; 10] = [
    Phase::AwaitingAdapter,
    Phase::AwaitingDevice,
    Phase::AwaitingBuffers,
    Phase::AwaitingProgram,
    Phase::AwaitingPipeline,
    Phase::AwaitingBindings,
    Phase::AwaitingSubmission,
    Phase::AwaitingMapping,
    Phase::Reading,
    Phase::Releasing,
];

#[test]
fn identity_program_returns_the_input() {
    let mut device = Device::new(|x| x);
    assert_eq!(run_on(&mut device, &[1.0, 2.0]), Ok(vec![1.0, 2.0]));
}

#[test]
fn doubling_program_doubles_each_element() {
    let mut device = Device::new(|x| 2.0 * x);
    assert_eq!(run_on(&mut device, &[1.0, 2.0]), Ok(vec![2.0, 4.0]));
}

#[test]
fn one_element_and_many_elements() {
    let mut device = Device::new(|x| x + 1.0);
    assert_eq!(run_on(&mut device, &[41.0]), Ok(vec![42.0]));
    let input: Vec<f32> = (0..100).map(|i| i as f32).collect();
    let expected: Vec<f32> = (0..100).map(|i| i as f32 + 1.0).collect();
    assert_eq!(run_on(&mut device, &input), Ok(expected));
}

#[test]
fn empty_input_gives_empty_output() {
    let mut device = Device::new(|x| x);
    assert_eq!(run_on(&mut device, &[]), Ok(vec![]));
}

#[test]
fn actions_come_in_stage_order() {
    let mut device = Device::new(|x| x);
    run_on(&mut device, &[1.0, 2.0]).expect("no failure");
    assert_eq!(
        device.log,
        vec![
            "adapter", "device", "buffers", "program", "pipeline", "bindings", "submit", "map",
            "read", "release"
        ]
    );
}

#[test]
fn new_task_waits_for_an_adapter() {
    let task = Task::new(&[1, 2, 3]).expect("few enough values");
    assert_eq!(task.phase(), Phase::AwaitingAdapter);
    assert!(matches!(task.action(), Some(Action::RequestAdapter)));
    assert_eq!(task.element_count(), 3);
    assert_eq!(task.byte_len(), 12);
    assert_eq!(task.output(), None);
    assert_eq!(task.error(), None);
}

#[test]
fn missing_adapter_fails_with_no_adapter() {
    let mut task = Task::new(&bits(&[1.0, 2.0])).expect("few enough values");
    assert!(task.advance(Event::Failed));
    assert_eq!(task.phase(), Phase::Failed(TaskError::NoAdapter));
    assert_eq!(task.error(), Some(TaskError::NoAdapter));
    assert!(task.phase().is_terminal());
    assert!(task.action().is_none());
    assert_eq!(task.output(), None);
}

#[test]
fn each_refusal_gives_the_failure_of_its_phase() {
    let expected = [
        (Phase::AwaitingAdapter, TaskError::NoAdapter),
        (Phase::AwaitingDevice, TaskError::DeviceRequest),
        (Phase::AwaitingBuffers, TaskError::Allocation),
        (Phase::AwaitingProgram, TaskError::Compilation),
        (Phase::AwaitingPipeline, TaskError::PipelineCreation),
        (Phase::AwaitingBindings, TaskError::PipelineCreation),
        (Phase::AwaitingMapping, TaskError::Mapping),
    ];
    for (phase, error) in expected {
        let mut task = task_at(phase, &[1.0, 2.0]);
        assert_eq!(phase.failure_on_refusal(), Some(error));
        assert!(task.advance(Event::Failed));
        assert_eq!(task.phase(), Phase::Failed(error));
        assert_eq!(task.error(), Some(error));
        assert_eq!(error.stage(), phase.stage());
        assert!(task.action().is_none());
    }
}

#[test]
fn submission_and_reading_report_no_failure() {
    for phase in [Phase::AwaitingSubmission, Phase::Reading, Phase::Releasing] {
        let mut task = task_at(phase, &[1.0, 2.0]);
        assert_eq!(phase.failure_on_refusal(), None);
        assert!(!task.advance(Event::Failed));
        assert_eq!(task.phase(), phase);
    }
}

#[test]
fn bytes_are_not_taken_before_the_mapping_is_complete() {
    for phase in WAITING {
        if phase == Phase::Reading {
            continue;
        }
        let mut task = task_at(phase, &[1.0, 2.0]);
        assert!(!task.advance(Event::Bytes(encode(&bits(&[1.0, 2.0])))));
        assert_eq!(task.phase(), phase);
        assert_eq!(task.output(), None);
    }
}

#[test]
fn reading_is_asked_for_only_after_the_mapping_succeeded() {
    for phase in WAITING {
        let task = task_at(phase, &[1.0, 2.0]);
        let asks_to_read = matches!(task.action(), Some(Action::ReadMapped { .. }));
        assert_eq!(asks_to_read, phase == Phase::Reading);
    }
    let mut task = task_at(Phase::AwaitingMapping, &[1.0, 2.0]);
    assert!(matches!(task.action(), Some(Action::MapOutput { offset: 0, byte_len: 8 })));
    assert!(task.advance(Event::Succeeded));
    assert_eq!(task.phase(), Phase::Reading);
    assert!(matches!(task.action(), Some(Action::ReadMapped { offset: 0, byte_len: 8 })));
}

#[test]
fn bytes_of_another_length_are_not_taken() {
    let mut task = task_at(Phase::Reading, &[1.0, 2.0]);
    assert!(!task.advance(Event::Bytes(vec![0; 4])));
    assert!(!task.advance(Event::Bytes(vec![0; 7])));
    assert!(!task.advance(Event::Bytes(vec![0; 12])));
    assert!(!task.advance(Event::Bytes(vec![])));
    assert_eq!(task.phase(), Phase::Reading);
    assert!(!task.advance(Event::Succeeded));
    assert_eq!(task.phase(), Phase::Reading);
    assert!(task.advance(Event::Bytes(encode(&bits(&[3.0, 5.0])))));
    assert_eq!(task.phase(), Phase::Releasing);
    assert_eq!(task.output(), None);
    assert!(task.advance(Event::Succeeded));
    assert_eq!(task.phase(), Phase::Finished);
    assert_eq!(task.output(), Some(&bits(&[3.0, 5.0])));
}

#[test]
fn ended_task_takes_nothing_and_asks_for_nothing() {
    let mut finished = task_at(Phase::Finished, &[1.0, 2.0]);
    let mut failed = task_at(Phase::AwaitingBuffers, &[1.0, 2.0]);
    assert!(failed.advance(Event::Failed));
    for task in [&mut finished, &mut failed] {
        let phase = task.phase();
        assert!(phase.is_terminal());
        assert!(task.action().is_none());
        assert!(!task.advance(Event::Succeeded));
        assert!(!task.advance(Event::Failed));
        assert!(!task.advance(Event::Bytes(vec![0; 8])));
        assert_eq!(task.phase(), phase);
        assert_eq!(phase.next_on_success(), None);
        assert_eq!(phase.failure_on_refusal(), None);
    }
    assert_eq!(finished.output(), Some(&bits(&[1.0, 2.0])));
    assert_eq!(failed.error(), Some(TaskError::Allocation));
}

#[test]
fn task_asks_for_two_buffers_of_the_length_of_the_data() {
    for n in [1usize, 2, 5, 64] {
        let values: Vec<u32> = (0..n as u32).collect();
        let task = task_at(Phase::AwaitingBuffers, &floats(&values));
        match task.action() {
            Some(Action::CreateBuffers { contents, buffers }) => {
                assert_eq!(contents, encode(&values));
                assert_eq!(contents.len(), 4 * n);
                assert_eq!(buffers.input.byte_len, 4 * n as u64);
                assert_eq!(buffers.output.byte_len, buffers.input.byte_len);
            }
            other => panic!("unexpected action {:?}", other),
        }
    }
}

#[test]
fn task_submits_one_workgroup_per_element() {
    for n in [1usize, 2, 5, 64] {
        let values = vec![0.5f32; n];
        let task = task_at(Phase::AwaitingSubmission, &values);
        match task.action() {
            Some(Action::Submit { commands }) => {
                assert_eq!(
                    commands.commands(),
                    &vec![
                        Command::SetPipeline,
                        Command::SetBindings { group: 0 },
                        Command::Dispatch { x: n as u32, y: 1, z: 1 },
                        Command::CopyBuffer {
                            source: BufferRole::Input,
                            source_offset: 0,
                            destination: BufferRole::Output,
                            destination_offset: 0,
                            byte_len: 4 * n as u64,
                        },
                    ]
                );
            }
            other => panic!("unexpected action {:?}", other),
        }
    }
}

#[test]
fn phases_follow_one_another_and_belong_to_stages() {
    let stages = [
        Stage::ContextAcquisition,
        Stage::ContextAcquisition,
        Stage::ResourcePreparation,
        Stage::ProgramBinding,
        Stage::ProgramBinding,
        Stage::ProgramBinding,
        Stage::Dispatch,
        Stage::Readback,
        Stage::Readback,
        Stage::Readback,
    ];
    for i in 0..WAITING.len() {
        assert_eq!(WAITING[i].stage(), stages[i]);
        assert!(!WAITING[i].is_terminal());
        let next = if i + 1 < WAITING.len() { WAITING[i + 1] } else { Phase::Finished };
        if WAITING[i] == Phase::Reading {
            assert_eq!(WAITING[i].next_on_success(), None);
        } else {
            assert_eq!(WAITING[i].next_on_success(), Some(next));
        }
    }
    assert_eq!(Phase::Finished.stage(), Stage::Readback);
    assert_eq!(Phase::Failed(TaskError::Compilation).stage(), Stage::ProgramBinding);
    assert!(Phase::Finished.is_terminal());
    assert!(Phase::Failed(TaskError::Mapping).is_terminal());
}
