//! The two things a driver ever asks of the hardware, and how the payloads of
//! bus writes are framed.
use vstd::prelude::*;
use crate::consts::{CONTROL_COMMAND, CONTROL_DATA};

verus! {

/// Mathematical model of one step: a blocking write of `payload` to the device
/// at `address`, or an unconditional wait of `ms` milliseconds.
pub enum Op {
    Write { address: u8, payload: Seq<u8> },
    Delay { ms: u16 },
}

/// One step as the caller receives it.
#[derive(Debug, PartialEq, Eq)]
pub enum Step {
    Write { address: u8, payload: Vec<u8> },
    Delay { ms: u16 },
}

impl View for Step {
    type V = Op;

    open spec fn view(&self) -> Op {
        match *self {
            Step::Write { address, payload } => Op::Write { address, payload: payload@ },
            Step::Delay { ms } => Op::Delay { ms },
        }
    }
}

impl Clone for Step {
    fn clone(&self) -> (copy: Step)
        ensures
            copy@ == self@,
    {
        match self {
            Step::Write { address, payload } => {
                let bytes = payload.clone();
                proof {
                    assert(bytes@ =~= payload@);
                }
                Step::Write { address: *address, payload: bytes }
            },
            Step::Delay { ms } => Step::Delay { ms: *ms },
        }
    }
}

/// The models of a list of steps, in order.
pub open spec fn ops_of(steps: Seq<Step>) -> Seq<Op> {
    steps.map_values(|s: Step| s@)
}

/// A command for the controller: the command control byte, then the command.
pub open spec fn command_op(controller: u8, cmd: u8) -> Op {
    Op::Write { address: controller, payload: seq![0x80u8, cmd] }
}

/// A character for display memory: the data control byte, then the character.
pub open spec fn data_op(controller: u8, byte: u8) -> Op {
    Op::Write { address: controller, payload: seq![0x40u8, byte] }
}

/// A register write for the backlight chip: the register number, then its value.
pub open spec fn register_op(backlight: u8, register: u8, value: u8) -> Op {
    Op::Write { address: backlight, payload: seq![register, value] }
}

/// A wait of `ms` milliseconds.
pub open spec fn delay_op(ms: u16) -> Op {
    Op::Delay { ms }
}

/// Whether `op` is a command for the controller at `controller`.
pub open spec fn is_command(controller: u8, op: Op) -> bool {
    exists|cmd: u8| op == command_op(controller, cmd)
}

/// Builds the write of the two bytes `first`, `second` to `address`.
pub fn frame(address: u8, first: u8, second: u8) -> (step: Step)
    ensures
        step@ == (Op::Write { address, payload: seq![first, second] }),
{
    let mut payload: Vec<u8> = Vec::new();
    payload.push(first);
    payload.push(second);
    proof {
        assert(payload@ =~= seq![first, second]);
    }
    Step::Write { address, payload }
}

/// Builds the step that issues the command `cmd` to the controller.
pub fn command_step(controller: u8, cmd: u8) -> (step: Step)
    ensures
        step@ == command_op(controller, cmd),
{
    frame(controller, CONTROL_COMMAND, cmd)
}

/// Builds the step that stores `byte` at the controller's current position.
pub fn data_step(controller: u8, byte: u8) -> (step: Step)
    ensures
        step@ == data_op(controller, byte),
{
    frame(controller, CONTROL_DATA, byte)
}

/// Builds the step that sets `register` of the backlight chip to `value`.
pub fn register_step(backlight: u8, register: u8, value: u8) -> (step: Step)
    ensures
        step@ == register_op(backlight, register, value),
{
    frame(backlight, register, value)
}

/// Builds a wait of `ms` milliseconds.
pub fn delay_step(ms: u16) -> (step: Step)
    ensures
        step@ == delay_op(ms),
{
    Step::Delay { ms }
}

/// Appends `step` to `steps`.
pub fn append(steps: &mut Vec<Step>, step: Step)
    ensures
        ops_of(final(steps)@) == ops_of(old(steps)@).push(step@),
{
    steps.push(step);
    proof {
        assert(ops_of(steps@) =~= ops_of(old(steps)@).push(step@));
    }
}

} // verus!
