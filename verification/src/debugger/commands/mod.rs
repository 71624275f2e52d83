use vstd::prelude::*;
use crate::bus::Readable;
use crate::debugger::{Breakpoint, DebuggerState};
use crate::debugger::command::{BreakpointAction, StatusType, spec_breakpoint_action, spec_status};
use crate::debugger::debug_info::DebugInfo;
use crate::processor::registers::{RegisterFile, reg_value};
use crate::util::str_eq;
use crate::util::words::str_views;

verus! {

/// What the prompt does after a command: keep reading commands, or leave.
#[derive(Debug, Copy, Clone, PartialEq, Eq, Structural)]
pub enum CommandResult {
    /// Read the next command.
    Continue,
    /// Leave the prompt and run on.
    Quit,
    /// Nothing to do: read the next command.
    Nothing,
}

/// What a command has to show.
#[derive(Debug, Clone)]
pub enum Response {
    /// Nothing.
    Silent,
    /// The breakpoints.
    Breakpoints(Vec<Breakpoint>),
    /// The arguments of the breakpoint command were not understood.
    InvalidBreakpoint,
    /// A value read.
    Value(u16),
    /// All the registers.
    Registers,
    /// The arguments of the status command were not understood.
    InvalidStatus,
    /// The emulator is to stop.
    Exit,
}

/// The commands of the debugger prompt.
#[derive(Debug, Copy, Clone, PartialEq, Eq, Structural)]
pub enum DebuggerCommand {
    Breakpoint,
    Continue,
    Status,
    StepInto,
    StepOver,
    Quit,
}

/// The words that name a command.
pub open spec fn spec_matching(command: DebuggerCommand, word: Seq<char>) -> bool {
    match command {
        DebuggerCommand::Breakpoint => word == "breakpoint"@ || word == "b"@,
        DebuggerCommand::Continue => word == "continue"@ || word == "c"@,
        DebuggerCommand::Status => word == "status"@ || word == "s"@,
        DebuggerCommand::StepInto => word == "stepinto"@ || word == "si"@,
        DebuggerCommand::StepOver => word == "stepover"@ || word == "so"@,
        DebuggerCommand::Quit => word == "quit"@ || word == "q"@,
    }
}

/// What a command leaves the prompt with, given its words (the command's own included).
pub open spec fn spec_result(command: DebuggerCommand, input: Seq<Seq<char>>) -> CommandResult {
    match command {
        DebuggerCommand::Breakpoint => CommandResult::Nothing,
        DebuggerCommand::Continue => CommandResult::Quit,
        DebuggerCommand::Status => CommandResult::Continue,
        DebuggerCommand::StepInto => CommandResult::Continue,
        DebuggerCommand::StepOver => CommandResult::Quit,
        DebuggerCommand::Quit => CommandResult::Quit,
    }
}

/// Whether `response` is what `command` shows for the words of its line (the command's
/// own name first), given the breakpoints, the registers and the bus: the breakpoint
/// command lists the breakpoints when its arguments are understood; the status command
/// shows the byte at an address, a register's value or all the registers; quit asks to
/// exit; the others show nothing.
pub open spec fn spec_response<B: Readable>(
    command: DebuggerCommand,
    words: Seq<Seq<char>>,
    breakpoints: Seq<Breakpoint>,
    registers: RegisterFile,
    bus: B::V,
    response: Response,
) -> bool {
    match command {
        DebuggerCommand::Breakpoint => match spec_breakpoint_action(words.drop_first()) {
            Some(_) => response matches Response::Breakpoints(b) && b@ == breakpoints,
            None => response matches Response::InvalidBreakpoint,
        },
        DebuggerCommand::Status => match spec_status(words.drop_first()) {
            Some(StatusType::Address(a)) => response matches Response::Value(v) && v == B::spec_read(bus, a),
            Some(StatusType::Register(reg)) => response matches Response::Value(v) && v == reg_value(registers, reg),
            Some(StatusType::Registers) => response matches Response::Registers,
            None => response matches Response::InvalidStatus,
        },
        DebuggerCommand::Quit => response matches Response::Exit,
        _ => response matches Response::Silent,
    }
}

impl DebuggerCommand {
    /// Whether `word` names the command.
    pub fn matches(&self, word: &str) -> (r: bool)
        ensures
            r == spec_matching(*self, word@),
    {
        match self {
            DebuggerCommand::Breakpoint => str_eq(word, "breakpoint") || str_eq(word, "b"),
            DebuggerCommand::Continue => str_eq(word, "continue") || str_eq(word, "c"),
            DebuggerCommand::Status => str_eq(word, "status") || str_eq(word, "s"),
            DebuggerCommand::StepInto => str_eq(word, "stepinto") || str_eq(word, "si"),
            DebuggerCommand::StepOver => str_eq(word, "stepover") || str_eq(word, "so"),
            DebuggerCommand::Quit => str_eq(word, "quit") || str_eq(word, "q"),
        }
    }

    /// Runs the command on its words (its own name first): the breakpoint command lists
    /// the breakpoints, the status command reads a register, the step-into command asks
    /// for a stop at the next instruction, the quit command asks the emulator to stop.
    pub fn execute<B: Readable>(&self, input: &[&str], state: &mut DebuggerState, debug_info: &DebugInfo, bus: &B)
        -> (r: (CommandResult, Response))
        requires
            input@.len() >= 1,
        ensures
            r.0 == spec_result(*self, str_views(input@)),
            *self == DebuggerCommand::StepInto ==> final(state).forced_break,
            *self != DebuggerCommand::StepInto ==> final(state).forced_break == old(state).forced_break,
            final(state).breakpoints@ == old(state).breakpoints@,
            spec_response::<B>(*self, str_views(input@), old(state).breakpoints@, debug_info.registers@, bus@, r.1),
    {
        let ghost words = str_views(input@);
        let rest = tail(input);
        assert(str_views(rest@) =~= words.drop_first());
        match self {
            DebuggerCommand::Breakpoint => {
                match BreakpointAction::parse(rest.as_slice()) {
                    Some(_) => (CommandResult::Nothing, Response::Breakpoints(state.breakpoints.clone())),
                    None => (CommandResult::Nothing, Response::InvalidBreakpoint),
                }
            },
            DebuggerCommand::Continue => (CommandResult::Quit, Response::Silent),
            DebuggerCommand::Status => {
                let response = match StatusType::parse(rest.as_slice()) {
                    Some(StatusType::Address(address)) => Response::Value(bus.read(address) as u16),
                    Some(StatusType::Register(register)) => Response::Value(debug_info.registers.reg(register)),
                    Some(StatusType::Registers) => Response::Registers,
                    None => Response::InvalidStatus,
                };
                (CommandResult::Continue, response)
            },
            DebuggerCommand::StepInto => {
                state.forced_break = true;
                (CommandResult::Continue, Response::Silent)
            },
            DebuggerCommand::StepOver => (CommandResult::Quit, Response::Silent),
            DebuggerCommand::Quit => (CommandResult::Quit, Response::Exit),
        }
    }
}

/// The words after the first.
fn tail<'a>(input: &[&'a str]) -> (r: Vec<&'a str>)
    requires
        input@.len() >= 1,
    ensures
        r@ == input@.drop_first(),
{
    let mut r: Vec<&'a str> = Vec::new();
    let mut i: usize = 1;
    while i < input.len()
        invariant
            1 <= i <= input@.len(),
            r@ == input@.subrange(1, i as int),
        decreases input@.len() - i,
    {
        r.push(input[i]);
        i = i + 1;
    }
    r
}

/// The breakpoint command.
pub struct BreakpointCommand {}

/// The continue command.
pub struct ContinueCommand {}

/// The status command.
pub struct StatusCommand {}

/// The step-into command.
pub struct StepIntoCommand {}

/// The step-over command.
pub struct StepOverCommand {}

/// The quit command.
pub struct QuitCommand {}

impl BreakpointCommand {
    pub fn create_command() -> (r: DebuggerCommand)
        ensures
            r == DebuggerCommand::Breakpoint,
    {
        DebuggerCommand::Breakpoint
    }
}

impl ContinueCommand {
    pub fn create_command() -> (r: DebuggerCommand)
        ensures
            r == DebuggerCommand::Continue,
    {
        DebuggerCommand::Continue
    }
}

impl StatusCommand {
    pub fn create_command() -> (r: DebuggerCommand)
        ensures
            r == DebuggerCommand::Status,
    {
        DebuggerCommand::Status
    }
}

impl StepIntoCommand {
    pub fn create_command() -> (r: DebuggerCommand)
        ensures
            r == DebuggerCommand::StepInto,
    {
        DebuggerCommand::StepInto
    }
}

impl StepOverCommand {
    pub fn create_command() -> (r: DebuggerCommand)
        ensures
            r == DebuggerCommand::StepOver,
    {
        DebuggerCommand::StepOver
    }
}

impl QuitCommand {
    pub fn create_command() -> (r: DebuggerCommand)
        ensures
            r == DebuggerCommand::Quit,
    {
        DebuggerCommand::Quit
    }
}

} // verus!
