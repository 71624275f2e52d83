pub mod command;
pub mod commands;
pub mod debug_info;
pub mod shell;

use vstd::prelude::*;
use crate::bus::Readable;
use crate::debugger::commands::{BreakpointCommand, CommandResult, ContinueCommand, DebuggerCommand,
    QuitCommand, Response, StatusCommand, StepIntoCommand, StepOverCommand, spec_matching, spec_response, spec_result};
use crate::debugger::debug_info::DebugInfo;
use crate::debugger::shell::Shell;
use crate::util::words::{split_spaces, split_words, str_views, views};
use crate::processor::registers::{RegisterType, Registers, reg_value};

verus! {

/// A condition that a breakpoint also asks for.
#[derive(Debug, Copy, Clone, PartialEq, Eq, Structural)]
pub enum BreakpointCondition {
    /// The register holds the value.
    RegisterEquals(RegisterType, u16),
}

/// A line at which the debugger stops, if its condition holds.
#[derive(Debug, Copy, Clone, PartialEq, Eq, Structural)]
pub struct Breakpoint {
    pub line: u16,
    pub condition: Option<BreakpointCondition>,
}

/// The breakpoints of the debugger, and whether it stops at the next instruction.
#[derive(Debug, Clone)]
pub struct DebuggerState {
    pub breakpoints: Vec<Breakpoint>,
    pub forced_break: bool,
}

impl Default for DebuggerState {
    /// No breakpoint, no forced stop.
    fn default() -> (r: Self)
        ensures
            r.breakpoints@ == Seq::<Breakpoint>::empty(),
            !r.forced_break,
    {
        DebuggerState { breakpoints: Vec::new(), forced_break: false }
    }
}

/// Whether a condition holds of the registers.
pub open spec fn spec_satisfied(condition: BreakpointCondition, registers: Registers) -> bool {
    match condition {
        BreakpointCondition::RegisterEquals(register, value) => reg_value(registers@, register) == value,
    }
}

/// Whether a breakpoint stops at the instruction: at its line, where its condition (if
/// any) holds.
pub open spec fn breakpoint_hit(b: Breakpoint, registers: Registers, line: u16) -> bool {
    b.line == line && match b.condition {
        Some(c) => spec_satisfied(c, registers),
        None => true,
    }
}

impl BreakpointCondition {
    /// Whether the condition holds at this instruction.
    pub fn satisfied(&self, debug_info: &DebugInfo) -> (r: bool)
        ensures
            r == spec_satisfied(*self, *debug_info.registers),
    {
        match self {
            BreakpointCondition::RegisterEquals(register, value) => debug_info.registers.reg(*register) == *value,
        }
    }
}

/// The debugger: its state, its commands and its prompt.
pub struct Debugger {
    pub state: DebuggerState,
    pub commands: Vec<DebuggerCommand>,
    pub shell: Shell,
}

/// The commands of the prompt, in the order they are looked up.
pub open spec fn spec_commands() -> Seq<DebuggerCommand> {
    seq![DebuggerCommand::Breakpoint, DebuggerCommand::Continue, DebuggerCommand::Status,
        DebuggerCommand::StepInto, DebuggerCommand::StepOver, DebuggerCommand::Quit]
}

/// The first command that a word names.
pub open spec fn spec_matching_command(commands: Seq<DebuggerCommand>, word: Seq<char>) -> Option<DebuggerCommand>
    decreases commands.len(),
{
    if commands.len() == 0 {
        None
    } else if spec_matching(commands[0], word) {
        Some(commands[0])
    } else {
        spec_matching_command(commands.drop_first(), word)
    }
}

/// The first of `commands` that `value` names.
fn matching_command(commands: &Vec<DebuggerCommand>, value: &str) -> (r: Option<DebuggerCommand>)
    ensures
        r == spec_matching_command(commands@, value@),
{
    let mut i: usize = 0;
    assert(commands@.skip(0) =~= commands@);
    while i < commands.len()
        invariant
            i <= commands@.len(),
            spec_matching_command(commands@, value@) == spec_matching_command(commands@.skip(i as int), value@),
        decreases commands@.len() - i,
    {
        assert(commands@.skip(i as int).drop_first() =~= commands@.skip(i + 1));
        if commands[i].matches(value) {
            return Some(commands[i]);
        }
        i = i + 1;
    }
    None
}

/// The words of a list of strings, as string slices.
fn as_strs<'a>(words: &'a Vec<String>) -> (r: Vec<&'a str>)
    ensures
        str_views(r@) == views(words@),
{
    let mut r: Vec<&'a str> = Vec::new();
    let mut i: usize = 0;
    while i < words.len()
        invariant
            i <= words@.len(),
            str_views(r@) == views(words@).take(i as int),
        decreases words@.len() - i,
    {
        let ghost previous = r@;
        r.push(words[i].as_str());
        assert(str_views(r@) =~= str_views(previous).push(words@[i as int]@));
        assert(views(words@).take(i + 1) =~= views(words@).take(i as int).push(words@[i as int]@));
        i = i + 1;
    }
    assert(views(words@).take(words@.len() as int) =~= views(words@));
    r
}

impl Debugger {
    /// A debugger with the given state, all its commands and a blank prompt history.
    pub fn from_state(state: DebuggerState) -> (r: Debugger)
        ensures
            r.state.breakpoints@ == state.breakpoints@,
            r.state.forced_break == state.forced_break,
            r.commands@ == spec_commands(),
            r.shell.history@.data == seq![Seq::<char>::empty()],
            r.shell.history@.index == 0,
            r.shell.history@.limit == 500,
    {
        let commands = vec![
            BreakpointCommand::create_command(),
            ContinueCommand::create_command(),
            StatusCommand::create_command(),
            StepIntoCommand::create_command(),
            StepOverCommand::create_command(),
            QuitCommand::create_command(),
        ];
        Debugger { state, commands, shell: Shell::new() }
    }

    /// Runs the command that a line of the prompt names (its words separated by single
    /// spaces); none where no command is named.
    pub fn parse<B: Readable>(&mut self, input: &str, debug_info: &DebugInfo, bus: &B) -> (r: Option<(CommandResult, Response)>)
        ensures
            r is None <==> spec_matching_command(old(self).commands@, split_spaces(input@)[0]) is None,
            r matches Some((result, response)) ==> {
                let command = spec_matching_command(old(self).commands@, split_spaces(input@)[0])->0;
                &&& result == spec_result(command, split_spaces(input@))
                &&& spec_response::<B>(command, split_spaces(input@), old(self).state.breakpoints@,
                    debug_info.registers@, bus@, response)
            },
            final(self).commands@ == old(self).commands@,
            final(self).state.breakpoints@ == old(self).state.breakpoints@,
            final(self).state.forced_break == (old(self).state.forced_break
                || spec_matching_command(old(self).commands@, split_spaces(input@)[0]) == Some(DebuggerCommand::StepInto)),
            final(self).shell.history@ == old(self).shell.history@,
    {
        let separated = split_words(input);
        proof {
            crate::util::words::lemma_split_spaces_len(input@);
        }
        let words = as_strs(&separated);
        let command = matching_command(&self.commands, words[0])?;
        Some(command.execute(words.as_slice(), &mut self.state, debug_info, bus))
    }

    /// Whether the debugger stops before this instruction: a stop was asked for, or a
    /// breakpoint is hit.
    pub fn should_run(&self, debug_info: &DebugInfo) -> (r: bool)
        ensures
            r == (self.state.forced_break || exists|i: int| 0 <= i < self.state.breakpoints@.len()
                && #[trigger] breakpoint_hit(self.state.breakpoints@[i], *debug_info.registers, debug_info.line)),
    {
        if self.state.forced_break {
            return true;
        }
        let mut i: usize = 0;
        while i < self.state.breakpoints.len()
            invariant
                i <= self.state.breakpoints@.len(),
                forall|j: int| 0 <= j < i ==>
                    !#[trigger] breakpoint_hit(self.state.breakpoints@[j], *debug_info.registers, debug_info.line),
            decreases self.state.breakpoints@.len() - i,
        {
            let b = self.state.breakpoints[i];
            let hit = b.line == debug_info.line && match b.condition {
                Some(condition) => condition.satisfied(debug_info),
                None => true,
            };
            if hit {
                assert(breakpoint_hit(self.state.breakpoints@[i as int], *debug_info.registers, debug_info.line));
                return true;
            }
            i = i + 1;
        }
        false
    }
}

} // verus!
