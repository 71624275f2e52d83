use vstd::prelude::*;
use crate::processor::registers::{RegisterType, register_name};
use crate::util::str_eq;
use crate::util::words::{split_words, split_spaces, str_views, views};

verus! {

/// What the status command shows.
#[derive(Debug, Copy, Clone, PartialEq, Eq, Structural)]
pub enum StatusType {
    Address(u16),
    Register(RegisterType),
    Registers,
}

/// What the breakpoint command does.
#[derive(Debug, Copy, Clone, PartialEq, Eq, Structural)]
pub enum BreakpointAction {
    Add(u16),
    Remove(u16),
    List,
}

/// A command of the debugger prompt.
#[derive(Debug, Copy, Clone, PartialEq, Eq, Structural)]
pub enum Command {
    Continue,
    Help,
    Breakpoint(BreakpointAction),
    Status(StatusType),
    StepInto,
    StepOver,
    Quit,
}

/// The register a name stands for.
pub open spec fn spec_register_name(value: Seq<char>) -> Option<RegisterType> {
    if value == "a"@ {
        Some(RegisterType::A)
    } else if value == "f"@ {
        Some(RegisterType::F)
    } else if value == "af"@ {
        Some(RegisterType::AF)
    } else if value == "b"@ {
        Some(RegisterType::B)
    } else if value == "c"@ {
        Some(RegisterType::C)
    } else if value == "bc"@ {
        Some(RegisterType::BC)
    } else if value == "d"@ {
        Some(RegisterType::D)
    } else if value == "e"@ {
        Some(RegisterType::E)
    } else if value == "de"@ {
        Some(RegisterType::DE)
    } else if value == "h"@ {
        Some(RegisterType::H)
    } else if value == "l"@ {
        Some(RegisterType::L)
    } else if value == "hl"@ {
        Some(RegisterType::HL)
    } else if value == "sp"@ {
        Some(RegisterType::SP)
    } else if value == "pc"@ {
        Some(RegisterType::PC)
    } else {
        None
    }
}

/// The status a list of words asks for: `register` (or `r`) and a register name, or
/// `registers`. An address cannot be asked for yet.
pub open spec fn spec_status(values: Seq<Seq<char>>) -> Option<StatusType> {
    if values.len() == 0 {
        None
    } else if values[0] == "register"@ || values[0] == "r"@ {
        if values.len() < 2 {
            None
        } else {
            match spec_register_name(values[1]) {
                Some(r) => Some(StatusType::Register(r)),
                None => None,
            }
        }
    } else if values[0] == "registers"@ {
        Some(StatusType::Registers)
    } else {
        None
    }
}

/// The breakpoint action a list of words asks for: only `list` (or `l`); adding and
/// removing cannot be asked for yet.
pub open spec fn spec_breakpoint_action(values: Seq<Seq<char>>) -> Option<BreakpointAction> {
    if values.len() == 0 {
        None
    } else if values[0] == "list"@ || values[0] == "l"@ {
        Some(BreakpointAction::List)
    } else {
        None
    }
}

/// The command a line asks for, by its first word and the words after it.
pub open spec fn spec_command(words: Seq<Seq<char>>) -> Option<Command> {
    let w = words[0];
    if w == "continue"@ || w == "c"@ {
        Some(Command::Continue)
    } else if w == "help"@ || w == "h"@ || w == "?"@ {
        Some(Command::Help)
    } else if w == "breakpoint"@ || w == "b"@ {
        match spec_breakpoint_action(words.drop_first()) {
            Some(a) => Some(Command::Breakpoint(a)),
            None => None,
        }
    } else if w == "status"@ || w == "s"@ {
        match spec_status(words.drop_first()) {
            Some(s) => Some(Command::Status(s)),
            None => None,
        }
    } else if w == "step_into"@ || w == "si"@ {
        Some(Command::StepInto)
    } else if w == "step_over"@ || w == "so"@ {
        Some(Command::StepOver)
    } else if w == "quit"@ || w == "q"@ {
        Some(Command::Quit)
    } else {
        None
    }
}

/// The name of every register parses back to that register.
pub proof fn lemma_register_names_parse(register: RegisterType)
    ensures
        spec_register_name(register_name(register)) == Some(register),
{
    reveal_strlit("a");
    reveal_strlit("f");
    reveal_strlit("af");
    reveal_strlit("b");
    reveal_strlit("c");
    reveal_strlit("bc");
    reveal_strlit("d");
    reveal_strlit("e");
    reveal_strlit("de");
    reveal_strlit("h");
    reveal_strlit("l");
    reveal_strlit("hl");
    reveal_strlit("sp");
    reveal_strlit("pc");
    assert("a"@.len() == 1 && "a"@[0] == 'a');
    assert("f"@.len() == 1 && "f"@[0] == 'f');
    assert("af"@.len() == 2 && "af"@[0] == 'a' && "af"@[1] == 'f');
    assert("b"@.len() == 1 && "b"@[0] == 'b');
    assert("c"@.len() == 1 && "c"@[0] == 'c');
    assert("bc"@.len() == 2 && "bc"@[0] == 'b' && "bc"@[1] == 'c');
    assert("d"@.len() == 1 && "d"@[0] == 'd');
    assert("e"@.len() == 1 && "e"@[0] == 'e');
    assert("de"@.len() == 2 && "de"@[0] == 'd' && "de"@[1] == 'e');
    assert("h"@.len() == 1 && "h"@[0] == 'h');
    assert("l"@.len() == 1 && "l"@[0] == 'l');
    assert("hl"@.len() == 2 && "hl"@[0] == 'h' && "hl"@[1] == 'l');
    assert("sp"@.len() == 2 && "sp"@[0] == 's' && "sp"@[1] == 'p');
    assert("pc"@.len() == 2 && "pc"@[0] == 'p' && "pc"@[1] == 'c');
}

/// The words of a list of strings from `start` on, as string slices.
fn words_from<'a>(words: &'a Vec<String>, start: usize) -> (r: Vec<&'a str>)
    requires
        start <= words@.len(),
    ensures
        str_views(r@) == views(words@).skip(start as int),
{
    let mut r: Vec<&'a str> = Vec::new();
    let mut i: usize = start;
    while i < words.len()
        invariant
            start <= i <= words@.len(),
            str_views(r@) == views(words@).subrange(start as int, i as int),
        decreases words@.len() - i,
    {
        let ghost previous = r@;
        r.push(words[i].as_str());
        assert(str_views(r@) =~= str_views(previous).push(words@[i as int]@));
        assert(views(words@).subrange(start as int, i + 1) =~= views(words@).subrange(start as int, i as int).push(words@[i as int]@));
        i = i + 1;
    }
    assert(views(words@).subrange(start as int, words@.len() as int) =~= views(words@).skip(start as int));
    r
}

impl StatusType {
    /// The status a list of words asks for.
    pub fn parse(values: &[&str]) -> (r: Option<StatusType>)
        ensures
            r == spec_status(str_views(values@)),
    {
        if values.len() == 0 {
            return None;
        }
        let status = values[0];
        if str_eq(status, "register") || str_eq(status, "r") {
            if values.len() < 2 {
                return None;
            }
            let register = StatusType::parse_register(values[1])?;
            Some(StatusType::Register(register))
        } else if str_eq(status, "registers") {
            Some(StatusType::Registers)
        } else {
            None
        }
    }

    /// The register a name stands for.
    fn parse_register(value: &str) -> (r: Option<RegisterType>)
        ensures
            r == spec_register_name(value@),
    {
        if str_eq(value, "a") {
            Some(RegisterType::A)
        } else if str_eq(value, "f") {
            Some(RegisterType::F)
        } else if str_eq(value, "af") {
            Some(RegisterType::AF)
        } else if str_eq(value, "b") {
            Some(RegisterType::B)
        } else if str_eq(value, "c") {
            Some(RegisterType::C)
        } else if str_eq(value, "bc") {
            Some(RegisterType::BC)
        } else if str_eq(value, "d") {
            Some(RegisterType::D)
        } else if str_eq(value, "e") {
            Some(RegisterType::E)
        } else if str_eq(value, "de") {
            Some(RegisterType::DE)
        } else if str_eq(value, "h") {
            Some(RegisterType::H)
        } else if str_eq(value, "l") {
            Some(RegisterType::L)
        } else if str_eq(value, "hl") {
            Some(RegisterType::HL)
        } else if str_eq(value, "sp") {
            Some(RegisterType::SP)
        } else if str_eq(value, "pc") {
            Some(RegisterType::PC)
        } else {
            None
        }
    }
}

impl BreakpointAction {
    /// The breakpoint action a list of words asks for.
    pub fn parse(values: &[&str]) -> (r: Option<BreakpointAction>)
        ensures
            r == spec_breakpoint_action(str_views(values@)),
    {
        if values.len() == 0 {
            return None;
        }
        let action = values[0];
        if str_eq(action, "list") || str_eq(action, "l") {
            Some(BreakpointAction::List)
        } else {
            None
        }
    }
}

impl Command {
    /// The command a line of the prompt asks for; its words are separated by single
    /// spaces.
    pub fn parse(value: &str) -> (r: Option<Command>)
        ensures
            r == spec_command(split_spaces(value@)),
    {
        let separated = split_words(value);
        proof {
            crate::util::words::lemma_split_spaces_len(value@);
        }
        let first = separated[0].as_str();
        let rest = words_from(&separated, 1);
        proof {
            assert(views(separated@).skip(1) =~= split_spaces(value@).drop_first());
        }
        if str_eq(first, "continue") || str_eq(first, "c") {
            Some(Command::Continue)
        } else if str_eq(first, "help") || str_eq(first, "h") || str_eq(first, "?") {
            Some(Command::Help)
        } else if str_eq(first, "breakpoint") || str_eq(first, "b") {
            let action = BreakpointAction::parse(rest.as_slice())?;
            Some(Command::Breakpoint(action))
        } else if str_eq(first, "status") || str_eq(first, "s") {
            let status = StatusType::parse(rest.as_slice())?;
            Some(Command::Status(status))
        } else if str_eq(first, "step_into") || str_eq(first, "si") {
            Some(Command::StepInto)
        } else if str_eq(first, "step_over") || str_eq(first, "so") {
            Some(Command::StepOver)
        } else if str_eq(first, "quit") || str_eq(first, "q") {
            Some(Command::Quit)
        } else {
            None
        }
    }
}

} // verus!
