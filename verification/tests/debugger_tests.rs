use rustyboy::bus::FlatBus;
use rustyboy::debugger::command::{BreakpointAction, Command, StatusType};
use rustyboy::debugger::commands::{CommandResult, DebuggerCommand, Response};
use rustyboy::debugger::debug_info::DebugInfo;
use rustyboy::debugger::shell::log::Log;
use rustyboy::debugger::shell::{char_action, Action, Shell};
use rustyboy::debugger::{Breakpoint, BreakpointCondition, Debugger, DebuggerState};
use rustyboy::processor::decoder::Decoder;
use rustyboy::processor::registers::{RegisterType, Registers};

#[test]
fn parses_commands() {
    assert_eq!(Command::parse("c"), Some(Command::Continue));
    assert_eq!(Command::parse("help"), Some(Command::Help));
    assert_eq!(Command::parse("b list"), Some(Command::Breakpoint(BreakpointAction::List)));
    assert_eq!(Command::parse("b add 10"), None);
    assert_eq!(Command::parse("status r hl"), Some(Command::Status(StatusType::Register(RegisterType::HL))));
    assert_eq!(Command::parse("s registers"), Some(Command::Status(StatusType::Registers)));
    assert_eq!(Command::parse("s r x"), None);
    assert_eq!(Command::parse("si"), Some(Command::StepInto));
    assert_eq!(Command::parse("step_over"), Some(Command::StepOver));
    assert_eq!(Command::parse("q"), Some(Command::Quit));
    assert_eq!(Command::parse("jump"), None);
    assert_eq!(StatusType::parse(&["a"]), None);
    assert_eq!(BreakpointAction::parse(&[]), None);
}

#[test]
fn log_history() {
    let mut log = Log::new(3);
    assert_eq!(log.get().unwrap(), "");
    log.push(String::from("one"));
    log.push(String::from("two"));
    log.back();
    assert_eq!(log.get().unwrap(), "two");
    log.back();
    assert_eq!(log.get().unwrap(), "one");
    log.back();
    assert_eq!(log.get().unwrap(), "one");
    log.forward();
    log.forward();
    log.forward();
    assert_eq!(log.index(), 0);
    log.push(String::from("three"));
    // the limit of 3 entries drops the oldest
    log.back();
    log.back();
    assert_eq!(log.get().unwrap(), "two");
    let mut shell = Shell::new();
    shell.submit(String::from("s"));
    assert_eq!(shell.back(), Some(String::from("s")));
    assert_eq!(shell.forward(), Some(String::new()));
}

#[test]
fn breakpoints_stop_the_processor() {
    let registers = Registers::new();
    let instruction = Decoder::decode_opcode(0).unwrap();
    let info = DebugInfo { registers: &registers, line: 0x100, instruction: &instruction };
    let mut state = DebuggerState::default();
    let debugger = Debugger::from_state(state.clone());
    assert!(!debugger.should_run(&info));
    state.breakpoints.push(Breakpoint { line: 0x100, condition: Some(BreakpointCondition::RegisterEquals(RegisterType::SP, 0xFFFE)) });
    let debugger = Debugger::from_state(state.clone());
    assert!(debugger.should_run(&info));
    state.breakpoints[0].condition = Some(BreakpointCondition::RegisterEquals(RegisterType::SP, 0));
    let debugger = Debugger::from_state(state.clone());
    assert!(!debugger.should_run(&info));
    state.forced_break = true;
    let debugger = Debugger::from_state(state);
    assert!(debugger.should_run(&info));
}

#[test]
fn runs_prompt_commands() {
    let registers = Registers::new();
    let instruction = Decoder::decode_opcode(0).unwrap();
    let info = DebugInfo { registers: &registers, line: 0x100, instruction: &instruction };
    let bus = FlatBus::new();
    let mut debugger = Debugger::from_state(DebuggerState::default());
    assert!(debugger.parse("nothing", &info, &bus).is_none());
    match debugger.parse("s r pc", &info, &bus) {
        Some((CommandResult::Continue, Response::Value(v))) => assert_eq!(v, 0x100),
        _ => panic!("status did not answer"),
    }
    match debugger.parse("si", &info, &bus) {
        Some((CommandResult::Continue, Response::Silent)) => {},
        _ => panic!("step into did not answer"),
    }
    assert!(debugger.state.forced_break);
    match debugger.parse("b x", &info, &bus) {
        Some((CommandResult::Nothing, Response::InvalidBreakpoint)) => {},
        _ => panic!("breakpoint did not answer"),
    }
    match debugger.parse("c", &info, &bus) {
        Some((CommandResult::Quit, Response::Silent)) => {},
        _ => panic!("continue did not answer"),
    }
    match debugger.parse("q", &info, &bus) {
        Some((CommandResult::Quit, Response::Exit)) => {},
        _ => panic!("quit did not answer"),
    }
    assert!(DebuggerCommand::StepOver.matches("stepover"));
}

#[test]
fn prompt_responses() {
    let registers = Registers::new();
    let instruction = Decoder::decode_opcode(0).unwrap();
    let info = DebugInfo { registers: &registers, line: 0x100, instruction: &instruction };
    let bus = FlatBus::new();
    let mut state = DebuggerState::default();
    state.breakpoints.push(Breakpoint { line: 0x150, condition: None });
    let mut debugger = Debugger::from_state(state);
    match debugger.parse("s register sp", &info, &bus) {
        Some((CommandResult::Continue, Response::Value(v))) => assert_eq!(v, 0xFFFE),
        _ => panic!("status did not read the register"),
    }
    match debugger.parse("s registers", &info, &bus) {
        Some((CommandResult::Continue, Response::Registers)) => {},
        _ => panic!("status did not show the registers"),
    }
    match debugger.parse("s x", &info, &bus) {
        Some((CommandResult::Continue, Response::InvalidStatus)) => {},
        _ => panic!("status did not refuse"),
    }
    match debugger.parse("b list", &info, &bus) {
        Some((CommandResult::Nothing, Response::Breakpoints(b))) => {
            assert_eq!(b.len(), 1);
            assert_eq!(b[0].line, 0x150);
        },
        _ => panic!("breakpoint did not list"),
    }
    match debugger.parse("so", &info, &bus) {
        Some((CommandResult::Quit, Response::Silent)) => {},
        _ => panic!("step over did not answer"),
    }
}

#[test]
fn history_back_then_forward() {
    let mut log = Log::new(5);
    log.push(String::from("one"));
    log.push(String::from("two"));
    log.back();
    assert_eq!(log.index(), 1);
    log.back();
    log.forward();
    assert_eq!(log.index(), 1);
    assert_eq!(log.get().unwrap(), "two");
}

#[test]
fn prompt_editing() {
    let mut shell = Shell::new();
    let (line, submitted) = shell.step(String::new(), Action::Char('s'));
    assert_eq!(line, "s");
    assert!(!submitted);
    let (line, _) = shell.step(line, Action::Char(' '));
    let (line, _) = shell.step(line, Action::Char('x'));
    let (line, _) = shell.step(line, Action::Backspace);
    assert_eq!(line, "s ");
    let (line, _) = shell.step(line, Action::Backspace);
    let (line, submitted) = shell.step(line, Action::Submit);
    assert_eq!(line, "s");
    assert!(submitted);
    let (line, submitted) = shell.step(String::from("abc"), Action::Back);
    assert_eq!(line, "s");
    assert!(!submitted);
    let (line, _) = shell.step(line, Action::Forward);
    assert_eq!(line, "");
    let (line, _) = shell.step(line, Action::Backspace);
    assert_eq!(line, "");
    assert_eq!(char_action('a'), Some(Action::Char('a')));
    assert_eq!(char_action('~'), Some(Action::Char('~')));
    assert_eq!(char_action('\u{7F}'), Some(Action::Backspace));
    assert_eq!(char_action('\n'), None);
    assert_eq!(char_action('é'), None);
}
