use gameboy::debugger;
use gameboy::repl::{
    contains, parse_command, prompt, without, Argument, Break, Command, CommandT, Debugger,
    Delete, Finish, Flag, List, Output, ParserError, Print, Register, Run, Step, Words,
};

fn parse(line: &str) -> Result<Command, ParserError> {
    parse_command(&mut Words::new(line))
}

#[test]
fn words_split_on_white_space() {
    let mut w = Words::new("  b \t 0x10\n");
    assert_eq!(w.next().as_deref(), Some("b"));
    assert_eq!(w.next().as_deref(), Some("0x10"));
    assert_eq!(w.next(), None);
    assert_eq!(w.next(), None);
}

#[test]
fn parse_break_and_delete() {
    assert_eq!(parse("b 0x100").unwrap(), Command::Break(Break { point: 0x100 }));
    assert_eq!(parse("break 0xffFF").unwrap(), Command::Break(Break { point: 0xFFFF }));
    assert_eq!(parse("d 0x0").unwrap(), Command::Delete(Delete { point: 0 }));
    assert_eq!(parse("delete 0x+1A").unwrap(), Command::Delete(Delete { point: 0x1A }));
}

#[test]
fn parse_commands_without_arguments() {
    assert_eq!(parse("p").unwrap(), Command::List(List {}));
    assert_eq!(parse("print").unwrap(), Command::List(List {}));
    assert_eq!(parse("l").unwrap(), Command::List(List {}));
    assert_eq!(parse("next").unwrap(), Command::List(List {}));
    assert_eq!(parse("  run  ").unwrap(), Command::Run(Run {}));
    assert_eq!(parse("s").unwrap(), Command::Step(Step {}));
    assert_eq!(parse("finish").unwrap(), Command::Finish(Finish {}));
}

#[test]
fn parse_errors() {
    assert!(matches!(parse(""), Err(ParserError::InvalidEndOfInput)));
    assert!(matches!(parse("b"), Err(ParserError::InvalidEndOfInput)));
    assert!(matches!(parse("go"), Err(ParserError::InvalidCommand(s)) if s == "go"));
    assert!(matches!(parse("b 100"), Err(ParserError::UnknownArgumentType(s)) if s == "100"));
    assert!(matches!(parse("b 0xZZ"), Err(ParserError::InvalidHexString(s)) if s == "0xZZ"));
    assert!(matches!(parse("d 0x10000"), Err(ParserError::InvalidHexString(s)) if s == "0x10000"));
    assert!(matches!(parse("b 0x"), Err(ParserError::InvalidHexString(s)) if s == "0x"));
}

#[test]
fn commands_change_break_points() {
    let mut d = Debugger::new();
    assert!(matches!(parse("b 0x10").unwrap().eval(&mut d), Ok(Output::Void)));
    assert!(matches!(Break { point: 0x10 }.eval(&mut d), Ok(Output::Void)));
    assert!(matches!(Delete { point: 0x10 }.eval(&mut d), Ok(Output::Void)));
    assert!(matches!(d.list(), Output::Void));
    assert!(matches!(d.delete(0x20), Output::Void));
}

#[test]
fn print_texts() {
    let p = Print {};
    assert_eq!(p.print_register(Register::AF), "AF");
    assert_eq!(p.print_register(Register::B), "??");
    assert_eq!(p.print_flag(Flag::Z), "fZ");
    assert_eq!(p.print_flag(Flag::C), "f?");
    assert_eq!(p.print_address(0x1234), "f?");
    assert!(matches!(Print::new(&mut Words::new("rA")), Ok(List {})));
    let _ = Argument::Address(1);
    assert_eq!(prompt(), "> ");
}

#[test]
fn break_point_lists() {
    let v = vec![1u16, 2, 1, 3];
    assert!(contains(&v, 3));
    assert!(!contains(&v, 4));
    assert_eq!(without(&v, 1), vec![2, 3]);
    assert_eq!(without(&v, 9), v);
}

#[test]
fn debugger_keeps_break_points_once() {
    let mut d = debugger::Debugger::new();
    d.set(0x100);
    d.set(0x200);
    d.set(0x100);
    assert_eq!(d.list(), vec![0x100, 0x200]);
    d.delete(0x100);
    assert_eq!(d.list(), vec![0x200]);
    d.delete(0x300);
    assert_eq!(d.list(), vec![0x200]);
    assert_eq!(d.print_all(), "wtf");
    assert_eq!(d.print_register(Register::AF), "AF");
    assert_eq!(d.print_flag(Flag::N), "f?");
}
