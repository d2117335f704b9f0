use vstd::prelude::*;
use vstd::string::*;
use crate::repl::{Register, Flag, added, removed, contains, without};

verus! {

/// A debugger that keeps a list of break points.
pub struct Debugger {
    break_points: Vec<u16>,
}

impl View for Debugger {
    type V = Seq<u16>;

    closed spec fn view(&self) -> Seq<u16> {
        self.break_points@
    }
}

impl Debugger {
    pub fn new() -> (d: Debugger)
        ensures
            d@ == Seq::<u16>::empty(),
    {
        Debugger { break_points: Vec::new() }
    }

    /// Sets a break point at `pc` unless there is one.
    pub fn set(&mut self, pc: u16)
        ensures
            final(self)@ == added(old(self)@, pc),
    {
        if !contains(&self.break_points, pc) {
            self.break_points.push(pc);
        }
    }

    /// The break points, in the order they were set.
    pub fn list(&self) -> (v: Vec<u16>)
        ensures
            v@ == self@,
    {
        let v = self.break_points.clone();
        assert(v@ =~= self.break_points@);
        v
    }

    pub fn run(&self) {
    }

    pub fn step(&self) {
    }

    pub fn next(&self) {
    }

    pub fn finish(&self) {
    }

    /// Removes every break point at `pc`.
    pub fn delete(&mut self, pc: u16)
        ensures
            final(self)@ == removed(old(self)@, pc),
    {
        self.break_points = without(&self.break_points, pc);
    }

    pub fn print_all(&self) -> (s: String)
        ensures
            s@ == "wtf"@,
    {
        String::from_str("wtf")
    }

    pub fn print_register(&self, r: Register) -> (s: String)
        ensures
            s@ == if r == Register::AF { "AF"@ } else { "??"@ },
    {
        match r {
            Register::AF => String::from_str("AF"),
            _ => String::from_str("??"),
        }
    }

    pub fn print_flag(&self, f: Flag) -> (s: String)
        ensures
            s@ == if f == Flag::Z { "fZ"@ } else { "f?"@ },
    {
        match f {
            Flag::Z => String::from_str("fZ"),
            _ => String::from_str("f?"),
        }
    }
}

}
