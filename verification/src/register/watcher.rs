use vstd::prelude::*;
use std::collections::HashSet;

use super::{Registers8, Registers16, RPair};

verus! {

broadcast use vstd::std_specs::hash::group_hash_axioms;

/// What a watcher holds: the watched values of each register, the register writes that hit a
/// watched value, and whether one did since the trigger was last cleared.
pub struct WatcherView {
    pub a: Set<u8>,
    pub b: Set<u8>,
    pub c: Set<u8>,
    pub d: Set<u8>,
    pub e: Set<u8>,
    pub f: Set<u8>,
    pub h: Set<u8>,
    pub l: Set<u8>,
    pub af: Set<u16>,
    pub bc: Set<u16>,
    pub de: Set<u16>,
    pub hl: Set<u16>,
    pub sp: Set<u16>,
    pub pc: Set<u16>,
    pub breaks: Seq<RPair>,
    pub triggered: bool,
}

impl WatcherView {
    /// Whether the register of the pair is watched for the pair's value.
    pub open spec fn watches(self, r: RPair) -> bool {
        match r {
            RPair::R8(Registers8::A, v) => self.a.contains(v),
            RPair::R8(Registers8::B, v) => self.b.contains(v),
            RPair::R8(Registers8::C, v) => self.c.contains(v),
            RPair::R8(Registers8::D, v) => self.d.contains(v),
            RPair::R8(Registers8::E, v) => self.e.contains(v),
            RPair::R8(Registers8::F, v) => self.f.contains(v),
            RPair::R8(Registers8::H, v) => self.h.contains(v),
            RPair::R8(Registers8::L, v) => self.l.contains(v),
            RPair::R16(Registers16::AF, v) => self.af.contains(v),
            RPair::R16(Registers16::BC, v) => self.bc.contains(v),
            RPair::R16(Registers16::DE, v) => self.de.contains(v),
            RPair::R16(Registers16::HL, v) => self.hl.contains(v),
            RPair::R16(Registers16::PC, v) => self.pc.contains(v),
            RPair::R16(Registers16::SP, v) => self.sp.contains(v),
        }
    }

    /// The watcher with the pair's value added to (`on`) or taken from (`!on`) its register's set.
    pub open spec fn with_watch(self, r: RPair, on: bool) -> WatcherView {
        match r {
            RPair::R8(Registers8::A, v) => WatcherView { a: if on { self.a.insert(v) } else { self.a.remove(v) }, ..self },
            RPair::R8(Registers8::B, v) => WatcherView { b: if on { self.b.insert(v) } else { self.b.remove(v) }, ..self },
            RPair::R8(Registers8::C, v) => WatcherView { c: if on { self.c.insert(v) } else { self.c.remove(v) }, ..self },
            RPair::R8(Registers8::D, v) => WatcherView { d: if on { self.d.insert(v) } else { self.d.remove(v) }, ..self },
            RPair::R8(Registers8::E, v) => WatcherView { e: if on { self.e.insert(v) } else { self.e.remove(v) }, ..self },
            RPair::R8(Registers8::F, v) => WatcherView { f: if on { self.f.insert(v) } else { self.f.remove(v) }, ..self },
            RPair::R8(Registers8::H, v) => WatcherView { h: if on { self.h.insert(v) } else { self.h.remove(v) }, ..self },
            RPair::R8(Registers8::L, v) => WatcherView { l: if on { self.l.insert(v) } else { self.l.remove(v) }, ..self },
            RPair::R16(Registers16::AF, v) => WatcherView { af: if on { self.af.insert(v) } else { self.af.remove(v) }, ..self },
            RPair::R16(Registers16::BC, v) => WatcherView { bc: if on { self.bc.insert(v) } else { self.bc.remove(v) }, ..self },
            RPair::R16(Registers16::DE, v) => WatcherView { de: if on { self.de.insert(v) } else { self.de.remove(v) }, ..self },
            RPair::R16(Registers16::HL, v) => WatcherView { hl: if on { self.hl.insert(v) } else { self.hl.remove(v) }, ..self },
            RPair::R16(Registers16::PC, v) => WatcherView { pc: if on { self.pc.insert(v) } else { self.pc.remove(v) }, ..self },
            RPair::R16(Registers16::SP, v) => WatcherView { sp: if on { self.sp.insert(v) } else { self.sp.remove(v) }, ..self },
        }
    }

    /// The watcher after a register write: a write of a watched value is recorded and
    /// triggers the watcher.
    #[verifier::opaque]
    pub open spec fn checked(self, r: RPair) -> WatcherView {
        if self.watches(r) {
            WatcherView { breaks: self.breaks.push(r), triggered: true, ..self }
        } else {
            self
        }
    }
}

pub struct Watcher {
    a: HashSet<u8>,
    b: HashSet<u8>,
    c: HashSet<u8>,
    d: HashSet<u8>,
    e: HashSet<u8>,
    f: HashSet<u8>,
    h: HashSet<u8>,
    l: HashSet<u8>,
    af: HashSet<u16>,
    bc: HashSet<u16>,
    de: HashSet<u16>,
    hl: HashSet<u16>,
    sp: HashSet<u16>,
    pc: HashSet<u16>,

    breaks: Vec<RPair>,
    triggered: bool,
}

impl View for Watcher {
    type V = WatcherView;

    closed spec fn view(&self) -> WatcherView {
        WatcherView {
            a: self.a@,
            b: self.b@,
            c: self.c@,
            d: self.d@,
            e: self.e@,
            f: self.f@,
            h: self.h@,
            l: self.l@,
            af: self.af@,
            bc: self.bc@,
            de: self.de@,
            hl: self.hl@,
            sp: self.sp@,
            pc: self.pc@,
            breaks: self.breaks@,
            triggered: self.triggered,
        }
    }
}

/// The watcher that watches nothing and has recorded nothing.
pub open spec fn empty_watcher() -> WatcherView {
    WatcherView {
        a: Set::empty(),
        b: Set::empty(),
        c: Set::empty(),
        d: Set::empty(),
        e: Set::empty(),
        f: Set::empty(),
        h: Set::empty(),
        l: Set::empty(),
        af: Set::empty(),
        bc: Set::empty(),
        de: Set::empty(),
        hl: Set::empty(),
        sp: Set::empty(),
        pc: Set::empty(),
        breaks: Seq::empty(),
        triggered: false,
    }
}

impl Watcher {
    pub fn new() -> (w: Watcher)
        ensures
            w@ == empty_watcher(),
    {
        Watcher {
            a: HashSet::new(),
            b: HashSet::new(),
            c: HashSet::new(),
            d: HashSet::new(),
            e: HashSet::new(),
            f: HashSet::new(),
            h: HashSet::new(),
            l: HashSet::new(),
            af: HashSet::new(),
            bc: HashSet::new(),
            de: HashSet::new(),
            hl: HashSet::new(),
            sp: HashSet::new(),
            pc: HashSet::new(),

            breaks: Vec::new(),
            triggered: false,
        }
    }

    /// Watches the register of the pair for the pair's value; true when it was not yet watched.
    pub fn set_break_point(&mut self, r: RPair) -> (added: bool)
        ensures
            final(self)@ == old(self)@.with_watch(r, true),
            added == !old(self)@.watches(r),
    {
        match r {
            RPair::R8(Registers8::A, v) => self.a.insert(v),
            RPair::R8(Registers8::B, v) => self.b.insert(v),
            RPair::R8(Registers8::C, v) => self.c.insert(v),
            RPair::R8(Registers8::D, v) => self.d.insert(v),
            RPair::R8(Registers8::E, v) => self.e.insert(v),
            RPair::R8(Registers8::F, v) => self.f.insert(v),
            RPair::R8(Registers8::H, v) => self.h.insert(v),
            RPair::R8(Registers8::L, v) => self.l.insert(v),
            RPair::R16(Registers16::AF, v) => self.af.insert(v),
            RPair::R16(Registers16::BC, v) => self.bc.insert(v),
            RPair::R16(Registers16::DE, v) => self.de.insert(v),
            RPair::R16(Registers16::HL, v) => self.hl.insert(v),
            RPair::R16(Registers16::PC, v) => self.pc.insert(v),
            RPair::R16(Registers16::SP, v) => self.sp.insert(v),
        }
    }

    /// Records a register write: true, and the write is recorded and triggers the watcher,
    /// when the value is watched.
    pub fn check(&mut self, r: RPair) -> (hit: bool)
        ensures
            final(self)@ == old(self)@.checked(r),
            hit == old(self)@.watches(r),
    {
        reveal(WatcherView::checked);
        let contains = match r {
            RPair::R8(Registers8::A, v) => self.a.contains(&v),
            RPair::R8(Registers8::B, v) => self.b.contains(&v),
            RPair::R8(Registers8::C, v) => self.c.contains(&v),
            RPair::R8(Registers8::D, v) => self.d.contains(&v),
            RPair::R8(Registers8::E, v) => self.e.contains(&v),
            RPair::R8(Registers8::F, v) => self.f.contains(&v),
            RPair::R8(Registers8::H, v) => self.h.contains(&v),
            RPair::R8(Registers8::L, v) => self.l.contains(&v),
            RPair::R16(Registers16::AF, v) => self.af.contains(&v),
            RPair::R16(Registers16::BC, v) => self.bc.contains(&v),
            RPair::R16(Registers16::DE, v) => self.de.contains(&v),
            RPair::R16(Registers16::HL, v) => self.hl.contains(&v),
            RPair::R16(Registers16::PC, v) => self.pc.contains(&v),
            RPair::R16(Registers16::SP, v) => self.sp.contains(&v),
        };

        if contains {
            self.breaks.push(r);
            self.triggered = true;
        }

        contains
    }

    /// Stops watching the register of the pair for the pair's value; true when it was watched.
    pub fn remove_break_point(&mut self, r: RPair) -> (removed: bool)
        ensures
            final(self)@ == old(self)@.with_watch(r, false),
            removed == old(self)@.watches(r),
    {
        match r {
            RPair::R8(Registers8::A, v) => self.a.remove(&v),
            RPair::R8(Registers8::B, v) => self.b.remove(&v),
            RPair::R8(Registers8::C, v) => self.c.remove(&v),
            RPair::R8(Registers8::D, v) => self.d.remove(&v),
            RPair::R8(Registers8::E, v) => self.e.remove(&v),
            RPair::R8(Registers8::F, v) => self.f.remove(&v),
            RPair::R8(Registers8::H, v) => self.h.remove(&v),
            RPair::R8(Registers8::L, v) => self.l.remove(&v),
            RPair::R16(Registers16::AF, v) => self.af.remove(&v),
            RPair::R16(Registers16::BC, v) => self.bc.remove(&v),
            RPair::R16(Registers16::DE, v) => self.de.remove(&v),
            RPair::R16(Registers16::HL, v) => self.hl.remove(&v),
            RPair::R16(Registers16::PC, v) => self.pc.remove(&v),
            RPair::R16(Registers16::SP, v) => self.sp.remove(&v),
        }
    }

    pub fn triggered(&self) -> (t: bool)
        ensures
            t == self@.triggered,
    {
        return self.triggered;
    }

    pub fn clear_trigger(&mut self)
        ensures
            final(self)@ == (WatcherView { triggered: false, ..old(self)@ }),
    {
        self.triggered = false;
    }

    /// Forgets the recorded writes and clears the trigger; the watched values stay.
    pub fn clear(&mut self)
        ensures
            final(self)@ == (WatcherView { breaks: Seq::empty(), triggered: false, ..old(self)@ }),
    {
        self.breaks.clear();
        self.triggered = false;
    }
}

/// A register write of a value just set as a break point triggers the watcher.
pub proof fn lemma_break_point_triggers(w: WatcherView, r: RPair)
    ensures
        w.with_watch(r, true).watches(r),
        w.with_watch(r, true).checked(r).triggered,
        w.with_watch(r, true).checked(r).breaks == w.breaks.push(r),
{
    reveal(WatcherView::checked);
}

/// A removed break point no longer triggers the watcher.
pub proof fn lemma_removed_break_point_silent(w: WatcherView, r: RPair)
    ensures
        !w.with_watch(r, false).watches(r),
        w.with_watch(r, false).checked(r) == w.with_watch(r, false),
{
    reveal(WatcherView::checked);
}


/// Setting a break point, removing it and writing its value: the removal reports the break
/// point, the write does not trigger and leaves the trigger as it was, and removing it once
/// more reports nothing and changes nothing.
pub proof fn lemma_set_remove_check(w: WatcherView, r: RPair)
    ensures
        w.with_watch(r, true).watches(r),
        !w.with_watch(r, true).with_watch(r, false).watches(r),
        w.with_watch(r, true).with_watch(r, false).checked(r) == w.with_watch(r, true).with_watch(r, false),
        w.with_watch(r, true).with_watch(r, false).with_watch(r, false) == w.with_watch(r, true).with_watch(r, false),
{
    reveal(WatcherView::checked);
    let w2 = w.with_watch(r, true).with_watch(r, false);
    match r {
        RPair::R8(Registers8::A, v) => assert(w2.a.remove(v) =~= w2.a),
        RPair::R8(Registers8::B, v) => assert(w2.b.remove(v) =~= w2.b),
        RPair::R8(Registers8::C, v) => assert(w2.c.remove(v) =~= w2.c),
        RPair::R8(Registers8::D, v) => assert(w2.d.remove(v) =~= w2.d),
        RPair::R8(Registers8::E, v) => assert(w2.e.remove(v) =~= w2.e),
        RPair::R8(Registers8::F, v) => assert(w2.f.remove(v) =~= w2.f),
        RPair::R8(Registers8::H, v) => assert(w2.h.remove(v) =~= w2.h),
        RPair::R8(Registers8::L, v) => assert(w2.l.remove(v) =~= w2.l),
        RPair::R16(Registers16::AF, v) => assert(w2.af.remove(v) =~= w2.af),
        RPair::R16(Registers16::BC, v) => assert(w2.bc.remove(v) =~= w2.bc),
        RPair::R16(Registers16::DE, v) => assert(w2.de.remove(v) =~= w2.de),
        RPair::R16(Registers16::HL, v) => assert(w2.hl.remove(v) =~= w2.hl),
        RPair::R16(Registers16::PC, v) => assert(w2.pc.remove(v) =~= w2.pc),
        RPair::R16(Registers16::SP, v) => assert(w2.sp.remove(v) =~= w2.sp),
    }
}

}
