//! A debugger around a processor and its bus: single steps with a record of
//! the state each started from, breakpoints, and traces.

use vstd::prelude::*;
use crate::bus::Bus;
use crate::cpu::{CPU, Machine};
use vstd::string::StringExecFns;
use crate::bus::Memory;
use crate::disassembler::text::{binary8, hex2, hex4, push_binary8, push_hex2, push_hex4};
use crate::disassembler::{disassemble, disassembly};

verus! {

/// The registers at the start of a step, with the listing line of the
/// instruction at the program counter.
pub struct DebugState {
    pub pc: u16,
    pub a: u8,
    pub x: u8,
    pub y: u8,
    pub sp: u8,
    pub status: u8,
    pub disasm: String,
}

/// What a `DebugState` records.
pub struct Snapshot {
    pub pc: u16,
    pub a: u8,
    pub x: u8,
    pub y: u8,
    pub sp: u8,
    pub status: u8,
    pub disasm: Seq<char>,
}

impl View for DebugState {
    type V = Snapshot;

    open spec fn view(&self) -> Snapshot {
        Snapshot {
            pc: self.pc,
            a: self.a,
            x: self.x,
            y: self.y,
            sp: self.sp,
            status: self.status,
            disasm: self.disasm@,
        }
    }
}

impl Clone for DebugState {
    fn clone(&self) -> (copy: Self)
        ensures
            copy == *self,
    {
        DebugState {
            pc: self.pc,
            a: self.a,
            x: self.x,
            y: self.y,
            sp: self.sp,
            status: self.status,
            disasm: self.disasm.clone(),
        }
    }
}

/// The record that a step starting from `machine` makes.
pub open spec fn snapshot(machine: Machine) -> Snapshot {
    Snapshot {
        pc: machine.cpu.program_counter,
        a: machine.cpu.register_a,
        x: machine.cpu.register_x,
        y: machine.cpu.register_y,
        sp: machine.cpu.stack_pointer,
        status: machine.cpu.status,
        disasm: disassembly(machine.mem, machine.cpu.program_counter),
    }
}

/// The records of the first `steps` steps from `machine`.
pub open spec fn trace(machine: Machine, steps: nat) -> Seq<Snapshot> {
    Seq::new(steps, |i: int| snapshot(machine.run(i as nat)))
}

/// What a list of records holds.
pub open spec fn records(log: Seq<DebugState>) -> Seq<Snapshot> {
    Seq::new(log.len(), |i: int| log[i]@)
}

/// Whether none of the first `steps` steps from `machine` starts at one of
/// the addresses in `breakpoints`.
pub open spec fn no_break_before(machine: Machine, breakpoints: Seq<u16>, steps: nat) -> bool {
    forall|j: nat|
        j < steps ==> !breakpoints.contains(#[trigger] machine.run(j).cpu.program_counter)
}

/// The registers on one line: the program counter, A, X, Y and the stack
/// pointer in hexadecimal, the status in binary.
pub open spec fn registers_line(cpu: CPU) -> Seq<char> {
    "PC="@ + hex4(cpu.program_counter) + "  A="@ + hex2(cpu.register_a) + "  X="@ + hex2(
        cpu.register_x,
    ) + "  Y="@ + hex2(cpu.register_y) + "  SP="@ + hex2(cpu.stack_pointer) + "  STATUS="@
        + binary8(cpu.status)
}

/// The address `index` cells after `addr`, wrapping around the address space.
pub open spec fn cell_addr(addr: u16, index: nat) -> u16 {
    ((addr as nat + index) % 0x1_0000) as u16
}

/// The text of the cell `index` places into a dump that starts at `addr`:
/// the byte as two hexadecimal digits and a space, and before every
/// sixteenth cell, the first among them, a line break and the cell's address.
pub open spec fn dump_cell(mem: Memory, addr: u16, index: nat) -> Seq<char> {
    let at = cell_addr(addr, index);
    let text = hex2(mem.read(at)) + " "@;
    if index % 16 == 0 {
        "\n"@ + hex4(at) + ": "@ + text
    } else {
        text
    }
}

/// The dump of the `len` cells from `addr` on, sixteen to a line.
pub open spec fn dump_text(mem: Memory, addr: u16, len: nat) -> Seq<char>
    decreases len,
{
    if len == 0 {
        Seq::empty()
    } else {
        dump_text(mem, addr, (len - 1) as nat) + dump_cell(mem, addr, (len - 1) as nat)
    }
}

/// A processor and a bus under observation.
pub struct Debugger<'a, B: Bus> {
    pub cpu: &'a mut CPU,
    pub bus: &'a mut B,
    /// Addresses at which `run_until_break` stops, each at most once.
    pub breakpoints: Vec<u16>,
    /// Whether steps are being recorded in `trace_log`.
    pub tracing: bool,
    /// The records made while `tracing` was on.
    pub trace_log: Vec<DebugState>,
}

impl<'a, B: Bus> Debugger<'a, B> {
    /// The machine under observation.
    pub open spec fn machine(&self) -> Machine {
        self.cpu.on(self.bus@)
    }

    /// A debugger around `cpu` and `bus`, with no breakpoint and an empty trace.
    pub fn new(cpu: &'a mut CPU, bus: &'a mut B) -> (debugger: Self)
        ensures
            *debugger.cpu == *old(cpu),
            *debugger.bus == *old(bus),
            *final(cpu) == *final(debugger.cpu),
            *final(bus) == *final(debugger.bus),
            debugger.breakpoints@ == Seq::<u16>::empty(),
            debugger.breakpoints@.no_duplicates(),
            !debugger.tracing,
            debugger.trace_log@ == Seq::<DebugState>::empty(),
    {
        Debugger { cpu, bus, breakpoints: Vec::new(), tracing: false, trace_log: Vec::new() }
    }

    /// The registers as one line of text.
    pub fn registers_text(&self) -> (text: String)
        ensures
            text@ == registers_line(self.machine().cpu),
    {
        let mut text = String::new();
        text.append("PC=");
        push_hex4(&mut text, self.cpu.program_counter);
        text.append("  A=");
        push_hex2(&mut text, self.cpu.register_a);
        text.append("  X=");
        push_hex2(&mut text, self.cpu.register_x);
        text.append("  Y=");
        push_hex2(&mut text, self.cpu.register_y);
        text.append("  SP=");
        push_hex2(&mut text, self.cpu.stack_pointer);
        text.append("  STATUS=");
        push_binary8(&mut text, self.cpu.status);
        assert(text@ =~= registers_line(self.machine().cpu));
        text
    }

    /// The `len` cells from `addr` on as text, sixteen to a line.
    pub fn ram_text(&self, addr: u16, len: usize) -> (text: String)
        requires
            self.bus.inv(),
        ensures
            text@ == dump_text(self.machine().mem, addr, len as nat),
    {
        let mut text = String::new();
        let mut at: u16 = addr;
        let mut column: u8 = 0;
        let mut i: usize = 0;
        while i < len
            invariant
                self.bus.inv(),
                i <= len,
                at == cell_addr(addr, i as nat),
                column == i % 16,
                text@ == dump_text(self.bus@, addr, i as nat),
            decreases len - i,
        {
            let ghost before = text@;
            if column == 0 {
                text.append("\n");
                push_hex4(&mut text, at);
                text.append(": ");
            }
            push_hex2(&mut text, self.bus.read(at));
            text.append(" ");
            assert(text@ =~= before + dump_cell(self.bus@, addr, i as nat));
            at = at.wrapping_add(1);
            column = if column == 15 {
                0
            } else {
                column + 1
            };
            i = i + 1;
        }
        text
    }

    /// Tells whether `addr` is a breakpoint.
    pub fn has_breakpoint(&self, addr: u16) -> (found: bool)
        ensures
            found == self.breakpoints@.contains(addr),
    {
        let mut i: usize = 0;
        while i < self.breakpoints.len()
            invariant
                i <= self.breakpoints@.len(),
                forall|k: int| 0 <= k < i ==> self.breakpoints@[k] != addr,
            decreases self.breakpoints@.len() - i,
        {
            if self.breakpoints[i] == addr {
                return true;
            }
            i = i + 1;
        }
        false
    }

    /// Makes `addr` a breakpoint, unless it is one already.
    pub fn add_breakpoint(&mut self, addr: u16)
        ensures
            final(self).breakpoints@ == if old(self).breakpoints@.contains(addr) {
                old(self).breakpoints@
            } else {
                old(self).breakpoints@.push(addr)
            },
            old(self).breakpoints@.no_duplicates() ==> final(self).breakpoints@.no_duplicates(),
            final(self).tracing == old(self).tracing,
            final(self).trace_log == old(self).trace_log,
            *final(self).cpu == *old(self).cpu,
            *final(self).bus == *old(self).bus,
            *final(final(self).cpu) == *final(old(self).cpu),
            *final(final(self).bus) == *final(old(self).bus),
    {
        if !self.has_breakpoint(addr) {
            self.breakpoints.push(addr);
        }
    }

    /// Executes one step and returns the record of the state it started
    /// from.  While tracing, the record is appended to the trace as well.
    pub fn step(&mut self) -> (state: DebugState)
        requires
            old(self).bus.inv(),
            old(self).machine().step_fault() is None,
        ensures
            final(self).bus.inv(),
            state@ == snapshot(old(self).machine()),
            final(self).machine() == old(self).machine().step(),
            final(self).breakpoints == old(self).breakpoints,
            final(self).tracing == old(self).tracing,
            records(final(self).trace_log@) == if old(self).tracing {
                records(old(self).trace_log@).push(state@)
            } else {
                records(old(self).trace_log@)
            },
            *final(final(self).cpu) == *final(old(self).cpu),
            *final(final(self).bus) == *final(old(self).bus),
    {
        let line = disassemble(self.bus, self.cpu.program_counter);
        let state = DebugState {
            pc: self.cpu.program_counter,
            a: self.cpu.register_a,
            x: self.cpu.register_x,
            y: self.cpu.register_y,
            sp: self.cpu.stack_pointer,
            status: self.cpu.status,
            disasm: line.pretty(),
        };
        self.cpu.run_once(self.bus);
        if self.tracing {
            self.trace_log.push(state.clone());
            assert(records(self.trace_log@) =~= records(old(self).trace_log@).push(state@));
        }
        state
    }

    /// Executes steps until one has started at a breakpoint or `max_steps`
    /// steps have been executed, whichever comes first.  The step that
    /// starts at a breakpoint is executed too, and its record is returned.
    ///
    /// Every step that it takes must be one that can be completed.
    pub fn run_until_break(&mut self, max_steps: u64) -> (hit: Option<DebugState>)
        requires
            old(self).bus.inv(),
            forall|i: nat|
                i < max_steps && no_break_before(old(self).machine(), old(self).breakpoints@, i)
                    ==> #[trigger] old(self).machine().run(i).step_fault() is None,
        ensures
            final(self).bus.inv(),
            final(self).breakpoints == old(self).breakpoints,
            final(self).tracing == old(self).tracing,
            *final(final(self).cpu) == *final(old(self).cpu),
            *final(final(self).bus) == *final(old(self).bus),
            match hit {
                Some(state) => exists|i: nat|
                    {
                        &&& i < max_steps
                        &&& no_break_before(old(self).machine(), old(self).breakpoints@, i)
                        &&& old(self).breakpoints@.contains(
                            #[trigger] old(self).machine().run(i).cpu.program_counter,
                        )
                        &&& state@ == snapshot(old(self).machine().run(i))
                        &&& final(self).machine() == old(self).machine().run(i + 1)
                        &&& records(final(self).trace_log@) == records(old(self).trace_log@)
                            + if old(self).tracing {
                            trace(old(self).machine(), i + 1)
                        } else {
                            Seq::empty()
                        }
                    },
                None => {
                    &&& no_break_before(
                        old(self).machine(),
                        old(self).breakpoints@,
                        max_steps as nat,
                    )
                    &&& final(self).machine() == old(self).machine().run(max_steps as nat)
                    &&& records(final(self).trace_log@) == records(old(self).trace_log@)
                        + if old(self).tracing {
                        trace(old(self).machine(), max_steps as nat)
                    } else {
                        Seq::empty()
                    }
                },
            },
    {
        let ghost start = self.machine();
        let ghost log = records(self.trace_log@);
        let mut steps: u64 = 0;
        assert(records(self.trace_log@) =~= log + trace(start, 0));
        assert(records(self.trace_log@) =~= log + Seq::empty());
        while steps < max_steps
            invariant
                self.bus.inv(),
                steps <= max_steps,
                start == old(self).machine(),
                log == records(old(self).trace_log@),
                self.breakpoints == old(self).breakpoints,
                self.tracing == old(self).tracing,
                *final(self.cpu) == *final(old(self).cpu),
                *final(self.bus) == *final(old(self).bus),
                forall|i: nat|
                    i < max_steps && no_break_before(start, self.breakpoints@, i)
                        ==> #[trigger] start.run(i).step_fault() is None,
                no_break_before(start, self.breakpoints@, steps as nat),
                self.machine() == start.run(steps as nat),
                records(self.trace_log@) == log + if self.tracing {
                    trace(start, steps as nat)
                } else {
                    Seq::empty()
                },
            decreases max_steps - steps,
        {
            let state = self.step();
            proof {
                if self.tracing {
                    assert(records(self.trace_log@) =~= log + trace(start, (steps + 1) as nat));
                }
            }
            if self.has_breakpoint(state.pc) {
                return Some(state);
            }
            steps = steps + 1;
        }
        None
    }

    /// Executes `count` steps and returns their records, first step first.
    /// The trace kept by the debugger holds the same records afterwards.
    ///
    /// Each of the steps must be one that can be completed.
    pub fn trace_next(&mut self, count: usize) -> (log: Vec<DebugState>)
        requires
            old(self).bus.inv(),
            old(self).machine().runs_clean(count as nat),
        ensures
            final(self).bus.inv(),
            records(log@) == trace(old(self).machine(), count as nat),
            records(final(self).trace_log@) == trace(old(self).machine(), count as nat),
            final(self).machine() == old(self).machine().run(count as nat),
            !final(self).tracing,
            final(self).breakpoints == old(self).breakpoints,
            *final(final(self).cpu) == *final(old(self).cpu),
            *final(final(self).bus) == *final(old(self).bus),
    {
        let ghost start = self.machine();
        self.trace_log.clear();
        self.tracing = true;
        let mut done: usize = 0;
        assert(records(self.trace_log@) =~= trace(start, 0));
        while done < count
            invariant
                self.bus.inv(),
                done <= count,
                start == old(self).machine(),
                start.runs_clean(count as nat),
                self.tracing,
                self.breakpoints == old(self).breakpoints,
                *final(self.cpu) == *final(old(self).cpu),
                *final(self.bus) == *final(old(self).bus),
                self.machine() == start.run(done as nat),
                records(self.trace_log@) == trace(start, done as nat),
            decreases count - done,
        {
            proof {
                lemma_clean_prefix(start, count as nat, done as nat);
            }
            let _ = self.step();
            done = done + 1;
            assert(records(self.trace_log@) =~= trace(start, done as nat));
        }
        self.tracing = false;
        let mut log: Vec<DebugState> = Vec::new();
        let mut i: usize = 0;
        while i < self.trace_log.len()
            invariant
                i <= self.trace_log@.len(),
                log@.len() == i,
                forall|k: int| 0 <= k < i ==> log@[k] == self.trace_log@[k],
            decreases self.trace_log@.len() - i,
        {
            log.push(self.trace_log[i].clone());
            i = i + 1;
        }
        assert(records(log@) =~= records(self.trace_log@));
        log
    }
}

/// If `steps` steps can be completed, so can each of them.
pub proof fn lemma_clean_prefix(machine: Machine, steps: nat, done: nat)
    requires
        machine.runs_clean(steps),
        done < steps,
    ensures
        machine.run(done).step_fault() is None,
    decreases steps,
{
    if done + 1 < steps {
        lemma_clean_prefix(machine, (steps - 1) as nat, done);
    }
}

} // verus!
