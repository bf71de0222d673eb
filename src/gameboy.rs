//! The machine: a CPU and the bus it drives, with the cartridge in the bus.
use crate::bus::{is_backed, is_rom, Bus, BusTrait};
use crate::cartridge::{loaded_from, Cartridge};
use crate::sharp8080::{handles, ExecError, Sharp8080};
use vstd::prelude::*;

verus! {

/// Why `GameBoy::run` returned.
#[derive(Clone, Copy, Debug, PartialEq, Eq, Structural)]
pub enum RunExit {
    /// No cartridge is loaded; nothing was executed.
    NotLoaded,
    /// The opcode at PC, given here, has no handler; execution stopped
    /// before it.
    Undefined(u16),
    /// The requested number of instructions was executed.
    StepLimit,
}

/// Whether fetching the opcode at PC and executing it takes `cpu` and `bus`
/// to `cpu2` and `bus2`.
#[verifier::opaque]
pub open spec fn steps_to(cpu: Sharp8080, bus: Bus, cpu2: Sharp8080, bus2: Bus) -> bool {
    let op = cpu.fetched(bus);
    &&& handles(op)
    &&& cpu2 == cpu.step_state(bus, op)
    &&& cpu.bus_after(bus, op, bus2)
}

/// Whether `trace` is a run: each state in it after the first is what one
/// step makes of the state before.
pub open spec fn is_run(trace: Seq<(Sharp8080, Bus)>) -> bool {
    forall|i: int|
        0 <= i < trace.len() - 1 ==> #[trigger] steps_to(
            trace[i].0,
            trace[i].1,
            trace[i + 1].0,
            trace[i + 1].1,
        )
}

/// Whether running `n` instructions from `cpu` and `bus` ends in `cpu2` and
/// `bus2`, each fetched at PC and executed.
pub open spec fn runs(cpu: Sharp8080, bus: Bus, n: nat, cpu2: Sharp8080, bus2: Bus) -> bool {
    exists|trace: Seq<(Sharp8080, Bus)>|
        #[trigger] is_run(trace) && trace.len() == n + 1 && trace[0] == (cpu, bus) && trace[n as int]
            == (cpu2, bus2)
}

/// The console: the CPU and the bus, which holds the cartridge.
pub struct GameBoy {
    cpu: Sharp8080,
    bus: Bus,
}

impl GameBoy {
    /// The CPU's register file.
    pub closed spec fn cpu_spec(&self) -> Sharp8080 {
        self.cpu
    }

    /// The bus, cartridge included.
    pub closed spec fn bus_spec(&self) -> Bus {
        self.bus
    }

    /// A console just switched on: the CPU at the entry point 0x0100 with
    /// everything else zero, no cartridge, zeroed memory.
    pub fn power_on() -> (r: GameBoy)
        ensures
            r.cpu_spec() == Sharp8080::power_on_state(0x0100),
            r.bus_spec().cart().is_empty_spec(),
            forall|a: u16| is_backed(a) ==> #[trigger] r.bus_spec().peek(a) == 0,
    {
        GameBoy { cpu: Sharp8080::new(0x0100), bus: Bus::new() }
    }

    /// The CPU's register file.
    pub fn cpu(&self) -> (r: &Sharp8080)
        ensures
            *r == self.cpu_spec(),
    {
        &self.cpu
    }

    /// The bus.
    pub fn bus(&self) -> (r: &Bus)
        ensures
            *r == self.bus_spec(),
    {
        &self.bus
    }

    /// Loads a cartridge image from the contents of a ROM file; `None`
    /// stands for a file that could not be read, which leaves no cartridge.
    pub fn load_game(&mut self, contents: Option<Vec<u8>>)
        ensures
            final(self).cpu_spec() == old(self).cpu_spec(),
            match contents {
                Some(bytes) => loaded_from(final(self).bus_spec().cart(), bytes@),
                None => final(self).bus_spec().cart().is_empty_spec(),
            },
            forall|a: u16| !is_rom(a) ==> #[trigger] final(self).bus_spec().peek(a) == old(
                self,
            ).bus_spec().peek(a),
    {
        let mut cartridge = Cartridge::new();
        cartridge.load_cartridge(contents);
        self.bus.insert_cartridge(cartridge);
    }

    /// Loads a cartridge image held in memory; one whose header does not
    /// decode leaves no cartridge.
    pub fn load_buffer(&mut self, buffer: &Vec<u8>)
        ensures
            final(self).cpu_spec() == old(self).cpu_spec(),
            loaded_from(final(self).bus_spec().cart(), buffer@),
            forall|a: u16| !is_rom(a) ==> #[trigger] final(self).bus_spec().peek(a) == old(
                self,
            ).bus_spec().peek(a),
    {
        let mut cartridge = Cartridge::new();
        cartridge.load_cartridge_w_buffer(buffer);
        self.bus.insert_cartridge(cartridge);
    }

    /// Fetches the opcode at PC and executes it. For what one step does to
    /// the registers and the bus see `Sharp8080::step_state` and
    /// `Sharp8080::bus_after`, which `steps_to` combines.
    pub fn step(&mut self) -> (r: Result<(), ExecError>)
        ensures
            ({
                let op = old(self).cpu_spec().fetched(old(self).bus_spec());
                &&& r is Ok <==> handles(op)
                &&& r is Ok ==> steps_to(
                    old(self).cpu_spec(),
                    old(self).bus_spec(),
                    final(self).cpu_spec(),
                    final(self).bus_spec(),
                )
                &&& r is Err ==> r == Err::<(), ExecError>(ExecError::UndefinedInstruction(op))
                &&& r is Err ==> *final(self) == *old(self)
            }),
    {
        let opcode = self.cpu.fetch_opcode(&self.bus);
        let r = self.cpu.execute(&mut self.bus, opcode);
        proof {
            reveal(steps_to);
        }
        r
    }

    /// Runs up to `max_steps` instructions. Refuses to start without a
    /// cartridge, and stops early at an opcode without a handler.
    pub fn run(&mut self, max_steps: u64) -> (r: RunExit)
        ensures
            r == RunExit::NotLoaded <==> old(self).bus_spec().cart().image().len() == 0,
            r == RunExit::NotLoaded ==> *final(self) == *old(self),
            r == RunExit::StepLimit ==> runs(
                old(self).cpu_spec(),
                old(self).bus_spec(),
                max_steps as nat,
                final(self).cpu_spec(),
                final(self).bus_spec(),
            ),
            match r {
                RunExit::Undefined(op) => {
                    &&& op == final(self).cpu_spec().fetched(final(self).bus_spec())
                    &&& !handles(op)
                    &&& exists|k: nat|
                        k < max_steps && #[trigger] runs(
                            old(self).cpu_spec(),
                            old(self).bus_spec(),
                            k,
                            final(self).cpu_spec(),
                            final(self).bus_spec(),
                        )
                },
                _ => true,
            },
    {
        if !self.bus.cartridge().is_loaded() {
            return RunExit::NotLoaded;
        }
        let ghost cpu0 = self.cpu;
        let ghost bus0 = self.bus;
        let ghost mut trace: Seq<(Sharp8080, Bus)> = seq![(cpu0, bus0)];
        let mut i: u64 = 0;
        while i < max_steps
            invariant
                i <= max_steps,
                cpu0 == old(self).cpu,
                bus0 == old(self).bus,
                bus0.cart().image().len() > 0,
                is_run(trace),
                trace.len() == i + 1,
                trace[0] == (cpu0, bus0),
                trace[i as int] == (self.cpu, self.bus),
            decreases max_steps - i,
        {
            let ghost before = trace;
            match self.step() {
                Ok(()) => {
                    proof {
                        trace = before.push((self.cpu, self.bus));
                        assert forall|j: int| 0 <= j < trace.len() - 1 implies #[trigger] steps_to(
                            trace[j].0,
                            trace[j].1,
                            trace[j + 1].0,
                            trace[j + 1].1,
                        ) by {
                            if j < before.len() - 1 {
                                assert(steps_to(
                                    before[j].0,
                                    before[j].1,
                                    before[j + 1].0,
                                    before[j + 1].1,
                                ));
                            }
                        }
                    }
                },
                Err(ExecError::UndefinedInstruction(op)) => {
                    assert(is_run(trace));
                    assert(runs(
                        old(self).cpu_spec(),
                        old(self).bus_spec(),
                        i as nat,
                        self.cpu_spec(),
                        self.bus_spec(),
                    ));
                    return RunExit::Undefined(op);
                },
            }
            i = i + 1;
        }
        assert(is_run(trace));
        RunExit::StepLimit
    }
}

} // verus!
