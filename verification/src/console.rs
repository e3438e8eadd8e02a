//! The console driver: the CPU and the bus in 1:3 lockstep with the PPU,
//! driven a frame at a time, with snapshots and the rewind tape on top.

use vstd::prelude::*;
use crate::bus::MemoryBus;
use crate::cartridge::Mapper;
use crate::controller::ButtonState;
use crate::cpu::CPU;
use crate::ppu::Screen;
use crate::snapshot::RewindTape;

verus! {

/// How many frames the tape's snapshot cache holds at power-up: one second.
pub const INITIAL_TAPE_STEP: usize = 60;

/// A PPU position on the 341x262 dot grid, as a single dot index.
pub open spec fn dot_pos(p: crate::ppu::PPU) -> int {
    p.scanline * 341 + p.cycle_in_scanline
}

/// The dot index where the vblank flag goes up: scanline 241, dot 1.
pub open spec fn vblank_set_pos() -> int {
    (241 * 341 + 1) as int
}

/// The dot index where the vblank flag goes down: scanline 261, dot 1.
pub open spec fn vblank_clear_pos() -> int {
    (261 * 341 + 1) as int
}

/// Forward distance from `pos` to `target` around the frame's dot cycle.
pub open spec fn dot_distance(pos: int, target: int) -> int {
    if pos <= target {
        target - pos
    } else {
        target + 341 * 262 - pos
    }
}

/// Whether RAM cell `i` is an alias of some address in the preserve list.
pub open spec fn preserved_cell(list: Seq<u16>, i: int) -> bool {
    exists|k: int| 0 <= k < list.len() && i == #[trigger] (list[k] as int % 0x800)
}

/// Everything a snapshot must capture: the CPU and the whole bus.
#[derive(PartialEq)]
pub struct ConsoleState {
    pub bus: MemoryBus,
    pub cpu: CPU,
}

impl ConsoleState {
    /// A state is sound when its bus is.
    pub open spec fn wf(&self) -> bool {
        self.bus.wf()
    }

    /// The same architectural state, bank contents compared by value. Two
    /// states this relates step identically.
    pub open spec fn equiv(&self, other: &ConsoleState) -> bool {
        &&& self.cpu == other.cpu
        &&& self.bus.ppu == other.bus.ppu
        &&& self.bus.controller == other.bus.controller
        &&& self.bus.mapper.equiv(&other.bus.mapper)
    }

    /// Run one CPU step and advance the PPU three dots per CPU cycle.
    ///
    /// The 1:3 lockstep shows in the contract: exactly one instruction's
    /// worth of cycles (1 to 12) accrues, and while the vblank flag does not
    /// change, the PPU's distance to the dot that would flip it shrinks by
    /// three dots per cycle consumed (one more at an odd-frame skip). When
    /// the flag does flip, the PPU stands at most 36 dots past the flipping
    /// dot — the machine passed through the edge during this very step.
    pub fn step(&mut self)
        requires
            old(self).wf(),
        ensures
            final(self).wf(),
            exists|n: u64| 1 <= n <= 12 && final(self).cpu.cycles == crate::cpu::spec_cycles_after(
                old(self).cpu.cycles,
                n,
            ),
            !old(self).bus.ppu.in_vblank && !final(self).bus.ppu.in_vblank ==> dot_distance(
                dot_pos(old(self).bus.ppu),
                vblank_set_pos(),
            ) - 72 <= dot_distance(dot_pos(final(self).bus.ppu), vblank_set_pos()) <= dot_distance(
                dot_pos(old(self).bus.ppu),
                vblank_set_pos(),
            ) - 3,
            old(self).bus.ppu.in_vblank && final(self).bus.ppu.in_vblank ==> dot_distance(
                dot_pos(old(self).bus.ppu),
                vblank_clear_pos(),
            ) - 72 <= dot_distance(dot_pos(final(self).bus.ppu), vblank_clear_pos())
                <= dot_distance(dot_pos(old(self).bus.ppu), vblank_clear_pos()) - 3,
            !old(self).bus.ppu.in_vblank && final(self).bus.ppu.in_vblank ==> vblank_set_pos()
                < dot_pos(final(self).bus.ppu) <= vblank_set_pos() + 36,
            old(self).bus.ppu.in_vblank && !final(self).bus.ppu.in_vblank ==> vblank_clear_pos()
                < dot_pos(final(self).bus.ppu) <= vblank_clear_pos() + 36,
    {
        let cycles = self.cpu.step(&mut self.bus);
        let dots: u32 = cycles as u32 * 3;
        let mut i: u32 = 0;
        while i < dots
            invariant
                self.wf(),
                3 <= dots <= 36,
                i <= dots,
                exists|n: u64| 1 <= n <= 12 && self.cpu.cycles == crate::cpu::spec_cycles_after(
                    old(self).cpu.cycles,
                    n,
                ),
                i == 0 ==> self.bus.ppu.in_vblank == old(self).bus.ppu.in_vblank && dot_pos(
                    self.bus.ppu,
                ) == dot_pos(old(self).bus.ppu),
                !old(self).bus.ppu.in_vblank && !self.bus.ppu.in_vblank ==> dot_distance(
                    dot_pos(old(self).bus.ppu),
                    vblank_set_pos(),
                ) - 2 * i <= dot_distance(dot_pos(self.bus.ppu), vblank_set_pos())
                    <= dot_distance(dot_pos(old(self).bus.ppu), vblank_set_pos()) - i,
                !old(self).bus.ppu.in_vblank && self.bus.ppu.in_vblank ==> vblank_set_pos()
                    < dot_pos(self.bus.ppu) <= vblank_set_pos() + i,
                old(self).bus.ppu.in_vblank && self.bus.ppu.in_vblank ==> dot_distance(
                    dot_pos(old(self).bus.ppu),
                    vblank_clear_pos(),
                ) - 2 * i <= dot_distance(dot_pos(self.bus.ppu), vblank_clear_pos())
                    <= dot_distance(dot_pos(old(self).bus.ppu), vblank_clear_pos()) - i,
                old(self).bus.ppu.in_vblank && !self.bus.ppu.in_vblank ==> vblank_clear_pos()
                    < dot_pos(self.bus.ppu) <= vblank_clear_pos() + i,
            decreases dots - i,
        {
            self.bus.ppu.step(&self.bus.mapper);
            i = i + 1;
        }
    }

    /// Run to the next positive vblank edge and publish the frame: step
    /// while still inside vblank, step until vblank begins again, then copy
    /// the finished frame out.
    ///
    /// It returns only on a positive edge: the vblank flag is up and the
    /// PPU stands at most 36 dots past the dot that raised it, so the edge
    /// fell within the final CPU step of this very call — even when the
    /// machine was already inside vblank at entry.
    pub fn wait_vblank(&mut self, screen: &mut Screen)
        requires
            old(self).wf(),
        ensures
            final(self).wf(),
            final(self).bus.ppu.in_vblank,
            vblank_set_pos() < dot_pos(final(self).bus.ppu) <= vblank_set_pos() + 36,
            *final(screen) == final(self).bus.ppu.pending_screen,
    {
        while self.bus.ppu.in_vblank
            invariant
                self.wf(),
            decreases (if self.bus.ppu.in_vblank { 1int } else { 0int }), dot_distance(
                dot_pos(self.bus.ppu),
                vblank_clear_pos(),
            ),
        {
            self.step();
        }

        while !self.bus.ppu.in_vblank
            invariant
                self.wf(),
                self.bus.ppu.in_vblank ==> vblank_set_pos() < dot_pos(self.bus.ppu)
                    <= vblank_set_pos() + 36,
            decreases (if self.bus.ppu.in_vblank { 0int } else { 1int }), dot_distance(
                dot_pos(self.bus.ppu),
                vblank_set_pos(),
            ),
        {
            self.step();
        }

        *screen = self.bus.ppu.pending_screen;
    }
}

impl Clone for ConsoleState {
    /// A deep copy; the copy is equivalent to the original and steps
    /// identically.
    fn clone(&self) -> (r: Self)
        ensures
            r.equiv(self),
            r.wf() == self.wf(),
    {
        ConsoleState {
            bus: MemoryBus {
                mapper: self.bus.mapper.clone(),
                ppu: self.bus.ppu,
                controller: self.bus.controller,
            },
            cpu: self.cpu,
        }
    }
}

/// The console: the live state, the rewind tape, the published frame, and
/// whether the last frame came from the tape.
pub struct Console {
    pub state: ConsoleState,
    pub tape: RewindTape,
    pub screen: Screen,
    pub in_rewind: bool,
}

impl Console {
    /// The live state and the tape are both sound.
    pub open spec fn wf(&self) -> bool {
        &&& self.state.wf()
        &&& self.tape.wf()
    }

    /// Power up a console around a wired cartridge: reset the PPU and the
    /// CPU (loading PC from the reset vector) and start an empty tape.
    pub fn new(mapper: Mapper) -> (r: Console)
        requires
            mapper.wf(),
        ensures
            r.wf(),
            !r.in_rewind,
            r.tape.frames == 0,
            r.state.bus.mapper == mapper,
            crate::ppu::spec_powered_up(r.state.bus.ppu),
            r.state.bus.controller.index == 0,
            !r.state.bus.controller.strobe,
            r.state.bus.controller.button_state.0 == 0,
            r.state.cpu.pc == ((mapper.spec_read(0xfffc) + mapper.spec_read(0xfffd) * 0x100) as u16),
            forall|i: int| 0 <= i < 0x800 ==> #[trigger] r.state.cpu.ram@[i] == 0,
            r.state.cpu.cycles == 0,
            r.state.cpu.sp == 0xfd,
            r.state.cpu.status == 0x24,
            r.state.cpu.a == 0,
            r.state.cpu.x == 0,
            r.state.cpu.y == 0,
            !r.state.cpu.halted,
    {
        let mut state = ConsoleState { bus: MemoryBus::new(mapper), cpu: CPU::new() };
        state.bus.ppu.reset();
        let mut cpu = state.cpu;
        cpu.reset(&mut state.bus);
        state.cpu = cpu;

        Console {
            state,
            screen: Screen::new(),
            tape: RewindTape::new(INITIAL_TAPE_STEP),
            in_rewind: false,
        }
    }

    /// A deep copy of the live state.
    pub fn snapshot(&self) -> (r: ConsoleState)
        ensures
            r.equiv(&self.state),
            r.wf() == self.state.wf(),
    {
        self.state.clone()
    }

    /// Replace the live state with a snapshot, atomically, while carrying
    /// the bytes under the listed CPU and PPU addresses across the swap:
    /// they are read out before it and written back after it, as ordinary
    /// bus accesses. With empty preserve lists the snapshot is installed
    /// verbatim; when every listed address is work RAM, the contract pins
    /// the round trip cell by cell — listed cells keep their pre-call
    /// bytes, every other cell and the whole bus come from the snapshot.
    pub fn restore_snapshot(
        &mut self,
        snapshot: ConsoleState,
        cpu_ignore: &Vec<u16>,
        ppu_ignore: &Vec<u16>,
    )
        requires
            old(self).wf(),
            snapshot.wf(),
        ensures
            final(self).wf(),
            final(self).tape == old(self).tape,
            final(self).screen == old(self).screen,
            final(self).in_rewind == old(self).in_rewind,
            cpu_ignore@.len() == 0 && ppu_ignore@.len() == 0 ==> final(self).state == snapshot,
            (forall|k: int| 0 <= k < cpu_ignore@.len() ==> cpu_ignore@[k] < 0x2000)
                && ppu_ignore@.len() == 0 ==> {
                &&& final(self).state.bus == snapshot.bus
                &&& final(self).state.cpu == (CPU {
                    ram: final(self).state.cpu.ram,
                    ..snapshot.cpu
                })
                &&& forall|k: int| 0 <= k < cpu_ignore@.len()
                    ==> #[trigger] final(self).state.cpu.ram@[cpu_ignore@[k] as int % 0x800]
                        == old(self).state.cpu.ram@[cpu_ignore@[k] as int % 0x800]
                &&& forall|i: int| 0 <= i < 0x800 && !preserved_cell(cpu_ignore@, i)
                    ==> #[trigger] final(self).state.cpu.ram@[i] == snapshot.cpu.ram@[i]
            },
    {
        let ghost ram_only = (forall|k: int| 0 <= k < cpu_ignore@.len() ==> cpu_ignore@[k]
            < 0x2000) && ppu_ignore@.len() == 0;
        // read the preserved addresses out of the outgoing state
        let mut cpu_backup_contents: Vec<u8> = Vec::new();
        let mut i: usize = 0;
        while i < cpu_ignore.len()
            invariant
                self.state.wf(),
                cpu_backup_contents.len() == i,
                i <= cpu_ignore.len(),
                self.tape == old(self).tape,
                self.screen == old(self).screen,
                self.in_rewind == old(self).in_rewind,
                ram_only == ((forall|k: int| 0 <= k < cpu_ignore@.len() ==> cpu_ignore@[k]
                    < 0x2000) && ppu_ignore@.len() == 0),
                ram_only ==> self.state == old(self).state,
                ram_only ==> forall|k: int| 0 <= k < i
                    ==> #[trigger] cpu_backup_contents@[k]
                        == old(self).state.cpu.ram@[cpu_ignore@[k] as int % 0x800],
            decreases cpu_ignore.len() - i,
        {
            let data = self.state.cpu.read_byte(&mut self.state.bus, cpu_ignore[i]);
            cpu_backup_contents.push(data);
            i = i + 1;
        }

        let mut ppu_backup_contents: Vec<u8> = Vec::new();
        let mut i: usize = 0;
        while i < ppu_ignore.len()
            invariant
                self.state.wf(),
                ppu_backup_contents.len() == i,
                i <= ppu_ignore.len(),
                self.tape == old(self).tape,
                self.screen == old(self).screen,
                self.in_rewind == old(self).in_rewind,
            decreases ppu_ignore.len() - i,
        {
            let data = self.state.bus.ppu.read_byte(&self.state.bus.mapper, ppu_ignore[i]);
            ppu_backup_contents.push(data);
            i = i + 1;
        }

        self.state = snapshot;

        // write the preserved bytes back into the incoming state
        let mut i: usize = 0;
        while i < cpu_ignore.len()
            invariant
                self.state.wf(),
                cpu_backup_contents.len() == cpu_ignore@.len(),
                i <= cpu_ignore.len(),
                cpu_ignore@.len() == 0 && ppu_ignore@.len() == 0 ==> self.state == snapshot,
                self.tape == old(self).tape,
                self.screen == old(self).screen,
                self.in_rewind == old(self).in_rewind,
                ram_only == ((forall|k: int| 0 <= k < cpu_ignore@.len() ==> cpu_ignore@[k]
                    < 0x2000) && ppu_ignore@.len() == 0),
                ram_only ==> forall|k: int| 0 <= k < cpu_ignore@.len()
                    ==> #[trigger] cpu_backup_contents@[k]
                        == old(self).state.cpu.ram@[cpu_ignore@[k] as int % 0x800],
                ram_only ==> self.state.bus == snapshot.bus,
                ram_only ==> self.state.cpu == (CPU { ram: self.state.cpu.ram, ..snapshot.cpu }),
                ram_only ==> forall|k: int| 0 <= k < i
                    ==> #[trigger] self.state.cpu.ram@[cpu_ignore@[k] as int % 0x800]
                        == old(self).state.cpu.ram@[cpu_ignore@[k] as int % 0x800],
                ram_only ==> forall|j: int| 0 <= j < 0x800 && !preserved_cell(cpu_ignore@, j)
                    ==> #[trigger] self.state.cpu.ram@[j] == snapshot.cpu.ram@[j],
            decreases cpu_ignore.len() - i,
        {
            let mut cpu = self.state.cpu;
            cpu.write_byte(&mut self.state.bus, cpu_ignore[i], cpu_backup_contents[i]);
            self.state.cpu = cpu;
            proof {
                if ram_only {
                    assert(preserved_cell(cpu_ignore@, cpu_ignore@[i as int] as int % 0x800));
                }
            }
            i = i + 1;
        }
        let mut i: usize = 0;
        while i < ppu_ignore.len()
            invariant
                self.state.wf(),
                ppu_backup_contents.len() == ppu_ignore@.len(),
                i <= ppu_ignore.len(),
                cpu_ignore@.len() == 0 && ppu_ignore@.len() == 0 ==> self.state == snapshot,
                self.tape == old(self).tape,
                self.screen == old(self).screen,
                self.in_rewind == old(self).in_rewind,
                ram_only ==> ppu_ignore@.len() == 0,
                ram_only ==> self.state.bus == snapshot.bus,
                ram_only ==> self.state.cpu == (CPU { ram: self.state.cpu.ram, ..snapshot.cpu }),
                ram_only ==> forall|k: int| 0 <= k < cpu_ignore@.len()
                    ==> #[trigger] self.state.cpu.ram@[cpu_ignore@[k] as int % 0x800]
                        == old(self).state.cpu.ram@[cpu_ignore@[k] as int % 0x800],
                ram_only ==> forall|j: int| 0 <= j < 0x800 && !preserved_cell(cpu_ignore@, j)
                    ==> #[trigger] self.state.cpu.ram@[j] == snapshot.cpu.ram@[j],
            decreases ppu_ignore.len() - i,
        {
            self.state.bus.ppu.write_byte(
                &mut self.state.bus.mapper,
                ppu_ignore[i],
                ppu_backup_contents[i],
            );
            i = i + 1;
        }
    }

    /// Step one frame back along the tape, when it holds any history.
    pub fn rewind(&mut self)
        requires
            old(self).wf(),
        ensures
            final(self).wf(),
            old(self).tape.frames == 0 ==> *final(self) == *old(self),
            old(self).tape.frames > 0 ==> final(self).in_rewind && final(self).tape.frames
                == old(self).tape.frames - 1,
            old(self).tape.frames > 0 ==> final(self).state
                == old(self).tape.snapshot_cache@.last().0,
    {
        if let Some(prev_state) = self.tape.pop_back(&mut self.screen) {
            self.state = prev_state;
            self.in_rewind = true;
        }
    }

    /// Latch a fresh button mask into the controller port.
    pub fn update_buttons(&mut self, state: ButtonState)
        ensures
            final(self).state.bus.controller.button_state == state,
            final(self).state.bus.controller.strobe == old(self).state.bus.controller.strobe,
            final(self).state.bus.controller.index == old(self).state.bus.controller.index,
            final(self).state.bus.ppu == old(self).state.bus.ppu,
            final(self).state.bus.mapper == old(self).state.bus.mapper,
            final(self).state.cpu == old(self).state.cpu,
            final(self).tape == old(self).tape,
            final(self).screen == old(self).screen,
            final(self).in_rewind == old(self).in_rewind,
    {
        self.state.bus.controller.update_buttons(state);
    }

    /// Run to the next vblank edge and publish the frame; unless this frame
    /// came from the tape, record the state that produced it.
    pub fn next_screen(&mut self) -> (r: &Screen)
        requires
            old(self).wf(),
            old(self).tape.frames < usize::MAX / 2,
        ensures
            final(self).wf(),
            final(self).state.bus.ppu.in_vblank,
            vblank_set_pos() < dot_pos(final(self).state.bus.ppu) <= vblank_set_pos() + 36,
            *r == final(self).screen,
            final(self).screen == final(self).state.bus.ppu.pending_screen,
            !old(self).in_rewind ==> final(self).tape.frames == old(self).tape.frames + 1,
            !old(self).in_rewind ==> final(self).tape.snapshot_cache@.last().0.equiv(
                &final(self).state,
            ),
            old(self).in_rewind ==> final(self).tape.frames == old(self).tape.frames,
            !final(self).in_rewind,
    {
        self.state.wait_vblank(&mut self.screen);

        if !self.in_rewind {
            self.tape.push_back(self.state.clone());
        }

        self.in_rewind = false;
        &self.screen
    }
}

} // verus!
