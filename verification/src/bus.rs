//! The CPU-side memory bus: everything the CPU reaches besides its own work
//! RAM — the mapper, the picture processor, and the first controller port.

use vstd::prelude::*;
use crate::cartridge::Mapper;
use crate::controller::Controller;
use crate::ppu::PPU;

verus! {

/// The devices the CPU's address decoder routes to.
#[derive(Clone, PartialEq)]
pub struct MemoryBus {
    pub mapper: Mapper,
    pub ppu: PPU,
    pub controller: Controller,
}

impl MemoryBus {
    /// The bus is sound when its mapper and its PPU are.
    pub open spec fn wf(&self) -> bool {
        &&& self.mapper.wf()
        &&& self.ppu.wf()
    }

    /// A bus around a freshly powered PPU and controller.
    pub fn new(mapper: Mapper) -> (r: MemoryBus)
        requires
            mapper.wf(),
        ensures
            r.wf(),
            r.mapper == mapper,
            crate::ppu::spec_powered_up(r.ppu),
            r.controller.index == 0,
            !r.controller.strobe,
            r.controller.button_state.0 == 0,
    {
        MemoryBus { mapper, ppu: PPU::new(), controller: Controller::default() }
    }
}

} // verus!
