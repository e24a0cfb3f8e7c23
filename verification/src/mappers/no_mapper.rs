//! The placeholder mapper: a construction-time bug guard. It is never ready,
//! so no verified caller can ever route an access to it.

use vstd::prelude::*;

use crate::mappers::MapperRW;
use crate::memory::{CHR_BUFFER_SIZE, PRG_BUFFER_SIZE};

verus! {

/// The not-yet-configured mapper slot.
#[derive(Debug, Clone, Copy, PartialEq, Eq, Structural)]
pub struct NoMapper {}

impl NoMapper {
    pub fn init() -> (r: NoMapper)
        ensures
            r == (NoMapper {  }),
    {
        NoMapper {  }
    }
}

impl MapperRW for NoMapper {
    /// The placeholder is never usable: routing an access to it is a
    /// construction bug, caught by the trait's precondition.
    open spec fn mapper_ready(&self) -> bool {
        false
    }

    open spec fn spec_read(&self, req_addr: usize, prg_data: [u8; PRG_BUFFER_SIZE]) -> u8 {
        0u8
    }

    open spec fn spec_write(&self, req_addr: usize, value: u8, prg_data: [u8; PRG_BUFFER_SIZE]) -> [u8; PRG_BUFFER_SIZE] {
        prg_data
    }

    open spec fn spec_read_ppu(&self, data_ref: usize, chr_data: [u8; CHR_BUFFER_SIZE]) -> u8 {
        0u8
    }

    fn mapper_read(&self, req_addr: usize, prg_data: &[u8; PRG_BUFFER_SIZE]) -> (r: u8) {
        0
    }

    fn mapper_write(&self, req_addr: usize, value: u8, prg_data: &mut [u8; PRG_BUFFER_SIZE]) {
    }

    fn mapper_read_ppu(&self, data_ref: usize, chr_data: &[u8; CHR_BUFFER_SIZE]) -> (r: u8) {
        0
    }
}

} // verus!
