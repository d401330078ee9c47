//! Raw hardware accesses, described as values. The library decides which
//! accesses happen and in what order; the code around it issues them, each
//! exactly once and in the order given.
use vstd::prelude::*;

verus! {

/// One hardware access.
#[derive(Clone, Copy, Debug, PartialEq, Eq, Structural)]
pub enum HwOp {
    /// Read the 64-bit value at a memory address.
    ReadMem64 { addr: u64 },
    /// Read the 32-bit value at a memory address.
    ReadMem32 { addr: u64 },
    /// Read the byte at a memory address.
    ReadMem8 { addr: u64 },
    /// Write a 64-bit value at a memory address.
    WriteMem64 { addr: u64, value: u64 },
    /// Write a 32-bit value at a memory address.
    WriteMem32 { addr: u64, value: u32 },
    /// Write a byte at a memory address.
    WriteMem8 { addr: u64, value: u8 },
    /// Read 32 bits from an I/O port.
    PortIn { port: u16 },
    /// Write 32 bits to an I/O port.
    PortOut { port: u16, value: u32 },
    /// Read a model-specific register.
    ReadMsr { index: u32 },
}

impl HwOp {
    /// Whether the access changes hardware state.
    pub open spec fn is_write(self) -> bool {
        self is WriteMem64 || self is WriteMem32 || self is WriteMem8 || self is PortOut
    }

}

} // verus!
