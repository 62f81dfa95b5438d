use vstd::prelude::*;

use crate::flash::ipc::{Ipc, IpcWhat, what_code};

verus! {

/// The operation code that probe-rs hands to the flash algorithm's
/// `init` and `uninit` entry points.
#[derive(PartialEq, Eq, Structural, Clone, Copy, Debug)]
pub enum Operation {
    Erase,
    Program,
    Verify,
}

/// The numeric code of an operation, as probe-rs passes it.
pub open spec fn operation_code(op: Operation) -> usize {
    match op {
        Operation::Erase => 1,
        Operation::Program => 2,
        Operation::Verify => 3,
    }
}

impl Operation {
    /// The numeric code of this operation.
    pub fn code(self) -> (r: usize)
        ensures
            r == operation_code(self),
    {
        match self {
            Operation::Erase => 1,
            Operation::Program => 2,
            Operation::Verify => 3,
        }
    }
}

/// The address just past the table of flash algorithm entry points.
pub const THUNK_TOP: usize = 0x2104_0000;

/// The number of entry points in the table: init, uninit, program, erase.
pub const THUNK_ENTRIES: usize = 4;

/// Where the table of entry points starts: it ends at `THUNK_TOP` and holds
/// `THUNK_ENTRIES` entries of `entry_size` bytes each.
pub open spec fn thunk_table_address(entry_size: nat) -> int {
    THUNK_TOP - entry_size * THUNK_ENTRIES
}

/// The table of `THUNK_ENTRIES` entries of `entry_size` bytes each ends
/// exactly at `THUNK_TOP`, whatever the entry size: one entry per word on a
/// 32-bit target (`THUNK_TOP - 16`) as on a 64-bit one (`THUNK_TOP - 32`).
pub proof fn law_thunk_table_ends_at_top(entry_size: nat)
    ensures
        thunk_table_address(entry_size) + THUNK_ENTRIES * entry_size == THUNK_TOP,
        entry_size == 4 ==> thunk_table_address(entry_size) == 0x2103_fff0,
        entry_size == 8 ==> thunk_table_address(entry_size) == 0x2103_ffe0,
{
}

/// The address at which the table of entry points is written. Each entry is
/// a function pointer, which is one machine word wide.
pub fn thunk_ptr() -> (r: usize)
    ensures
        r == thunk_table_address(vstd::layout::size_of::<usize>()),
        r + THUNK_ENTRIES * vstd::layout::size_of::<usize>() == THUNK_TOP,
        (r as int) % (vstd::layout::size_of::<usize>() as int) == 0,
{
    broadcast use vstd::layout::layout_of_primitives;

    let size = core::mem::size_of::<usize>();
    assert(size == 4 || size == 8);
    THUNK_TOP - size * THUNK_ENTRIES
}

/// The `init` entry point: posts an `Init` request with the target address,
/// the clock (or zero) and the operation code.
pub fn on_init(ipc: &mut Ipc, address: usize, clock_or_zero: usize, op: usize)
    ensures
        final(ipc).what == what_code(IpcWhat::Init),
        final(ipc).regs@ == seq![address, clock_or_zero, op],
{
    ipc.post(IpcWhat::Init, [address, clock_or_zero, op]);
}

/// The `uninit` entry point: posts a `Deinit` request with the operation code.
pub fn uninit(ipc: &mut Ipc, op: usize)
    ensures
        final(ipc).what == what_code(IpcWhat::Deinit),
        final(ipc).regs@ == seq![op, 0usize, 0usize],
{
    ipc.post(IpcWhat::Deinit, [op, 0, 0]);
}

/// The `program_page` entry point: posts a `Program` request with the
/// target address, the byte count and the address of the data buffer.
pub fn program_page(ipc: &mut Ipc, address: usize, byte_len: usize, buffer: usize)
    ensures
        final(ipc).what == what_code(IpcWhat::Program),
        final(ipc).regs@ == seq![address, byte_len, buffer],
{
    ipc.post(IpcWhat::Program, [address, byte_len, buffer]);
}

/// The `erase_sector` entry point: posts an `Erase` request with the sector
/// address.
pub fn erase_sector(ipc: &mut Ipc, address: usize)
    ensures
        final(ipc).what == what_code(IpcWhat::Erase),
        final(ipc).regs@ == seq![address, 0usize, 0usize],
{
    ipc.post(IpcWhat::Erase, [address, 0, 0]);
}

} // verus!
