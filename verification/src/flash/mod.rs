use vstd::prelude::*;

pub mod ipc;
pub mod thunk;
pub mod monitor;

verus! {

/// Prepares flashing through the debug probe: gives the address at which the
/// table of flash algorithm entry points (init, uninit, program, erase) has
/// to be written. Writing the table there is left to the caller, which owns
/// the memory.
pub fn init() -> (r: usize)
    ensures
        r == thunk::thunk_table_address(vstd::layout::size_of::<usize>()),
        r + thunk::THUNK_ENTRIES * vstd::layout::size_of::<usize>() == thunk::THUNK_TOP,
{
    thunk::thunk_ptr()
}

} // verus!
