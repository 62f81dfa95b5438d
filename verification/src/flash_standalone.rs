use vstd::prelude::*;

use crate::flash::ipc::{Ipc, IpcWhat, what_code};
use crate::flash::thunk::operation_code;

pub use crate::flash::thunk::Operation;

verus! {

/// The `init` entry point of the stand-alone flash algorithm: posts an
/// `Init` request with the target address, the clock (or zero) and the
/// operation code.
pub fn init(ipc: &mut Ipc, address: usize, clock_or_zero: usize, op: Operation)
    ensures
        final(ipc).what == what_code(IpcWhat::Init),
        final(ipc).regs@ == seq![address, clock_or_zero, operation_code(op)],
{
    ipc.post(IpcWhat::Init, [address, clock_or_zero, op.code()]);
}

/// The `uninit` entry point: posts a `Deinit` request with the operation code.
pub fn uninit(ipc: &mut Ipc, op: Operation)
    ensures
        final(ipc).what == what_code(IpcWhat::Deinit),
        final(ipc).regs@ == seq![operation_code(op), 0usize, 0usize],
{
    ipc.post(IpcWhat::Deinit, [op.code(), 0, 0]);
}

/// The `program_page` entry point: posts a `Program` request with the
/// target address, the byte count and the address of the data buffer.
pub fn program_page(ipc: &mut Ipc, address: usize, byte_len: usize, buffer: usize)
    ensures
        final(ipc).what == what_code(IpcWhat::Program),
        final(ipc).regs@ == seq![address, byte_len, buffer],
{
    ipc.post(IpcWhat::Program, [address, byte_len, buffer]);
}

/// The `erase_sector` entry point: posts an `Erase` request with the sector
/// address.
pub fn erase_sector(ipc: &mut Ipc, address: usize)
    ensures
        final(ipc).what == what_code(IpcWhat::Erase),
        final(ipc).regs@ == seq![address, 0usize, 0usize],
{
    ipc.post(IpcWhat::Erase, [address, 0, 0]);
}

/// `memory` holds `target` at `offset`.
pub open spec fn matches_at(memory: Seq<u8>, offset: int, target: Seq<u8>) -> bool {
    &&& 0 <= offset
    &&& offset + target.len() <= memory.len()
    &&& memory.subrange(offset, offset + target.len()) == target
}

/// The memory image `memory`, whose first byte lies at address `start`,
/// holds `target` at address `addr`.
pub open spec fn found_at(memory: Seq<u8>, start: int, addr: int, target: Seq<u8>) -> bool {
    matches_at(memory, addr - start, target)
}

/// Compares `target` with the bytes of `memory` at `offset`.
fn matches_at_offset(memory: &[u8], offset: usize, target: &[u8]) -> (r: bool)
    requires
        offset + target.len() <= memory.len(),
    ensures
        r == matches_at(memory@, offset as int, target@),
{
    let mut i: usize = 0;
    while i < target.len()
        invariant
            offset + target.len() <= memory.len(),
            i <= target.len(),
            forall|k: int| 0 <= k < i ==> memory@[offset + k] == target@[k],
        decreases target.len() - i,
    {
        if memory[offset + i] != target[i] {
            assert(memory@.subrange(offset as int, offset + target.len())[i as int] != target@[i as int]);
            return false;
        }
        i = i + 1;
    }
    assert(memory@.subrange(offset as int, offset + target.len()) =~= target@);
    true
}

/// Searches the addresses `start..end` for the first one at which `target`
/// starts. `memory[k]` is the byte at address `start + k`; it covers every
/// byte that a candidate address can reach.
pub fn find(start: usize, end: usize, target: &[u8], memory: &[u8]) -> (r: Option<usize>)
    requires
        start <= end,
        (end - start) + target.len() <= memory.len(),
    ensures
        match r {
            Some(p) => {
                &&& start <= p < end
                &&& found_at(memory@, start as int, p as int, target@)
                &&& forall|q: int| start <= q < p ==> !found_at(memory@, start as int, q, target@)
            },
            None => forall|q: int| start <= q < end ==> !found_at(memory@, start as int, q, target@),
        },
{
    let mut ptr = start;
    while ptr < end
        invariant
            start <= ptr <= end,
            (end - start) + target.len() <= memory.len(),
            forall|q: int| start <= q < ptr ==> !found_at(memory@, start as int, q, target@),
        decreases end - ptr,
    {
        if matches_at_offset(memory, ptr - start, target) {
            return Some(ptr);
        }
        ptr = ptr + 1;
    }
    None
}

/// The first address that the mailbox search looks at.
pub const SCAN_START: usize = 0x2000_0000;

/// The address at which the mailbox search stops.
pub const SCAN_END: usize = 0x2004_2000;

/// The signature that marks the mailbox in RAM: `SELFDBG_SIG_749` and a
/// terminating zero byte.
pub open spec fn ipc_signature_bytes() -> Seq<u8> {
    seq![
        0x53u8, 0x45u8, 0x4cu8, 0x46u8, 0x44u8, 0x42u8, 0x47u8, 0x5fu8,
        0x53u8, 0x49u8, 0x47u8, 0x5fu8, 0x37u8, 0x34u8, 0x39u8, 0x00u8,
    ]
}

/// The signature that marks the mailbox in RAM.
pub fn ipc_signature() -> (r: [u8; 16])
    ensures
        r@ == ipc_signature_bytes(),
{
    let r: [u8; 16] = [
        0x53, 0x45, 0x4c, 0x46, 0x44, 0x42, 0x47, 0x5f,
        0x53, 0x49, 0x47, 0x5f, 0x37, 0x34, 0x39, 0x00,
    ];
    assert(r@ =~= ipc_signature_bytes());
    r
}

/// Looks for the mailbox in RAM: the first address in `SCAN_START..SCAN_END`
/// that holds the signature. `memory[k]` is the byte at `SCAN_START + k`.
/// `None` when no address there holds it.
pub fn scan_mem_for_ipc(memory: &[u8]) -> (r: Option<usize>)
    requires
        (SCAN_END - SCAN_START) + 16 <= memory.len(),
    ensures
        match r {
            Some(p) => {
                &&& SCAN_START <= p < SCAN_END
                &&& found_at(memory@, SCAN_START as int, p as int, ipc_signature_bytes())
                &&& forall|q: int|
                    SCAN_START <= q < p ==> !found_at(memory@, SCAN_START as int, q, ipc_signature_bytes())
            },
            None => forall|q: int|
                SCAN_START <= q < SCAN_END ==> !found_at(memory@, SCAN_START as int, q, ipc_signature_bytes()),
        },
{
    let signature = ipc_signature();
    find(SCAN_START, SCAN_END, signature.as_slice(), memory)
}

} // verus!
