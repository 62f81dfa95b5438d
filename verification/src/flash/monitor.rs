use vstd::prelude::*;

use crate::flash::ipc::{Ipc, IpcWhat, decode_what, what_code, lemma_what_code_round_trip};
use crate::flash::thunk::{Operation, operation_code};

verus! {

/// What the monitor reports after it has handled a request.
#[derive(PartialEq, Eq, Structural, Clone, Copy, Debug)]
pub enum FlashMessage {
    /// A request was handled and the flashing session goes on.
    Operation,
    /// The flash algorithm was deinitialised after programming: the new
    /// image is complete.
    Complete,
}

/// The flash work that a request asks for, with the addresses already
/// mapped into the update (DFU) partition.
#[derive(PartialEq, Eq, Structural, Clone, Copy, Debug)]
pub enum FlashAction {
    /// Nothing to write or erase.
    Nothing,
    /// Program `count` bytes read from the buffer at address `data` to the
    /// flash offset `addr`.
    Program { addr: u32, data: usize, count: usize },
    /// Erase `count` bytes at the flash offset `addr`, using blocks of
    /// `block_size` bytes erased with command `block_cmd`.
    Erase { addr: u32, count: usize, block_size: u32, block_cmd: u8 },
}

/// Where the boot partitions lie, as the linker placed them (memory
/// addresses of the active and of the update partition).
#[derive(PartialEq, Eq, Structural, Clone, Copy, Debug)]
pub struct FlashLayout {
    pub active_start: u32,
    pub dfu_start: u32,
}

/// The memory address at which flash is mapped.
pub const FLASH_BASE: u32 = 0x1000_0000;

/// The number of bytes that one erase request clears.
pub const ERASE_COUNT: usize = 0x1000;

/// The block size handed to the ROM erase routine.
pub const ERASE_BLOCK_SIZE: u32 = 0x1_0000;

/// The flash command handed to the ROM erase routine.
pub const ERASE_BLOCK_CMD: u8 = 0xd8;

/// A memory address in the active partition, as an offset into flash in the
/// update partition: minus the flash base, plus the distance from the active
/// to the update partition.
pub open spec fn mapped_address(addr: u32, layout: FlashLayout) -> int {
    addr - FLASH_BASE + (layout.dfu_start - layout.active_start)
}

/// The mapping goes through without an overflow at any step: the update
/// partition lies after the active one, the address lies in mapped flash,
/// and the result fits in 32 bits.
pub open spec fn maps_without_overflow(addr: u32, layout: FlashLayout) -> bool {
    &&& layout.dfu_start >= layout.active_start
    &&& addr >= FLASH_BASE
    &&& mapped_address(addr, layout) <= u32::MAX
}

/// Maps an address that the flash algorithm received (relative to memory,
/// in the active partition) to an offset into flash in the update partition.
pub fn flash_map_address(addr: u32, layout: FlashLayout) -> (r: u32)
    requires
        maps_without_overflow(addr, layout),
    ensures
        r == mapped_address(addr, layout),
{
    let dfu_offset = layout.dfu_start - layout.active_start;
    addr - FLASH_BASE + dfu_offset
}

/// The address of a pending request, as the monitor reads it.
pub open spec fn request_address(ipc: Ipc) -> u32 {
    ipc.regs[0] as u32
}

/// A pending program or erase request names an address that can be mapped;
/// other mailbox states need nothing.
pub open spec fn request_is_mappable(ipc: Ipc, layout: FlashLayout) -> bool {
    match decode_what(ipc.what) {
        Ok(Some(IpcWhat::Program)) => maps_without_overflow(request_address(ipc), layout),
        Ok(Some(IpcWhat::Erase)) => maps_without_overflow(request_address(ipc), layout),
        _ => true,
    }
}

/// What handling the mailbox gives: nothing while it is idle; otherwise the
/// report and the flash work for the pending request. An unknown request
/// byte is reported as an ordinary operation and asks for no work.
pub open spec fn pending_flash(ipc: Ipc, layout: FlashLayout) -> Option<(FlashMessage, FlashAction)> {
    match decode_what(ipc.what) {
        Ok(None) => None,
        Ok(Some(IpcWhat::Init)) => Some((FlashMessage::Operation, FlashAction::Nothing)),
        Ok(Some(IpcWhat::Deinit)) => Some(
            (
                if ipc.regs[0] == operation_code(Operation::Program) {
                    FlashMessage::Complete
                } else {
                    FlashMessage::Operation
                },
                FlashAction::Nothing,
            ),
        ),
        Ok(Some(IpcWhat::Program)) => Some(
            (
                FlashMessage::Operation,
                FlashAction::Program {
                    addr: mapped_address(request_address(ipc), layout) as u32,
                    data: ipc.regs[2],
                    count: ipc.regs[1],
                },
            ),
        ),
        Ok(Some(IpcWhat::Erase)) => Some(
            (
                FlashMessage::Operation,
                FlashAction::Erase {
                    addr: mapped_address(request_address(ipc), layout) as u32,
                    count: ERASE_COUNT,
                    block_size: ERASE_BLOCK_SIZE,
                    block_cmd: ERASE_BLOCK_CMD,
                },
            ),
        ),
        Err(_) => Some((FlashMessage::Operation, FlashAction::Nothing)),
    }
}

/// Tests `request_is_mappable`, so that a caller can refuse a request whose
/// address cannot be mapped before handling it.
pub fn request_is_mappable_check(ipc: &Ipc, layout: FlashLayout) -> (r: bool)
    ensures
        r == request_is_mappable(*ipc, layout),
{
    match ipc.read_what() {
        Ok(Some(IpcWhat::Program)) | Ok(Some(IpcWhat::Erase)) => {
            let addr = ipc.regs[0] as u32;
            layout.dfu_start >= layout.active_start && addr >= FLASH_BASE
                && (addr - FLASH_BASE) as u64 + (layout.dfu_start - layout.active_start) as u64
                <= 0xffff_ffffu64
        },
        _ => true,
    }
}

/// Handles the pending request, if any: decides the report and the flash
/// work, and acknowledges the request so that the flash algorithm, which
/// waits for the mailbox to become idle, can return. An idle mailbox is
/// left as it is.
pub fn handle_pending_flash(ipc: &mut Ipc, layout: FlashLayout) -> (r: Option<(FlashMessage, FlashAction)>)
    requires
        request_is_mappable(*old(ipc), layout),
    ensures
        r == pending_flash(*old(ipc), layout),
        r is None ==> *final(ipc) == *old(ipc),
        r is Some ==> final(ipc).what == 0 && final(ipc).regs == old(ipc).regs,
{
    let step = match ipc.read_what() {
        Ok(None) => return None,
        Ok(Some(IpcWhat::Init)) => (FlashMessage::Operation, FlashAction::Nothing),
        Ok(Some(IpcWhat::Deinit)) => {
            if ipc.regs[0] == Operation::Program.code() {
                (FlashMessage::Complete, FlashAction::Nothing)
            } else {
                (FlashMessage::Operation, FlashAction::Nothing)
            }
        },
        Ok(Some(IpcWhat::Program)) => {
            let addr = flash_map_address(ipc.regs[0] as u32, layout);
            (FlashMessage::Operation, FlashAction::Program { addr, data: ipc.regs[2], count: ipc.regs[1] })
        },
        Ok(Some(IpcWhat::Erase)) => {
            let addr = flash_map_address(ipc.regs[0] as u32, layout);
            (
                FlashMessage::Operation,
                FlashAction::Erase {
                    addr,
                    count: ERASE_COUNT,
                    block_size: ERASE_BLOCK_SIZE,
                    block_cmd: ERASE_BLOCK_CMD,
                },
            )
        },
        Err(_) => (FlashMessage::Operation, FlashAction::Nothing),
    };
    ipc.acknowledge();
    Some(step)
}

/// Mapping is a translation: two mapped addresses lie as far apart in the
/// update partition as the original addresses lay in the active one.
pub proof fn law_mapping_preserves_distances(a: u32, b: u32, layout: FlashLayout)
    requires
        maps_without_overflow(a, layout),
        maps_without_overflow(b, layout),
    ensures
        mapped_address(b, layout) - mapped_address(a, layout) == b - a,
        a < b <==> mapped_address(a, layout) < mapped_address(b, layout),
{
}

/// An idle mailbox gives nothing to handle.
pub proof fn law_idle_mailbox_gives_nothing(ipc: Ipc, layout: FlashLayout)
    requires
        ipc.what == 0,
    ensures
        pending_flash(ipc, layout) is None,
{
}

/// Every byte other than zero is answered: handling gives a report, and (by
/// the contract of `handle_pending_flash`) leaves the mailbox idle, which
/// releases the waiting flash algorithm.
pub proof fn law_pending_request_is_answered(ipc: Ipc, layout: FlashLayout)
    requires
        ipc.what != 0,
    ensures
        pending_flash(ipc, layout) is Some,
{
}

/// An `Init` request, whatever its arguments, is reported as an ordinary
/// operation and asks for no flash work.
pub proof fn law_init_request(ipc: Ipc, layout: FlashLayout)
    requires
        ipc.what == what_code(IpcWhat::Init),
    ensures
        pending_flash(ipc, layout) == Some((FlashMessage::Operation, FlashAction::Nothing)),
{
    lemma_what_code_round_trip(IpcWhat::Init);
}

/// A `Deinit` request completes the new image exactly when it ends a
/// programming session; it asks for no flash work.
pub proof fn law_deinit_request(ipc: Ipc, op: usize, layout: FlashLayout)
    requires
        ipc.what == what_code(IpcWhat::Deinit),
        ipc.regs@ == seq![op, 0usize, 0usize],
    ensures
        pending_flash(ipc, layout) == Some(
            (
                if op == operation_code(Operation::Program) {
                    FlashMessage::Complete
                } else {
                    FlashMessage::Operation
                },
                FlashAction::Nothing,
            ),
        ),
{
    lemma_what_code_round_trip(IpcWhat::Deinit);
    assert(ipc.regs[0] == ipc.regs@[0]);
}

/// A posted `Program` request becomes a program action at the mapped
/// address, with the byte count and data buffer that were posted.
pub proof fn law_program_request(
    ipc: Ipc,
    address: usize,
    byte_len: usize,
    buffer: usize,
    layout: FlashLayout,
)
    requires
        ipc.what == what_code(IpcWhat::Program),
        ipc.regs@ == seq![address, byte_len, buffer],
        maps_without_overflow(address as u32, layout),
    ensures
        request_is_mappable(ipc, layout),
        pending_flash(ipc, layout) == Some(
            (
                FlashMessage::Operation,
                FlashAction::Program {
                    addr: mapped_address(address as u32, layout) as u32,
                    data: buffer,
                    count: byte_len,
                },
            ),
        ),
{
    lemma_what_code_round_trip(IpcWhat::Program);
    assert(ipc.regs[0] == ipc.regs@[0]);
    assert(ipc.regs[1] == ipc.regs@[1]);
    assert(ipc.regs[2] == ipc.regs@[2]);
}

/// A posted `Erase` request becomes an erase of one 4 KiB sector at the
/// mapped address, in 64 KiB blocks with command `0xd8`.
pub proof fn law_erase_request(ipc: Ipc, address: usize, layout: FlashLayout)
    requires
        ipc.what == what_code(IpcWhat::Erase),
        ipc.regs@ == seq![address, 0usize, 0usize],
        maps_without_overflow(address as u32, layout),
    ensures
        request_is_mappable(ipc, layout),
        pending_flash(ipc, layout) == Some(
            (
                FlashMessage::Operation,
                FlashAction::Erase {
                    addr: mapped_address(address as u32, layout) as u32,
                    count: 0x1000,
                    block_size: 0x1_0000,
                    block_cmd: 0xd8,
                },
            ),
        ),
{
    lemma_what_code_round_trip(IpcWhat::Erase);
    assert(ipc.regs[0] == ipc.regs@[0]);
}

} // verus!
