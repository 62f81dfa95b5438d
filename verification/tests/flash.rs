use selfdbg::flash;
use selfdbg::flash::ipc::{Ipc, IpcWhat};
use selfdbg::flash::monitor::{
    flash_map_address, handle_pending_flash, request_is_mappable_check, FlashAction, FlashLayout,
    FlashMessage,
};
use selfdbg::flash::thunk::{self, Operation};
use selfdbg::flash_standalone;

fn layout() -> FlashLayout {
    FlashLayout { active_start: 0x0000_7000, dfu_start: 0x0008_7000 }
}

#[test]
fn what_codes_round_trip() {
    for what in [IpcWhat::Init, IpcWhat::Deinit, IpcWhat::Program, IpcWhat::Erase] {
        assert_eq!(IpcWhat::from_code(what.code()), Ok(Some(what)));
    }
    assert_eq!(IpcWhat::Init.code(), 1);
    assert_eq!(IpcWhat::Deinit.code(), 2);
    assert_eq!(IpcWhat::Program.code(), 3);
    assert_eq!(IpcWhat::Erase.code(), 4);
}

#[test]
fn idle_and_unknown_bytes_decode() {
    assert_eq!(IpcWhat::from_code(0), Ok(None));
    assert_eq!(IpcWhat::from_code(5), Err(5));
    assert_eq!(IpcWhat::from_code(0xff), Err(0xff));
}

#[test]
fn mailbox_post_and_acknowledge() {
    let mut ipc = Ipc::idle();
    assert!(!ipc.is_pending());
    assert_eq!(ipc.read_what(), Ok(None));
    ipc.post(IpcWhat::Program, [1, 2, 3]);
    assert!(ipc.is_pending());
    assert_eq!(ipc.read_what(), Ok(Some(IpcWhat::Program)));
    assert_eq!(ipc.regs, [1, 2, 3]);
    ipc.acknowledge();
    assert!(!ipc.is_pending());
    assert_eq!(ipc.regs, [1, 2, 3]);
}

#[test]
fn operation_codes() {
    assert_eq!(Operation::Erase.code(), 1);
    assert_eq!(Operation::Program.code(), 2);
    assert_eq!(Operation::Verify.code(), 3);
}

#[test]
fn thunk_table_sits_below_its_top() {
    let word = core::mem::size_of::<usize>();
    assert_eq!(thunk::thunk_ptr(), 0x2104_0000 - 4 * word);
    assert_eq!(flash::init(), thunk::thunk_ptr());
    if word == 8 {
        assert_eq!(flash::init(), 0x2103_ffe0);
    }
}

#[test]
fn thunk_entry_points_post_requests() {
    let mut ipc = Ipc::idle();
    thunk::on_init(&mut ipc, 0x1000_0000, 125_000_000, 2);
    assert_eq!(ipc.what, 1);
    assert_eq!(ipc.regs, [0x1000_0000, 125_000_000, 2]);
    thunk::uninit(&mut ipc, 1);
    assert_eq!(ipc.what, 2);
    assert_eq!(ipc.regs, [1, 0, 0]);
    thunk::program_page(&mut ipc, 0x1000_0100, 256, 0x2000_1000);
    assert_eq!(ipc.what, 3);
    assert_eq!(ipc.regs, [0x1000_0100, 256, 0x2000_1000]);
    thunk::erase_sector(&mut ipc, 0x1000_2000);
    assert_eq!(ipc.what, 4);
    assert_eq!(ipc.regs, [0x1000_2000, 0, 0]);
}

#[test]
fn standalone_entry_points_post_requests() {
    let mut ipc = Ipc::idle();
    flash_standalone::init(&mut ipc, 0x1000_0000, 0, flash_standalone::Operation::Erase);
    assert_eq!(ipc.what, 1);
    assert_eq!(ipc.regs, [0x1000_0000, 0, 1]);
    flash_standalone::uninit(&mut ipc, flash_standalone::Operation::Verify);
    assert_eq!(ipc.what, 2);
    assert_eq!(ipc.regs, [3, 0, 0]);
    flash_standalone::program_page(&mut ipc, 0x1000_0200, 512, 0x2000_4000);
    assert_eq!(ipc.what, 3);
    assert_eq!(ipc.regs, [0x1000_0200, 512, 0x2000_4000]);
    flash_standalone::erase_sector(&mut ipc, 0x1000_3000);
    assert_eq!(ipc.what, 4);
    assert_eq!(ipc.regs, [0x1000_3000, 0, 0]);
}

#[test]
fn map_address_into_update_partition() {
    assert_eq!(flash_map_address(0x1000_1000, layout()), 0x0008_1000);
    assert_eq!(flash_map_address(0x1000_0000, layout()), 0x0008_0000);
    let same = FlashLayout { active_start: 0x100, dfu_start: 0x100 };
    assert_eq!(flash_map_address(0x1000_4321, same), 0x4321);
}

#[test]
fn mapping_preserves_distances() {
    let a = flash_map_address(0x1000_1000, layout());
    let b = flash_map_address(0x1000_5100, layout());
    assert_eq!(b - a, 0x4100);
}

#[test]
fn idle_mailbox_gives_nothing() {
    let mut ipc = Ipc::idle();
    ipc.regs = [7, 8, 9];
    assert_eq!(handle_pending_flash(&mut ipc, layout()), None);
    assert_eq!(ipc.what, 0);
    assert_eq!(ipc.regs, [7, 8, 9]);
}

#[test]
fn init_request_is_acknowledged() {
    let mut ipc = Ipc::idle();
    thunk::on_init(&mut ipc, 0x1000_0000, 0, 2);
    assert_eq!(
        handle_pending_flash(&mut ipc, layout()),
        Some((FlashMessage::Operation, FlashAction::Nothing))
    );
    assert!(!ipc.is_pending());
}

#[test]
fn deinit_after_programming_completes() {
    let mut ipc = Ipc::idle();
    flash_standalone::uninit(&mut ipc, flash_standalone::Operation::Program);
    assert_eq!(
        handle_pending_flash(&mut ipc, layout()),
        Some((FlashMessage::Complete, FlashAction::Nothing))
    );
    assert!(!ipc.is_pending());
}

#[test]
fn deinit_after_erasing_goes_on() {
    let mut ipc = Ipc::idle();
    thunk::uninit(&mut ipc, 1);
    assert_eq!(
        handle_pending_flash(&mut ipc, layout()),
        Some((FlashMessage::Operation, FlashAction::Nothing))
    );
    thunk::uninit(&mut ipc, 3);
    assert_eq!(
        handle_pending_flash(&mut ipc, layout()),
        Some((FlashMessage::Operation, FlashAction::Nothing))
    );
}

#[test]
fn program_request_maps_address() {
    let mut ipc = Ipc::idle();
    thunk::program_page(&mut ipc, 0x1000_0100, 256, 0x2000_1000);
    assert!(request_is_mappable_check(&ipc, layout()));
    assert_eq!(
        handle_pending_flash(&mut ipc, layout()),
        Some((
            FlashMessage::Operation,
            FlashAction::Program { addr: 0x0008_0100, data: 0x2000_1000, count: 256 }
        ))
    );
    assert_eq!(ipc.what, 0);
    assert_eq!(ipc.regs, [0x1000_0100, 256, 0x2000_1000]);
}

#[test]
fn erase_request_maps_address() {
    let mut ipc = Ipc::idle();
    thunk::erase_sector(&mut ipc, 0x1000_2000);
    assert_eq!(
        handle_pending_flash(&mut ipc, layout()),
        Some((
            FlashMessage::Operation,
            FlashAction::Erase { addr: 0x0008_2000, count: 0x1000, block_size: 0x1_0000, block_cmd: 0xd8 }
        ))
    );
    assert!(!ipc.is_pending());
}

#[test]
fn unknown_request_is_acknowledged() {
    let mut ipc = Ipc::idle();
    ipc.what = 9;
    assert!(request_is_mappable_check(&ipc, layout()));
    assert_eq!(
        handle_pending_flash(&mut ipc, layout()),
        Some((FlashMessage::Operation, FlashAction::Nothing))
    );
    assert_eq!(ipc.what, 0);
}

#[test]
fn unmappable_requests_are_detected() {
    let mut ipc = Ipc::idle();
    thunk::program_page(&mut ipc, 0x0fff_ffff, 4, 0);
    assert!(!request_is_mappable_check(&ipc, layout()));
    thunk::erase_sector(&mut ipc, 0xffff_f000);
    assert!(request_is_mappable_check(&ipc, layout()));
    let far = FlashLayout { active_start: 0, dfu_start: 0x2000_0000 };
    assert!(!request_is_mappable_check(&ipc, far));
    let backwards = FlashLayout { active_start: 0x8_0000, dfu_start: 0x1000 };
    thunk::erase_sector(&mut ipc, 0x1000_0000);
    assert!(!request_is_mappable_check(&ipc, backwards));
    thunk::on_init(&mut ipc, 0, 0, 0);
    assert!(request_is_mappable_check(&ipc, backwards));
}
