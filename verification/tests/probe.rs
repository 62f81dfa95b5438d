use selfdbg::boot::{boot, BootState, Symbol};
use selfdbg::dap_leds::DapLeds;
use selfdbg::session::{serve_start, serve_step, ServeAction, ServeEvent, Session};
use selfdbg::swj::{swj_sequence_bits, Swj};

#[test]
fn boot_state_bytes() {
    assert_eq!(BootState::try_from(0), Ok(BootState::A));
    assert_eq!(BootState::try_from(1), Ok(BootState::A));
    assert_eq!(BootState::try_from(2), Err(()));
    assert_eq!(BootState::try_from(0xff), Err(()));
}

#[test]
fn symbol_addresses() {
    assert_eq!(Symbol(0x2004_2000).as_u32(), 0x2004_2000);
    assert_eq!(Symbol(0).as_u32(), 0);
}

#[test]
fn boot_when_journal_matches() {
    assert_eq!(boot(1, 1, Symbol(0x1000_0101), Symbol(0x2004_2000)), Some([0x1000_0101, 0x2004_2000]));
    assert_eq!(boot(0, 0, Symbol(4), Symbol(8)), Some([4, 8]));
}

#[test]
fn boot_refused_on_mismatch() {
    assert_eq!(boot(0, 1, Symbol(0x1000_0101), Symbol(0x2004_2000)), None);
    assert_eq!(boot(1, 0, Symbol(4), Symbol(8)), None);
}

#[test]
fn leds_and_port() {
    assert_eq!(DapLeds::new(), DapLeds());
    let swj = Swj::new(42u8);
    assert_eq!(swj.swd, 42);
}

#[test]
fn sequence_whole_byte_lsb_first() {
    assert_eq!(
        swj_sequence_bits(&[0b1010_0101], 8),
        vec![true, false, true, false, false, true, false, true]
    );
}

#[test]
fn sequence_partial_bytes() {
    assert_eq!(swj_sequence_bits(&[0b1010_0101], 3), vec![true, false, true]);
    assert_eq!(
        swj_sequence_bits(&[0xff, 0x02], 10),
        vec![true, true, true, true, true, true, true, true, false, true]
    );
    assert_eq!(swj_sequence_bits(&[0xff, 0x02], 0), Vec::<bool>::new());
}

#[test]
fn sequence_stops_at_end_of_data() {
    assert_eq!(swj_sequence_bits(&[0x01], 20).len(), 8);
    assert_eq!(swj_sequence_bits(&[], 5), Vec::<bool>::new());
    let attach = [0x99u8, 0xff, 0x24, 0x05, 0x20, 0x22, 0x00];
    let bits = swj_sequence_bits(&attach, 7 * 8);
    assert_eq!(bits.len(), 56);
    assert_eq!(&bits[..8], &[true, false, false, true, true, false, false, true]);
}

#[test]
fn session_serves_requests() {
    let (s, a) = serve_start();
    assert_eq!((s, a), (Session::Listening, ServeAction::Accept));
    let (s, a) = serve_step(s, ServeEvent::AcceptFailed);
    assert_eq!((s, a), (Session::Listening, ServeAction::Accept));
    let (s, a) = serve_step(s, ServeEvent::Accepted);
    assert_eq!((s, a), (Session::Connected, ServeAction::ReadRequest));
    let (s, a) = serve_step(s, ServeEvent::Received(64));
    assert_eq!((s, a), (Session::Connected, ServeAction::Process(64)));
    let (s, a) = serve_step(s, ServeEvent::Responded);
    assert_eq!((s, a), (Session::Connected, ServeAction::ReadRequest));
    let (s, a) = serve_step(s, ServeEvent::Received(0));
    assert_eq!((s, a), (Session::Listening, ServeAction::Close));
    let (s, a) = serve_step(s, ServeEvent::Closed);
    assert_eq!((s, a), (Session::Listening, ServeAction::Accept));
}

#[test]
fn session_failures_close() {
    assert_eq!(serve_step(Session::Connected, ServeEvent::ReadFailed), (Session::Listening, ServeAction::Close));
    assert_eq!(serve_step(Session::Connected, ServeEvent::WriteFailed), (Session::Listening, ServeAction::Close));
}

#[test]
fn session_ignores_out_of_place_events() {
    assert_eq!(serve_step(Session::Listening, ServeEvent::Received(3)), (Session::Listening, ServeAction::Accept));
    assert_eq!(serve_step(Session::Connected, ServeEvent::Accepted), (Session::Connected, ServeAction::ReadRequest));
}
