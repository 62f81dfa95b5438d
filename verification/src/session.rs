use vstd::prelude::*;

verus! {

/// Where the probe's TCP service stands.
#[derive(PartialEq, Eq, Structural, Clone, Copy, Debug)]
pub enum Session {
    /// Waiting for a debugger to connect.
    Listening,
    /// A debugger is connected; requests are read and answered.
    Connected,
}

/// What the outside world reports back after an action.
#[derive(PartialEq, Eq, Structural, Clone, Copy, Debug)]
pub enum ServeEvent {
    /// A connection was accepted.
    Accepted,
    /// Accepting a connection failed.
    AcceptFailed,
    /// A read gave this many request bytes (zero: the peer closed).
    Received(usize),
    /// Reading a request failed.
    ReadFailed,
    /// The response was written.
    Responded,
    /// Writing the response failed.
    WriteFailed,
    /// The connection was torn down.
    Closed,
}

/// What the service asks the outside world to do next.
#[derive(PartialEq, Eq, Structural, Clone, Copy, Debug)]
pub enum ServeAction {
    /// Accept a connection.
    Accept,
    /// Read one request.
    ReadRequest,
    /// Process the request of this many bytes, handle any pending flash
    /// request, and write the response.
    Process(usize),
    /// Suspend the debug port, abort the connection and flush it.
    Close,
}

/// The action the service waits on in a session, when an event says nothing
/// new.
pub open spec fn waiting_action(session: Session) -> ServeAction {
    match session {
        Session::Listening => ServeAction::Accept,
        Session::Connected => ServeAction::ReadRequest,
    }
}

/// The service's decisions: an accepted connection is read from; a read of
/// zero bytes (end of stream), a failed read or a failed write closes the
/// connection; a nonempty request is processed and then the next one read;
/// after a close, or a failed accept, the service accepts again. An event
/// that does not belong to the session changes nothing.
pub open spec fn next_step(session: Session, event: ServeEvent) -> (Session, ServeAction) {
    match (session, event) {
        (Session::Listening, ServeEvent::Accepted) => (Session::Connected, ServeAction::ReadRequest),
        (Session::Listening, ServeEvent::AcceptFailed) => (Session::Listening, ServeAction::Accept),
        (Session::Listening, ServeEvent::Closed) => (Session::Listening, ServeAction::Accept),
        (Session::Connected, ServeEvent::Received(n)) => if n == 0 {
            (Session::Listening, ServeAction::Close)
        } else {
            (Session::Connected, ServeAction::Process(n))
        },
        (Session::Connected, ServeEvent::ReadFailed) => (Session::Listening, ServeAction::Close),
        (Session::Connected, ServeEvent::Responded) => (Session::Connected, ServeAction::ReadRequest),
        (Session::Connected, ServeEvent::WriteFailed) => (Session::Listening, ServeAction::Close),
        _ => (session, waiting_action(session)),
    }
}

/// The state and action that the service starts with.
pub fn serve_start() -> (r: (Session, ServeAction))
    ensures
        r == (Session::Listening, ServeAction::Accept),
{
    (Session::Listening, ServeAction::Accept)
}

/// One step of the service: the next session and action for an event.
pub fn serve_step(session: Session, event: ServeEvent) -> (r: (Session, ServeAction))
    ensures
        r == next_step(session, event),
        forall|n: usize|
            n > 0 && session == Session::Connected && event == ServeEvent::Received(n)
                ==> r == (Session::Connected, ServeAction::Process(n)),
        session == Session::Connected ==> (r.1 == ServeAction::Close <==> (event
            == ServeEvent::Received(0) || event == ServeEvent::ReadFailed || event
            == ServeEvent::WriteFailed)),
{
    match (session, event) {
        (Session::Listening, ServeEvent::Accepted) => (Session::Connected, ServeAction::ReadRequest),
        (Session::Listening, ServeEvent::AcceptFailed) => (Session::Listening, ServeAction::Accept),
        (Session::Listening, ServeEvent::Closed) => (Session::Listening, ServeAction::Accept),
        (Session::Connected, ServeEvent::Received(n)) => {
            if n == 0 {
                (Session::Listening, ServeAction::Close)
            } else {
                (Session::Connected, ServeAction::Process(n))
            }
        },
        (Session::Connected, ServeEvent::ReadFailed) => (Session::Listening, ServeAction::Close),
        (Session::Connected, ServeEvent::Responded) => (Session::Connected, ServeAction::ReadRequest),
        (Session::Connected, ServeEvent::WriteFailed) => (Session::Listening, ServeAction::Close),
        (Session::Listening, _) => (Session::Listening, ServeAction::Accept),
        (Session::Connected, _) => (Session::Connected, ServeAction::ReadRequest),
    }
}

/// A request is processed only while connected, right after a read that
/// gave that many bytes, and never when the read gave none.
pub proof fn law_process_only_received_requests(session: Session, event: ServeEvent, n: usize)
    requires
        next_step(session, event).1 == ServeAction::Process(n),
    ensures
        session == Session::Connected,
        event == ServeEvent::Received(n),
        n > 0,
        next_step(session, event).0 == Session::Connected,
{
}

/// End of stream, a failed read and a failed write each close the
/// connection.
pub proof fn law_failures_close(event: ServeEvent)
    requires
        event == ServeEvent::Received(0) || event == ServeEvent::ReadFailed
            || event == ServeEvent::WriteFailed,
    ensures
        next_step(Session::Connected, event) == (Session::Listening, ServeAction::Close),
{
}

/// The service never stops: whatever happens while listening, it goes on
/// to accept or to read; a close is always followed by accepting again.
pub proof fn law_listening_never_closes(event: ServeEvent)
    ensures
        next_step(Session::Listening, event).1 == ServeAction::Accept
            || next_step(Session::Listening, event) == (Session::Connected, ServeAction::ReadRequest),
        next_step(Session::Listening, ServeEvent::Closed) == (Session::Listening, ServeAction::Accept),
{
}

/// Every nonempty read while connected, one byte or more, is processed and
/// keeps the connection: only a read of zero bytes means end of stream.
pub proof fn law_nonempty_read_is_processed(n: usize)
    requires
        n > 0,
    ensures
        next_step(Session::Connected, ServeEvent::Received(n)) == (
            Session::Connected,
            ServeAction::Process(n),
        ),
{
}

/// While connected, the connection is closed exactly on end of stream, a
/// failed read or a failed write.
pub proof fn law_close_only_on_eof_or_failure(event: ServeEvent)
    ensures
        next_step(Session::Connected, event).1 == ServeAction::Close <==> (event
            == ServeEvent::Received(0) || event == ServeEvent::ReadFailed || event
            == ServeEvent::WriteFailed),
{
}

} // verus!
