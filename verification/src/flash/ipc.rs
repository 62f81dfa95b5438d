use vstd::prelude::*;

verus! {

/// The request kinds that the flash algorithm posts to the monitor.
#[derive(PartialEq, Eq, Structural, Clone, Copy, Debug)]
pub enum IpcWhat {
    Init,
    Deinit,
    Program,
    Erase,
}

/// The byte that encodes `what` in the mailbox; zero is reserved for "idle".
pub open spec fn what_code(what: IpcWhat) -> u8 {
    match what {
        IpcWhat::Init => 1,
        IpcWhat::Deinit => 2,
        IpcWhat::Program => 3,
        IpcWhat::Erase => 4,
    }
}

/// How a mailbox byte reads back: `0` is an idle mailbox, `1..=4` a request,
/// anything else an unknown value.
pub open spec fn decode_what(v: u8) -> Result<Option<IpcWhat>, u8> {
    if v == 0 {
        Ok(None)
    } else if v == 1 {
        Ok(Some(IpcWhat::Init))
    } else if v == 2 {
        Ok(Some(IpcWhat::Deinit))
    } else if v == 3 {
        Ok(Some(IpcWhat::Program))
    } else if v == 4 {
        Ok(Some(IpcWhat::Erase))
    } else {
        Err(v)
    }
}

impl IpcWhat {
    /// The mailbox byte of this request kind.
    pub fn code(self) -> (r: u8)
        ensures
            r == what_code(self),
            r != 0,
    {
        match self {
            IpcWhat::Init => 1,
            IpcWhat::Deinit => 2,
            IpcWhat::Program => 3,
            IpcWhat::Erase => 4,
        }
    }

    /// Decodes a mailbox byte.
    pub fn from_code(v: u8) -> (r: Result<Option<IpcWhat>, u8>)
        ensures
            r == decode_what(v),
    {
        match v {
            0 => Ok(None),
            1 => Ok(Some(IpcWhat::Init)),
            2 => Ok(Some(IpcWhat::Deinit)),
            3 => Ok(Some(IpcWhat::Program)),
            4 => Ok(Some(IpcWhat::Erase)),
            _ => Err(v),
        }
    }
}

/// Every request kind reads back as itself from its mailbox byte.
pub proof fn lemma_what_code_round_trip(what: IpcWhat)
    ensures
        decode_what(what_code(what)) == Ok::<Option<IpcWhat>, u8>(Some(what)),
        what_code(what) != 0,
{
}

/// The mailbox that the flash algorithm (running on the second core) and
/// the monitor share: a request kind byte and three argument words.
/// `what == 0` means that no request is pending.
pub struct Ipc {
    pub what: u8,
    pub regs: [usize; 3],
}

impl Ipc {
    /// An idle mailbox.
    pub fn idle() -> (r: Ipc)
        ensures
            r.what == 0,
            r.regs@ == seq![0usize, 0usize, 0usize],
    {
        Ipc { what: 0, regs: [0, 0, 0] }
    }

    /// Reads the request kind: `Ok(None)` when idle, `Err(v)` for a byte
    /// that names no request.
    pub fn read_what(&self) -> (r: Result<Option<IpcWhat>, u8>)
        ensures
            r == decode_what(self.what),
    {
        IpcWhat::from_code(self.what)
    }

    /// Whether a request is still pending, that is, not yet acknowledged.
    pub fn is_pending(&self) -> (r: bool)
        ensures
            r == (self.what > 0),
    {
        self.what > 0
    }

    /// Posts a request: the argument words first, then the kind byte.
    pub fn post(&mut self, what: IpcWhat, regs: [usize; 3])
        ensures
            final(self).what == what_code(what),
            final(self).regs == regs,
    {
        self.regs = regs;
        self.what = what.code();
    }

    /// Marks the pending request as handled; the argument words stay.
    pub fn acknowledge(&mut self)
        ensures
            final(self).what == 0,
            final(self).regs == old(self).regs,
    {
        self.what = 0;
    }
}

} // verus!
