use vstd::prelude::*;

verus! {

/// Which image slot a boot state byte names.
#[derive(PartialEq, Eq, Structural, Clone, Copy, Debug)]
pub enum BootState {
    A,
    B,
}

/// How a boot state byte reads: `0` and `1` both name slot `A`; any other
/// byte names no state.
pub open spec fn boot_state_of(value: u8) -> Result<BootState, ()> {
    if value == 0 || value == 1 {
        Ok(BootState::A)
    } else {
        Err(())
    }
}

impl BootState {
    /// Reads a boot state byte.
    pub fn try_from(value: u8) -> (r: Result<BootState, ()>)
        ensures
            r == boot_state_of(value),
    {
        match value {
            0 => Ok(BootState::A),
            1 => Ok(BootState::A),
            _ => Err(()),
        }
    }
}

/// The address of a linker symbol.
#[derive(PartialEq, Eq, Structural, Clone, Copy, Debug)]
pub struct Symbol(pub usize);

impl Symbol {
    /// The symbol's address as a 32-bit word (the width of an address on the
    /// target; wider addresses keep their low 32 bits).
    pub fn as_u32(self) -> (r: u32)
        ensures
            r == self.0 as u32,
            self.0 <= u32::MAX ==> r == self.0,
    {
        self.0 as u32
    }
}

/// Decides whether to boot the user image. The journal byte must equal the
/// state byte: otherwise flashing never completed (or was interrupted) and
/// the image is refused (`None`). On success, gives the two words that are
/// handed to the bootstrap routine: the user code symbol's address, then the
/// stack symbol's address.
pub fn boot(journal: u8, state: u8, user_code: Symbol, stack: Symbol) -> (r: Option<[u32; 2]>)
    ensures
        r is Some <==> journal == state,
        r matches Some(words) ==> words@ == seq![user_code.0 as u32, stack.0 as u32],
{
    if journal != state {
        return None;
    }
    let words: [u32; 2] = [user_code.as_u32(), stack.as_u32()];
    assert(words@ =~= seq![user_code.0 as u32, stack.0 as u32]);
    Some(words)
}

} // verus!
