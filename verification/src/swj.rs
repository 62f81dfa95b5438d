use vstd::prelude::*;

verus! {

/// The SWJ port of the probe: it drives the target's debug lines through
/// the serial wire debug driver `swd`.
pub struct Swj<D> {
    pub swd: D,
}

impl<D> Swj<D> {
    /// Builds the port around an SWD driver.
    pub fn new(swd: D) -> (r: Self)
        ensures
            r.swd == swd,
    {
        Swj { swd }
    }
}

/// The number of bits that an SWJ sequence of `bits` bits over `len` data
/// bytes clocks out: the data holds at most eight bits per byte.
pub open spec fn sequence_length(len: nat, bits: nat) -> nat {
    if bits <= 8 * len {
        bits
    } else {
        8 * len
    }
}

/// Bit `i` of the sequence: bytes in order, each one least significant bit
/// first.
pub open spec fn sequence_bit(data: Seq<u8>, i: int) -> bool {
    (data[i / 8] >> ((i % 8) as u8)) & 1u8 == 1u8
}

proof fn lemma_shift_step(b: u8, k: u8)
    requires
        k < 8,
    ensures
        (b >> k) >> 1u8 == b >> ((k + 1) as u8),
        ((b >> k) & 1u8 != 0u8) == ((b >> k) & 1u8 == 1u8),
{
    assert((b >> k) >> 1u8 == b >> ((k + 1) as u8)) by (bit_vector)
        requires
            k < 8,
    ;
    assert(((b >> k) & 1u8 != 0u8) == ((b >> k) & 1u8 == 1u8)) by (bit_vector);
}

/// The line levels that an SWJ sequence puts on SWDIO, one per clock: the
/// first `bits` bits of `data`, each byte least significant bit first. Bits
/// beyond the data are not sent.
pub fn swj_sequence_bits(data: &[u8], bits: usize) -> (r: Vec<bool>)
    ensures
        r@.len() == sequence_length(data@.len(), bits as nat),
        forall|i: int| 0 <= i < r@.len() ==> r@[i] == #[trigger] sequence_bit(data@, i),
{
    let mut out: Vec<bool> = Vec::new();
    let mut bits = bits;
    let ghost total = bits as nat;
    let mut j: usize = 0;
    while j < data.len()
        invariant
            j <= data@.len(),
            out@.len() == sequence_length(j as nat, total),
            bits == total - out@.len(),
            forall|i: int| 0 <= i < out@.len() ==> out@[i] == #[trigger] sequence_bit(data@, i),
        decreases data.len() - j,
    {
        let mut byte = data[j];
        assert(byte >> 0u8 == byte) by (bit_vector);
        let frame_bits: usize = if bits < 8 { bits } else { 8 };
        let ghost base = out@.len();
        assert(base == 8 * j || bits == 0);
        let mut k: usize = 0;
        while k < frame_bits
            invariant
                frame_bits <= 8,
                k <= frame_bits,
                j < data@.len(),
                out@.len() == base + k,
                frame_bits > 0 ==> base == 8 * j,
                byte == data@[j as int] >> (k as u8),
                forall|i: int| 0 <= i < out@.len() ==> out@[i] == #[trigger] sequence_bit(data@, i),
            decreases frame_bits - k,
        {
            proof {
                lemma_shift_step(data@[j as int], k as u8);
                let i = base + k;
                assert(i / 8 == j as int && i % 8 == k as int);
            }
            let bit = byte & 1;
            byte = byte >> 1;
            out.push(bit != 0);
            k = k + 1;
        }
        bits = bits - frame_bits;
        j = j + 1;
    }
    out
}

} // verus!
