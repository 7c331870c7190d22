//! True random number generator

use vstd::prelude::*;
use crate::handle::Handle;
use crate::pmc::PmcOp;
use crate::pmc::PMC;

verus! {

/// The key that every write of the generator's control register carries.
pub const TRNG_PASSWORD: u32 = 0x524e47;

/// One operation on the generator's registers
#[derive(Clone, Copy, PartialEq, Eq, Debug)]
pub enum TrngOp {
    /// Write the control register: the enable bit as held, with the key held
    Cr { enable: bool, key: u32 },
    /// Read the interrupt status register until the data ready flag is set
    WaitDataReady,
}

/// Handle of the generator
pub type TRNG = Handle<TrngOp>;

/// The generator, clocked and enabled
pub struct Rng {
    rng: TRNG,
}

impl View for Rng {
    type V = Seq<TrngOp>;

    /// What has been issued to the generator and not yet handed to the driver.
    closed spec fn view(&self) -> Seq<TrngOp> {
        self.rng@
    }
}

/// Byte `k` of a word, the least significant byte being byte 0.
pub open spec fn byte_of(word: u32, k: int) -> u8 {
    if k == 0 {
        (word % 0x100) as u8
    } else if k == 1 {
        (word / 0x100 % 0x100) as u8
    } else if k == 2 {
        (word / 0x1_0000 % 0x100) as u8
    } else {
        (word / 0x100_0000) as u8
    }
}

/// The number of bytes that one word gives to a buffer of `len` bytes filled
/// up to `pos`: four, or what is left if that is less.
pub open spec fn taken(len: nat, pos: nat) -> nat {
    if len - pos < 4 {
        (len - pos) as nat
    } else {
        4
    }
}

/// `buffer` with the bytes of `word` written from `pos` on, least
/// significant first, as far as the buffer reaches.
pub open spec fn filled(buffer: Seq<u8>, pos: nat, word: u32) -> Seq<u8> {
    Seq::new(
        buffer.len(),
        |i: int|
            if pos <= i < pos + taken(buffer.len(), pos) {
                byte_of(word, i - pos)
            } else {
                buffer[i]
            },
    )
}

fn byte(word: u32, k: usize) -> (b: u8)
    requires
        k < 4,
    ensures
        b == byte_of(word, k as int),
{
    if k == 0 {
        (word % 0x100) as u8
    } else if k == 1 {
        (word / 0x100 % 0x100) as u8
    } else if k == 2 {
        (word / 0x1_0000 % 0x100) as u8
    } else {
        (word / 0x100_0000) as u8
    }
}

impl Rng {
    /// Takes the generator, switches its clock on and enables it. The clock
    /// is issued on `pmc`: the driver applies that before the generator's own
    /// program.
    pub fn new(rng: TRNG, pmc: &mut PMC) -> (generator: Rng)
        ensures
            final(pmc)@ == old(pmc)@.push(PmcOp::Pcer1(41)),
            generator@ == rng@.push(TrngOp::Cr { enable: true, key: TRNG_PASSWORD }),
    {
        // Enable clock 41 (TRNG)
        pmc.issue(PmcOp::Pcer1(41));
        let mut ret = Rng { rng };
        ret.enable();
        ret
    }

    pub fn enable(&mut self)
        ensures
            final(self)@ == old(self)@.push(TrngOp::Cr { enable: true, key: TRNG_PASSWORD }),
    {
        self.rng.issue(TrngOp::Cr { enable: true, key: TRNG_PASSWORD });
    }

    pub fn disable(&mut self)
        ensures
            final(self)@ == old(self)@.push(TrngOp::Cr { enable: false, key: TRNG_PASSWORD }),
    {
        self.rng.issue(TrngOp::Cr { enable: false, key: TRNG_PASSWORD });
    }

    /// Waits until a random word is ready.
    pub fn wait(&mut self)
        ensures
            final(self)@ == old(self)@.push(TrngOp::WaitDataReady),
    {
        self.rng.issue(TrngOp::WaitDataReady);
    }

    /// One step of filling `buffer` with random bytes: writes the bytes of
    /// `random_word`, which the driver has read from the generator, from
    /// `pos` on, and returns the position behind them. The buffer is full
    /// when that position is its length.
    pub fn read(buffer: &mut [u8], pos: usize, random_word: u32) -> (next: usize)
        requires
            pos < old(buffer).len(),
        ensures
            next == pos + taken(old(buffer)@.len(), pos as nat),
            final(buffer)@ == filled(old(buffer)@, pos as nat, random_word),
    {
        let left = buffer.len() - pos;
        let n = if left < 4 {
            left
        } else {
            4
        };
        let mut k: usize = 0;
        while k < n
            invariant
                k <= n <= 4,
                pos + n <= buffer.len(),
                buffer.len() == old(buffer).len(),
                n == taken(old(buffer)@.len(), pos as nat),
                forall|i: int|
                    0 <= i < buffer.len() ==> buffer[i] == if pos <= i < pos + k {
                        byte_of(random_word, i - pos)
                    } else {
                        old(buffer)[i]
                    },
            decreases n - k,
        {
            buffer[pos + k] = byte(random_word, k);
            k += 1;
        }
        assert(buffer@ =~= filled(old(buffer)@, pos as nat, random_word));
        pos + n
    }

    /// Hands the recorded program to the driver.
    pub fn take_program(&mut self) -> (program: Vec<TrngOp>)
        ensures
            program@ == old(self)@,
            final(self)@ == Seq::<TrngOp>::empty(),
    {
        self.rng.take()
    }
}

} // verus!
