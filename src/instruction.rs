//! Instruction decoding: a little-endian `u64` discriminator selects the
//! instruction.

use vstd::prelude::*;

verus! {

/// Number of instructions.
pub const IX_COUNT: u64 = 11;

/// The program's instructions, in discriminator order.
#[derive(Clone, Copy, PartialEq, Eq, Structural, Debug)]
pub enum TokamakInstruction {
    /// Allocate Gluon from the wallet to a new charge.
    Charge,
    /// Collect a share of an overloaded element's pot.
    Claim,
    /// Move an element's pot inward while rebinding the charge.
    Compress,
    /// Convert Gluon from the wallet back to tokens.
    Drain,
    /// Return a charge's Gluon to the wallet.
    Discharge,
    /// Move a bound charge to an adjacent element.
    Rebind,
    /// Unbind a charge from an edge element.
    Fiss,
    /// Bind a charge to an edge element.
    Fuse,
    /// Force an element to overload and reset.
    Overload,
    /// Convert tokens to Gluon in the wallet.
    TopUp,
    /// Donate part of a charge's value to its element's pot.
    Vent,
}

/// Why instruction data could not be decoded.
#[derive(Clone, Copy, PartialEq, Eq, Structural, Debug)]
pub enum InstructionError {
    InvalidInstructionData,
}

/// The instruction with discriminator `d`, if any.
pub open spec fn instruction_of(d: u64) -> Option<TokamakInstruction> {
    if d == 0 {
        Some(TokamakInstruction::Charge)
    } else if d == 1 {
        Some(TokamakInstruction::Claim)
    } else if d == 2 {
        Some(TokamakInstruction::Compress)
    } else if d == 3 {
        Some(TokamakInstruction::Drain)
    } else if d == 4 {
        Some(TokamakInstruction::Discharge)
    } else if d == 5 {
        Some(TokamakInstruction::Rebind)
    } else if d == 6 {
        Some(TokamakInstruction::Fiss)
    } else if d == 7 {
        Some(TokamakInstruction::Fuse)
    } else if d == 8 {
        Some(TokamakInstruction::Overload)
    } else if d == 9 {
        Some(TokamakInstruction::TopUp)
    } else if d == 10 {
        Some(TokamakInstruction::Vent)
    } else {
        None
    }
}

/// The little-endian value of the 8 bytes of `b` from `at`.
pub open spec fn le_u64(b: Seq<u8>, at: int) -> int {
    b[at] + 0x100 * (b[at + 1] + 0x100 * (b[at + 2] + 0x100 * (b[at + 3] + 0x100 * (b[at + 4]
        + 0x100 * (b[at + 5] + 0x100 * (b[at + 6] + 0x100 * b[at + 7]))))))
}

/// Instruction data read front to back.
pub struct IxData {
    inner: Vec<u8>,
    cursor: usize,
}

impl IxData {
    pub closed spec fn bytes(&self) -> Seq<u8> {
        self.inner@
    }

    pub closed spec fn position(&self) -> int {
        self.cursor as int
    }

    pub open spec fn wf(&self) -> bool {
        self.position() <= self.bytes().len()
    }

    /// Data to read from its first byte.
    pub fn new(inner: Vec<u8>) -> (r: IxData)
        ensures
            r.wf(),
            r.bytes() == inner@,
            r.position() == 0,
    {
        IxData { inner, cursor: 0 }
    }

    /// Reads the next little-endian `u64`, or fails where fewer than 8 bytes
    /// are left (and then reads nothing).
    pub fn read_u64(&mut self) -> (r: Result<u64, InstructionError>)
        requires
            old(self).wf(),
        ensures
            final(self).wf(),
            final(self).bytes() == old(self).bytes(),
            old(self).position() + 8 <= old(self).bytes().len() ==> r == Ok::<u64, InstructionError>(
                le_u64(old(self).bytes(), old(self).position()) as u64,
            ) && final(self).position() == old(self).position() + 8
                && le_u64(old(self).bytes(), old(self).position()) <= u64::MAX,
            old(self).position() + 8 > old(self).bytes().len() ==> r == Err::<u64, InstructionError>(
                InstructionError::InvalidInstructionData,
            ) && final(self).position() == old(self).position(),
    {
        if self.inner.len() - self.cursor < 8 {
            return Err(InstructionError::InvalidInstructionData);
        }
        let at = self.cursor;
        let mut v: u64 = 0;
        let mut k: usize = 8;
        while k > 0
            invariant
                at + 8 <= self.inner@.len(),
                self.inner@.len() == self.inner.len(),
                k <= 8,
                v < pow256((8 - k) as nat),
                v == le_from(self.inner@, at as int, k as int),
            decreases k,
        {
            k = k - 1;
            proof {
                lemma_pow256_step((8 - k - 1) as nat);
                lemma_pow256_step((8 - k) as nat);
            }
            assert(v * 256 + 255 < pow256((8 - k) as nat)) by (nonlinear_arith)
                requires
                    v < pow256((8 - k - 1) as nat),
                    pow256((8 - k) as nat) == 256 * pow256((8 - k - 1) as nat),
            ;
            v = v * 256 + self.inner[at + k] as u64;
        }
        proof {
            lemma_le_from(self.inner@, at as int);
        }
        self.cursor = at + 8;
        Ok(v)
    }
}

/// `256^n`.
pub open spec fn pow256(n: nat) -> int
    decreases n,
{
    if n == 0 {
        1
    } else {
        256 * pow256((n - 1) as nat)
    }
}

proof fn lemma_pow256_step(n: nat)
    ensures
        pow256(n + 1) == 256 * pow256(n),
        n <= 8 ==> pow256(n) <= 0x1_0000_0000_0000_0000,
    decreases n,
{
    reveal_with_fuel(pow256, 9);
    if n > 0 && n <= 8 {
        lemma_pow256_step((n - 1) as nat);
    }
}

/// Bytes `at + k .. at + 8` of `b` read as a little-endian number.
pub open spec fn le_from(b: Seq<u8>, at: int, k: int) -> int
    decreases 8 - k,
{
    if k >= 8 {
        0
    } else {
        b[at + k] + 0x100 * le_from(b, at, k + 1)
    }
}

proof fn lemma_le_from(b: Seq<u8>, at: int)
    ensures
        le_from(b, at, 0) == le_u64(b, at),
{
    reveal_with_fuel(le_from, 9);
}

impl TokamakInstruction {
    /// Reads the discriminator and decodes it; an unknown one is invalid.
    pub fn parse(data: &mut IxData) -> (r: Result<TokamakInstruction, InstructionError>)
        requires
            old(data).wf(),
        ensures
            final(data).wf(),
            old(data).position() + 8 > old(data).bytes().len() ==> r == Err::<TokamakInstruction, InstructionError>(
                InstructionError::InvalidInstructionData,
            ),
            old(data).position() + 8 <= old(data).bytes().len() ==> r == match instruction_of(
                le_u64(old(data).bytes(), old(data).position()) as u64,
            ) {
                Some(i) => Ok::<TokamakInstruction, InstructionError>(i),
                None => Err(InstructionError::InvalidInstructionData),
            },
    {
        let d = data.read_u64()?;
        match d {
            0 => Ok(TokamakInstruction::Charge),
            1 => Ok(TokamakInstruction::Claim),
            2 => Ok(TokamakInstruction::Compress),
            3 => Ok(TokamakInstruction::Drain),
            4 => Ok(TokamakInstruction::Discharge),
            5 => Ok(TokamakInstruction::Rebind),
            6 => Ok(TokamakInstruction::Fiss),
            7 => Ok(TokamakInstruction::Fuse),
            8 => Ok(TokamakInstruction::Overload),
            9 => Ok(TokamakInstruction::TopUp),
            10 => Ok(TokamakInstruction::Vent),
            _ => Err(InstructionError::InvalidInstructionData),
        }
    }
}

} // verus!
