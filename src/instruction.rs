use vstd::prelude::*;

use crate::cpu::Cpu;
use crate::memory::MemoryError;

verus! {

/// An addressing mode: resolves an operand against a processor, consuming bytes of the
/// instruction stream and reading memory as the mode prescribes.
pub trait InstructionInput<C: Cpu>: Sized {
    /// The cycles a successful resolution consumes.
    spec fn cost() -> nat;

    /// The processor after the resolution, and the operand or the failure.
    spec fn resolve(before: C) -> (C, Result<Self, MemoryError>);

    fn new(cpu: &mut C) -> (r: Result<Self, MemoryError>)
        requires
            old(cpu).cycle_count() + Self::cost() <= usize::MAX,
        ensures
            (*final(cpu), r) == Self::resolve(*old(cpu)),
            final(cpu).cycle_count() <= old(cpu).cycle_count() + Self::cost(),
    ;
}

/// A pair of operands, resolved first then second.
impl<C: Cpu, I1: InstructionInput<C>, I2: InstructionInput<C>> InstructionInput<C> for (I1, I2) {
    open spec fn cost() -> nat {
        I1::cost() + I2::cost()
    }

    open spec fn resolve(before: C) -> (C, Result<(I1, I2), MemoryError>) {
        let (s, r) = I1::resolve(before);
        match r {
            Ok(i1) => {
                let (t, q) = I2::resolve(s);
                match q {
                    Ok(i2) => (t, Ok((i1, i2))),
                    Err(e) => (t, Err(e)),
                }
            },
            Err(e) => (s, Err(e)),
        }
    }

    fn new(cpu: &mut C) -> (r: Result<(I1, I2), MemoryError>) {
        let i1 = I1::new(cpu)?;
        let i2 = I2::new(cpu)?;
        Ok((i1, i2))
    }
}

/// An effect: commits a computed value to processor state.
pub trait InstructionOutput<C: Cpu>: Sized {
    /// The processor after the effect is applied.
    spec fn applied(&self, before: C) -> C;

    fn apply(&self, cpu: &mut C)
        ensures
            *final(cpu) == self.applied(*old(cpu)),
    ;
}

/// A pair of effects, applied first then second.
impl<C: Cpu, O1: InstructionOutput<C>, O2: InstructionOutput<C>> InstructionOutput<C> for (O1, O2) {
    open spec fn applied(&self, before: C) -> C {
        self.1.applied(self.0.applied(before))
    }

    fn apply(&self, cpu: &mut C) {
        self.0.apply(cpu);
        self.1.apply(cpu);
    }
}

} // verus!

verus! {

/// The operations the opcode table can name.
#[derive(Debug, PartialEq, Eq, Structural, Clone, Copy)]
pub enum Operation {
    LdaImmediate,
    LdaZeroPage,
    LdaZeroPageX,
}

} // verus!

verus! {

/// Operand of the absolute mode: the byte at a 16-bit address read from the stream.
#[derive(Debug, PartialEq, Eq, Structural, Clone, Copy)]
pub struct Absolute(pub u8);

/// Operand of the zero-page,X mode: the byte at a zero-page address offset by X.
#[derive(Debug, PartialEq, Eq, Structural, Clone, Copy)]
pub struct ZeroPageX(pub u8);

/// Operand of the zero-page,Y mode: the byte at a zero-page address offset by Y.
#[derive(Debug, PartialEq, Eq, Structural, Clone, Copy)]
pub struct ZeroPageY(pub u8);

/// Operand of the zero-page mode: the byte at an 8-bit address read from the stream.
#[derive(Debug, PartialEq, Eq, Structural, Clone, Copy)]
pub struct ZeroPage(pub u8);

/// Operand of the immediate mode: the next byte of the stream itself.
#[derive(Debug, PartialEq, Eq, Structural, Clone, Copy)]
pub struct Immediate(pub u8);

/// The accumulator: as an operand its current value, as an effect a value to load into it.
#[derive(Debug, PartialEq, Eq, Structural, Clone, Copy)]
pub struct Accumulator(pub u8);

/// The zero-page address that a base byte and an index register select: the sum wraps
/// within the zero page.
pub open spec fn zero_page_indexed(base: u8, index: u8) -> u16 {
    ((base as int + index as int) % 256) as u16
}

/// Adds an index register to a zero-page base address, wrapping within the zero page.
pub fn zero_page_address(base: u8, index: u8) -> (r: u16)
    ensures
        r == zero_page_indexed(base, index),
        r < 256,
{
    base.wrapping_add(index) as u16
}

/// Loads the accumulator from an immediate operand.
pub fn lda_immediate(value: Immediate) -> (r: Accumulator)
    ensures
        r.0 == value.0,
{
    Accumulator(value.0)
}

/// Loads the accumulator from a zero-page operand.
pub fn lda_zero_page(value: ZeroPage) -> (r: Accumulator)
    ensures
        r.0 == value.0,
{
    Accumulator(value.0)
}

/// Loads the accumulator from a zero-page,X operand.
pub fn lda_zero_page_x(value: ZeroPageX) -> (r: Accumulator)
    ensures
        r.0 == value.0,
{
    Accumulator(value.0)
}

/// A decoded instruction: resolves its operand, transforms it, and applies the effect.
pub trait Instruction<C: Cpu> {
    /// The cycles a successful run consumes once the opcode has been fetched.
    spec fn cost(&self) -> nat;

    /// The processor after the instruction runs, and whether it succeeded.
    spec fn outcome(&self, before: C) -> (C, Result<(), MemoryError>);

    fn execute(&self, cpu: &mut C) -> (r: Result<(), MemoryError>)
        requires
            old(cpu).cycle_count() + self.cost() <= usize::MAX,
        ensures
            (*final(cpu), r) == self.outcome(*old(cpu)),
    ;
}

} // verus!
