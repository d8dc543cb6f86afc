use vstd::prelude::*;

use crate::cpu::{lookup, Cpu, InstructionSet};
use crate::instruction::{
    lda_immediate, lda_zero_page, lda_zero_page_x,
    zero_page_address, zero_page_indexed, Absolute, Accumulator, Immediate, Instruction,
    InstructionInput, InstructionOutput, Operation, ZeroPage, ZeroPageX, ZeroPageY,
};
use crate::memory::{read_result, Memory, MemoryError};

verus! {

/// Opcode of load-accumulator, immediate mode.
pub const INS_LDA_IM: u8 = 0xA9;

/// Opcode of load-accumulator, zero-page mode.
pub const INS_LDA_ZP: u8 = 0xA5;

/// Opcode of load-accumulator, zero-page,X mode.
pub const INS_LDA_ZPX: u8 = 0xB5;

/// Program counter after a reset.
pub const RESET_PC: u16 = 0xFF00;

/// Stack pointer after a reset.
pub const RESET_SP: u16 = 0x0100;

/// The most cycles one instruction consumes, its opcode fetch included.
pub const MAX_INSTRUCTION_CYCLES: usize = 4;

/// A 6502-class processor: registers, status flags, its memory, its opcode table and
/// the count of cycles consumed.
pub struct Mos6502<M: Memory> {
    /// Program counter: the address of the next unconsumed byte.
    pub pc: u16,
    /// Stack pointer.
    pub sp: u16,
    /// Accumulator.
    pub a: u8,
    /// Index register X.
    pub x: u8,
    /// Index register Y.
    pub y: u8,
    /// Carry flag.
    pub c: bool,
    /// Zero flag.
    pub z: bool,
    /// Interrupt-disable flag.
    pub i: bool,
    /// Decimal flag.
    pub d: bool,
    /// Break flag.
    pub b: bool,
    /// Overflow flag.
    pub v: bool,
    /// Negative flag.
    pub n: bool,
    /// The opcode table.
    pub is: InstructionSet,
    /// The memory the processor owns.
    pub memory: M,
    /// Cycles consumed since construction or the last reset.
    pub cycles: usize,
}

/// An opcode that the table does not name, and the address it was fetched from.
#[derive(Debug, PartialEq, Eq, Structural, Clone, Copy)]
pub struct Unhandled {
    /// Where the opcode was fetched from.
    pub pc: u16,
    /// The opcode byte.
    pub op_code: u8,
}

/// The opcode table a processor is built with.
pub open spec fn standard_table() -> Map<u8, Operation> {
    Map::<u8, Operation>::empty().insert(INS_LDA_IM, Operation::LdaImmediate).insert(
        INS_LDA_ZP,
        Operation::LdaZeroPage,
    ).insert(INS_LDA_ZPX, Operation::LdaZeroPageX)
}

/// The cycles an operation consumes after its opcode fetch.
pub open spec fn operation_cost(op: Operation) -> nat {
    match op {
        Operation::LdaImmediate => 1,
        Operation::LdaZeroPage => 2,
        Operation::LdaZeroPageX => 3,
    }
}

impl<M: Memory> Cpu for Mos6502<M> {
    open spec fn cycle_count(&self) -> nat {
        self.cycles as nat
    }
}

impl<M: Memory> Mos6502<M> {
    /// Registers, flags and cycle counter hold their power-up values.
    pub open spec fn is_power_up(&self) -> bool {
        &&& self.pc == RESET_PC
        &&& self.sp == RESET_SP
        &&& self.a == 0 && self.x == 0 && self.y == 0
        &&& !self.c && !self.z && !self.i && !self.d && !self.b && !self.v && !self.n
        &&& self.cycles == 0
    }

    /// Fetching the byte at PC: PC moves on by one (wrapping) and one cycle passes.
    pub open spec fn after_fetch(self) -> (Self, Result<u8, MemoryError>) {
        match read_result(self.memory.bytes(), self.pc) {
            Ok(v) => {
                let pc = ((self.pc + 1) % 0x10000) as u16;
                (Mos6502 { pc, cycles: (self.cycles + 1) as usize, ..self }, Ok(v))
            },
            Err(e) => (self, Err(e)),
        }
    }

    /// Reading the byte at `address`: one cycle passes.
    pub open spec fn after_read(self, address: u16) -> (Self, Result<u8, MemoryError>) {
        match read_result(self.memory.bytes(), address) {
            Ok(v) => (Mos6502 { cycles: (self.cycles + 1) as usize, ..self }, Ok(v)),
            Err(e) => (self, Err(e)),
        }
    }

    /// Fetches the byte at PC and advances PC past it.
    pub fn fetch_next_byte(&mut self) -> (r: Result<u8, MemoryError>)
        requires
            old(self).cycles < usize::MAX,
        ensures
            (*final(self), r) == old(self).after_fetch(),
    {
        let data = self.memory.get(self.pc)?;
        self.pc = self.pc.wrapping_add(1);
        self.cycles = self.cycles + 1;
        Ok(data)
    }

    /// Reads the byte at `address`.
    pub fn read_byte(&mut self, address: u16) -> (r: Result<u8, MemoryError>)
        requires
            old(self).cycles < usize::MAX,
        ensures
            (*final(self), r) == old(self).after_read(address),
    {
        let data = self.memory.get(address)?;
        self.cycles = self.cycles + 1;
        Ok(data)
    }
}

impl<M: Memory> InstructionInput<Mos6502<M>> for Immediate {
    open spec fn cost() -> nat {
        1
    }

    open spec fn resolve(before: Mos6502<M>) -> (Mos6502<M>, Result<Immediate, MemoryError>) {
        let (s, r) = before.after_fetch();
        match r {
            Ok(v) => (s, Ok(Immediate(v))),
            Err(e) => (s, Err(e)),
        }
    }

    fn new(cpu: &mut Mos6502<M>) -> (r: Result<Immediate, MemoryError>) {
        let value = cpu.fetch_next_byte()?;
        Ok(Immediate(value))
    }
}

impl<M: Memory> InstructionInput<Mos6502<M>> for ZeroPage {
    open spec fn cost() -> nat {
        2
    }

    open spec fn resolve(before: Mos6502<M>) -> (Mos6502<M>, Result<ZeroPage, MemoryError>) {
        let (s, r) = before.after_fetch();
        match r {
            Ok(zp) => {
                let (t, q) = s.after_read(zp as u16);
                match q {
                    Ok(v) => (t, Ok(ZeroPage(v))),
                    Err(e) => (t, Err(e)),
                }
            },
            Err(e) => (s, Err(e)),
        }
    }

    fn new(cpu: &mut Mos6502<M>) -> (r: Result<ZeroPage, MemoryError>) {
        let zp = cpu.fetch_next_byte()?;
        let value = cpu.read_byte(zp as u16)?;
        Ok(ZeroPage(value))
    }
}

impl<M: Memory> Mos6502<M> {
    /// Resolving a zero-page operand indexed by `index`: the base byte is fetched, one
    /// cycle passes for the index addition, then the byte at the wrapped address is read.
    pub open spec fn after_zero_page_indexed(self, index: u8) -> (Self, Result<u8, MemoryError>) {
        let (s, r) = self.after_fetch();
        match r {
            Ok(base) => {
                let s2 = Mos6502 { cycles: (s.cycles + 1) as usize, ..s };
                s2.after_read(zero_page_indexed(base, index))
            },
            Err(e) => (s, Err(e)),
        }
    }

    /// Resolves a zero-page operand indexed by `index`.
    fn zero_page_indexed_operand(&mut self, index: u8) -> (r: Result<u8, MemoryError>)
        requires
            old(self).cycles + 3 <= usize::MAX,
        ensures
            (*final(self), r) == old(self).after_zero_page_indexed(index),
    {
        let base = self.fetch_next_byte()?;
        self.cycles = self.cycles + 1;
        self.read_byte(zero_page_address(base, index))
    }
}

impl<M: Memory> InstructionInput<Mos6502<M>> for ZeroPageX {
    open spec fn cost() -> nat {
        3
    }

    open spec fn resolve(before: Mos6502<M>) -> (Mos6502<M>, Result<ZeroPageX, MemoryError>) {
        let (s, r) = before.after_zero_page_indexed(before.x);
        match r {
            Ok(v) => (s, Ok(ZeroPageX(v))),
            Err(e) => (s, Err(e)),
        }
    }

    fn new(cpu: &mut Mos6502<M>) -> (r: Result<ZeroPageX, MemoryError>) {
        let x = cpu.x;
        let value = cpu.zero_page_indexed_operand(x)?;
        Ok(ZeroPageX(value))
    }
}

impl<M: Memory> InstructionInput<Mos6502<M>> for ZeroPageY {
    open spec fn cost() -> nat {
        3
    }

    open spec fn resolve(before: Mos6502<M>) -> (Mos6502<M>, Result<ZeroPageY, MemoryError>) {
        let (s, r) = before.after_zero_page_indexed(before.y);
        match r {
            Ok(v) => (s, Ok(ZeroPageY(v))),
            Err(e) => (s, Err(e)),
        }
    }

    fn new(cpu: &mut Mos6502<M>) -> (r: Result<ZeroPageY, MemoryError>) {
        let y = cpu.y;
        let value = cpu.zero_page_indexed_operand(y)?;
        Ok(ZeroPageY(value))
    }
}

impl<M: Memory> InstructionInput<Mos6502<M>> for Absolute {
    open spec fn cost() -> nat {
        3
    }

    open spec fn resolve(before: Mos6502<M>) -> (Mos6502<M>, Result<Absolute, MemoryError>) {
        let (s, r) = before.after_fetch();
        match r {
            Ok(lo) => {
                let (t, q) = s.after_fetch();
                match q {
                    Ok(hi) => {
                        let (u, w) = t.after_read((lo as int + 256 * hi as int) as u16);
                        match w {
                            Ok(v) => (u, Ok(Absolute(v))),
                            Err(e) => (u, Err(e)),
                        }
                    },
                    Err(e) => (t, Err(e)),
                }
            },
            Err(e) => (s, Err(e)),
        }
    }

    fn new(cpu: &mut Mos6502<M>) -> (r: Result<Absolute, MemoryError>) {
        let lo = cpu.fetch_next_byte()?;
        let hi = cpu.fetch_next_byte()?;
        let addr: u16 = (lo as u16) | ((hi as u16) << 8);
        assert(addr == (lo as int + 256 * hi as int) as u16) by (bit_vector)
            requires
                addr == (lo as u16) | ((hi as u16) << 8),
        ;
        let value = cpu.read_byte(addr)?;
        Ok(Absolute(value))
    }
}

impl<M: Memory> InstructionInput<Mos6502<M>> for Accumulator {
    open spec fn cost() -> nat {
        0
    }

    open spec fn resolve(before: Mos6502<M>) -> (Mos6502<M>, Result<Accumulator, MemoryError>) {
        (before, Ok(Accumulator(before.a)))
    }

    fn new(cpu: &mut Mos6502<M>) -> (r: Result<Accumulator, MemoryError>) {
        Ok(Accumulator(cpu.a))
    }
}

impl<M: Memory> InstructionOutput<Mos6502<M>> for Accumulator {
    open spec fn applied(&self, before: Mos6502<M>) -> Mos6502<M> {
        Mos6502 { a: self.0, z: self.0 == 0, n: self.0 >= 0x80, ..before }
    }

    fn apply(&self, cpu: &mut Mos6502<M>) {
        let v = self.0;
        cpu.a = v;
        cpu.z = v == 0;
        cpu.n = (v & 0b1000_0000) > 0;
        assert((v & 0b1000_0000u8 > 0) == (v >= 0x80)) by (bit_vector);
    }
}

/// The processor after an accumulator load whose operand resolution ended in `resolved`.
pub open spec fn load_accumulator<M: Memory>(resolved: (Mos6502<M>, Result<u8, MemoryError>)) -> (
    Mos6502<M>,
    Result<(), MemoryError>,
) {
    let (s, r) = resolved;
    match r {
        Ok(v) => (Accumulator(v).applied(s), Ok(())),
        Err(e) => (s, Err(e)),
    }
}

impl<M: Memory> Instruction<Mos6502<M>> for Operation {
    open spec fn cost(&self) -> nat {
        operation_cost(*self)
    }

    open spec fn outcome(&self, before: Mos6502<M>) -> (Mos6502<M>, Result<(), MemoryError>) {
        match *self {
            Operation::LdaImmediate => load_accumulator(before.after_fetch()),
            Operation::LdaZeroPage => {
                let (s, r) = before.after_fetch();
                match r {
                    Ok(zp) => load_accumulator(s.after_read(zp as u16)),
                    Err(e) => (s, Err(e)),
                }
            },
            Operation::LdaZeroPageX => load_accumulator(before.after_zero_page_indexed(before.x)),
        }
    }

    fn execute(&self, cpu: &mut Mos6502<M>) -> (r: Result<(), MemoryError>) {
        match self {
            Operation::LdaImmediate => {
                let input = Immediate::new(cpu)?;
                lda_immediate(input).apply(cpu);
            },
            Operation::LdaZeroPage => {
                let input = ZeroPage::new(cpu)?;
                lda_zero_page(input).apply(cpu);
            },
            Operation::LdaZeroPageX => {
                let input = ZeroPageX::new(cpu)?;
                lda_zero_page_x(input).apply(cpu);
            },
        }
        Ok(())
    }
}

/// What decoding `op_code` against `table` gives: the operation, or the opcode itself
/// when the table does not name it.
pub open spec fn decoded(table: Map<u8, Operation>, op_code: u8) -> Result<Operation, u8> {
    match lookup(table, op_code) {
        Some(op) => Ok(op),
        None => Err(op_code),
    }
}

impl InstructionSet {
    /// Registers the load-accumulator operations.
    fn init(&mut self)
        ensures
            final(self)@ == old(self)@.insert(INS_LDA_IM, Operation::LdaImmediate).insert(
                INS_LDA_ZP,
                Operation::LdaZeroPage,
            ).insert(INS_LDA_ZPX, Operation::LdaZeroPageX),
    {
        self.add_ins(INS_LDA_IM, Operation::LdaImmediate);
        self.add_ins(INS_LDA_ZP, Operation::LdaZeroPage);
        self.add_ins(INS_LDA_ZPX, Operation::LdaZeroPageX);
    }

    /// The table a processor is built with.
    fn standard() -> (r: InstructionSet)
        ensures
            r@ == standard_table(),
    {
        let mut is = InstructionSet::default();
        is.init();
        is
    }
}

impl<M: Memory> Mos6502<M> {
    /// A processor in its power-up state that owns `mem`.
    pub fn new(mem: M) -> (r: Self)
        ensures
            r.is_power_up(),
            r.memory == mem,
            r.is@ == standard_table(),
    {
        Mos6502 {
            pc: RESET_PC,
            sp: RESET_SP,
            a: 0,
            x: 0,
            y: 0,
            c: false,
            z: false,
            i: false,
            d: false,
            b: false,
            v: false,
            n: false,
            is: InstructionSet::standard(),
            memory: mem,
            cycles: 0,
        }
    }

    /// Returns registers, flags and cycle counter to their power-up values, zeroes every
    /// addressable byte of memory and rebuilds the opcode table.
    pub fn reset(&mut self)
        ensures
            final(self).is_power_up(),
            final(self).is@ == standard_table(),
            final(self).memory.bytes().len() == old(self).memory.bytes().len(),
            forall|k: int|
                0 <= k < final(self).memory.bytes().len() ==> #[trigger] final(self).memory.bytes()[k]
                    == if k < 0x10000 {
                    0u8
                } else {
                    old(self).memory.bytes()[k]
                },
    {
        let ghost before = self.memory.bytes();
        let mut addr: u32 = 0;
        while addr < 0x10000
            invariant
                addr <= 0x10000,
                self.memory.bytes().len() == before.len(),
                forall|k: int|
                    0 <= k < before.len() ==> #[trigger] self.memory.bytes()[k] == if k < addr {
                        0u8
                    } else {
                        before[k]
                    },
            decreases 0x10000 - addr,
        {
            let _ = self.memory.set(addr as u16, 0);
            addr = addr + 1;
        }
        self.pc = RESET_PC;
        self.sp = RESET_SP;
        self.a = 0;
        self.x = 0;
        self.y = 0;
        self.c = false;
        self.z = false;
        self.i = false;
        self.d = false;
        self.b = false;
        self.v = false;
        self.n = false;
        self.is = InstructionSet::standard();
        self.cycles = 0;
    }
}

impl<M: Memory> Mos6502<M> {
    /// One fetch-decode-execute step: the processor after it, the unhandled opcode it met
    /// if any, and whether it succeeded.
    pub open spec fn after_step(self) -> (Self, Option<Unhandled>, Result<(), MemoryError>) {
        let (s, r) = self.after_fetch();
        match r {
            Ok(op_code) => match decoded(s.is@, op_code) {
                Ok(op) => {
                    let (t, q) = op.outcome(s);
                    (t, None, q)
                },
                Err(op_code) => (s, Some(Unhandled { pc: self.pc, op_code }), Ok(())),
            },
            Err(e) => (s, None, Err(e)),
        }
    }

    /// Steps until the cycle counter reaches `target` or a step fails: the processor then,
    /// the unhandled opcodes met in order, and whether every step succeeded.
    pub open spec fn after_run(self, target: int) -> (Self, Seq<Unhandled>, Result<(), MemoryError>)
        decreases (if self.cycles >= target { 0 } else { target - self.cycles }),
    {
        if self.cycles >= target {
            (self, seq![], Ok(()))
        } else {
            let (s, u, r) = self.after_step();
            let met = match u {
                Some(x) => seq![x],
                None => seq![],
            };
            match r {
                Ok(_) => if s.cycles <= self.cycles {
                    (s, met, r)
                } else {
                    let (t, rest, q) = s.after_run(target);
                    (t, met + rest, q)
                },
                Err(e) => (s, met, Err(e)),
            }
        }
    }

    fn get_instruction(&self, op_code: u8) -> (r: Option<Operation>)
        ensures
            r == lookup(self.is@, op_code),
    {
        self.is.get_ins(op_code)
    }

    /// Fetches the next opcode and decodes it.
    fn fetch_next_instruction(&mut self) -> (r: Result<Result<Operation, u8>, MemoryError>)
        requires
            old(self).cycles < usize::MAX,
        ensures
            *final(self) == old(self).after_fetch().0,
            match old(self).after_fetch().1 {
                Ok(op_code) => r == Ok::<Result<Operation, u8>, MemoryError>(
                    decoded(final(self).is@, op_code),
                ),
                Err(e) => r == Err::<Result<Operation, u8>, MemoryError>(e),
            },
    {
        let op_code = self.fetch_next_byte()?;
        match self.get_instruction(op_code) {
            Some(ins) => Ok(Ok(ins)),
            None => Ok(Err(op_code)),
        }
    }
}

/// A step that succeeds consumes between one and four cycles.
pub proof fn lemma_step_cycles<M: Memory>(s: Mos6502<M>)
    requires
        s.cycles + MAX_INSTRUCTION_CYCLES <= usize::MAX,
    ensures
        s.after_step().2 is Ok ==> s.cycles < s.after_step().0.cycles <= s.cycles
            + MAX_INSTRUCTION_CYCLES,
        s.after_step().0.cycles >= s.cycles,
{
}

impl<M: Memory> Mos6502<M> {
    /// Runs whole instructions until at least `cycles` more cycles have been consumed.
    /// Returns the opcodes met that the table does not name, each skipped as one byte,
    /// or the first memory failure, which ends the run.
    pub fn execute(&mut self, cycles: usize) -> (r: Result<Vec<Unhandled>, MemoryError>)
        requires
            old(self).cycles + cycles + MAX_INSTRUCTION_CYCLES <= usize::MAX,
        ensures
            *final(self) == old(self).after_run(old(self).cycles + cycles).0,
            r is Ok <==> old(self).after_run(old(self).cycles + cycles).2 is Ok,
            r is Ok ==> r->Ok_0@ == old(self).after_run(old(self).cycles + cycles).1,
            r is Err ==> r == Err::<Vec<Unhandled>, MemoryError>(
                old(self).after_run(old(self).cycles + cycles).2->Err_0,
            ),
            r is Ok ==> old(self).cycles + cycles <= final(self).cycles,
            final(self).cycles < old(self).cycles + cycles + MAX_INSTRUCTION_CYCLES,
            cycles == 0 ==> *final(self) == *old(self),
            cycles == 0 ==> r is Ok && r->Ok_0@ == Seq::<Unhandled>::empty(),
    {
        proof {
            lemma_run_budget(*self, self.cycles + cycles);
        }
        let target = self.cycles + cycles;
        let mut met: Vec<Unhandled> = Vec::new();
        while self.cycles < target
            invariant
                target == old(self).cycles + cycles,
                target + MAX_INSTRUCTION_CYCLES <= usize::MAX,
                self.cycles < target + MAX_INSTRUCTION_CYCLES,
                self.after_run(target as int).0 == old(self).after_run(target as int).0,
                self.after_run(target as int).2 == old(self).after_run(target as int).2,
                met@ + self.after_run(target as int).1 == old(self).after_run(target as int).1,
            decreases target + MAX_INSTRUCTION_CYCLES - self.cycles,
        {
            let ghost before = *self;
            proof {
                lemma_step_cycles(before);
            }
            let pc = self.pc;
            match self.fetch_next_instruction() {
                Ok(Ok(ins)) => {
                    match ins.execute(self) {
                        Ok(()) => {},
                        Err(e) => {
                            assert(met@ + seq![] =~= met@);
                            return Err(e);
                        },
                    }
                },
                Ok(Err(op_code)) => {
                    let ghost m = met@;
                    met.push(Unhandled { pc, op_code });
                    assert(met@ == m + seq![Unhandled { pc, op_code }]);
                    assert(met@ + self.after_run(target as int).1 =~= m + (seq![Unhandled { pc, op_code }] + self.after_run(target as int).1));
                },
                Err(e) => {
                    assert(met@ + seq![] =~= met@);
                    return Err(e);
                },
            }
            assert(self.cycles > before.cycles);
        }
        assert(met@ + seq![] =~= met@);
        Ok(met)
    }
}

/// A zero-page indexed resolution reads its operand at the base byte plus the index
/// register modulo 256: the effective address never carries out of the zero page.
pub proof fn lemma_zero_page_indexed_wraps<M: Memory>(s: Mos6502<M>, index: u8)
    requires
        s.cycles + 3 <= usize::MAX,
        (s.pc as int) < s.memory.bytes().len(),
    ensures
        ({
            let base = s.memory.bytes()[s.pc as int];
            let address = (base as int + index as int) % 256;
            &&& 0 <= address < 256
            &&& s.after_zero_page_indexed(index).1 == read_result(
                s.memory.bytes(),
                address as u16,
            )
        }),
{
}

/// An immediate load of V into the accumulator sets Zero exactly when V is 0 and
/// Negative exactly when bit 7 of V is set, and changes no other flag.
pub proof fn lemma_immediate_load_flags<M: Memory>(s: Mos6502<M>)
    requires
        s.cycles + 1 <= usize::MAX,
        (s.pc as int) < s.memory.bytes().len(),
    ensures
        ({
            let v = s.memory.bytes()[s.pc as int];
            let (t, r) = Operation::LdaImmediate.outcome(s);
            &&& r is Ok
            &&& t.a == v
            &&& t.z == (v == 0)
            &&& t.n == (v & 0x80 != 0)
            &&& t.c == s.c && t.i == s.i && t.d == s.d && t.b == s.b && t.v == s.v
        }),
{
    let v = s.memory.bytes()[s.pc as int];
    assert((v & 0x80u8 != 0) == (v >= 0x80)) by (bit_vector);
}

/// A run towards `target` ends, when it succeeds, with at least `target` cycles
/// consumed, and never starts an instruction once the counter has reached `target`: it
/// overshoots by less than one instruction.
pub proof fn lemma_run_budget<M: Memory>(s: Mos6502<M>, target: int)
    requires
        target + MAX_INSTRUCTION_CYCLES <= usize::MAX,
        s.cycles < target + MAX_INSTRUCTION_CYCLES,
    ensures
        s.after_run(target).2 is Ok ==> s.after_run(target).0.cycles >= target,
        s.cycles >= target ==> s.after_run(target) == (s, Seq::<Unhandled>::empty(), Ok::<
            (),
            MemoryError,
        >(())),
        s.after_run(target).0.cycles < target + MAX_INSTRUCTION_CYCLES,
        s.after_run(target).0.cycles >= s.cycles,
    decreases (if s.cycles >= target { 0 } else { target - s.cycles }),
{
    if s.cycles < target {
        lemma_step_cycles(s);
        let (t, u, r) = s.after_step();
        if r is Ok && t.cycles > s.cycles {
            lemma_run_budget(t, target);
        }
    }
}

/// After a reset, running for zero cycles leaves the processor in its power-up state:
/// PC at 0xFF00, SP at 0x0100, registers and flags clear, no cycles consumed.
pub proof fn lemma_reset_then_idle<M: Memory>(s: Mos6502<M>)
    requires
        s.is_power_up(),
    ensures
        s.after_run(s.cycles + 0) == (s, Seq::<Unhandled>::empty(), Ok::<(), MemoryError>(())),
        s.after_run(s.cycles + 0).0.is_power_up(),
{
}

} // verus!
