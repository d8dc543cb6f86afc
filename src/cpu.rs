use std::collections::BTreeMap;
use vstd::prelude::*;

use crate::instruction::Operation;

verus! {

/// A processor that instructions can run against.
pub trait Cpu: Sized {
    /// The number of cycles the processor has consumed.
    spec fn cycle_count(&self) -> nat;
}

/// The entry that a table mapping opcodes to operations holds for `op_code`.
pub open spec fn lookup(table: Map<u8, Operation>, op_code: u8) -> Option<Operation> {
    if table.contains_key(op_code) {
        Some(table[op_code])
    } else {
        None
    }
}

/// The opcode table: each opcode byte maps to at most one operation.
pub struct InstructionSet {
    instructions: BTreeMap<u8, Operation>,
}

impl View for InstructionSet {
    type V = Map<u8, Operation>;

    closed spec fn view(&self) -> Map<u8, Operation> {
        self.instructions@
    }
}

impl Default for InstructionSet {
    fn default() -> (r: Self)
        ensures
            r@ == Map::<u8, Operation>::empty(),
    {
        InstructionSet { instructions: BTreeMap::new() }
    }
}

impl InstructionSet {
    /// The operation registered for `op_code`, if any.
    pub fn get_ins(&self, op_code: u8) -> (r: Option<Operation>)
        ensures
            r == lookup(self@, op_code),
    {
        match self.instructions.get(&op_code) {
            Some(op) => Some(*op),
            None => None,
        }
    }

    /// Registers `ins` under `op_code`, replacing what was there.
    pub fn add_ins(&mut self, op_code: u8, ins: Operation)
        ensures
            final(self)@ == old(self)@.insert(op_code, ins),
    {
        self.instructions.insert(op_code, ins);
    }
}

} // verus!
