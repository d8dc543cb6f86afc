use vstd::prelude::*;

verus! {

/// Failure of a memory access: the address lies outside the address space.
#[derive(Debug, PartialEq, Eq, Structural, Clone, Copy)]
pub enum MemoryError {
    IndexOutOfBounds { index: u16, size: usize },
}

/// What a read of `index` from a store holding `bytes` yields.
pub open spec fn read_result(bytes: Seq<u8>, index: u16) -> Result<u8, MemoryError> {
    if (index as int) < bytes.len() {
        Ok(bytes[index as int])
    } else {
        Err(MemoryError::IndexOutOfBounds { index, size: bytes.len() as usize })
    }
}

/// What a write to `index` of a store holding `bytes` yields.
pub open spec fn write_result(bytes: Seq<u8>, index: u16) -> Result<(), MemoryError> {
    if (index as int) < bytes.len() {
        Ok(())
    } else {
        Err(MemoryError::IndexOutOfBounds { index, size: bytes.len() as usize })
    }
}

/// The contents after a write of `value` to `index`: unchanged when the write fails.
pub open spec fn written(bytes: Seq<u8>, index: u16, value: u8) -> Seq<u8> {
    if (index as int) < bytes.len() {
        bytes.update(index as int, value)
    } else {
        bytes
    }
}

/// A byte-addressed store with single-byte reads and writes.
pub trait Memory {
    /// The contents of the address space; its length is the address-space size.
    spec fn bytes(&self) -> Seq<u8>;

    fn get(&self, index: u16) -> (r: Result<u8, MemoryError>)
        ensures
            r == read_result(self.bytes(), index),
    ;

    fn set(&mut self, index: u16, value: u8) -> (r: Result<(), MemoryError>)
        ensures
            r == write_result(old(self).bytes(), index),
            final(self).bytes() == written(old(self).bytes(), index, value),
    ;
}

/// Random-access memory of `N` bytes, all zero when made.
pub struct RAM<const N: usize> {
    data: Vec<u8>,
}

impl<const N: usize> Memory for RAM<N> {
    closed spec fn bytes(&self) -> Seq<u8> {
        self.data@
    }

    fn get(&self, index: u16) -> (r: Result<u8, MemoryError>) {
        if (index as usize) < self.data.len() {
            Ok(self.data[index as usize])
        } else {
            Err(MemoryError::IndexOutOfBounds { index, size: self.data.len() })
        }
    }

    fn set(&mut self, index: u16, value: u8) -> (r: Result<(), MemoryError>) {
        if (index as usize) < self.data.len() {
            self.data.set(index as usize, value);
            Ok(())
        } else {
            Err(MemoryError::IndexOutOfBounds { index, size: self.data.len() })
        }
    }
}

impl<const N: usize> Default for RAM<N> {
    fn default() -> (r: Self)
        ensures
            r.bytes() == Seq::new(N as nat, |i: int| 0u8),
    {
        let data: Vec<u8> = vec![0u8; N];
        let r = RAM { data };
        assert(r.bytes() =~= Seq::new(N as nat, |i: int| 0u8));
        r
    }
}

} // verus!
