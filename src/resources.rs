//! The register file, memory and CSR capabilities that execution works against, and a plain
//! implementation of each.
use vstd::prelude::*;

use crate::error::RiscvError;

verus! {

/// What register `i` reads as: register 0 always reads 0.
pub open spec fn reg_value(regs: Seq<u32>, i: int) -> u32 {
    if i == 0 {
        0
    } else {
        regs[i]
    }
}

/// The registers after writing `v` to register `i`: a write to register 0 is discarded.
pub open spec fn reg_update(regs: Seq<u32>, i: int, v: u32) -> Seq<u32> {
    if i == 0 {
        regs
    } else {
        regs.update(i, v)
    }
}

/// Thirty-two 32-bit general-purpose registers.
pub trait RegisterFile {
    spec fn regs(&self) -> Seq<u32>;

    fn read(&self, index: u32) -> (r: u32)
        requires
            index < 32,
            self.regs().len() == 32,
        ensures
            r == reg_value(self.regs(), index as int),
    ;

    fn write(&mut self, index: u32, value: u32)
        requires
            index < 32,
            old(self).regs().len() == 32,
        ensures
            final(self).regs() == reg_update(old(self).regs(), index as int, value),
    ;
}

/// The width of a memory access.
#[derive(Clone, Copy, Debug, PartialEq, Eq, Structural)]
pub enum Width {
    Byte,
    Half,
    Word,
}

pub open spec fn size_of(w: Width) -> int {
    match w {
        Width::Byte => 1,
        Width::Half => 2,
        Width::Word => 4,
    }
}

/// Whether an access may proceed: misalignment is reported before range.
pub open spec fn access_check(len: int, addr: u32, w: Width) -> Result<(), RiscvError> {
    if addr as int % size_of(w) != 0 {
        Err(RiscvError::MisalignedAccess)
    } else if addr as int + size_of(w) > len {
        Err(RiscvError::MemoryFault)
    } else {
        Ok(())
    }
}

/// The little-endian value of the bytes at `a`.
pub open spec fn load_value(bytes: Seq<u8>, a: int, w: Width) -> u32 {
    match w {
        Width::Byte => bytes[a] as u32,
        Width::Half => (bytes[a] + 256 * bytes[a + 1]) as u32,
        Width::Word => (bytes[a] + 256 * bytes[a + 1] + 65536 * bytes[a + 2] + 16777216 * bytes[a
            + 3]) as u32,
    }
}

/// Byte `k` of `v`, little-endian.
pub open spec fn byte_of(v: u32, k: int) -> u8 {
    ((v as int / (if k == 0 {
        1int
    } else if k == 1 {
        256int
    } else if k == 2 {
        65536int
    } else {
        16777216int
    })) % 256) as u8
}

/// The bytes after storing the low `size_of(w)` bytes of `v` at `a`, little-endian.
pub open spec fn store_value(bytes: Seq<u8>, a: int, w: Width, v: u32) -> Seq<u8> {
    match w {
        Width::Byte => bytes.update(a, byte_of(v, 0)),
        Width::Half => bytes.update(a, byte_of(v, 0)).update(a + 1, byte_of(v, 1)),
        Width::Word => bytes.update(a, byte_of(v, 0)).update(a + 1, byte_of(v, 1)).update(
            a + 2,
            byte_of(v, 2),
        ).update(a + 3, byte_of(v, 3)),
    }
}

/// Byte-addressed memory with aligned byte, half-word and word access.
pub trait Memory {
    spec fn bytes(&self) -> Seq<u8>;

    fn load(&self, addr: u32, width: Width) -> (r: Result<u32, RiscvError>)
        ensures
            match access_check(self.bytes().len() as int, addr, width) {
                Ok(_) => r == Ok::<u32, RiscvError>(load_value(self.bytes(), addr as int, width)),
                Err(e) => r == Err::<u32, RiscvError>(e),
            },
    ;

    fn store(&mut self, addr: u32, width: Width, value: u32) -> (r: Result<(), RiscvError>)
        ensures
            r == access_check(old(self).bytes().len() as int, addr, width),
            r is Ok ==> final(self).bytes() == store_value(
                old(self).bytes(),
                addr as int,
                width,
                value,
            ),
            r is Err ==> final(self).bytes() == old(self).bytes(),
    ;
}

/// The 4096 control and status registers.
pub trait CsrFile {
    spec fn csrs(&self) -> Seq<u32>;

    fn read_csr(&self, index: u32) -> (r: u32)
        requires
            index < 4096,
            self.csrs().len() == 4096,
        ensures
            r == self.csrs()[index as int],
    ;

    fn write_csr(&mut self, index: u32, value: u32)
        requires
            index < 4096,
            old(self).csrs().len() == 4096,
        ensures
            final(self).csrs() == old(self).csrs().update(index as int, value),
    ;
}

/// A register file held in a vector.
pub struct Registers {
    values: Vec<u32>,
}

impl Registers {
    /// Thirty-two registers, all zero.
    pub fn new() -> (r: Registers)
        ensures
            r.regs() == Seq::new(32, |_i: int| 0u32),
    {
        let mut values: Vec<u32> = Vec::new();
        while values.len() < 32
            invariant
                values.len() <= 32,
                forall|k: int| 0 <= k < values.len() ==> values@[k] == 0,
            decreases 32 - values.len(),
        {
            values.push(0);
        }
        assert(values@ == Seq::new(32, |_i: int| 0u32));
        Registers { values }
    }
}

impl RegisterFile for Registers {
    closed spec fn regs(&self) -> Seq<u32> {
        self.values@
    }

    fn read(&self, index: u32) -> (r: u32) {
        if index == 0 {
            0
        } else {
            self.values[index as usize]
        }
    }

    fn write(&mut self, index: u32, value: u32) {
        if index != 0 {
            self.values.set(index as usize, value);
        }
    }
}

/// A flat memory of bytes starting at address 0.
pub struct FlatMemory {
    data: Vec<u8>,
}

/// Whether an access of `w` at `addr` may proceed on `len` bytes.
pub fn check_access(len: usize, addr: u32, w: Width) -> (r: Result<(), RiscvError>)
    ensures
        r == access_check(len as int, addr, w),
{
    let size: u32 = match w {
        Width::Byte => 1,
        Width::Half => 2,
        Width::Word => 4,
    };
    if addr % size != 0 {
        Err(RiscvError::MisalignedAccess)
    } else if addr as u64 + size as u64 > len as u64 {
        Err(RiscvError::MemoryFault)
    } else {
        Ok(())
    }
}

impl FlatMemory {
    /// `size` bytes, all zero.
    pub fn new(size: usize) -> (r: FlatMemory)
        ensures
            r.bytes() == Seq::new(size as nat, |_i: int| 0u8),
    {
        let mut data: Vec<u8> = Vec::new();
        while data.len() < size
            invariant
                data.len() <= size,
                forall|k: int| 0 <= k < data.len() ==> data@[k] == 0,
            decreases size - data.len(),
        {
            data.push(0);
        }
        assert(data@ == Seq::new(size as nat, |_i: int| 0u8));
        FlatMemory { data }
    }

    /// A memory holding `bytes` from address 0.
    pub fn from_bytes(bytes: Vec<u8>) -> (r: FlatMemory)
        ensures
            r.bytes() == bytes@,
    {
        FlatMemory { data: bytes }
    }
}

impl Memory for FlatMemory {
    closed spec fn bytes(&self) -> Seq<u8> {
        self.data@
    }

    fn load(&self, addr: u32, width: Width) -> (r: Result<u32, RiscvError>) {
        match check_access(self.data.len(), addr, width) {
            Err(e) => Err(e),
            Ok(()) => {
                let a = addr as usize;
                let v: u32 = match width {
                    Width::Byte => self.data[a] as u32,
                    Width::Half => self.data[a] as u32 + 256 * (self.data[a + 1] as u32),
                    Width::Word => self.data[a] as u32 + 256 * (self.data[a + 1] as u32) + 65536
                        * (self.data[a + 2] as u32) + 16777216 * (self.data[a + 3] as u32),
                };
                Ok(v)
            },
        }
    }

    fn store(&mut self, addr: u32, width: Width, value: u32) -> (r: Result<(), RiscvError>) {
        match check_access(self.data.len(), addr, width) {
            Err(e) => Err(e),
            Ok(()) => {
                let a = addr as usize;
                let b0 = (value % 256) as u8;
                let b1 = ((value / 256) % 256) as u8;
                let b2 = ((value / 65536) % 256) as u8;
                let b3 = (value / 16777216) as u8;
                self.data.set(a, b0);
                match width {
                    Width::Byte => {},
                    Width::Half => {
                        self.data.set(a + 1, b1);
                    },
                    Width::Word => {
                        self.data.set(a + 1, b1);
                        self.data.set(a + 2, b2);
                        self.data.set(a + 3, b3);
                    },
                }
                Ok(())
            },
        }
    }
}

/// A CSR file held in a vector.
pub struct CsrBank {
    values: Vec<u32>,
}

impl CsrBank {
    /// 4096 CSRs, all zero.
    pub fn new() -> (r: CsrBank)
        ensures
            r.csrs() == Seq::new(4096, |_i: int| 0u32),
    {
        let mut values: Vec<u32> = Vec::new();
        while values.len() < 4096
            invariant
                values.len() <= 4096,
                forall|k: int| 0 <= k < values.len() ==> values@[k] == 0,
            decreases 4096 - values.len(),
        {
            values.push(0);
        }
        assert(values@ == Seq::new(4096, |_i: int| 0u32));
        CsrBank { values }
    }
}

impl CsrFile for CsrBank {
    closed spec fn csrs(&self) -> Seq<u32> {
        self.values@
    }

    fn read_csr(&self, index: u32) -> (r: u32) {
        self.values[index as usize]
    }

    fn write_csr(&mut self, index: u32, value: u32) {
        self.values.set(index as usize, value);
    }
}

} // verus!
