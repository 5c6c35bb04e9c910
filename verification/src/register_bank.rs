//! The register bank: 32 integer registers with a hardwired zero, 32
//! floating-point registers held as IEEE-754 bit patterns, and a set of
//! status flags that grows on demand.

use vstd::prelude::*;
use crate::conversion::{FromRegister, IntoRegister, RegisterValue};
use crate::layout::REGISTER_COUNT;

verus! {

/// The mathematical content of a register bank.
pub struct BankModel {
    /// Bit patterns of the integer registers.
    pub integers: Seq<u32>,
    /// Bit patterns of the floating-point registers.
    pub floats: Seq<u32>,
    /// The status flags allocated so far.
    pub status: Seq<u32>,
}

impl BankModel {
    /// Both banks have 32 slots and integer register 0 holds zero.
    pub open spec fn wf(self) -> bool {
        &&& self.integers.len() == REGISTER_COUNT
        &&& self.floats.len() == REGISTER_COUNT
        &&& self.integers[0] == 0
    }

    /// The bank with every register zero and no status flag allocated.
    pub open spec fn zeroed() -> BankModel {
        BankModel {
            integers: Seq::new(REGISTER_COUNT as nat, |i: int| 0u32),
            floats: Seq::new(REGISTER_COUNT as nat, |i: int| 0u32),
            status: Seq::empty(),
        }
    }

    /// The bank after `bits` is written to integer register `i`: a write to
    /// register 0 is discarded.
    pub open spec fn write(self, i: int, bits: u32) -> BankModel {
        if i == 0 {
            self
        } else {
            BankModel { integers: self.integers.update(i, bits), ..self }
        }
    }

    /// The bank after `bits` is written to floating-point register `i`.
    pub open spec fn write_float(self, i: int, bits: u32) -> BankModel {
        BankModel { floats: self.floats.update(i, bits), ..self }
    }

    /// The value of status flag `i`: a flag that was never written is zero.
    pub open spec fn flag(self, i: int) -> u32 {
        if 0 <= i < self.status.len() {
            self.status[i]
        } else {
            0
        }
    }

    /// The status flags after flag `i` is set to `value`: the set grows with
    /// zero flags up to `i` where it was shorter.
    pub open spec fn write_flag(self, i: int, value: u32) -> BankModel {
        let grown = if i < self.status.len() {
            self.status
        } else {
            self.status + Seq::new((i + 1 - self.status.len()) as nat, |k: int| 0u32)
        };
        BankModel { status: grown.update(i, value), ..self }
    }
}

/// Typed storage for the integer and floating-point registers and the status
/// flags.
pub struct RegisterBank {
    registers: [u32; 32],
    floats: [u32; 32],
    status: Vec<u32>,
}

impl View for RegisterBank {
    type V = BankModel;

    closed spec fn view(&self) -> BankModel {
        BankModel { integers: self.registers@, floats: self.floats@, status: self.status@ }
    }
}

impl RegisterBank {
    /// The invariant of the bank: integer register 0 holds zero.
    pub open spec fn wf(&self) -> bool {
        self@.wf()
    }

    /// A bank with every register zero and no status flag.
    pub fn new() -> (bank: RegisterBank)
        ensures
            bank.wf(),
            bank@ == BankModel::zeroed(),
    {
        let bank = RegisterBank { registers: [0u32; 32], floats: [0u32; 32], status: Vec::new() };
        assert(bank@.integers =~= BankModel::zeroed().integers);
        assert(bank@.floats =~= BankModel::zeroed().floats);
        assert(bank@.status =~= BankModel::zeroed().status);
        bank
    }

    /// Reads integer register `i` as a value of the logical type `T`.
    pub fn get_register<T: FromRegister>(&self, i: usize) -> (value: T)
        requires
            i < REGISTER_COUNT,
        ensures
            value == T::spec_from(self@.integers[i as int]),
    {
        FromRegister::from(self.registers[i])
    }

    /// Writes `x` to integer register `i` as its 32-bit pattern. Register 0
    /// is hardwired to zero: a write to it changes nothing.
    pub fn set_register<T: IntoRegister>(&mut self, i: usize, x: T)
        requires
            i < REGISTER_COUNT,
            old(self).wf(),
        ensures
            final(self).wf(),
            final(self)@ == old(self)@.write(i as int, x.spec_into()),
    {
        if i != 0 {
            let bits: u32 = IntoRegister::into(x);
            self.registers[i] = bits;
        }
    }

    /// The bit pattern of floating-point register `i`.
    pub fn get_float(&self, i: usize) -> (bits: u32)
        requires
            i < REGISTER_COUNT,
        ensures
            bits == self@.floats[i as int],
    {
        self.floats[i]
    }

    /// Stores `bits` as the pattern of floating-point register `i`. The
    /// float bank has no hardwired register.
    pub fn set_float(&mut self, i: usize, bits: u32)
        requires
            i < REGISTER_COUNT,
            old(self).wf(),
        ensures
            final(self).wf(),
            final(self)@ == old(self)@.write_float(i as int, bits),
    {
        self.floats[i] = bits;
    }

    /// The value of status flag `i`, zero where the flag was never written.
    pub fn get_status(&self, i: usize) -> (value: u32)
        ensures
            value == self@.flag(i as int),
    {
        if i < self.status.len() {
            self.status[i]
        } else {
            0
        }
    }

    /// Sets status flag `i`, allocating zero flags up to it where needed.
    pub fn set_status(&mut self, i: usize, value: u32)
        requires
            i < usize::MAX,
            old(self).wf(),
        ensures
            final(self).wf(),
            final(self)@ == old(self)@.write_flag(i as int, value),
    {
        let ghost before = self.status@;
        while self.status.len() <= i
            invariant
                i < usize::MAX,
                self.registers == old(self).registers,
                self.floats == old(self).floats,
                before.len() <= self.status.len(),
                self.status.len() <= i + 1 || self.status@ == before,
                self.status@ =~= before + Seq::new(
                    (self.status.len() - before.len()) as nat,
                    |k: int| 0u32,
                ),
            decreases i + 1 - self.status.len(),
        {
            self.status.push(0);
        }
        self.status.set(i, value);
        assert(self@.status =~= old(self)@.write_flag(i as int, value).status);
    }
}

/// Whatever is written to integer register 0, the bank stays as it was, and
/// a read of that register in any logical type gives the type's zero value:
/// the value of the all-zero pattern.
pub proof fn lemma_zero_register_reads_zero<T: IntoRegister, U: FromRegister>(
    bank: BankModel,
    x: T,
)
    requires
        bank.wf(),
    ensures
        bank.write(0, x.spec_into()) == bank,
        U::spec_from(bank.write(0, x.spec_into()).integers[0]) == U::spec_from(0),
{
}

/// A value written to an integer register other than register 0 is read
/// back unchanged in the same logical type, and the bank stays well formed.
pub proof fn lemma_write_read_round_trip<T: RegisterValue>(bank: BankModel, i: int, value: T)
    requires
        bank.wf(),
        1 <= i < REGISTER_COUNT,
    ensures
        T::spec_from(bank.write(i, value.spec_into()).integers[i]) == value,
        bank.write(i, value.spec_into()).wf(),
{
    T::lemma_round_trip(value);
}

/// A write to one integer register leaves every other register as it was.
pub proof fn lemma_write_keeps_others(bank: BankModel, i: int, j: int, bits: u32)
    requires
        bank.wf(),
        0 <= i < REGISTER_COUNT,
        0 <= j < REGISTER_COUNT,
        i != j,
    ensures
        bank.write(i, bits).integers[j] == bank.integers[j],
        bank.write(i, bits).floats == bank.floats,
        bank.write(i, bits).status == bank.status,
{
}

} // verus!
