//! The integer types and the attributes of the FPGA interface.

use vstd::prelude::*;

verus! {

#[allow(non_camel_case_types)]
pub type int8_t = i8;

#[allow(non_camel_case_types)]
pub type uint8_t = u8;

#[allow(non_camel_case_types)]
pub type int16_t = i16;

#[allow(non_camel_case_types)]
pub type uint16_t = u16;

#[allow(non_camel_case_types)]
pub type int32_t = i32;

#[allow(non_camel_case_types)]
pub type uint32_t = u32;

#[allow(non_camel_case_types)]
pub type int64_t = i64;

#[allow(non_camel_case_types)]
pub type uint64_t = u64;

#[allow(non_camel_case_types)]
pub type size_t = uint64_t;

/// A truth value: zero is false.
#[allow(non_camel_case_types)]
pub type NiFpga_Bool = uint8_t;

/// A status: negative for an error, zero for success, positive for a warning.
#[allow(non_camel_case_types)]
pub type NiFpga_Status = int32_t;

/// The number of an open session.
#[allow(non_camel_case_types)]
pub type NiFpga_Session = uint32_t;

/// How a session is opened.
#[allow(non_camel_case_types)]
#[derive(Copy, Clone, Debug)]
pub enum NiFpga_OpenAttribute {
    /// Do not run the FPGA on opening.
    NiFpga_OpenAttribute_NoRun,
    Dummy,
}

impl NiFpga_OpenAttribute {
    /// The number that the interface knows this attribute by.
    pub open spec fn code(self) -> u32 {
        match self {
            NiFpga_OpenAttribute::NiFpga_OpenAttribute_NoRun => 1,
            NiFpga_OpenAttribute::Dummy => 2,
        }
    }

    /// The number that the interface knows this attribute by.
    pub fn to_u32(self) -> (code: u32)
        ensures
            code == self.code(),
    {
        match self {
            NiFpga_OpenAttribute::NiFpga_OpenAttribute_NoRun => 1,
            NiFpga_OpenAttribute::Dummy => 2,
        }
    }
}

/// How a session is closed.
#[allow(non_camel_case_types)]
#[derive(Copy, Clone, Debug)]
pub enum NiFpga_CloseAttribute {
    /// Do not reset the FPGA when the last session closes.
    NiFpga_CloseAttribute_NoResetIfLastSession,
    Dummy,
}

impl NiFpga_CloseAttribute {
    /// The number that the interface knows this attribute by.
    pub open spec fn code(self) -> u32 {
        match self {
            NiFpga_CloseAttribute::NiFpga_CloseAttribute_NoResetIfLastSession => 1,
            NiFpga_CloseAttribute::Dummy => 2,
        }
    }

    /// The number that the interface knows this attribute by.
    pub fn to_u32(self) -> (code: u32)
        ensures
            code == self.code(),
    {
        match self {
            NiFpga_CloseAttribute::NiFpga_CloseAttribute_NoResetIfLastSession => 1,
            NiFpga_CloseAttribute::Dummy => 2,
        }
    }
}

/// How the FPGA is run.
#[allow(non_camel_case_types)]
#[derive(Copy, Clone, Debug)]
pub enum NiFpga_RunAttribute {
    /// Wait until the FPGA has finished.
    NiFpga_RunAttribute_WaitUntilDone,
    Dummy,
}

impl NiFpga_RunAttribute {
    /// The number that the interface knows this attribute by.
    pub open spec fn code(self) -> u32 {
        match self {
            NiFpga_RunAttribute::NiFpga_RunAttribute_WaitUntilDone => 1,
            NiFpga_RunAttribute::Dummy => 2,
        }
    }

    /// The number that the interface knows this attribute by.
    pub fn to_u32(self) -> (code: u32)
        ensures
            code == self.code(),
    {
        match self {
            NiFpga_RunAttribute::NiFpga_RunAttribute_WaitUntilDone => 1,
            NiFpga_RunAttribute::Dummy => 2,
        }
    }
}

/// One of the 32 interrupt lines. Each stands for one bit of a mask.
#[allow(non_camel_case_types)]
#[derive(Copy, Clone, Debug)]
pub enum NiFpga_Irq {
    NiFpga_Irq_0,
    NiFpga_Irq_1,
    NiFpga_Irq_2,
    NiFpga_Irq_3,
    NiFpga_Irq_4,
    NiFpga_Irq_5,
    NiFpga_Irq_6,
    NiFpga_Irq_7,
    NiFpga_Irq_8,
    NiFpga_Irq_9,
    NiFpga_Irq_10,
    NiFpga_Irq_11,
    NiFpga_Irq_12,
    NiFpga_Irq_13,
    NiFpga_Irq_14,
    NiFpga_Irq_15,
    NiFpga_Irq_16,
    NiFpga_Irq_17,
    NiFpga_Irq_18,
    NiFpga_Irq_19,
    NiFpga_Irq_20,
    NiFpga_Irq_21,
    NiFpga_Irq_22,
    NiFpga_Irq_23,
    NiFpga_Irq_24,
    NiFpga_Irq_25,
    NiFpga_Irq_26,
    NiFpga_Irq_27,
    NiFpga_Irq_28,
    NiFpga_Irq_29,
    NiFpga_Irq_30,
    NiFpga_Irq_31,
}

impl NiFpga_Irq {
    /// The number of the line, from 0 to 31.
    pub open spec fn line(self) -> u32 {
        match self {
            NiFpga_Irq::NiFpga_Irq_0 => 0,
            NiFpga_Irq::NiFpga_Irq_1 => 1,
            NiFpga_Irq::NiFpga_Irq_2 => 2,
            NiFpga_Irq::NiFpga_Irq_3 => 3,
            NiFpga_Irq::NiFpga_Irq_4 => 4,
            NiFpga_Irq::NiFpga_Irq_5 => 5,
            NiFpga_Irq::NiFpga_Irq_6 => 6,
            NiFpga_Irq::NiFpga_Irq_7 => 7,
            NiFpga_Irq::NiFpga_Irq_8 => 8,
            NiFpga_Irq::NiFpga_Irq_9 => 9,
            NiFpga_Irq::NiFpga_Irq_10 => 10,
            NiFpga_Irq::NiFpga_Irq_11 => 11,
            NiFpga_Irq::NiFpga_Irq_12 => 12,
            NiFpga_Irq::NiFpga_Irq_13 => 13,
            NiFpga_Irq::NiFpga_Irq_14 => 14,
            NiFpga_Irq::NiFpga_Irq_15 => 15,
            NiFpga_Irq::NiFpga_Irq_16 => 16,
            NiFpga_Irq::NiFpga_Irq_17 => 17,
            NiFpga_Irq::NiFpga_Irq_18 => 18,
            NiFpga_Irq::NiFpga_Irq_19 => 19,
            NiFpga_Irq::NiFpga_Irq_20 => 20,
            NiFpga_Irq::NiFpga_Irq_21 => 21,
            NiFpga_Irq::NiFpga_Irq_22 => 22,
            NiFpga_Irq::NiFpga_Irq_23 => 23,
            NiFpga_Irq::NiFpga_Irq_24 => 24,
            NiFpga_Irq::NiFpga_Irq_25 => 25,
            NiFpga_Irq::NiFpga_Irq_26 => 26,
            NiFpga_Irq::NiFpga_Irq_27 => 27,
            NiFpga_Irq::NiFpga_Irq_28 => 28,
            NiFpga_Irq::NiFpga_Irq_29 => 29,
            NiFpga_Irq::NiFpga_Irq_30 => 30,
            NiFpga_Irq::NiFpga_Irq_31 => 31,
        }
    }

    /// The mask of the line: the bit at the line's number and no other.
    pub open spec fn code(self) -> u32 {
        match self {
            NiFpga_Irq::NiFpga_Irq_0 => 0x1,
            NiFpga_Irq::NiFpga_Irq_1 => 0x2,
            NiFpga_Irq::NiFpga_Irq_2 => 0x4,
            NiFpga_Irq::NiFpga_Irq_3 => 0x8,
            NiFpga_Irq::NiFpga_Irq_4 => 0x10,
            NiFpga_Irq::NiFpga_Irq_5 => 0x20,
            NiFpga_Irq::NiFpga_Irq_6 => 0x40,
            NiFpga_Irq::NiFpga_Irq_7 => 0x80,
            NiFpga_Irq::NiFpga_Irq_8 => 0x100,
            NiFpga_Irq::NiFpga_Irq_9 => 0x200,
            NiFpga_Irq::NiFpga_Irq_10 => 0x400,
            NiFpga_Irq::NiFpga_Irq_11 => 0x800,
            NiFpga_Irq::NiFpga_Irq_12 => 0x1000,
            NiFpga_Irq::NiFpga_Irq_13 => 0x2000,
            NiFpga_Irq::NiFpga_Irq_14 => 0x4000,
            NiFpga_Irq::NiFpga_Irq_15 => 0x8000,
            NiFpga_Irq::NiFpga_Irq_16 => 0x10000,
            NiFpga_Irq::NiFpga_Irq_17 => 0x20000,
            NiFpga_Irq::NiFpga_Irq_18 => 0x40000,
            NiFpga_Irq::NiFpga_Irq_19 => 0x80000,
            NiFpga_Irq::NiFpga_Irq_20 => 0x100000,
            NiFpga_Irq::NiFpga_Irq_21 => 0x200000,
            NiFpga_Irq::NiFpga_Irq_22 => 0x400000,
            NiFpga_Irq::NiFpga_Irq_23 => 0x800000,
            NiFpga_Irq::NiFpga_Irq_24 => 0x1000000,
            NiFpga_Irq::NiFpga_Irq_25 => 0x2000000,
            NiFpga_Irq::NiFpga_Irq_26 => 0x4000000,
            NiFpga_Irq::NiFpga_Irq_27 => 0x8000000,
            NiFpga_Irq::NiFpga_Irq_28 => 0x10000000,
            NiFpga_Irq::NiFpga_Irq_29 => 0x20000000,
            NiFpga_Irq::NiFpga_Irq_30 => 0x40000000,
            NiFpga_Irq::NiFpga_Irq_31 => 0x80000000,
        }
    }

    /// The mask of the line.
    pub fn to_u32(self) -> (mask: u32)
        ensures
            mask == self.code(),
    {
        match self {
            NiFpga_Irq::NiFpga_Irq_0 => 0x1,
            NiFpga_Irq::NiFpga_Irq_1 => 0x2,
            NiFpga_Irq::NiFpga_Irq_2 => 0x4,
            NiFpga_Irq::NiFpga_Irq_3 => 0x8,
            NiFpga_Irq::NiFpga_Irq_4 => 0x10,
            NiFpga_Irq::NiFpga_Irq_5 => 0x20,
            NiFpga_Irq::NiFpga_Irq_6 => 0x40,
            NiFpga_Irq::NiFpga_Irq_7 => 0x80,
            NiFpga_Irq::NiFpga_Irq_8 => 0x100,
            NiFpga_Irq::NiFpga_Irq_9 => 0x200,
            NiFpga_Irq::NiFpga_Irq_10 => 0x400,
            NiFpga_Irq::NiFpga_Irq_11 => 0x800,
            NiFpga_Irq::NiFpga_Irq_12 => 0x1000,
            NiFpga_Irq::NiFpga_Irq_13 => 0x2000,
            NiFpga_Irq::NiFpga_Irq_14 => 0x4000,
            NiFpga_Irq::NiFpga_Irq_15 => 0x8000,
            NiFpga_Irq::NiFpga_Irq_16 => 0x10000,
            NiFpga_Irq::NiFpga_Irq_17 => 0x20000,
            NiFpga_Irq::NiFpga_Irq_18 => 0x40000,
            NiFpga_Irq::NiFpga_Irq_19 => 0x80000,
            NiFpga_Irq::NiFpga_Irq_20 => 0x100000,
            NiFpga_Irq::NiFpga_Irq_21 => 0x200000,
            NiFpga_Irq::NiFpga_Irq_22 => 0x400000,
            NiFpga_Irq::NiFpga_Irq_23 => 0x800000,
            NiFpga_Irq::NiFpga_Irq_24 => 0x1000000,
            NiFpga_Irq::NiFpga_Irq_25 => 0x2000000,
            NiFpga_Irq::NiFpga_Irq_26 => 0x4000000,
            NiFpga_Irq::NiFpga_Irq_27 => 0x8000000,
            NiFpga_Irq::NiFpga_Irq_28 => 0x10000000,
            NiFpga_Irq::NiFpga_Irq_29 => 0x20000000,
            NiFpga_Irq::NiFpga_Irq_30 => 0x40000000,
            NiFpga_Irq::NiFpga_Irq_31 => 0x80000000,
        }
    }
}

/// The mask of an interrupt line is the single bit at the line's number.
pub proof fn lemma_irq_mask_is_one_bit(irq: NiFpga_Irq)
    ensures
        irq.line() < 32,
        irq.code() == 1u32 << irq.line(),
{
    let line = irq.line();
    let code = irq.code();
    assert(line < 32 && code == 1u32 << line) by (bit_vector)
        requires
            ({
                ||| (line == 0 && code == 0x1)
                ||| (line == 1 && code == 0x2)
                ||| (line == 2 && code == 0x4)
                ||| (line == 3 && code == 0x8)
                ||| (line == 4 && code == 0x10)
                ||| (line == 5 && code == 0x20)
                ||| (line == 6 && code == 0x40)
                ||| (line == 7 && code == 0x80)
                ||| (line == 8 && code == 0x100)
                ||| (line == 9 && code == 0x200)
                ||| (line == 10 && code == 0x400)
                ||| (line == 11 && code == 0x800)
                ||| (line == 12 && code == 0x1000)
                ||| (line == 13 && code == 0x2000)
                ||| (line == 14 && code == 0x4000)
                ||| (line == 15 && code == 0x8000)
                ||| (line == 16 && code == 0x10000)
                ||| (line == 17 && code == 0x20000)
                ||| (line == 18 && code == 0x40000)
                ||| (line == 19 && code == 0x80000)
                ||| (line == 20 && code == 0x100000)
                ||| (line == 21 && code == 0x200000)
                ||| (line == 22 && code == 0x400000)
                ||| (line == 23 && code == 0x800000)
                ||| (line == 24 && code == 0x1000000)
                ||| (line == 25 && code == 0x2000000)
                ||| (line == 26 && code == 0x4000000)
                ||| (line == 27 && code == 0x8000000)
                ||| (line == 28 && code == 0x10000000)
                ||| (line == 29 && code == 0x20000000)
                ||| (line == 30 && code == 0x40000000)
                ||| (line == 31 && code == 0x80000000)
            }),
    ;
}

} // verus!
