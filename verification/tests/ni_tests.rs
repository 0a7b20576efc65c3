use frcredox_hal::ni::fpga::fpga_constants::{
    NiFpga_False, NiFpga_Status_FifoTimeout, NiFpga_Status_GatedClockHandshakingViolation,
    NiFpga_True,
};
use frcredox_hal::ni::fpga::fpga_types::{
    NiFpga_CloseAttribute, NiFpga_Irq, NiFpga_OpenAttribute, NiFpga_RunAttribute,
};

#[test]
fn attribute_codes() {
    assert_eq!(NiFpga_OpenAttribute::NiFpga_OpenAttribute_NoRun.to_u32(), 1);
    assert_eq!(NiFpga_OpenAttribute::Dummy.to_u32(), 2);
    assert_eq!(NiFpga_CloseAttribute::NiFpga_CloseAttribute_NoResetIfLastSession.to_u32(), 1);
    assert_eq!(NiFpga_CloseAttribute::Dummy.to_u32(), 2);
    assert_eq!(NiFpga_RunAttribute::NiFpga_RunAttribute_WaitUntilDone.to_u32(), 1);
    assert_eq!(NiFpga_RunAttribute::Dummy.to_u32(), 2);
}

#[test]
fn irq_masks() {
    assert_eq!(NiFpga_Irq::NiFpga_Irq_0.to_u32(), 1);
    assert_eq!(NiFpga_Irq::NiFpga_Irq_1.to_u32(), 2);
    assert_eq!(NiFpga_Irq::NiFpga_Irq_7.to_u32(), 1 << 7);
    assert_eq!(NiFpga_Irq::NiFpga_Irq_16.to_u32(), 1 << 16);
    assert_eq!(NiFpga_Irq::NiFpga_Irq_30.to_u32(), 1 << 30);
    assert_eq!(NiFpga_Irq::NiFpga_Irq_31.to_u32(), 1 << 31);
}

#[test]
fn status_constants() {
    assert_eq!(NiFpga_False, 0);
    assert_eq!(NiFpga_True, 1);
    assert_eq!(NiFpga_Status_FifoTimeout, -50400);
    assert_eq!(NiFpga_Status_GatedClockHandshakingViolation, -61216);
}
