//! The truth values and the status codes of the FPGA interface.

use vstd::prelude::*;
use crate::ni::fpga::fpga_types::{NiFpga_Bool, NiFpga_Status};

verus! {

#[allow(non_upper_case_globals)]
pub const NiFpga_False: NiFpga_Bool = 0;

#[allow(non_upper_case_globals)]
pub const NiFpga_True: NiFpga_Bool = 1;

/// A FIFO did not hold what was asked for in time.
#[allow(non_upper_case_globals)]
pub const NiFpga_Status_FifoTimeout: NiFpga_Status = -50400;

/// A transfer was aborted.
#[allow(non_upper_case_globals)]
pub const NiFpga_Status_TransferAborted: NiFpga_Status = -50405;

/// No memory was left.
#[allow(non_upper_case_globals)]
pub const NiFpga_Status_MemoryFull: NiFpga_Status = -52000;

/// The software met a state it did not expect.
#[allow(non_upper_case_globals)]
pub const NiFpga_Status_SoftwareFault: NiFpga_Status = -52003;

/// A parameter was not valid.
#[allow(non_upper_case_globals)]
pub const NiFpga_Status_InvalidParameter: NiFpga_Status = -52005;

/// A resource was not found.
#[allow(non_upper_case_globals)]
pub const NiFpga_Status_ResourceNotFound: NiFpga_Status = -52006;

/// A resource was used before it was set up.
#[allow(non_upper_case_globals)]
pub const NiFpga_Status_ResourceNotInitialized: NiFpga_Status = -52010;

/// The FPGA was already running.
#[allow(non_upper_case_globals)]
pub const NiFpga_Status_FpgaAlreadyRunning: NiFpga_Status = -61003;

/// The bitfile could not be downloaded.
#[allow(non_upper_case_globals)]
pub const NiFpga_Status_DownloadError: NiFpga_Status = -61018;

/// The bitfile was made for another device.
#[allow(non_upper_case_globals)]
pub const NiFpga_Status_DeviceTypeMismatch: NiFpga_Status = -61024;

/// The device did not answer in time.
#[allow(non_upper_case_globals)]
pub const NiFpga_Status_CommunicationTimeout: NiFpga_Status = -61046;

/// No interrupt came in time.
#[allow(non_upper_case_globals)]
pub const NiFpga_Status_IrqTimeout: NiFpga_Status = -61060;

/// The bitfile could not be read.
#[allow(non_upper_case_globals)]
pub const NiFpga_Status_CorruptBitfile: NiFpga_Status = -61070;

/// The depth asked of a FIFO was not valid.
#[allow(non_upper_case_globals)]
pub const NiFpga_Status_BadDepth: NiFpga_Status = -61072;

/// The number of elements to read or write was not valid.
#[allow(non_upper_case_globals)]
pub const NiFpga_Status_BadReadWriteCount: NiFpga_Status = -61073;

/// A clock lost its lock.
#[allow(non_upper_case_globals)]
pub const NiFpga_Status_ClockLostLoc: NiFpga_Status = -61083;

/// The FPGA was busy.
#[allow(non_upper_case_globals)]
pub const NiFpga_Status_FpgaBusy: NiFpga_Status = -61141;

/// The FPGA was busy with another session of this interface.
#[allow(non_upper_case_globals)]
pub const NiFpga_Status_FpgaBusyFpgaInterfaceCApi: NiFpga_Status = -61200;

/// The FPGA was busy with the scan interface.
#[allow(non_upper_case_globals)]
pub const NiFpga_Status_FpgaBusyScanInterface: NiFpga_Status = -61201;

/// The FPGA was busy with the FPGA interface.
#[allow(non_upper_case_globals)]
pub const NiFpga_Status_FpgaBusyFpgaInterface: NiFpga_Status = -61202;

/// The FPGA was busy in interactive mode.
#[allow(non_upper_case_globals)]
pub const NiFpga_Status_FpgaBusyFpgaInteractive: NiFpga_Status = -61203;

/// The FPGA was busy in emulation mode.
#[allow(non_upper_case_globals)]
pub const NiFpga_Status_FpgaBusyFpgaEmulation: NiFpga_Status = -61204;

/// A reset was asked of a bitfile without implicit enable removal.
#[allow(non_upper_case_globals)]
pub const NiFpga_Status_ResetCallWithImplicitEnableRemoval: NiFpga_Status = -61211;

/// An abort was asked of a bitfile without implicit enable removal.
#[allow(non_upper_case_globals)]
pub const NiFpga_Status_AbortCallWithImplicitEnableRemoval: NiFpga_Status = -61212;

/// A close with reset was asked of a bitfile without implicit enable removal.
#[allow(non_upper_case_globals)]
pub const NiFpga_Status_CloseAndResetCallWithImplicitEnableRemoval: NiFpga_Status = -61213;

/// The bitfile has to run before this call.
#[allow(non_upper_case_globals)]
pub const NiFpga_Status_ImplicitEnableRemovalButNotYetRun: NiFpga_Status = -61214;

/// A run was asked after a stop.
#[allow(non_upper_case_globals)]
pub const NiFpga_Status_RunAfterStoppedCalledWithImplicitEnableRemoval: NiFpga_Status = -61215;

/// A gated clock broke its handshake.
#[allow(non_upper_case_globals)]
pub const NiFpga_Status_GatedClockHandshakingViolation: NiFpga_Status = -61216;

} // verus!
