//! Names for the integer types of the native hardware interface.

use vstd::prelude::*;

verus! {

/// The handle that stands for no resource.
pub const INVALID_HANDLE: i32 = 0;

/// A handle of any kind.
pub type HALHandle = i32;

pub type HALPortHandle = HALHandle;

pub type HALAnalogInputHandle = HALHandle;

pub type HALAnalogOutputHandle = HALHandle;

pub type HALAnalogTriggerHandle = HALHandle;

pub type HALCompressorHandle = HALHandle;

pub type HALCounterHandle = HALHandle;

pub type HALDigitalHandle = HALHandle;

pub type HALDigitalPWMHandle = HALHandle;

pub type HALEncoderHandle = HALHandle;

pub type HALFPGAEncoderHandle = HALHandle;

pub type HALGyroHandle = HALHandle;

pub type HALInterruptHandle = HALHandle;

pub type HALNotifierHandle = HALHandle;

pub type HALRelayHandle = HALHandle;

pub type HALSolenoidHandle = HALHandle;

/// A truth value of the native interface: zero is false.
pub type HALBool = i32;

} // verus!
