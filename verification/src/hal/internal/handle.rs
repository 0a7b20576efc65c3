//! Reading and making handles as plain integers.
//!
//! In this form a handle holds its parts by numeric weight:
//!
//! | Bits  | Meaning                                   |
//! |-------|-------------------------------------------|
//! | 31    | set if the handle reports an error        |
//! | 24-30 | code of the kind                          |
//! | 16-23 | unused; the module of a port made for SPI |
//! | 0-15  | index; for a port, module and channel     |
//!
//! The kind is read from bits 24 to 31 together, so a handle with the error
//! bit set has no kind that these functions accept.
//!
//! This is the order of the native interface itself. The handle types of
//! `hal::handle` keep their parts in another order, so a raw value of one
//! form is not a raw value of the other.

use vstd::prelude::*;
use crate::hal::handle::{bits_of, raw_bits, HandleType};
use crate::hal::internal::types::{HALHandle, HALPortHandle, INVALID_HANDLE};

verus! {

/// The index that is reported for a handle of the wrong kind.
pub const INVALID_HANDLE_INDEX: i16 = -1;

/// The low sixteen bits of a handle, read as a signed number.
pub open spec fn handler_index_of(handle: HALHandle) -> i16 {
    let low = raw_bits(handle) % 0x1_0000;
    if low >= 0x8000 {
        (low - 0x1_0000) as i16
    } else {
        low as i16
    }
}

/// The kind that the top byte of a handle names; `Undefined` where that byte
/// is above 17.
pub open spec fn handle_type_of(handle: HALHandle) -> HandleType {
    HandleType::of_code(raw_bits(handle) / 0x100_0000)
}

/// The byte of a handle that starts at bit `8 * place`.
pub open spec fn handle_byte(handle: HALHandle, place: nat) -> int {
    if place == 0 {
        raw_bits(handle) % 0x100
    } else if place == 1 {
        (raw_bits(handle) / 0x100) % 0x100
    } else if place == 2 {
        (raw_bits(handle) / 0x1_0000) % 0x100
    } else {
        raw_bits(handle) / 0x100_0000
    }
}

/// The handle of `channel` on `module`.
pub open spec fn port_handle_of(channel: u8, module: u8) -> HALPortHandle {
    (HandleType::Port.code() * 0x100_0000 + module * 0x100 + channel) as i32
}

/// The handle of `channel` on `module` in the form used for SPI, with the
/// module one byte higher.
pub open spec fn spi_port_handle_of(channel: u8, module: u8) -> HALPortHandle {
    (HandleType::Port.code() * 0x100_0000 + module * 0x1_0000 + channel) as i32
}

/// The handle of the resource of kind `handle_type` at `index`, or the
/// invalid handle where the index is negative or the kind is `Undefined`.
pub open spec fn handle_of(index: i16, handle_type: HandleType) -> HALHandle {
    if index < 0 || handle_type == HandleType::Undefined {
        INVALID_HANDLE
    } else {
        (handle_type.code() * 0x100_0000 + index) as i32
    }
}

/// The low sixteen bits of a handle.
pub fn get_handler_index(handle: HALHandle) -> (index: i16)
    ensures
        index == handler_index_of(handle),
{
    let bits: u32 = bits_of(handle);
    let low: u32 = bits & 0xffff;
    assert(low == bits % 0x1_0000) by (bit_vector)
        requires
            low == bits & 0xffff,
    ;
    if low >= 0x8000 {
        let below: u32 = 0x1_0000 - low;
        -((below - 1) as i16) - 1
    } else {
        low as i16
    }
}

/// The kind of a handle, read from its top byte; `Undefined` where that byte
/// names no kind.
pub fn get_handle_type(handle: HALHandle) -> (handle_type: HandleType)
    ensures
        handle_type == handle_type_of(handle),
{
    let bits: u32 = bits_of(handle);
    let top: u32 = (bits >> 24) & 0xff;
    assert(top == bits / 0x100_0000) by (bit_vector)
        requires
            top == (bits >> 24) & 0xff,
    ;
    match top {
        0 => HandleType::Undefined,
        1 => HandleType::DIO,
        2 => HandleType::Port,
        3 => HandleType::Notifier,
        4 => HandleType::Interrupt,
        5 => HandleType::AnalogOutput,
        6 => HandleType::AnalogInput,
        7 => HandleType::AnalogTrigger,
        8 => HandleType::Relay,
        9 => HandleType::PWM,
        10 => HandleType::DigitalPWM,
        11 => HandleType::Counter,
        12 => HandleType::FPGAEncoder,
        13 => HandleType::Encoder,
        14 => HandleType::Compressor,
        15 => HandleType::Solenoid,
        16 => HandleType::AnalogGyro,
        17 => HandleType::Vendor,
        _ => HandleType::Undefined,
    }
}

/// Whether a handle is of the given kind.
pub fn is_handle_type(handle: HALHandle, handle_type: HandleType) -> (same: bool)
    ensures
        same == (handle_type == handle_type_of(handle)),
{
    handle_type == get_handle_type(handle)
}

/// The index of a handle that is of the given kind, and -1 for any other
/// handle.
pub fn get_handle_typed_index(handle: HALHandle, handle_type: HandleType) -> (index: i16)
    ensures
        handle_type == handle_type_of(handle) ==> index == handler_index_of(handle),
        handle_type != handle_type_of(handle) ==> index == INVALID_HANDLE_INDEX,
{
    if !is_handle_type(handle, handle_type) {
        return INVALID_HANDLE_INDEX;
    }
    get_handler_index(handle)
}

/// The byte of a handle that starts at bit `8 * place`, for a place from 0
/// to 2.
fn byte_at(handle: HALHandle, place: u32) -> (byte: i16)
    requires
        place <= 2,
    ensures
        byte == handle_byte(handle, place as nat),
{
    let bits: u32 = bits_of(handle);
    let byte: u32 = (bits >> (8 * place)) & 0xff;
    assert(byte == if place == 0 {
        bits % 0x100
    } else if place == 1 {
        (bits / 0x100) % 0x100
    } else {
        (bits / 0x1_0000) % 0x100
    }) by (bit_vector)
        requires
            place <= 2,
            byte == (bits >> (8 * place)) & 0xff,
    ;
    byte as i16
}

/// The channel of a port handle: its lowest byte. For a handle that is not
/// of kind `Port` the result is -1.
pub fn get_port_handle_channel(handle: HALPortHandle) -> (channel: i16)
    ensures
        handle_type_of(handle) == HandleType::Port ==> channel == handle_byte(handle, 0),
        handle_type_of(handle) != HandleType::Port ==> channel == INVALID_HANDLE_INDEX,
{
    if !is_handle_type(handle, HandleType::Port) {
        return INVALID_HANDLE_INDEX;
    }
    byte_at(handle, 0)
}

/// The module of a port handle: its second byte. For a handle that is not of
/// kind `Port` the result is -1.
pub fn get_port_handle_module(handle: HALPortHandle) -> (module: i16)
    ensures
        handle_type_of(handle) == HandleType::Port ==> module == handle_byte(handle, 1),
        handle_type_of(handle) != HandleType::Port ==> module == INVALID_HANDLE_INDEX,
{
    if !is_handle_type(handle, HandleType::Port) {
        return INVALID_HANDLE_INDEX;
    }
    byte_at(handle, 1)
}

/// The module of a port handle made for SPI: its third byte. For a handle
/// that is not of kind `Port` the result is -1.
pub fn get_port_handle_module_spi_enable(handle: HALPortHandle) -> (module: i16)
    ensures
        handle_type_of(handle) == HandleType::Port ==> module == handle_byte(handle, 2),
        handle_type_of(handle) != HandleType::Port ==> module == INVALID_HANDLE_INDEX,
{
    if !is_handle_type(handle, HandleType::Port) {
        return INVALID_HANDLE_INDEX;
    }
    byte_at(handle, 2)
}

/// Makes the handle of `channel` on `module`: kind `Port` in the top byte,
/// the module in the second byte and the channel in the lowest.
pub fn create_port_handle(channel: u8, module: u8) -> (handle: HALPortHandle)
    ensures
        handle == port_handle_of(channel, module),
{
    let mut handle: i32 = HandleType::Port.to_u8() as i32;
    handle = handle * 0x100_0000;
    handle += (module as i32) * 0x100 + channel as i32;
    handle
}

/// Makes the handle of `channel` on `module` in the form used for SPI: kind
/// `Port` in the top byte, the module in the third byte and the channel in
/// the lowest.
pub fn create_port_handle_for_spi(channel: u8, module: u8) -> (handle: HALPortHandle)
    ensures
        handle == spi_port_handle_of(channel, module),
{
    let mut handle: i32 = HandleType::Port.to_u8() as i32;
    handle = handle * 0x1_0000;
    handle += (module as i32) * 0x100;
    handle = handle * 0x100;
    handle += channel as i32;
    handle
}

/// Makes the handle of the resource of kind `handle_type` at `index`. A
/// negative index and the kind `Undefined` give the invalid handle.
pub fn create_handle(index: i16, handle_type: HandleType) -> (handle: HALHandle)
    ensures
        handle == handle_of(index, handle_type),
{
    if index < 0 {
        return INVALID_HANDLE;
    }
    let code: u8 = handle_type.to_u8();
    if code == 0 || code > 127 {
        return INVALID_HANDLE;
    }
    let mut handle: i32 = code as i32;
    handle = handle * 0x100_0000;
    handle += index as i32;
    handle
}

/// What is put into a port handle is read back from it: its kind is `Port`,
/// and channel and module are the ones it was made of.
pub proof fn lemma_port_handle_reads_back(channel: u8, module: u8)
    ensures
        handle_type_of(port_handle_of(channel, module)) == HandleType::Port,
        handle_byte(port_handle_of(channel, module), 0) == channel,
        handle_byte(port_handle_of(channel, module), 1) == module,
        handle_type_of(spi_port_handle_of(channel, module)) == HandleType::Port,
        handle_byte(spi_port_handle_of(channel, module), 0) == channel,
        handle_byte(spi_port_handle_of(channel, module), 2) == module,
{
}

/// What is put into a handle is read back from it: a handle made of an index
/// that is not negative and of a kind other than `Undefined` has that kind
/// and that index, and is not the invalid handle.
pub proof fn lemma_handle_reads_back(index: i16, handle_type: HandleType)
    requires
        index >= 0,
        handle_type != HandleType::Undefined,
    ensures
        handle_type_of(handle_of(index, handle_type)) == handle_type,
        handler_index_of(handle_of(index, handle_type)) == index,
        handle_of(index, handle_type) != INVALID_HANDLE,
{
}

/// The invalid handle has no kind: it reads as `Undefined`.
pub proof fn lemma_invalid_handle_is_undefined()
    ensures
        handle_type_of(INVALID_HANDLE) == HandleType::Undefined,
{
}

} // verus!
