use frcredox_hal::hal::handle::HandleType;
use frcredox_hal::hal::internal::handle::{
    create_handle, create_port_handle, create_port_handle_for_spi, get_handle_type,
    get_handle_typed_index, get_handler_index, get_port_handle_channel, get_port_handle_module,
    get_port_handle_module_spi_enable, is_handle_type, INVALID_HANDLE_INDEX,
};
use frcredox_hal::hal::internal::types::INVALID_HANDLE;

#[test]
fn create_handle_exact_value() {
    assert_eq!(create_handle(0x0501, HandleType::PWM), 0x0900_0501);
    assert_eq!(create_handle(0, HandleType::DIO), 0x0100_0000);
    assert_eq!(create_handle(i16::MAX, HandleType::Vendor), 0x1100_7fff);
}

#[test]
fn create_handle_rejects_negative_index_and_undefined() {
    assert_eq!(create_handle(-1, HandleType::PWM), INVALID_HANDLE);
    assert_eq!(create_handle(i16::MIN, HandleType::PWM), INVALID_HANDLE);
    assert_eq!(create_handle(5, HandleType::Undefined), INVALID_HANDLE);
    assert_eq!(INVALID_HANDLE, 0);
}

#[test]
fn created_handle_reads_back() {
    let handle = create_handle(77, HandleType::Solenoid);
    assert_eq!(get_handle_type(handle), HandleType::Solenoid);
    assert_eq!(get_handler_index(handle), 77);
    assert!(is_handle_type(handle, HandleType::Solenoid));
    assert!(!is_handle_type(handle, HandleType::Relay));
    assert_eq!(get_handle_typed_index(handle, HandleType::Solenoid), 77);
    assert_eq!(get_handle_typed_index(handle, HandleType::Relay), INVALID_HANDLE_INDEX);
    assert_eq!(INVALID_HANDLE_INDEX, -1);
}

#[test]
fn handle_type_of_unknown_top_byte_is_undefined() {
    assert_eq!(get_handle_type(0x1200_0000), HandleType::Undefined);
    assert_eq!(get_handle_type(0x7f00_0001), HandleType::Undefined);
    assert_eq!(get_handle_type(-1), HandleType::Undefined);
    assert_eq!(get_handle_type(0x8900_0000u32 as i32), HandleType::Undefined);
    assert_eq!(get_handle_type(0), HandleType::Undefined);
    assert_eq!(get_handle_type(0x1100_0000), HandleType::Vendor);
}

#[test]
fn handler_index_is_low_sixteen_bits_signed() {
    assert_eq!(get_handler_index(0x0900_7fff), 0x7fff);
    assert_eq!(get_handler_index(0x0900_8000), i16::MIN);
    assert_eq!(get_handler_index(0x0900_ffff), -1);
    assert_eq!(get_handler_index(-1), -1);
    assert_eq!(get_handler_index(0x0901_0002), 2);
}

#[test]
fn port_handle_exact_value() {
    assert_eq!(create_port_handle(5, 1), 0x0200_0105);
    assert_eq!(create_port_handle(255, 255), 0x0200_ffff);
    assert_eq!(create_port_handle_for_spi(5, 1), 0x0201_0005);
    assert_eq!(create_port_handle_for_spi(255, 255), 0x02ff_00ff);
}

#[test]
fn port_handle_reads_back() {
    for channel in [0u8, 1, 24, 127, 128, 255] {
        for module in [0u8, 1, 7, 128, 255] {
            let handle = create_port_handle(channel, module);
            assert_eq!(get_handle_type(handle), HandleType::Port);
            assert_eq!(get_port_handle_channel(handle), channel as i16);
            assert_eq!(get_port_handle_module(handle), module as i16);
            let spi = create_port_handle_for_spi(channel, module);
            assert_eq!(get_handle_type(spi), HandleType::Port);
            assert_eq!(get_port_handle_channel(spi), channel as i16);
            assert_eq!(get_port_handle_module_spi_enable(spi), module as i16);
        }
    }
}

#[test]
fn port_getters_reject_other_kinds() {
    let handle = create_handle(0x0105, HandleType::PWM);
    assert_eq!(get_port_handle_channel(handle), -1);
    assert_eq!(get_port_handle_module(handle), -1);
    assert_eq!(get_port_handle_module_spi_enable(handle), -1);
    assert_eq!(get_port_handle_channel(INVALID_HANDLE), -1);
    let flagged = create_port_handle(5, 1) | i32::MIN;
    assert_eq!(get_port_handle_channel(flagged), -1);
}
