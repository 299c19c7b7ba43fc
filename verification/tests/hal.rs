use uvm_shim::devices::{bytes_filled, MemBlockDevice, MemConsole};
use uvm_shim::hal::{BlockDevice, Console, HalError, PlatformInfo};

#[test]
fn bytes_filled_makes_the_requested_pattern() {
    let v = bytes_filled(5, 0x42);
    assert_eq!(v, vec![0x42u8; 5]);
    let empty = bytes_filled(0, 0x42);
    assert!(empty.is_empty());
}

#[test]
fn new_device_is_zero_filled() {
    let d = MemBlockDevice::new(4, 8);
    let mut buf = vec![0xFFu8; 8];
    for lba in 0..4u64 {
        assert_eq!(d.read_sector(lba, &mut buf), Ok(8));
        assert_eq!(buf, vec![0u8; 8]);
        buf = vec![0xFFu8; 8];
    }
}

#[test]
fn sector_round_trip_returns_what_was_written() {
    let mut d = MemBlockDevice::new(16, 32);
    let pattern: Vec<u8> = (0..32u8).collect();
    assert_eq!(d.write_sector(7, &pattern), Ok(32));
    let mut out = vec![0u8; 32];
    assert_eq!(d.read_sector(7, &mut out), Ok(32));
    assert_eq!(out, pattern);
}

#[test]
fn out_of_range_read_and_write_fail_without_effect() {
    let mut d = MemBlockDevice::new(4, 8);
    let pattern = vec![0x55u8; 8];
    assert_eq!(d.write_sector(4, &pattern), Err(HalError::NotSupported));
    assert_eq!(d.write_sector(u64::MAX, &pattern), Err(HalError::NotSupported));

    let mut out = vec![0x77u8; 8];
    assert_eq!(d.read_sector(4, &mut out), Err(HalError::NotSupported));
    assert_eq!(out, vec![0x77u8; 8], "a failed read must leave the buffer alone");

    let mut sector = vec![0xFFu8; 8];
    for lba in 0..4u64 {
        assert_eq!(d.read_sector(lba, &mut sector), Ok(8));
        assert_eq!(sector, vec![0u8; 8], "failed writes must not touch the device");
    }
}

#[test]
fn oversized_sector_fails_the_capacity_check() {
    let mut d = MemBlockDevice::new(4, 8);
    let too_big = vec![0xAAu8; 33];
    assert_eq!(d.write_sector(0, &too_big), Err(HalError::NotSupported));
    let mut out = vec![0u8; 33];
    assert_eq!(d.read_sector(0, &mut out), Err(HalError::NotSupported));
}

#[test]
fn zero_length_buffers_are_rejected_as_out_of_range() {
    let mut d = MemBlockDevice::new(4, 8);
    let empty: Vec<u8> = Vec::new();
    assert_eq!(d.write_sector(0, &empty), Err(HalError::NotSupported));
    let mut out: Vec<u8> = Vec::new();
    assert_eq!(d.read_sector(0, &mut out), Err(HalError::NotSupported));
    assert!(out.is_empty());
}

#[test]
fn console_write_accepts_any_bytes() {
    let mut c = MemConsole::new();
    c.write_bytes(b"plain text\n");
    c.write_bytes(&[0xFF, 0xFE, 0x00, 0x80, 0xC3]);
    c.write_bytes(&[]);
    let out = c.take_output();
    let mut expected = b"plain text\n".to_vec();
    expected.extend_from_slice(&[0xFF, 0xFE, 0x00, 0x80, 0xC3]);
    assert_eq!(out, expected);
}

#[test]
fn console_has_no_input_source() {
    let mut c = MemConsole::new();
    assert_eq!(c.read_byte(), None);
    c.write_bytes(b"output is not input");
    assert_eq!(c.read_byte(), None);
}

#[test]
fn take_output_drains_the_console() {
    let mut c = MemConsole::new();
    c.write_bytes(b"once");
    assert_eq!(c.take_output(), b"once".to_vec());
    assert_eq!(c.take_output(), Vec::<u8>::new());
}

#[test]
fn platform_info_keeps_the_exact_values() {
    let info = PlatformInfo::new(3, 9, 536870912, 4);
    assert_eq!(info.console, 3);
    assert_eq!(info.disk, 9);
    assert_eq!(info.memory_size_bytes, 536870912);
    assert_eq!(info.cpu_cores, 4);
}
