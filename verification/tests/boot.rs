use uvm_shim::boot::{bootstrap, BootConfig, SELF_TEST_PATTERN};
use uvm_shim::devices::{MemBlockDevice, MemConsole, SimulatedKernelEntry};
use uvm_shim::hal::{BlockDevice, PlatformInfo};

fn config() -> BootConfig {
    BootConfig {
        console_handle: 1,
        disk_handle: 2,
        memory_size_bytes: 536870912,
        cpu_cores: 4,
        self_test_sector_size: 512,
    }
}

#[test]
fn end_to_end_boot_scenario() {
    let mut console = MemConsole::new();
    let mut disk = MemBlockDevice::new(1024, 512);
    let mut entry = SimulatedKernelEntry::new();

    let outcome = bootstrap(&mut console, &mut disk, &mut entry, &config());

    assert!(outcome.self_test_passed);
    assert_eq!(
        outcome.info,
        PlatformInfo { console: 1, disk: 2, memory_size_bytes: 536870912, cpu_cores: 4 }
    );
    assert_eq!(entry.handed(), Some(outcome.info));

    // The self-test pattern reached sector 0.
    let mut sector = vec![0u8; 512];
    assert_eq!(disk.read_sector(0, &mut sector), Ok(512));
    assert_eq!(sector[0], SELF_TEST_PATTERN);
    assert_eq!(sector, vec![SELF_TEST_PATTERN; 512]);

    // The last valid sector is still zero; the first invalid one fails.
    let mut last = vec![0xFFu8; 512];
    assert_eq!(disk.read_sector(1023, &mut last), Ok(512));
    assert_eq!(last, vec![0u8; 512]);
    let mut past = vec![0u8; 512];
    assert!(disk.read_sector(1024, &mut past).is_err());

    let transcript = String::from_utf8(console.take_output()).unwrap();
    assert!(transcript.contains("boot sequence starting"));
    assert!(transcript.contains("disk self-test ok"));
    assert!(transcript.contains("handing off to kernel"));
}

#[test]
fn self_test_failure_is_reported_but_does_not_block_handoff() {
    let mut console = MemConsole::new();
    // Too small for even one self-test sector.
    let mut disk = MemBlockDevice::new(0, 512);
    let mut entry = SimulatedKernelEntry::new();

    let outcome = bootstrap(&mut console, &mut disk, &mut entry, &config());

    assert!(!outcome.self_test_passed);
    assert_eq!(entry.handed(), Some(outcome.info), "hand-off must still happen");

    let transcript = String::from_utf8(console.take_output()).unwrap();
    assert!(transcript.contains("disk self-test failed"));
    assert!(transcript.contains("handing off to kernel"));
}

#[test]
fn fresh_entry_point_records_nothing() {
    let entry = SimulatedKernelEntry::new();
    assert_eq!(entry.handed(), None);
}
