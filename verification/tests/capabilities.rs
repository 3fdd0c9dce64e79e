use booters_core::boot_alloc::{alloc_error_handler, DummyAlloc};
use booters_core::boot_modes::{BootSlot, Fastboot, FastbootController, FastbootState};
use booters_core::devices::{EmmcStorageProvider, RamDevice, SdStorageProvider};
use booters_core::errors::StorageError;
use booters_core::low_level::{BaseCpuProvider, BromInfo, BromProvider, CpuInfo, Endianness};
use booters_core::partition::{BasePartitionProvider, Partition};
use booters_core::storage::{BaseStorageDeviceProvider, BaseStorageIoProvider};

fn part(label: &str, fs: &str, sb_valid: bool, is_clean: bool, is_open: bool, is_rw: bool) -> Partition {
    Partition::new(
        label.to_string(),
        "0fc63daf-8483-4772-8e79-3d69d8477de4".to_string(),
        gpt::partition_types::LINUX_FS,
        fs.to_string(),
        sb_valid,
        is_clean,
        is_open,
        is_rw,
    )
}

fn device(present: bool, forbidden: bool) -> RamDevice {
    RamDevice::new(
        vec![
            part("boot", "ext4", true, true, false, false),
            part("userdata", "f2fs", true, false, false, true),
            part("cache", "ext4", false, true, false, true),
        ],
        vec!["userdata/x".to_string(), "cache/log".to_string()],
        present,
        forbidden,
        true,
        false,
        3300,
    )
}

#[test]
fn partition_derived_predicates_negate() {
    let p = part("boot", "ext4", true, false, true, false);
    assert_eq!(p.is_dirty(), !p.is_clean());
    assert_eq!(p.is_closed(), !p.is_open());
    assert_eq!(p.is_ro(), !p.is_rw());
    let q = part("boot", "ext4", true, true, false, true);
    assert_eq!(q.is_dirty(), !q.is_clean());
    assert_eq!(q.is_closed(), !q.is_open());
    assert_eq!(q.is_ro(), !q.is_rw());
}

#[test]
fn partition_accessors() {
    let p = part("boot", "ext4", true, true, false, false);
    assert_eq!(p.get_label(), "boot");
    assert_eq!(p.gpt_part_guid(), "0fc63daf-8483-4772-8e79-3d69d8477de4");
    assert_eq!(*p.gpt_part_type(), gpt::partition_types::LINUX_FS);
    assert_eq!(p.fs_type(), "ext4");
    assert!(p.superblock_valid());
}

#[test]
fn partition_superblock_probe() {
    let p = part("boot", "f2fs", true, true, false, false);
    assert!(p.test_super_block(None));
    assert!(p.test_super_block(Some("f2fs")));
    assert!(!p.test_super_block(Some("ext4")));
    let bad = part("boot", "f2fs", false, true, false, false);
    assert!(!bad.test_super_block(None));
    assert!(!bad.test_super_block(Some("f2fs")));
}

#[test]
fn device_open_hands_out_open_handle() {
    let d = device(true, false);
    let p = match d.open("boot", Some("ext4")) {
        Ok(p) => p,
        Err(e) => panic!("open failed: {:?}", e),
    };
    assert_eq!(p.get_label(), "boot");
    assert!(p.is_open());
    assert!(!p.is_closed());
    assert_eq!(*p.gpt_part_type(), gpt::partition_types::LINUX_FS);
}

#[test]
fn device_open_without_hint_skips_verification() {
    let d = device(true, false);
    // "cache" has an invalid superblock, but no hint was given.
    let p = match d.open("cache", None) {
        Ok(p) => p,
        Err(e) => panic!("open failed: {:?}", e),
    };
    assert!(p.is_open());
    assert!(!p.superblock_valid());
}

#[test]
fn device_open_not_found() {
    let d = device(true, false);
    assert!(matches!(d.open("recovery", None), Err(StorageError::NotFound)));
}

#[test]
fn device_open_unsupported_filesystem() {
    let d = device(true, false);
    assert!(matches!(
        d.open("userdata", Some("ext4")),
        Err(StorageError::UnsupportedFilesystem)
    ));
}

#[test]
fn device_open_corrupt_filesystem() {
    let d = device(true, false);
    assert!(matches!(
        d.open("cache", Some("ext4")),
        Err(StorageError::CorruptFilesystem)
    ));
}

#[test]
fn device_open_unavailable() {
    let d = device(false, false);
    assert!(matches!(d.open("boot", None), Err(StorageError::DeviceUnavailable)));
}

#[test]
fn probe_mismatch_reports_false_and_does_not_open() {
    let d = device(true, false);
    // "boot" is really ext4; probing for f2fs fails...
    assert!(!d.test_super_block("boot", Some("f2fs")));
    assert!(d.test_super_block("boot", Some("ext4")));
    // ...and probing opened nothing: a later open still hands out the
    // partition, and the probe itself could not have mutated the device
    // (it only borrows it).
    let p = d.open("boot", None).ok().unwrap();
    assert!(p.is_open());
}

#[test]
fn probe_unknown_or_absent() {
    let d = device(true, false);
    assert!(!d.test_super_block("recovery", Some("ext4")));
    let gone = device(false, false);
    assert!(!gone.test_super_block("boot", Some("ext4")));
}

#[test]
fn forbidden_device_denies_every_write() {
    // The device is forbidden while the "userdata" partition itself is
    // read-write: device-level protection binds.
    let mut d = device(true, true);
    let p = d.open("userdata", None).ok().unwrap();
    assert!(p.is_rw());
    assert!(matches!(d.open_file("userdata/x"), Err(StorageError::PermissionDenied)));
    assert!(matches!(d.delete_file("userdata/x"), Err(StorageError::PermissionDenied)));
    assert!(matches!(
        d.rename_file("userdata/x", "userdata/y"),
        Err(StorageError::PermissionDenied)
    ));
    // The write-protection predicates agree with the flag.
    assert!(d.is_forbidden());
    assert!(d.is_write_protected());
    assert!(!d.is_permitted());
}

#[test]
fn permitted_device_file_operations() {
    let mut d = device(true, false);
    assert!(matches!(d.open_file("userdata/x"), Ok(())));
    assert!(matches!(d.open_file("nope"), Err(StorageError::NotFound)));
    assert!(matches!(d.delete_file("userdata/x"), Ok(())));
    assert!(matches!(d.open_file("userdata/x"), Err(StorageError::NotFound)));
    assert!(matches!(d.delete_file("userdata/x"), Err(StorageError::NotFound)));
}

#[test]
fn rename_file_moves_the_path() {
    let mut d = device(true, false);
    assert!(matches!(d.rename_file("cache/log", "cache/log.old"), Ok(())));
    assert!(matches!(d.open_file("cache/log"), Err(StorageError::NotFound)));
    assert!(matches!(d.open_file("cache/log.old"), Ok(())));
    assert!(matches!(
        d.rename_file("cache/log", "cache/renamed"),
        Err(StorageError::NotFound)
    ));
}

#[test]
fn file_operations_on_absent_medium() {
    let mut d = device(false, false);
    assert!(matches!(d.open_file("userdata/x"), Err(StorageError::DeviceUnavailable)));
    assert!(matches!(d.delete_file("userdata/x"), Err(StorageError::DeviceUnavailable)));
    assert!(matches!(
        d.rename_file("userdata/x", "userdata/y"),
        Err(StorageError::DeviceUnavailable)
    ));
}

#[test]
fn sync_is_idempotent_without_intervening_writes() {
    let mut d = device(true, false);
    assert!(matches!(d.delete_file("userdata/x"), Ok(())));
    assert!(matches!(d.delete_file("cache/log"), Ok(())));
    assert_eq!(d.pending_write_count(), 2);
    assert_eq!(d.durable_write_count(), 0);
    d.sync();
    assert_eq!(d.pending_write_count(), 0);
    assert_eq!(d.durable_write_count(), 2);
    d.sync();
    assert_eq!(d.pending_write_count(), 0);
    assert_eq!(d.durable_write_count(), 2);
}

#[test]
fn sd_capabilities() {
    let d = device(true, false);
    assert_eq!(d.get_sd_voltage(), 3300);
    assert!(!SdStorageProvider::is_rom_storage(&d));
    assert!(!EmmcStorageProvider::is_rom_storage(&d));
    assert!(d.is_userdata());
}

#[test]
fn fastboot_slot_none_is_a_only() {
    let c = FastbootController::new(BootSlot::NoSlot, "demo-board", "acme");
    assert_eq!(c.current_slot(), None);
    assert!(!c.is_ab_device());
    assert!(c.is_a_only_device());
    assert!(!c.current_slot_is_a());
    assert!(!c.current_slot_is_b());
}

#[test]
fn fastboot_slot_letters() {
    let a = FastbootController::new(BootSlot::A, "demo-board", "acme");
    assert_eq!(a.current_slot(), Some('a'));
    assert!(a.current_slot_is_a());
    assert!(!a.current_slot_is_b());
    assert!(a.is_ab_device());
    assert!(!a.is_a_only_device());
    let b = FastbootController::new(BootSlot::B, "demo-board", "acme");
    assert_eq!(b.current_slot(), Some('b'));
    assert!(!b.current_slot_is_a());
    assert!(b.current_slot_is_b());
    assert!(b.is_ab_device());
}

#[test]
fn fastboot_names() {
    let c = FastbootController::new(BootSlot::A, "demo-board", "acme");
    assert_eq!(c.get_product_name(), "demo-board");
    assert_eq!(c.get_manufacturer_name(), "acme");
}

#[test]
fn fastboot_happy_path_reaches_flashing_and_returns() {
    let mut c = FastbootController::new(BootSlot::A, "demo-board", "acme");
    assert_eq!(c.state(), FastbootState::Idle);
    c.sample(true, false, true, false);
    c.step(false);
    assert_eq!(c.state(), FastbootState::UsbConnected);
    c.sample(true, true, true, false);
    c.step(false);
    assert_eq!(c.state(), FastbootState::Transmitting);
    c.step(true);
    assert_eq!(c.state(), FastbootState::Flashing);
    c.step(false);
    assert_eq!(c.state(), FastbootState::Idle);
}

#[test]
fn fastboot_usb_disconnect_resets_to_idle() {
    let mut c = FastbootController::new(BootSlot::A, "demo-board", "acme");
    c.sample(true, false, true, false);
    c.step(false);
    c.sample(true, true, true, false);
    c.step(false);
    assert_eq!(c.state(), FastbootState::Transmitting);
    // USB drops mid-transmission; the next sampled transition must reset to
    // Idle, not reach Flashing.
    c.sample(false, true, true, false);
    c.step(true);
    assert_eq!(c.state(), FastbootState::Idle);
}

#[test]
fn fastboot_forbidden_target_blocks_flashing() {
    let mut c = FastbootController::new(BootSlot::A, "demo-board", "acme");
    c.sample(true, true, true, true);
    assert!(!c.is_storage_available());
    c.step(false);
    c.step(false);
    assert_eq!(c.state(), FastbootState::Transmitting);
    // The raw ready signal is up, but the target device is forbidden, so the
    // flash command fails its transition.
    c.step(true);
    assert_eq!(c.state(), FastbootState::Transmitting);
}

#[test]
fn fastboot_signal_sampling() {
    let mut c = FastbootController::new(BootSlot::A, "demo-board", "acme");
    assert!(!c.is_usb_connected());
    assert!(!c.is_tx_in_progress());
    assert!(!c.is_storage_available());
    c.sample(true, true, true, false);
    assert!(c.is_usb_connected());
    assert!(c.is_tx_in_progress());
    assert!(c.is_storage_available());
}

#[test]
fn cpu_introspection() {
    let cpu = CpuInfo::new(Endianness::Little, 8);
    assert_eq!(cpu.get_endianness(), Endianness::Little);
    assert_eq!(cpu.get_num_cores(), 8);
    let single = CpuInfo::new(Endianness::Undefined, 1);
    assert_eq!(single.get_num_cores(), 1);
    assert_eq!(Endianness::default(), Endianness::Undefined);
}

#[test]
fn brom_introspection() {
    let brom = BromInfo::new("brom v2.4");
    assert_eq!(brom.get_brom_version(), "brom v2.4");
}

#[test]
fn error_names() {
    assert_eq!(StorageError::NotFound.name(), "not found");
    assert_eq!(StorageError::UnsupportedFilesystem.name(), "unsupported filesystem");
    assert_eq!(StorageError::CorruptFilesystem.name(), "corrupt filesystem");
    assert_eq!(StorageError::PermissionDenied.name(), "permission denied");
    assert_eq!(StorageError::DeviceUnavailable.name(), "device unavailable");
}

#[test]
fn dummy_alloc_always_fails() {
    let a = DummyAlloc;
    assert_eq!(a.allocate(64, 8), None);
    assert_eq!(a.allocate(0, 1), None);
    let fault = alloc_error_handler(4096, 16);
    assert_eq!(fault.size, 4096);
    assert_eq!(fault.align, 16);
}
