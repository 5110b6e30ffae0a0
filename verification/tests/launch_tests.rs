use simplevm::orchestrator::{LaunchStep, Orchestrator, Phase};
use simplevm::storage::StorageBuilder;
use simplevm::terminal::{disable_console_flags, TermAttrs};
use simplevm::topology::{assemble, build_console_device, validate, ValidationError};
use simplevm::vmspec::{build_boot_loader, locally_administered_mac};

fn sample_boot() -> simplevm::vmspec::BootLoaderDescriptor {
    build_boot_loader(
        "/boot/vmlinux".to_string(),
        "/boot/initrd.img".to_string(),
        "console=hvc0".to_string(),
    )
}

fn attach_all(paths: Vec<&str>) -> StorageBuilder {
    let mut builder = StorageBuilder::new(paths.iter().map(|p| p.to_string()).collect());
    while let Some(path) = builder.next_path() {
        builder.record_attached(format!("/resolved{}", path));
    }
    builder
}

#[test]
fn boot_loader_passes_fields_through_verbatim() {
    let boot = build_boot_loader("/k".to_string(), "/i".to_string(), "quiet 3".to_string());
    assert_eq!(boot.kernel, "/k");
    assert_eq!(boot.initrd, "/i");
    assert_eq!(boot.command_line, "quiet 3");
}

#[test]
fn storage_builder_attaches_every_disk_in_order() {
    let builder = attach_all(vec!["a.img", "b.img", "c.img"]);
    let devices = builder.into_devices();
    assert_eq!(devices.len(), 3);
    assert_eq!(devices[0].path, "/resolveda.img");
    assert_eq!(devices[1].path, "/resolvedb.img");
    assert_eq!(devices[2].path, "/resolvedc.img");
    assert!(devices.iter().all(|d| !d.read_only));
}

#[test]
fn storage_builder_with_no_disks_is_complete_at_once() {
    let builder = StorageBuilder::new(Vec::new());
    assert!(builder.next_path().is_none());
    assert!(builder.into_devices().is_empty());
}

#[test]
fn storage_failure_names_first_bad_path_and_stops() {
    let mut builder = StorageBuilder::new(vec![
        "good.img".to_string(),
        "bad.img".to_string(),
        "never-tried.img".to_string(),
    ]);
    let first = builder.next_path().unwrap();
    assert_eq!(first, "good.img");
    builder.record_attached("/abs/good.img".to_string());
    let second = builder.next_path().unwrap();
    assert_eq!(second, "bad.img");
    builder.record_failure("image is locked".to_string());
    assert!(builder.next_path().is_none());
    let err = builder.into_error();
    assert_eq!(err.index, 1);
    assert_eq!(err.path, "bad.img");
    assert_eq!(err.cause, "image is locked");
}

#[test]
fn assembled_topology_has_the_fixed_device_shape() {
    let mac = locally_administered_mac([0x55, 1, 2, 3, 4, 5]);
    let console = build_console_device(0, 1);
    let devices = attach_all(vec!["a.img", "b.img"]).into_devices();
    let config = assemble(sample_boot(), 2, 2147483648, mac, console, devices);
    assert_eq!(config.entropy_devices.len(), 1);
    assert_eq!(config.balloon_devices.len(), 1);
    assert_eq!(config.network_devices.len(), 1);
    assert!(config.network_devices[0].nat);
    assert_eq!(config.serial_ports.len(), 1);
    assert_eq!(config.serial_ports[0].read_fd, 0);
    assert_eq!(config.serial_ports[0].write_fd, 1);
    assert_eq!(config.storage_devices.len(), 2);
    assert_eq!(config.storage_devices[0].path, "/resolveda.img");
    assert_eq!(config.storage_devices[1].path, "/resolvedb.img");
}

#[test]
fn mac_address_is_locally_administered_unicast() {
    let mac = locally_administered_mac([0xff, 0xaa, 0xbb, 0xcc, 0xdd, 0xee]);
    assert_eq!(mac.octets[0] & 0x01, 0);
    assert_eq!(mac.octets[0] & 0x02, 0x02);
    assert_eq!(mac.octets[0], 0xfe);
    assert_eq!(&mac.octets[1..], &[0xaa, 0xbb, 0xcc, 0xdd, 0xee]);

    let mac = locally_administered_mac([0x00, 0, 0, 0, 0, 0]);
    assert_eq!(mac.octets[0], 0x02);
}

#[test]
fn validation_accepts_the_assembled_shape() {
    let mac = locally_administered_mac([7; 6]);
    let console = build_console_device(0, 1);
    let config = assemble(sample_boot(), 2, 2147483648, mac, console, Vec::new());
    assert!(validate(&config).is_ok());
}

#[test]
fn validation_rejects_zero_cpu_then_zero_memory() {
    let mac = locally_administered_mac([7; 6]);
    let console = build_console_device(0, 1);
    let config = assemble(sample_boot(), 0, 2147483648, mac, console, Vec::new());
    assert!(matches!(validate(&config), Err(ValidationError::ZeroCpuCount)));

    let console = build_console_device(0, 1);
    let config = assemble(sample_boot(), 2, 0, mac, console, Vec::new());
    assert!(matches!(validate(&config), Err(ValidationError::ZeroMemorySize)));
}

#[test]
fn validation_rejects_a_broken_device_shape() {
    let mac = locally_administered_mac([7; 6]);
    let console = build_console_device(0, 1);
    let mut config = assemble(sample_boot(), 2, 2147483648, mac, console, Vec::new());
    config.network_devices.clear();
    assert!(matches!(validate(&config), Err(ValidationError::DeviceShape)));
}

#[test]
fn validation_errors_describe_themselves() {
    assert_eq!(ValidationError::ZeroCpuCount.describe(), "cpu count must be positive");
    assert_eq!(ValidationError::ZeroMemorySize.describe(), "memory size must be positive");
    assert_eq!(
        ValidationError::DeviceShape.describe(),
        "device topology has an unexpected shape"
    );
}

#[test]
fn console_flags_are_cleared_and_nothing_else() {
    // Flag-word layout of a common platform: ICRNL 0x100, ICANON 0x2, ECHO 0x8.
    let before = TermAttrs { iflag: 0x51ff, lflag: 0x8a3f };
    let after = disable_console_flags(before, 0x100, 0x2, 0x8);
    assert_eq!(after.iflag, 0x50ff);
    assert_eq!(after.lflag, 0x8a35);
}

#[test]
fn console_flag_disabling_twice_equals_once() {
    let before = TermAttrs { iflag: 0xffff, lflag: 0xffff };
    let once = disable_console_flags(before, 0x100, 0x2, 0x8);
    let twice = disable_console_flags(once, 0x100, 0x2, 0x8);
    assert_eq!(once, twice);
}

#[test]
fn happy_path_reaches_running_with_one_validation() {
    let (mut orch, step) = Orchestrator::new(true);
    assert!(step.is_none());
    assert_eq!(orch.phase, Phase::Unstarted);

    let mut validator_runs = 0;
    let step = orch.on_topology_assembled();
    if matches!(step, LaunchStep::RunValidator) {
        validator_runs += 1;
    }
    assert_eq!(orch.phase, Phase::Validating);
    assert!(!orch.vm_created);

    let step = orch.on_validation_result(Ok(()));
    assert!(matches!(step, LaunchStep::CreateAndStartVm));
    assert_eq!(orch.phase, Phase::Starting);
    assert!(orch.vm_created);
    assert_eq!(validator_runs, 1);
    assert_eq!(orch.validations, 1);

    let step = orch.on_start_completion(None);
    assert!(matches!(step, LaunchStep::KeepRunning));
    assert_eq!(orch.phase, Phase::Running);
}

#[test]
fn unsupported_host_does_nothing() {
    let (orch, step) = Orchestrator::new(false);
    assert!(matches!(step, Some(LaunchStep::ReportNotSupported)));
    assert_eq!(orch.phase, Phase::Unsupported);
    assert!(!orch.assembled);
    assert_eq!(orch.validations, 0);
    assert!(!orch.vm_created);
}

#[test]
fn validation_failure_reports_and_exits_without_a_vm() {
    let (mut orch, _) = Orchestrator::new(true);
    orch.on_topology_assembled();
    let step = orch.on_validation_result(Err("memory size must be positive".to_string()));
    match step {
        LaunchStep::ReportErrorAndExit(cause) => {
            assert_eq!(cause, "memory size must be positive")
        }
        _ => panic!("expected a fatal report"),
    }
    assert_eq!(orch.phase, Phase::Failed);
    assert!(!orch.vm_created);
}

#[test]
fn start_failure_is_reported_but_keeps_running() {
    let (mut orch, _) = Orchestrator::new(true);
    orch.on_topology_assembled();
    orch.on_validation_result(Ok(()));
    let step = orch.on_start_completion(Some("boot image rejected".to_string()));
    match step {
        LaunchStep::ReportErrorAndKeepRunning(cause) => {
            assert_eq!(cause, "boot image rejected")
        }
        _ => panic!("expected a non-fatal report"),
    }
    assert_eq!(orch.phase, Phase::Failed);
    assert!(orch.vm_created);
}
