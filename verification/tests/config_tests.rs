use simplevm::config::{load_config, resolve_source, ConfigError, ConfigSource, ConfigValue};
use simplevm::vmspec::{resolve_flags, FlagOpts};

fn text(s: &str) -> ConfigValue {
    ConfigValue::Text(s.to_string())
}

fn entry(k: &str, v: ConfigValue) -> (String, ConfigValue) {
    (k.to_string(), v)
}

fn boot_section(fields: Vec<(String, ConfigValue)>) -> (String, ConfigValue) {
    entry("boot", ConfigValue::Record(fields))
}

#[test]
fn full_config_loads_every_field() {
    let doc = ConfigValue::Record(vec![
        boot_section(vec![
            entry("kernel", text("/boot/vmlinux")),
            entry("initrd", text("/boot/initrd.img")),
            entry("command_line", text("console=hvc0 root=/dev/vda")),
            entry("disks", ConfigValue::List(vec![text("root.img"), text("data.img")])),
        ]),
        entry("cpu_count", ConfigValue::UInt(4)),
        entry("additional_disks", ConfigValue::List(vec![text("scratch.img")])),
        entry("memory_size", ConfigValue::UInt(1073741824)),
    ]);
    let spec = load_config(&doc).unwrap();
    assert_eq!(spec.kernel, "/boot/vmlinux");
    assert_eq!(spec.initrd, "/boot/initrd.img");
    assert_eq!(spec.command_line, "console=hvc0 root=/dev/vda");
    assert_eq!(spec.cpu_count, 4);
    assert_eq!(spec.memory_size, 1073741824);
    assert_eq!(spec.disks, vec!["root.img", "data.img", "scratch.img"]);
}

#[test]
fn minimal_config_gets_defaults() {
    let doc = ConfigValue::Record(vec![boot_section(vec![
        entry("kernel", text("/k")),
        entry("initrd", text("/i")),
    ])]);
    let spec = load_config(&doc).unwrap();
    assert_eq!(spec.cpu_count, 2);
    assert_eq!(spec.memory_size, 2147483648);
    assert_eq!(spec.command_line, "console=hvc0");
    assert!(spec.disks.is_empty());
}

#[test]
fn disks_keep_declared_order() {
    let doc = ConfigValue::Record(vec![
        boot_section(vec![
            entry("kernel", text("/k")),
            entry("initrd", text("/i")),
            entry("disks", ConfigValue::List(vec![text("b1"), text("b2")])),
        ]),
        entry("additional_disks", ConfigValue::List(vec![text("a1"), text("a2")])),
    ]);
    let spec = load_config(&doc).unwrap();
    assert_eq!(spec.disks, vec!["b1", "b2", "a1", "a2"]);
}

#[test]
fn missing_kernel_is_rejected() {
    let doc = ConfigValue::Record(vec![boot_section(vec![entry("initrd", text("/i"))])]);
    assert!(matches!(load_config(&doc), Err(ConfigError::MissingKernel)));
}

#[test]
fn missing_initrd_is_rejected() {
    let doc = ConfigValue::Record(vec![boot_section(vec![entry("kernel", text("/k"))])]);
    assert!(matches!(load_config(&doc), Err(ConfigError::MissingInitrd)));
}

#[test]
fn missing_boot_section_is_rejected() {
    let doc = ConfigValue::Record(vec![entry("cpu_count", ConfigValue::UInt(1))]);
    assert!(matches!(load_config(&doc), Err(ConfigError::MissingBoot)));
}

#[test]
fn boot_must_be_a_record() {
    let doc = ConfigValue::Record(vec![entry("boot", text("nope"))]);
    assert!(matches!(load_config(&doc), Err(ConfigError::BootNotARecord)));
}

#[test]
fn unknown_top_level_field_is_rejected() {
    let doc = ConfigValue::Record(vec![
        boot_section(vec![entry("kernel", text("/k")), entry("initrd", text("/i"))]),
        entry("colour", text("blue")),
    ]);
    match load_config(&doc) {
        Err(ConfigError::UnknownField(k)) => assert_eq!(k, "colour"),
        other => panic!("expected an unknown-field rejection, got {:?}", other.is_ok()),
    }
}

#[test]
fn unknown_boot_field_is_rejected() {
    let doc = ConfigValue::Record(vec![boot_section(vec![
        entry("kernel", text("/k")),
        entry("initrd", text("/i")),
        entry("bootloader", text("grub")),
    ])]);
    match load_config(&doc) {
        Err(ConfigError::UnknownField(k)) => assert_eq!(k, "bootloader"),
        _ => panic!("expected an unknown-field rejection"),
    }
}

#[test]
fn duplicated_field_is_rejected() {
    let doc = ConfigValue::Record(vec![
        boot_section(vec![entry("kernel", text("/k")), entry("initrd", text("/i"))]),
        entry("cpu_count", ConfigValue::UInt(1)),
        entry("cpu_count", ConfigValue::UInt(2)),
    ]);
    match load_config(&doc) {
        Err(ConfigError::DuplicateField(k)) => assert_eq!(k, "cpu_count"),
        _ => panic!("expected a duplicate-field rejection"),
    }
}

#[test]
fn wrongly_typed_cpu_count_is_rejected() {
    let doc = ConfigValue::Record(vec![
        boot_section(vec![entry("kernel", text("/k")), entry("initrd", text("/i"))]),
        entry("cpu_count", text("two")),
    ]);
    match load_config(&doc) {
        Err(ConfigError::FieldType(name)) => assert_eq!(name, "cpu_count"),
        _ => panic!("expected a field-type rejection"),
    }
}

#[test]
fn wrongly_typed_disk_list_is_rejected() {
    let doc = ConfigValue::Record(vec![boot_section(vec![
        entry("kernel", text("/k")),
        entry("initrd", text("/i")),
        entry("disks", ConfigValue::List(vec![text("ok.img"), ConfigValue::UInt(7)])),
    ])]);
    match load_config(&doc) {
        Err(ConfigError::FieldType(name)) => assert_eq!(name, "disks"),
        _ => panic!("expected a field-type rejection"),
    }
}

#[test]
fn top_level_must_be_a_record() {
    assert!(matches!(load_config(&ConfigValue::UInt(3)), Err(ConfigError::NotARecord)));
    assert!(matches!(load_config(&ConfigValue::Null), Err(ConfigError::NotARecord)));
}

#[test]
fn flag_form_defaults() {
    let spec = resolve_flags(FlagOpts {
        kernel: "/k".to_string(),
        initrd: "/i".to_string(),
        command_line: None,
        disks: Vec::new(),
        cpu: None,
        memory_size: None,
    });
    assert_eq!(spec.cpu_count, 2);
    assert_eq!(spec.memory_size, 2147483648);
    assert_eq!(spec.command_line, "console=hvc0");
    assert!(spec.disks.is_empty());
}

#[test]
fn flag_form_overrides() {
    let spec = resolve_flags(FlagOpts {
        kernel: "/k".to_string(),
        initrd: "/i".to_string(),
        command_line: Some("quiet".to_string()),
        disks: vec!["d0.img".to_string(), "d1.img".to_string()],
        cpu: Some(8),
        memory_size: Some(4096),
    });
    assert_eq!(spec.cpu_count, 8);
    assert_eq!(spec.memory_size, 4096);
    assert_eq!(spec.command_line, "quiet");
    assert_eq!(spec.disks, vec!["d0.img", "d1.img"]);
}

#[test]
fn both_sources_resolve_to_the_same_shape() {
    let from_file = resolve_source(ConfigSource::File(ConfigValue::Record(vec![boot_section(
        vec![entry("kernel", text("/k")), entry("initrd", text("/i"))],
    )])))
    .unwrap();
    let from_flags = resolve_source(ConfigSource::Flags(FlagOpts {
        kernel: "/k".to_string(),
        initrd: "/i".to_string(),
        command_line: None,
        disks: Vec::new(),
        cpu: None,
        memory_size: None,
    }))
    .unwrap();
    assert_eq!(from_file.kernel, from_flags.kernel);
    assert_eq!(from_file.initrd, from_flags.initrd);
    assert_eq!(from_file.command_line, from_flags.command_line);
    assert_eq!(from_file.cpu_count, from_flags.cpu_count);
    assert_eq!(from_file.memory_size, from_flags.memory_size);
    assert_eq!(from_file.disks, from_flags.disks);
}
