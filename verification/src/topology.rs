//! Device topology assembler and configuration validator.
//!
//! The assembler is purely compositional: it combines the boot loader,
//! CPU count, memory size, the console device, and the built storage
//! devices into one machine configuration holding exactly one entropy
//! device, one memory-balloon device, and one NAT network device with a
//! locally-administered MAC address. It performs no validation itself;
//! the validator runs afterwards, synchronously, before any asynchronous
//! work begins.

use vstd::prelude::*;

use crate::storage::StorageDevice;
use crate::vmspec::{BootLoaderDescriptor, MacAddress, mac_is_locally_administered};

verus! {

/// The entropy device; one per machine, with no configuration of its own.
pub struct EntropyDevice {
    pub present: bool,
}

/// The traditional memory-balloon device; one per machine, with no
/// configuration of its own.
pub struct BalloonDevice {
    pub present: bool,
}

/// The network device: one NAT attachment with the given hardware address.
pub struct NetworkDevice {
    /// The device's hardware address, freshly generated per launch.
    pub mac: MacAddress,
    /// Whether the device is attached through NAT; the launcher always
    /// attaches the single network device through NAT.
    pub nat: bool,
}

/// The console/serial device, bound to the process's standard input and
/// output as the VM's serial console transport.
pub struct ConsoleDevice {
    /// File descriptor the VM console reads from (the process's stdin).
    pub read_fd: i32,
    /// File descriptor the VM console writes to (the process's stdout).
    pub write_fd: i32,
}

/// Builds the console device descriptor bound to the given read and write
/// descriptors.
pub fn build_console_device(read_fd: i32, write_fd: i32) -> (r: ConsoleDevice)
    ensures
        r.read_fd == read_fd,
        r.write_fd == write_fd,
{
    ConsoleDevice { read_fd, write_fd }
}

/// The materialized machine configuration: the boot loader, the sizing, and
/// the full set of device descriptors.
pub struct MachineConfiguration {
    pub boot: BootLoaderDescriptor,
    pub cpu_count: u64,
    pub memory_size: u64,
    pub entropy_devices: Vec<EntropyDevice>,
    pub balloon_devices: Vec<BalloonDevice>,
    pub network_devices: Vec<NetworkDevice>,
    pub serial_ports: Vec<ConsoleDevice>,
    pub storage_devices: Vec<StorageDevice>,
}

impl MachineConfiguration {
    /// The shape every assembled configuration has: exactly one entropy,
    /// balloon, network, and console device, with the network device
    /// NAT-attached under a locally-administered MAC address.
    pub open spec fn wf_devices(self) -> bool {
        &&& self.entropy_devices@.len() == 1
        &&& self.balloon_devices@.len() == 1
        &&& self.network_devices@.len() == 1
        &&& self.network_devices@[0].nat
        &&& mac_is_locally_administered(self.network_devices@[0].mac)
        &&& self.serial_ports@.len() == 1
    }
}

/// Composes one machine configuration: exactly one entropy device, one
/// memory-balloon device, and one NAT network device carrying the given
/// locally-administered address, together with the boot loader, sizing, the
/// single console device, and the storage devices exactly as built, in
/// order. Purely compositional: no validation happens here.
pub fn assemble(
    boot: BootLoaderDescriptor,
    cpu_count: u64,
    memory_size: u64,
    mac: MacAddress,
    console: ConsoleDevice,
    storage_devices: Vec<StorageDevice>,
) -> (r: MachineConfiguration)
    requires
        mac_is_locally_administered(mac),
    ensures
        r.wf_devices(),
        r.boot == boot,
        r.cpu_count == cpu_count,
        r.memory_size == memory_size,
        r.network_devices@[0].mac == mac,
        r.serial_ports@[0] == console,
        r.storage_devices == storage_devices,
{
    MachineConfiguration {
        boot,
        cpu_count,
        memory_size,
        entropy_devices: vec![EntropyDevice { present: true }],
        balloon_devices: vec![BalloonDevice { present: true }],
        network_devices: vec![NetworkDevice { mac, nat: true }],
        serial_ports: vec![console],
        storage_devices,
    }
}

/// Why the synchronous validation pass rejected a configuration.
pub enum ValidationError {
    /// The configuration requests no CPU.
    ZeroCpuCount,
    /// The configuration requests no memory.
    ZeroMemorySize,
    /// The device set does not have the launcher's fixed shape (exactly one
    /// entropy, balloon, NAT network, and console device).
    DeviceShape,
}

impl ValidationError {
    /// A short description of the rejection, for reporting before exit.
    pub fn describe(&self) -> (r: String)
        ensures
            r@.len() > 0,
            r@ == match *self {
                ValidationError::ZeroCpuCount => "cpu count must be positive"@,
                ValidationError::ZeroMemorySize => "memory size must be positive"@,
                ValidationError::DeviceShape => "device topology has an unexpected shape"@,
            },
    {
        let r = match self {
            ValidationError::ZeroCpuCount => "cpu count must be positive".to_owned(),
            ValidationError::ZeroMemorySize => "memory size must be positive".to_owned(),
            ValidationError::DeviceShape => "device topology has an unexpected shape".to_owned(),
        };
        proof {
            reveal_strlit("cpu count must be positive");
            reveal_strlit("memory size must be positive");
            reveal_strlit("device topology has an unexpected shape");
        }
        r
    }
}

/// What the synchronous validation pass accepts: a positive CPU count, a
/// positive memory size, and the launcher's fixed device shape.
pub open spec fn spec_valid(c: MachineConfiguration) -> bool {
    &&& c.cpu_count >= 1
    &&& c.memory_size >= 1
    &&& c.wf_devices()
}

/// The synchronous validation pass over an assembled configuration, run in
/// full before any asynchronous work begins. Accepts exactly the
/// configurations with a positive CPU count, a positive memory size, and the
/// launcher's fixed device shape, and names the first violated constraint
/// (sizing before shape) otherwise. Hypervisor-imposed constraints beyond
/// these are checked by the hypervisor capability itself; its verdict is fed
/// to the boot orchestrator as the validation event.
pub fn validate(c: &MachineConfiguration) -> (r: Result<(), ValidationError>)
    ensures
        r is Ok <==> spec_valid(*c),
        r matches Err(e) ==> match e {
            ValidationError::ZeroCpuCount => c.cpu_count == 0,
            ValidationError::ZeroMemorySize => c.cpu_count >= 1 && c.memory_size == 0,
            ValidationError::DeviceShape => c.cpu_count >= 1 && c.memory_size >= 1
                && !c.wf_devices(),
        },
{
    if c.cpu_count == 0 {
        Result::Err(ValidationError::ZeroCpuCount)
    } else if c.memory_size == 0 {
        Result::Err(ValidationError::ZeroMemorySize)
    } else if c.entropy_devices.len() != 1 {
        Result::Err(ValidationError::DeviceShape)
    } else if c.balloon_devices.len() != 1 {
        Result::Err(ValidationError::DeviceShape)
    } else if c.network_devices.len() != 1 {
        Result::Err(ValidationError::DeviceShape)
    } else if !c.network_devices[0].nat {
        Result::Err(ValidationError::DeviceShape)
    } else if !mac_check(&c.network_devices[0].mac) {
        Result::Err(ValidationError::DeviceShape)
    } else if c.serial_ports.len() != 1 {
        Result::Err(ValidationError::DeviceShape)
    } else {
        Result::Ok(())
    }
}

/// A configuration assembled from a complete storage build carries exactly
/// one storage device per declared disk path, in declared order: the device
/// list is the builder's, unchanged, and its length is the declared disk
/// count.
pub proof fn lemma_assembled_storage_covers_declared_disks(
    b: crate::storage::StorageBuilder,
    c: MachineConfiguration,
)
    requires
        b.wf(),
        b.complete(),
        c.storage_devices@ == b.devices@,
    ensures
        c.storage_devices@.len() == b.paths@.len(),
        forall|i: int|
            0 <= i < c.storage_devices@.len() ==> #[trigger] c.storage_devices@[i]
                == b.devices@[i],
{
}

/// Checks at run time that an address is locally administered, as
/// `mac_is_locally_administered` states it.
fn mac_check(m: &MacAddress) -> (r: bool)
    ensures
        r == mac_is_locally_administered(*m),
{
    m.octets[0] & 0x02 == 0x02 && m.octets[0] & 0x01 == 0x00
}

} // verus!
