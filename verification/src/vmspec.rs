//! The resolved description of one machine, the defaults applied to a
//! flag-form invocation, the boot loader descriptor, and the network
//! device's locally-administered MAC address.

use vstd::prelude::*;

verus! {

/// Default number of virtual CPUs when none is requested.
pub const DEFAULT_CPU_COUNT: u64 = 2;

/// Default memory size in bytes when none is requested.
pub const DEFAULT_MEMORY_SIZE: u64 = 2147483648;

/// The fully-resolved description of one machine, as produced from either
/// configuration source (file or flags) before any device is built.
/// The path fields hold the paths as the user declared them; they are
/// canonicalized by the caller when the corresponding device is built.
pub struct VmSpec {
    /// Path of the kernel image.
    pub kernel: String,
    /// Path of the initial ramdisk image.
    pub initrd: String,
    /// Kernel command line, passed through verbatim.
    pub command_line: String,
    /// Number of virtual CPUs.
    pub cpu_count: u64,
    /// Memory size in bytes.
    pub memory_size: u64,
    /// Disk image paths, in declared order: boot-declared disks first,
    /// then additionally-declared disks.
    pub disks: Vec<String>,
}

/// The flag-form configuration source: one value per command-line flag,
/// with `None` where the flag was not given.
pub struct FlagOpts {
    pub kernel: String,
    pub initrd: String,
    pub command_line: Option<String>,
    pub disks: Vec<String>,
    pub cpu: Option<u64>,
    pub memory_size: Option<u64>,
}

/// The kernel command line a flag-form invocation gets when `command_line`
/// is absent.
pub open spec fn default_command_line() -> Seq<char> {
    "console=hvc0"@
}

/// How a spec resolved from flags relates to the flags: each given flag is
/// taken as is, and each absent one gets its default (2 CPUs, 2147483648
/// bytes of memory, the command line `console=hvc0`).
pub open spec fn flags_spec_matches(opts: FlagOpts, s: VmSpec) -> bool {
    &&& s.kernel == opts.kernel
    &&& s.initrd == opts.initrd
    &&& s.disks == opts.disks
    &&& s.cpu_count == (match opts.cpu {
        Option::Some(c) => c,
        Option::None => DEFAULT_CPU_COUNT,
    })
    &&& s.memory_size == (match opts.memory_size {
        Option::Some(m) => m,
        Option::None => DEFAULT_MEMORY_SIZE,
    })
    &&& (match opts.command_line {
        Option::Some(c) => s.command_line == c,
        Option::None => s.command_line@ == default_command_line(),
    })
}

/// Resolves a flag-form invocation into a `VmSpec`, applying the defaults:
/// 2 CPUs, 2147483648 bytes of memory, and the command line `console=hvc0`.
pub fn resolve_flags(opts: FlagOpts) -> (r: VmSpec)
    ensures
        flags_spec_matches(opts, r),
{
    let command_line = match opts.command_line {
        Option::Some(c) => c,
        Option::None => "console=hvc0".to_owned(),
    };
    let cpu_count = match opts.cpu {
        Option::Some(c) => c,
        Option::None => DEFAULT_CPU_COUNT,
    };
    let memory_size = match opts.memory_size {
        Option::Some(m) => m,
        Option::None => DEFAULT_MEMORY_SIZE,
    };
    VmSpec {
        kernel: opts.kernel,
        initrd: opts.initrd,
        command_line,
        cpu_count,
        memory_size,
        disks: opts.disks,
    }
}

/// The boot loader descriptor: the resolved kernel and initrd locations and
/// the kernel command line, exactly as handed to the hypervisor capability.
pub struct BootLoaderDescriptor {
    /// Canonicalized absolute path of the kernel image.
    pub kernel: String,
    /// Canonicalized absolute path of the initial ramdisk image.
    pub initrd: String,
    /// Kernel command line, verbatim.
    pub command_line: String,
}

/// Builds the boot loader descriptor from the already-canonicalized kernel
/// and initrd locations. The command line is passed through verbatim with no
/// further validation: an invalid kernel command line is a downstream
/// hypervisor failure, not caught here.
pub fn build_boot_loader(kernel_resolved: String, initrd_resolved: String, command_line: String)
    -> (r: BootLoaderDescriptor)
    ensures
        r.kernel == kernel_resolved,
        r.initrd == initrd_resolved,
        r.command_line == command_line,
{
    BootLoaderDescriptor { kernel: kernel_resolved, initrd: initrd_resolved, command_line }
}

/// A network hardware address, as attached to the NAT network device.
#[derive(Clone, Copy, Debug)]
pub struct MacAddress {
    pub octets: [u8; 6],
}

/// A locally-administered unicast address: the administratively-assigned bit
/// of the first octet is set and its multicast bit is clear.
pub open spec fn mac_is_locally_administered(m: MacAddress) -> bool {
    &&& m.octets@[0] & 0x02 == 0x02
    &&& m.octets@[0] & 0x01 == 0x00
}

/// Turns six freshly drawn random octets into a locally-administered unicast
/// MAC address: the first octet has its multicast bit cleared and its
/// administratively-assigned bit set, and every other octet is kept as drawn.
pub fn locally_administered_mac(seed: [u8; 6]) -> (r: MacAddress)
    ensures
        mac_is_locally_administered(r),
        r.octets@[0] == (seed@[0] & 0xfe) | 0x02,
        forall|i: int| 1 <= i < 6 ==> r.octets@[i] == seed@[i],
{
    let b0 = (seed[0] & 0xfe) | 0x02;
    proof {
        let s = seed@[0];
        assert(((s & 0xfe) | 0x02) & 0x02 == 0x02) by (bit_vector);
        assert(((s & 0xfe) | 0x02) & 0x01 == 0x00) by (bit_vector);
    }
    MacAddress { octets: [b0, seed[1], seed[2], seed[3], seed[4], seed[5]] }
}

} // verus!
