//! Guest architectures and the QEMU executables that virtualize them.
//!
//! Software emulation is not supported: QEMU is always started with hardware
//! virtualization enabled.

use vstd::prelude::*;

verus! {

/// Instruction set architecture (ISA) to use for the guest.
///
/// Only architectures that a 32-bit or 64-bit x86 host can virtualize in
/// hardware are listed; which of them a given host supports is decided by
/// [`supported_architectures`].
#[derive(Clone, Copy, Debug, PartialEq, Eq, Structural)]
pub enum QemuArch {
    X86,
    X86_64,
}

/// Name of the QEMU executable that virtualizes guests of `arch`.
pub open spec fn executable_name(arch: QemuArch) -> Seq<char> {
    match arch {
        QemuArch::X86 => seq!['q', 'e', 'm', 'u', '-', 's', 'y', 's', 't', 'e', 'm', '-', 'i', '3', '8', '6'],
        QemuArch::X86_64 => seq![
            'q', 'e', 'm', 'u', '-', 's', 'y', 's', 't', 'e', 'm', '-', 'x', '8', '6', '_', '6', '4',
        ],
    }
}

impl QemuArch {
    /// There is a separate QEMU executable for each guest ISA.
    /// Return the name of the QEMU executable for this ISA.
    pub fn qemu_executable(&self) -> (r: &'static str)
        ensures
            r@ == executable_name(*self),
    {
        match self {
            QemuArch::X86 => {
                let r = "qemu-system-i386";
                proof {
                    reveal_strlit("qemu-system-i386");
                }
                assert(r@ =~= executable_name(*self));
                r
            },
            QemuArch::X86_64 => {
                let r = "qemu-system-x86_64";
                proof {
                    reveal_strlit("qemu-system-x86_64");
                }
                assert(r@ =~= executable_name(*self));
                r
            },
        }
    }
}

/// Instruction set architecture of the host that would run the hypervisor.
#[derive(Clone, Copy, Debug, PartialEq, Eq, Structural)]
pub enum HostIsa {
    X86,
    X86_64,
    Other,
}

/// A guest architecture that the host cannot virtualize in hardware.
#[derive(Clone, Copy, Debug, PartialEq, Eq, Structural)]
pub struct UnsupportedArchitecture {
    pub arch: QemuArch,
    pub host: HostIsa,
}

/// A 32-bit x86 guest runs on any x86 host; a 64-bit one needs a 64-bit host.
pub open spec fn is_supported(arch: QemuArch, host: HostIsa) -> bool {
    match arch {
        QemuArch::X86 => host == HostIsa::X86 || host == HostIsa::X86_64,
        QemuArch::X86_64 => host == HostIsa::X86_64,
    }
}

/// The guest architectures that `host` supports, 32-bit before 64-bit.
pub open spec fn supported_on(host: HostIsa) -> Seq<QemuArch> {
    match host {
        HostIsa::X86 => seq![QemuArch::X86],
        HostIsa::X86_64 => seq![QemuArch::X86, QemuArch::X86_64],
        HostIsa::Other => seq![],
    }
}

/// The set of guest architectures that `host` can virtualize in hardware.
pub fn supported_architectures(host: HostIsa) -> (r: Vec<QemuArch>)
    ensures
        r@ == supported_on(host),
        forall|a: QemuArch| r@.contains(a) <==> is_supported(a, host),
{
    let r = match host {
        HostIsa::X86 => vec![QemuArch::X86],
        HostIsa::X86_64 => vec![QemuArch::X86, QemuArch::X86_64],
        HostIsa::Other => Vec::new(),
    };
    assert(r@ =~= supported_on(host));
    assert forall|a: QemuArch| r@.contains(a) <==> is_supported(a, host) by {
        if is_supported(a, host) {
            assert(a == QemuArch::X86 ==> r@[0] == a);
            assert(a == QemuArch::X86_64 ==> r@[1] == a);
        }
    }
    r
}

impl QemuArch {
    /// This architecture, if `host` can virtualize it in hardware.
    pub fn on_host(self, host: HostIsa) -> (r: Result<QemuArch, UnsupportedArchitecture>)
        ensures
            is_supported(self, host) ==> r == Ok::<QemuArch, UnsupportedArchitecture>(self),
            !is_supported(self, host) ==> r == Err::<QemuArch, UnsupportedArchitecture>(
                UnsupportedArchitecture { arch: self, host },
            ),
    {
        let supported = match self {
            QemuArch::X86 => match host {
                HostIsa::Other => false,
                _ => true,
            },
            QemuArch::X86_64 => match host {
                HostIsa::X86_64 => true,
                _ => false,
            },
        };
        if supported {
            Ok(self)
        } else {
            Err(UnsupportedArchitecture { arch: self, host })
        }
    }
}

/// Every architecture has an executable name that is not empty, and no two
/// architectures share one.
pub proof fn lemma_executable_names_distinct(a: QemuArch, b: QemuArch)
    ensures
        executable_name(a).len() > 0,
        a != b ==> executable_name(a) != executable_name(b),
{
    if a != b {
        assert(executable_name(a).len() != executable_name(b).len());
    }
}

} // verus!
