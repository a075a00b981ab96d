//! Target descriptor: resolves a description of the host machine into the
//! fixed configuration used by everything downstream.

use vstd::prelude::*;

use crate::types::{CallConv, CodegenError, IrType};

verus! {

/// Architecture identifier of a machine.
#[derive(Clone, Copy, PartialEq, Eq, Structural, Debug)]
pub enum HostArch {
    X86_64,
    Aarch64,
    Other,
}

/// Operating-system identifier of a machine.
#[derive(Clone, Copy, PartialEq, Eq, Structural, Debug)]
pub enum HostOs {
    Linux,
    Macos,
    Other,
}

/// Description of a machine, as detected or as chosen by the caller.
#[derive(Clone, Copy, PartialEq, Eq, Structural, Debug)]
pub struct HostInfo {
    pub arch: HostArch,
    pub os: HostOs,
}

/// Optional codegen flags applied while resolving a target.
#[derive(Clone, Copy, PartialEq, Eq, Structural, Debug)]
pub struct TargetFlags {
    /// Generate position-independent code.
    pub pic: bool,
}

/// Fixed configuration of one target machine. Immutable once resolved.
#[derive(Clone, Copy, PartialEq, Eq, Structural, Debug)]
pub struct TargetConfig {
    pub arch: HostArch,
    pub os: HostOs,
    /// Pointer width in bits.
    pub pointer_width: u8,
    pub default_call_conv: CallConv,
    pub pic: bool,
}

/// Whether a host description has a backend here.
pub open spec fn spec_supported(host: HostInfo) -> bool {
    (host.arch == HostArch::X86_64 || host.arch == HostArch::Aarch64) && (host.os == HostOs::Linux
        || host.os == HostOs::Macos)
}

/// The configuration that a supported host resolves to.
pub open spec fn spec_resolve(host: HostInfo, flags: TargetFlags) -> TargetConfig {
    TargetConfig {
        arch: host.arch,
        os: host.os,
        pointer_width: 64,
        default_call_conv: if host.arch == HostArch::Aarch64 && host.os == HostOs::Macos {
            CallConv::AppleAarch64
        } else {
            CallConv::SystemV
        },
        pic: flags.pic,
    }
}

/// Resolves a host description and flag overrides into a fixed target
/// configuration. Pure function of its inputs; fails exactly when the host
/// has no backend here.
pub fn resolve(host: &HostInfo, flags: &TargetFlags) -> (r: Result<TargetConfig, CodegenError>)
    ensures
        spec_supported(*host) ==> r == Result::<TargetConfig, CodegenError>::Ok(
            spec_resolve(*host, *flags),
        ),
        !spec_supported(*host) ==> r == Result::<TargetConfig, CodegenError>::Err(
            CodegenError::UnsupportedHost,
        ),
{
    let arch_ok = matches!(host.arch, HostArch::X86_64) || matches!(host.arch, HostArch::Aarch64);
    let os_ok = matches!(host.os, HostOs::Linux) || matches!(host.os, HostOs::Macos);
    if !(arch_ok && os_ok) {
        return Err(CodegenError::UnsupportedHost);
    }
    let conv = if matches!(host.arch, HostArch::Aarch64) && matches!(host.os, HostOs::Macos) {
        CallConv::AppleAarch64
    } else {
        CallConv::SystemV
    };
    Ok(
        TargetConfig {
            arch: host.arch,
            os: host.os,
            pointer_width: 64,
            default_call_conv: conv,
            pic: flags.pic,
        },
    )
}

impl TargetConfig {
    /// The integer type whose width matches this target's pointer width.
    pub open spec fn spec_pointer_type(self) -> IrType {
        if self.pointer_width == 32 {
            IrType::I32
        } else {
            IrType::I64
        }
    }

    /// The integer type used for pointer-sized values on this target.
    pub fn pointer_type(&self) -> (r: IrType)
        ensures
            r == self.spec_pointer_type(),
    {
        if self.pointer_width == 32 {
            IrType::I32
        } else {
            IrType::I64
        }
    }
}

/// The calling convention the configuration's backend implements — what
/// `resolve` records as the default. A backend compiles only its own
/// convention; the module layer refuses signatures carrying any other.
pub open spec fn spec_backend_conv(cfg: TargetConfig) -> CallConv {
    if cfg.arch == HostArch::Aarch64 && cfg.os == HostOs::Macos {
        CallConv::AppleAarch64
    } else {
        CallConv::SystemV
    }
}

/// A configuration names a backend here and records that backend's own
/// calling convention as its default.
pub open spec fn spec_backend_ready(cfg: TargetConfig) -> bool {
    &&& (cfg.arch == HostArch::X86_64 || cfg.arch == HostArch::Aarch64)
    &&& (cfg.os == HostOs::Linux || cfg.os == HostOs::Macos)
    &&& cfg.default_call_conv == spec_backend_conv(cfg)
}

/// Executable test of `spec_backend_ready`.
pub(crate) fn backend_ready(cfg: &TargetConfig) -> (r: bool)
    ensures
        r == spec_backend_ready(*cfg),
{
    let arch_ok = matches!(cfg.arch, HostArch::X86_64) || matches!(cfg.arch, HostArch::Aarch64);
    let os_ok = matches!(cfg.os, HostOs::Linux) || matches!(cfg.os, HostOs::Macos);
    let expected = if matches!(cfg.arch, HostArch::Aarch64) && matches!(cfg.os, HostOs::Macos) {
        CallConv::AppleAarch64
    } else {
        CallConv::SystemV
    };
    arch_ok && os_ok && cfg.default_call_conv == expected
}

/// The textual target-triple name that a configuration lowers through.
pub open spec fn spec_triple_name(cfg: TargetConfig) -> Seq<char> {
    if cfg.arch == HostArch::X86_64 && cfg.os == HostOs::Linux {
        "x86_64-unknown-linux-gnu"@
    } else if cfg.arch == HostArch::Aarch64 && cfg.os == HostOs::Linux {
        "aarch64-unknown-linux-gnu"@
    } else if cfg.arch == HostArch::X86_64 && cfg.os == HostOs::Macos {
        "x86_64-apple-darwin"@
    } else if cfg.arch == HostArch::Aarch64 && cfg.os == HostOs::Macos {
        "aarch64-apple-darwin"@
    } else {
        "unknown-unknown-unknown"@
    }
}

/// The target-triple name handed to the backend for a configuration.
pub(crate) fn triple_name(cfg: &TargetConfig) -> (r: &'static str)
    ensures
        r@ == spec_triple_name(*cfg),
{
    if matches!(cfg.arch, HostArch::X86_64) && matches!(cfg.os, HostOs::Linux) {
        "x86_64-unknown-linux-gnu"
    } else if matches!(cfg.arch, HostArch::Aarch64) && matches!(cfg.os, HostOs::Linux) {
        "aarch64-unknown-linux-gnu"
    } else if matches!(cfg.arch, HostArch::X86_64) && matches!(cfg.os, HostOs::Macos) {
        "x86_64-apple-darwin"
    } else if matches!(cfg.arch, HostArch::Aarch64) && matches!(cfg.os, HostOs::Macos) {
        "aarch64-apple-darwin"
    } else {
        "unknown-unknown-unknown"
    }
}

} // verus!
