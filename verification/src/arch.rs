//! Translation of the build tool's architecture names into the kernel's.

use vstd::prelude::*;
use crate::text::same_text;

verus! {

/// The kernel's directory name for the build tool's architecture `arch`.
///
/// Five architectures have a vendored header set under their kernel name;
/// everything else falls back to the headers generated on the host.
pub open spec fn kernel_arch_of(arch: Seq<char>) -> Seq<char> {
    if arch == "aarch64"@ {
        "arm64"@
    } else if arch == "loongarch64"@ {
        "loongarch"@
    } else if arch == "powerpc64"@ {
        "powerpc"@
    } else if arch == "riscv64"@ {
        "riscv"@
    } else if arch == "x86_64"@ {
        "x86"@
    } else {
        "host"@
    }
}

/// Maps the build tool's architecture identifier to the kernel's name for it.
/// Total: an identifier outside the table maps to `host`.
pub fn cargo_arch_to_kernel_arch(arch: &str) -> (kernel: &'static str)
    ensures
        kernel@ == kernel_arch_of(arch@),
{
    if same_text(arch, "aarch64") {
        "arm64"
    } else if same_text(arch, "loongarch64") {
        "loongarch"
    } else if same_text(arch, "powerpc64") {
        "powerpc"
    } else if same_text(arch, "riscv64") {
        "riscv"
    } else if same_text(arch, "x86_64") {
        "x86"
    } else {
        "host"
    }
}

} // verus!
