use build_bpf::arch::cargo_arch_to_kernel_arch;

#[test]
fn the_five_architectures_of_the_table() {
    assert_eq!(cargo_arch_to_kernel_arch("aarch64"), "arm64");
    assert_eq!(cargo_arch_to_kernel_arch("loongarch64"), "loongarch");
    assert_eq!(cargo_arch_to_kernel_arch("powerpc64"), "powerpc");
    assert_eq!(cargo_arch_to_kernel_arch("riscv64"), "riscv");
    assert_eq!(cargo_arch_to_kernel_arch("x86_64"), "x86");
}

#[test]
fn every_other_name_maps_to_host() {
    assert_eq!(cargo_arch_to_kernel_arch("mips"), "host");
    assert_eq!(cargo_arch_to_kernel_arch("arm"), "host");
    assert_eq!(cargo_arch_to_kernel_arch(""), "host");
    assert_eq!(cargo_arch_to_kernel_arch("x86"), "host");
    assert_eq!(cargo_arch_to_kernel_arch("X86_64"), "host");
    assert_eq!(cargo_arch_to_kernel_arch("x86_64 "), "host");
    assert_eq!(cargo_arch_to_kernel_arch("arm64"), "host");
}
