use barretenberg_wrapper::platform::{
    cpp_stdlib, link_libraries, select_arch, select_arch_or, select_os, select_platform,
    toolchain_id, Arch, Os, Platform, PlatformError,
};

#[test]
fn linux_is_selected() {
    assert_eq!(select_os("linux"), Ok(Os::Linux));
}

#[test]
fn macos_is_selected() {
    assert_eq!(select_os("macos"), Ok(Os::Apple));
}

#[test]
fn windows_fails_fast() {
    assert_eq!(select_os("windows"), Err(PlatformError::UnsupportedOs));
}

#[test]
fn unknown_os_fails_fast() {
    assert_eq!(select_os("freebsd"), Err(PlatformError::UnsupportedOs));
    assert_eq!(select_os(""), Err(PlatformError::UnsupportedOs));
}

#[test]
fn supported_architectures_are_selected() {
    assert_eq!(select_arch("x86_64"), Ok(Arch::X86_64));
    assert_eq!(select_arch("aarch64"), Ok(Arch::Aarch64));
}

#[test]
fn unknown_arch_is_refused() {
    assert_eq!(select_arch("riscv64"), Err(PlatformError::UnsupportedArch));
    assert_eq!(select_arch(""), Err(PlatformError::UnsupportedArch));
}

#[test]
fn arch_fallback_is_explicit() {
    assert_eq!(select_arch_or("aarch64", Arch::X86_64), Arch::Aarch64);
    assert_eq!(select_arch_or("riscv64", Arch::X86_64), Arch::X86_64);
    assert_eq!(select_arch_or("riscv64", Arch::Aarch64), Arch::Aarch64);
}

#[test]
fn platform_selection_composes() {
    assert_eq!(
        select_platform("linux", "aarch64"),
        Ok(Platform { os: Os::Linux, arch: Arch::Aarch64 })
    );
    assert_eq!(
        select_platform("plan9", "x86_64"),
        Err(PlatformError::UnsupportedOs)
    );
    assert_eq!(
        select_platform("macos", "sparc"),
        Err(PlatformError::UnsupportedArch)
    );
}

#[test]
fn toolchain_is_one_of_four_fixed_identifiers() {
    assert_eq!(
        toolchain_id(Platform { os: Os::Linux, arch: Arch::X86_64 }),
        "x86_64-linux-gnu"
    );
    assert_eq!(
        toolchain_id(Platform { os: Os::Linux, arch: Arch::Aarch64 }),
        "aarch64-linux-gnu"
    );
    assert_eq!(
        toolchain_id(Platform { os: Os::Apple, arch: Arch::X86_64 }),
        "x86_64-apple-darwin"
    );
    assert_eq!(
        toolchain_id(Platform { os: Os::Apple, arch: Arch::Aarch64 }),
        "aarch64-apple-darwin"
    );
}

#[test]
fn toolchain_selection_is_deterministic() {
    let p = Platform { os: Os::Apple, arch: Arch::Aarch64 };
    assert_eq!(toolchain_id(p), toolchain_id(p));
}

#[test]
fn cpp_stdlib_differs_per_os() {
    assert_eq!(cpp_stdlib(Os::Linux), "stdc++");
    assert_eq!(cpp_stdlib(Os::Apple), "c++");
}

#[test]
fn link_libraries_list_per_os() {
    assert_eq!(link_libraries(Os::Linux), vec!["stdc++", "omp", "barretenberg"]);
    assert_eq!(link_libraries(Os::Apple), vec!["c++", "omp", "barretenberg"]);
}
