//! Build-time platform selection for the native library.
//!
//! The native build supports a closed set of platforms: two operating systems
//! and two CPU architectures. Selection is a total, deterministic function
//! over that set, and any name outside it is refused outright rather than
//! silently mapped to a default.

use vstd::prelude::*;
use vstd::string::*;

verus! {

/// The operating systems the native build supports.
#[derive(Clone, Copy, PartialEq, Eq, Structural, Debug)]
pub enum Os {
    Linux,
    Apple,
}

/// The CPU architectures the native build supports.
#[derive(Clone, Copy, PartialEq, Eq, Structural, Debug)]
pub enum Arch {
    X86_64,
    Aarch64,
}

/// A supported (operating system, architecture) pair: one of exactly four.
#[derive(Clone, Copy, PartialEq, Eq, Structural, Debug)]
pub struct Platform {
    pub os: Os,
    pub arch: Arch,
}

/// Why platform selection refused a name.
#[derive(Clone, Copy, PartialEq, Eq, Structural, Debug)]
pub enum PlatformError {
    UnsupportedOs,
    UnsupportedArch,
}

/// Which operating system a host name selects, or a refusal.
pub open spec fn spec_select_os(name: Seq<char>) -> Result<Os, PlatformError> {
    if name == "linux"@ {
        Ok(Os::Linux)
    } else if name == "macos"@ {
        Ok(Os::Apple)
    } else {
        Err(PlatformError::UnsupportedOs)
    }
}

/// Which architecture a host name selects, or a refusal.
pub open spec fn spec_select_arch(name: Seq<char>) -> Result<Arch, PlatformError> {
    if name == "x86_64"@ {
        Ok(Arch::X86_64)
    } else if name == "aarch64"@ {
        Ok(Arch::Aarch64)
    } else {
        Err(PlatformError::UnsupportedArch)
    }
}

/// The toolchain identifier for a supported platform: one of four fixed names.
pub open spec fn spec_toolchain(p: Platform) -> Seq<char> {
    match (p.os, p.arch) {
        (Os::Linux, Arch::X86_64) => "x86_64-linux-gnu"@,
        (Os::Linux, Arch::Aarch64) => "aarch64-linux-gnu"@,
        (Os::Apple, Arch::X86_64) => "x86_64-apple-darwin"@,
        (Os::Apple, Arch::Aarch64) => "aarch64-apple-darwin"@,
    }
}

/// The name of the C++ standard library to link on each operating system.
pub open spec fn spec_cpp_stdlib(os: Os) -> Seq<char> {
    match os {
        Os::Linux => "stdc++"@,
        Os::Apple => "c++"@,
    }
}

/// Character-by-character string comparison, so that selection can be stated
/// over the strings' views.
fn str_eq(a: &str, b: &str) -> (r: bool)
    ensures
        r <==> a@ == b@,
{
    let n = a.unicode_len();
    if n != b.unicode_len() {
        return false;
    }
    let mut i: usize = 0;
    while i < n
        invariant
            n == a@.len(),
            n == b@.len(),
            0 <= i <= n,
            forall|j: int| 0 <= j < i ==> a@[j] == b@[j],
        decreases n - i,
    {
        if a.get_char(i) != b.get_char(i) {
            return false;
        }
        i = i + 1;
    }
    proof {
        assert(a@ =~= b@);
    }
    true
}

/// Selects the operating system for a host name, as reported by the Rust
/// runtime ("linux", "macos", ...). Any name outside the supported set is
/// refused: selection fails fast instead of substituting a default.
pub fn select_os(name: &str) -> (r: Result<Os, PlatformError>)
    ensures
        r == spec_select_os(name@),
        name@ != "linux"@ && name@ != "macos"@ ==> r == Err::<Os, PlatformError>(
            PlatformError::UnsupportedOs,
        ),
{
    if str_eq(name, "linux") {
        Ok(Os::Linux)
    } else if str_eq(name, "macos") {
        Ok(Os::Apple)
    } else {
        Err(PlatformError::UnsupportedOs)
    }
}

/// Selects the architecture for a host name ("x86_64", "aarch64"). Any other
/// name is refused; nothing is silently mapped to a default.
pub fn select_arch(name: &str) -> (r: Result<Arch, PlatformError>)
    ensures
        r == spec_select_arch(name@),
        name@ != "x86_64"@ && name@ != "aarch64"@ ==> r == Err::<Arch, PlatformError>(
            PlatformError::UnsupportedArch,
        ),
{
    if str_eq(name, "x86_64") {
        Ok(Arch::X86_64)
    } else if str_eq(name, "aarch64") {
        Ok(Arch::Aarch64)
    } else {
        Err(PlatformError::UnsupportedArch)
    }
}

/// Selects the architecture for a host name, falling back to an explicit,
/// caller-chosen default for names outside the supported set. The fallback is
/// an argument, never an implicit choice of this layer.
pub fn select_arch_or(name: &str, fallback: Arch) -> (r: Arch)
    ensures
        spec_select_arch(name@) matches Ok(a) ==> r == a,
        spec_select_arch(name@) is Err ==> r == fallback,
{
    match select_arch(name) {
        Ok(a) => a,
        Err(_) => fallback,
    }
}

/// Selects the full platform from the two host names, refusing either name
/// outside the supported set.
pub fn select_platform(os_name: &str, arch_name: &str) -> (r: Result<Platform, PlatformError>)
    ensures
        spec_select_os(os_name@) matches Err(e) ==> r == Err::<Platform, PlatformError>(e),
        spec_select_os(os_name@) is Ok ==> (spec_select_arch(arch_name@) matches Err(e) ==> r
            == Err::<Platform, PlatformError>(e)),
        r matches Ok(p) <==> spec_select_os(os_name@) is Ok && spec_select_arch(arch_name@) is Ok,
        r matches Ok(p) ==> Ok::<Os, PlatformError>(p.os) == spec_select_os(os_name@) && Ok::<
            Arch,
            PlatformError,
        >(p.arch) == spec_select_arch(arch_name@),
{
    let os = match select_os(os_name) {
        Ok(os) => os,
        Err(e) => {
            return Err(e);
        },
    };
    let arch = match select_arch(arch_name) {
        Ok(arch) => arch,
        Err(e) => {
            return Err(e);
        },
    };
    Ok(Platform { os, arch })
}

/// The toolchain identifier handed to the native build system. Its value is
/// pinned to `spec_toolchain`, a function of the platform alone, so selection
/// is deterministic: equal platforms always yield the identical identifier.
pub fn toolchain_id(p: Platform) -> (r: &'static str)
    ensures
        r@ == spec_toolchain(p),
{
    match (p.os, p.arch) {
        (Os::Linux, Arch::X86_64) => "x86_64-linux-gnu",
        (Os::Linux, Arch::Aarch64) => "aarch64-linux-gnu",
        (Os::Apple, Arch::X86_64) => "x86_64-apple-darwin",
        (Os::Apple, Arch::Aarch64) => "aarch64-apple-darwin",
    }
}

/// The C++ standard library name for the linker directive on this platform.
pub fn cpp_stdlib(os: Os) -> (r: &'static str)
    ensures
        r@ == spec_cpp_stdlib(os),
{
    match os {
        Os::Linux => "stdc++",
        Os::Apple => "c++",
    }
}

/// The libraries the final artifact must link, in order: the platform's C++
/// standard library, the OpenMP runtime, and the native static archive.
pub fn link_libraries(os: Os) -> (r: Vec<&'static str>)
    ensures
        r@.len() == 3,
        r@[0]@ == spec_cpp_stdlib(os),
        r@[1]@ == "omp"@,
        r@[2]@ == "barretenberg"@,
{
    let mut libs: Vec<&'static str> = Vec::new();
    libs.push(cpp_stdlib(os));
    libs.push("omp");
    libs.push("barretenberg");
    libs
}

/// Toolchain selection is total over the supported platforms and its range is
/// exactly four fixed identifiers: every platform maps to one of them.
pub proof fn lemma_toolchain_is_one_of_four(p: Platform)
    ensures
        spec_toolchain(p) == "x86_64-linux-gnu"@ || spec_toolchain(p) == "aarch64-linux-gnu"@
            || spec_toolchain(p) == "x86_64-apple-darwin"@ || spec_toolchain(p)
            == "aarch64-apple-darwin"@,
{
}

/// Selection fails fast on every unsupported operating-system name: no name
/// outside the supported set ever selects a toolchain.
pub proof fn lemma_unsupported_os_selects_nothing(name: Seq<char>)
    requires
        name != "linux"@,
        name != "macos"@,
    ensures
        spec_select_os(name) == Err::<Os, PlatformError>(PlatformError::UnsupportedOs),
{
}

} // verus!
