//! Platform probe: the OS flavor and CPU architecture that select the
//! artifact variant to download.
//!
//! Probing real hardware and OS state happens outside the library; the
//! functions here take the raw signals (the OS-reported product name, the
//! architecture indicator, the advertised CPU features) and make the verified
//! decision, falling back toward the most portable variant whenever a signal
//! is missing or incomplete.

use vstd::prelude::*;
use crate::strutil::{has_substring, str_contains, str_eq};

verus! {

/// OS flavor of an artifact: feature availability, not a literal version.
/// `Windows` is the modern flavor, `Windows7` the legacy fallback.
#[derive(Clone, Copy, Debug, PartialEq, Eq, Structural)]
pub enum Os {
    Windows,
    Windows7,
}

impl Os {
    /// Token used in download URLs for this OS flavor.
    pub fn as_str(&self) -> (r: &'static str)
        ensures
            r@ == self.token(),
    {
        match self {
            Os::Windows => "windows",
            Os::Windows7 => "windows7",
        }
    }

    /// Human-readable name of this OS flavor.
    pub fn as_display_str(&self) -> (r: &'static str)
        ensures
            self is Windows ==> r@ == "Windows 10+"@,
            self is Windows7 ==> r@ == "Windows 7/8/8.1"@,
    {
        match self {
            Os::Windows => "Windows 10+",
            Os::Windows7 => "Windows 7/8/8.1",
        }
    }

    /// The URL token of this OS flavor.
    pub open spec fn token(self) -> Seq<char> {
        match self {
            Os::Windows => "windows"@,
            Os::Windows7 => "windows7"@,
        }
    }
}

impl Default for Os {
    /// The modern flavor is the default.
    fn default() -> (r: Self)
        ensures
            r == Os::Windows,
    {
        Os::Windows
    }
}

/// CPU architecture of an artifact.
#[derive(Clone, Copy, Debug, PartialEq, Eq, Structural)]
pub enum Arch {
    I686,
    X86_64,
    X86_64v3,
    Aarch64,
}

impl Arch {
    /// Token used in download URLs for this architecture.
    pub fn as_str(&self) -> (r: &'static str)
        ensures
            r@ == self.token(),
    {
        match self {
            Arch::I686 => "x86",
            Arch::X86_64 => "x86_64",
            Arch::X86_64v3 => "x86_64-v3",
            Arch::Aarch64 => "arm64",
        }
    }

    /// Human-readable name of this architecture.
    pub fn as_display_str(&self) -> (r: &'static str)
        ensures
            self is I686 ==> r@ == "x86 (32-bit)"@,
            self is X86_64 ==> r@ == "x86 (64-bit)"@,
            self is X86_64v3 ==> r@ == "x86 (64-bit with AVX2 instructions)"@,
            self is Aarch64 ==> r@ == "ARM64"@,
    {
        match self {
            Arch::I686 => "x86 (32-bit)",
            Arch::X86_64 => "x86 (64-bit)",
            Arch::X86_64v3 => "x86 (64-bit with AVX2 instructions)",
            Arch::Aarch64 => "ARM64",
        }
    }

    /// The URL token of this architecture.
    pub open spec fn token(self) -> Seq<char> {
        match self {
            Arch::I686 => "x86"@,
            Arch::X86_64 => "x86_64"@,
            Arch::X86_64v3 => "x86_64-v3"@,
            Arch::Aarch64 => "arm64"@,
        }
    }
}

/// A probed platform: the pair that selects the artifact variant.
#[derive(Clone, Copy, Debug, PartialEq, Eq, Structural)]
pub struct Platform {
    pub os: Os,
    pub arch: Arch,
}

/// The OS flavor chosen for an OS-reported product name: the modern flavor
/// exactly when the modern marker occurs in it; a missing or unreadable
/// product name falls back to the legacy flavor.
pub open spec fn os_of(product_name: Option<Seq<char>>) -> Os {
    match product_name {
        Some(name) => if has_substring(name, "Windows 10"@) {
            Os::Windows
        } else {
            Os::Windows7
        },
        None => Os::Windows7,
    }
}

/// The architecture chosen for an environment-reported indicator and the
/// advertised CPU features. A 64-bit AMD-compatible indicator upgrades to
/// x86-64, and to x86-64-v3 only when AVX2, FMA and BMI2 are all advertised;
/// an ARM64 indicator maps to Arm64; anything else falls back to 32-bit x86.
pub open spec fn arch_of(indicator: Option<Seq<char>>, avx2: bool, fma: bool, bmi2: bool) -> Arch {
    match indicator {
        Some(ind) => if ind == "AMD64"@ {
            if avx2 && fma && bmi2 {
                Arch::X86_64v3
            } else {
                Arch::X86_64
            }
        } else if ind == "ARM64"@ {
            Arch::Aarch64
        } else {
            Arch::I686
        },
        None => Arch::I686,
    }
}

/// Decide the OS flavor from the OS-reported product name, if any.
pub fn classify_os(product_name: Option<&str>) -> (r: Os)
    ensures
        r == os_of(match product_name {
            Some(p) => Some(p@),
            None => None,
        }),
{
    match product_name {
        Some(name) => {
            if str_contains(name, "Windows 10") {
                Os::Windows
            } else {
                Os::Windows7
            }
        },
        None => Os::Windows7,
    }
}

/// Decide the architecture from the environment's architecture indicator and
/// the advertised CPU features.
pub fn classify_arch(indicator: Option<&str>, avx2: bool, fma: bool, bmi2: bool) -> (r: Arch)
    ensures
        r == arch_of(
            match indicator {
                Some(i) => Some(i@),
                None => None,
            },
            avx2,
            fma,
            bmi2,
        ),
{
    match indicator {
        Some(ind) => {
            if str_eq(ind, "AMD64") {
                if avx2 && fma && bmi2 {
                    Arch::X86_64v3
                } else {
                    Arch::X86_64
                }
            } else if str_eq(ind, "ARM64") {
                Arch::Aarch64
            } else {
                Arch::I686
            }
        },
        None => Arch::I686,
    }
}

/// The platform chosen for a full set of probe signals.
pub open spec fn platform_of(
    product_name: Option<Seq<char>>,
    indicator: Option<Seq<char>>,
    avx2: bool,
    fma: bool,
    bmi2: bool,
) -> Platform {
    Platform { os: os_of(product_name), arch: arch_of(indicator, avx2, fma, bmi2) }
}

/// Decide the platform from the raw probe signals. Total: a missing or
/// unrecognized signal falls back toward the most portable variant, never
/// toward one the host might not execute.
pub fn probe(
    product_name: Option<&str>,
    indicator: Option<&str>,
    avx2: bool,
    fma: bool,
    bmi2: bool,
) -> (r: Platform)
    ensures
        r == platform_of(
            match product_name {
                Some(p) => Some(p@),
                None => None,
            },
            match indicator {
                Some(i) => Some(i@),
                None => None,
            },
            avx2,
            fma,
            bmi2,
        ),
{
    Platform { os: classify_os(product_name), arch: classify_arch(indicator, avx2, fma, bmi2) }
}

/// The probe never selects a variant that needs a capability reported absent:
/// x86-64-v3 only under AVX2, FMA and BMI2 together; any 64-bit x86 variant
/// only under the 64-bit AMD-compatible indicator; Arm64 only under the ARM64
/// indicator; and the modern OS flavor only when the modern marker was seen.
pub proof fn lemma_platform_fallback_monotonic(
    product_name: Option<Seq<char>>,
    indicator: Option<Seq<char>>,
    avx2: bool,
    fma: bool,
    bmi2: bool,
)
    ensures
        !(avx2 && fma && bmi2) ==> arch_of(indicator, avx2, fma, bmi2) != Arch::X86_64v3,
        arch_of(indicator, avx2, fma, bmi2) == Arch::X86_64v3 || arch_of(
            indicator,
            avx2,
            fma,
            bmi2,
        ) == Arch::X86_64 ==> indicator == Some("AMD64"@),
        arch_of(indicator, avx2, fma, bmi2) == Arch::Aarch64 ==> indicator == Some("ARM64"@),
        os_of(product_name) == Os::Windows ==> (product_name matches Some(name) && has_substring(
            name,
            "Windows 10"@,
        )),
{
}

} // verus!
