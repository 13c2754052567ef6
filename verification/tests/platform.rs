use twbm_installer::platform::{classify_arch, classify_os, probe, Arch, Os, Platform};

#[test]
fn os_tokens() {
    assert_eq!(Os::Windows.as_str(), "windows");
    assert_eq!(Os::Windows7.as_str(), "windows7");
    assert_eq!(Os::Windows.as_display_str(), "Windows 10+");
    assert_eq!(Os::Windows7.as_display_str(), "Windows 7/8/8.1");
}

#[test]
fn arch_tokens() {
    assert_eq!(Arch::I686.as_str(), "x86");
    assert_eq!(Arch::X86_64.as_str(), "x86_64");
    assert_eq!(Arch::X86_64v3.as_str(), "x86_64-v3");
    assert_eq!(Arch::Aarch64.as_str(), "arm64");
    assert_eq!(Arch::I686.as_display_str(), "x86 (32-bit)");
    assert_eq!(Arch::X86_64.as_display_str(), "x86 (64-bit)");
    assert_eq!(
        Arch::X86_64v3.as_display_str(),
        "x86 (64-bit with AVX2 instructions)"
    );
    assert_eq!(Arch::Aarch64.as_display_str(), "ARM64");
}

#[test]
fn os_modern_marker_present() {
    assert_eq!(classify_os(Some("Windows 10 Pro")), Os::Windows);
    assert_eq!(classify_os(Some("Windows 10")), Os::Windows);
}

#[test]
fn os_marker_absent_falls_back_to_legacy() {
    assert_eq!(classify_os(Some("Windows 7 Ultimate")), Os::Windows7);
    assert_eq!(classify_os(Some("Windows 8.1")), Os::Windows7);
    assert_eq!(classify_os(Some("")), Os::Windows7);
}

#[test]
fn os_unreadable_falls_back_to_legacy() {
    assert_eq!(classify_os(None), Os::Windows7);
}

#[test]
fn arch_full_capability_upgrades_to_v3() {
    assert_eq!(classify_arch(Some("AMD64"), true, true, true), Arch::X86_64v3);
}

#[test]
fn arch_partial_capability_never_selects_v3() {
    // every combination with at least one capability absent
    for &avx2 in &[false, true] {
        for &fma in &[false, true] {
            for &bmi2 in &[false, true] {
                if !(avx2 && fma && bmi2) {
                    assert_eq!(classify_arch(Some("AMD64"), avx2, fma, bmi2), Arch::X86_64);
                    assert_ne!(
                        classify_arch(Some("ARM64"), avx2, fma, bmi2),
                        Arch::X86_64v3
                    );
                    assert_ne!(classify_arch(None, avx2, fma, bmi2), Arch::X86_64v3);
                }
            }
        }
    }
}

#[test]
fn arch_arm64_indicator() {
    assert_eq!(classify_arch(Some("ARM64"), false, false, false), Arch::Aarch64);
    assert_eq!(classify_arch(Some("ARM64"), true, true, true), Arch::Aarch64);
}

#[test]
fn probe_combines_both_signals() {
    assert_eq!(
        probe(Some("Windows 10 Home"), Some("AMD64"), false, true, true),
        Platform { os: Os::Windows, arch: Arch::X86_64 }
    );
    // every signal missing: the most conservative variant
    assert_eq!(
        probe(None, None, false, false, false),
        Platform { os: Os::Windows7, arch: Arch::I686 }
    );
}

#[test]
fn arch_unknown_indicator_falls_back_to_x86() {
    assert_eq!(classify_arch(None, true, true, true), Arch::I686);
    assert_eq!(classify_arch(Some("IA64"), true, true, true), Arch::I686);
    assert_eq!(classify_arch(Some(""), true, true, true), Arch::I686);
    assert_eq!(classify_arch(Some("amd64"), true, true, true), Arch::I686);
}
