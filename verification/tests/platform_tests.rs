use dip::platform::{Arch, Os, Platform};

#[test]
fn platform_linux_tokens() {
    let p = Platform::new(Os::Linux, Arch::X64);
    assert_eq!(p.name(), "linux");
    assert_eq!(p.arch(), "x64");
    assert_eq!(p.archive_ext(), ".tar.gz");
}

#[test]
fn platform_macos_tokens() {
    let p = Platform::new(Os::Macos, Arch::Arm64);
    assert_eq!(p.name(), "darwin");
    assert_eq!(p.arch(), "arm64");
    assert_eq!(p.archive_ext(), ".tar.gz");
}

#[test]
fn platform_windows_tokens() {
    let p = Platform::new(Os::Windows, Arch::X64);
    assert_eq!(p.name(), "win");
    assert_eq!(p.archive_ext(), ".zip");
}
