//! Platform resolver: maps the running operating system and CPU
//! architecture to the naming tokens used in download URLs and local file
//! names. Detection of the running platform happens at the edge; this
//! module holds the mapping, computed once per process.
use vstd::prelude::*;

verus! {

/// Operating-system family of the running process.
#[derive(Clone, Copy, PartialEq, Eq, Structural, Debug)]
pub enum Os {
    Linux,
    Macos,
    Windows,
}

/// CPU architecture of the running process.
#[derive(Clone, Copy, PartialEq, Eq, Structural, Debug)]
pub enum Arch {
    X64,
    Arm64,
}

/// Immutable platform value: OS label, architecture label and archive
/// extension are all pure functions of it.
#[derive(Clone, Copy, PartialEq, Eq, Structural, Debug)]
pub struct Platform {
    pub os: Os,
    pub arch: Arch,
}

impl Platform {
    pub fn new(os: Os, arch: Arch) -> (p: Platform)
        ensures
            p.os == os,
            p.arch == arch,
    {
        Platform { os, arch }
    }

    /// The OS token used in release archive names.
    pub open spec fn spec_name(self) -> Seq<char> {
        match self.os {
            Os::Linux => "linux"@,
            Os::Macos => "darwin"@,
            Os::Windows => "win"@,
        }
    }

    pub fn name(&self) -> (r: &'static str)
        ensures
            r@ == self.spec_name(),
    {
        match self.os {
            Os::Linux => "linux",
            Os::Macos => "darwin",
            Os::Windows => "win",
        }
    }

    /// The architecture token used in release archive names.
    pub open spec fn spec_arch(self) -> Seq<char> {
        match self.arch {
            Arch::X64 => "x64"@,
            Arch::Arm64 => "arm64"@,
        }
    }

    pub fn arch(&self) -> (r: &'static str)
        ensures
            r@ == self.spec_arch(),
    {
        match self.arch {
            Arch::X64 => "x64",
            Arch::Arm64 => "arm64",
        }
    }

    /// The archive container format the platform's releases ship in: a
    /// gzip-compressed tarball on Unix-like systems, a zip file on Windows.
    pub open spec fn spec_archive_ext(self) -> Seq<char> {
        match self.os {
            Os::Windows => ".zip"@,
            _ => ".tar.gz"@,
        }
    }

    pub fn archive_ext(&self) -> (r: &'static str)
        ensures
            r@ == self.spec_archive_ext(),
    {
        match self.os {
            Os::Windows => ".zip",
            _ => ".tar.gz",
        }
    }
}

} // verus!
