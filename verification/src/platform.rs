//! The platforms the language server is published for, and what each of them
//! decides: the suffix of its build, the archive it ships in, the extension of
//! its executable and whether the executable bit has to be restored.

use vstd::prelude::*;

verus! {

/// The operating system of the machine the editor runs on.
#[derive(Clone, Copy, Debug, PartialEq, Eq, Structural)]
pub enum Os {
    Mac,
    Linux,
    Windows,
}

/// The processor architecture of the machine the editor runs on.
#[derive(Clone, Copy, Debug, PartialEq, Eq, Structural)]
pub enum Architecture {
    Aarch64,
    X86,
    X8664,
}

/// How a downloaded asset is packed.
#[derive(Clone, Copy, Debug, PartialEq, Eq, Structural)]
pub enum ArchiveFormat {
    Zip,
    GzipTar,
}

/// The name by which the host's interface writes an operating system.
pub open spec fn os_name(os: Os) -> Seq<char> {
    match os {
        Os::Mac => "Os::Mac"@,
        Os::Linux => "Os::Linux"@,
        Os::Windows => "Os::Windows"@,
    }
}

/// The name by which the host's interface writes an architecture.
pub open spec fn architecture_name(arch: Architecture) -> Seq<char> {
    match arch {
        Architecture::Aarch64 => "Architecture::Aarch64"@,
        Architecture::X86 => "Architecture::X86"@,
        Architecture::X8664 => "Architecture::X8664"@,
    }
}

/// The table of published builds: the asset-name suffix of each supported
/// pair, and `None` for every other pair.
pub open spec fn suffix_of(os: Os, arch: Architecture) -> Option<Seq<char>> {
    match (os, arch) {
        (Os::Windows, Architecture::X8664) => Some("amd64-windows"@),
        (Os::Mac, Architecture::Aarch64) => Some("arm64-darwin"@),
        (Os::Mac, Architecture::X8664) => Some("x86_64-darwin"@),
        (Os::Linux, Architecture::X8664) => Some("x86_64-linux"@),
        _ => None,
    }
}

/// Whether a build is published for the pair.
pub open spec fn is_supported(os: Os, arch: Architecture) -> bool {
    suffix_of(os, arch) is Some
}

/// The archive format of the asset published for an operating system. Every
/// build ships as a zip archive.
pub open spec fn archive_format_of(os: Os) -> ArchiveFormat {
    ArchiveFormat::Zip
}

/// The file extension of an archive format.
pub open spec fn archive_extension(format: ArchiveFormat) -> Seq<char> {
    match format {
        ArchiveFormat::Zip => ".zip"@,
        ArchiveFormat::GzipTar => ".tar.gz"@,
    }
}

/// The extension of an executable's file name.
pub open spec fn executable_extension(os: Os) -> Seq<char> {
    match os {
        Os::Windows => ".exe"@,
        _ => ""@,
    }
}

/// Whether the extracted binary must be marked executable again: unpacking
/// loses the mode bits on the POSIX systems, and Windows has none.
pub open spec fn restores_permissions(os: Os) -> bool {
    os == Os::Mac || os == Os::Linux
}

impl Os {
    /// The operating system's name as the host writes it.
    pub fn name(self) -> (name: &'static str)
        ensures
            name@ == os_name(self),
    {
        match self {
            Os::Mac => "Os::Mac",
            Os::Linux => "Os::Linux",
            Os::Windows => "Os::Windows",
        }
    }

    /// The archive format in which the build for this system is published.
    pub fn archive_format(self) -> (format: ArchiveFormat)
        ensures
            format == archive_format_of(self),
    {
        ArchiveFormat::Zip
    }

    /// `".exe"` on Windows, the empty string elsewhere.
    pub fn executable_extension(self) -> (extension: &'static str)
        ensures
            extension@ == executable_extension(self),
    {
        match self {
            Os::Windows => ".exe",
            _ => "",
        }
    }

    /// Whether the binary's executable bit is restored after extraction.
    pub fn restores_permissions(self) -> (restores: bool)
        ensures
            restores == restores_permissions(self),
    {
        match self {
            Os::Mac | Os::Linux => true,
            Os::Windows => false,
        }
    }
}

impl Architecture {
    /// The architecture's name as the host writes it.
    pub fn name(self) -> (name: &'static str)
        ensures
            name@ == architecture_name(self),
    {
        match self {
            Architecture::Aarch64 => "Architecture::Aarch64",
            Architecture::X86 => "Architecture::X86",
            Architecture::X8664 => "Architecture::X8664",
        }
    }
}

impl ArchiveFormat {
    /// The file extension of archives of this format.
    pub fn extension(self) -> (extension: &'static str)
        ensures
            extension@ == archive_extension(self),
    {
        match self {
            ArchiveFormat::Zip => ".zip",
            ArchiveFormat::GzipTar => ".tar.gz",
        }
    }
}

/// Looks the pair up in the table of published builds.
pub fn platform_suffix(os: Os, arch: Architecture) -> (suffix: Option<&'static str>)
    ensures
        suffix is Some <==> is_supported(os, arch),
        match suffix {
            Some(text) => suffix_of(os, arch) == Some(text@),
            None => suffix_of(os, arch) is None,
        },
{
    match (os, arch) {
        (Os::Windows, Architecture::X8664) => Some("amd64-windows"),
        (Os::Mac, Architecture::Aarch64) => Some("arm64-darwin"),
        (Os::Mac, Architecture::X8664) => Some("x86_64-darwin"),
        (Os::Linux, Architecture::X8664) => Some("x86_64-linux"),
        _ => None,
    }
}

/// Exactly four pairs are supported.
pub proof fn supported_pairs(os: Os, arch: Architecture)
    ensures
        is_supported(os, arch) <==> {
            ||| (os == Os::Windows && arch == Architecture::X8664)
            ||| (os == Os::Mac && arch == Architecture::Aarch64)
            ||| (os == Os::Mac && arch == Architecture::X8664)
            ||| (os == Os::Linux && arch == Architecture::X8664)
        },
{
}

/// No two supported pairs share a suffix: the suffix names one build.
pub proof fn suffixes_are_distinct(os1: Os, arch1: Architecture, os2: Os, arch2: Architecture)
    requires
        is_supported(os1, arch1),
        suffix_of(os1, arch1) == suffix_of(os2, arch2),
    ensures
        os1 == os2,
        arch1 == arch2,
{
    reveal_strlit("amd64-windows");
    reveal_strlit("arm64-darwin");
    reveal_strlit("x86_64-darwin");
    reveal_strlit("x86_64-linux");
    let a = suffix_of(os1, arch1)->0;
    let b = suffix_of(os2, arch2)->0;
    assert(a.len() == b.len());
    assert(a[0] == b[0]);
}

} // verus!
