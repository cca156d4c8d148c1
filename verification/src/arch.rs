//! The target architectures and where each keeps its files.

use crate::text::Text;
use vstd::prelude::*;

verus! {

/// The dynamic linker that turns system calls into function calls.
pub const SHIM: &'static str = "prebuilt/linux/libc-libos.so";

/// The directory whose C files become the system call tests.
pub const TEST_SOURCES: &'static str = "linux-syscall/test";

/// Where the prebuilt base system for riscv64 is published.
pub const PREBUILT_URL: &'static str =
    "https://github.com/rcore-os/libc-test-prebuilt/releases/download/0.1/prebuild.tar.xz";

/// The scratch directory that holds a second copy of the base system while
/// an image is packed.
pub const SCRATCH: &'static str = "/tmp/rootfs";

/// The most that a packed image may hold, in bytes: 1 GiB.
pub const IMAGE_CAPACITY: usize = 0x4000_0000;

/// The room added behind a packed image, in MiB.
pub const IMAGE_PADDING: usize = 5;

/// A target architecture.
#[derive(Debug, Clone, Copy, PartialEq, Eq, Structural)]
pub enum Target {
    Riscv64,
    X86_64,
}

/// The Alpine mirror and release that the x86_64 base system comes from.
#[derive(Debug, PartialEq, Eq)]
pub struct Alpine {
    pub website: String,
    pub version: String,
}

/// An [`Alpine`] as the contracts see it.
pub struct AlpineView {
    pub website: Text,
    pub version: Text,
}

impl DeepView for Alpine {
    type V = AlpineView;

    open spec fn deep_view(&self) -> AlpineView {
        AlpineView { website: self.website@, version: self.version@ }
    }
}

impl View for Alpine {
    type V = AlpineView;

    open spec fn view(&self) -> AlpineView {
        self.deep_view()
    }
}

/// The profile of one target architecture: chosen once, read from then on.
#[derive(Debug, PartialEq, Eq)]
pub struct Arch {
    pub target: Target,
    pub alpine: Alpine,
}

/// An [`Arch`] as the contracts see it.
pub struct ArchView {
    pub target: Target,
    pub alpine: AlpineView,
}

impl DeepView for Arch {
    type V = ArchView;

    open spec fn deep_view(&self) -> ArchView {
        ArchView { target: self.target, alpine: self.alpine@ }
    }
}

impl View for Arch {
    type V = ArchView;

    open spec fn view(&self) -> ArchView {
        self.deep_view()
    }
}

impl ArchView {
    /// The name that tools and paths know the architecture by.
    pub open spec fn name(self) -> Text {
        match self.target {
            Target::Riscv64 => "riscv64"@,
            Target::X86_64 => "x86_64"@,
        }
    }

    /// The directory that holds the root filesystem.
    pub open spec fn rootfs_dir(self) -> Text {
        match self.target {
            Target::Riscv64 => "riscv_rootfs"@,
            Target::X86_64 => "rootfs"@,
        }
    }

    /// The directory that caches the base archive.
    pub open spec fn archive_dir(self) -> Text {
        "prebuilt/linux/"@ + self.name()
    }

    /// The file name of the cached base archive.
    pub open spec fn archive_file(self) -> Text {
        match self.target {
            Target::Riscv64 => "minirootfs.tar.xz"@,
            Target::X86_64 => "minirootfs.tar.gz"@,
        }
    }

    /// Where the base archive is cached.
    pub open spec fn archive_path(self) -> Text {
        self.archive_dir() + "/"@ + self.archive_file()
    }

    /// Where the base archive is downloaded from.
    pub open spec fn archive_url(self) -> Text {
        match self.target {
            Target::Riscv64 => PREBUILT_URL@,
            Target::X86_64 => self.alpine.website + "/"@ + self.name() + "/alpine-minirootfs-"@
                + self.alpine.version + "-"@ + self.name() + ".tar.gz"@,
        }
    }

    /// How many leading path components are dropped from each entry of the
    /// base archive when it is unpacked.
    pub open spec fn strip_components(self) -> usize {
        match self.target {
            Target::Riscv64 => 1,
            Target::X86_64 => 0,
        }
    }

    /// Where the disk image is written.
    pub open spec fn image_path(self) -> Text {
        "zCore/"@ + self.name() + ".img"@
    }

    /// The path of the dynamic linker inside the target system.
    pub open spec fn dynamic_linker(self) -> Text {
        "/lib/ld-musl-"@ + self.name() + ".so.1"@
    }

    /// The dynamic linker's file inside the root filesystem directory.
    pub open spec fn linker_file(self) -> Text {
        self.rootfs_dir() + self.dynamic_linker()
    }
}

impl Arch {
    /// The profile of `target`, with its base system taken from `alpine`.
    pub fn new(target: Target, alpine: Alpine) -> (arch: Arch)
        ensures
            arch@ == (ArchView { target, alpine: alpine@ }),
    {
        Arch { target, alpine }
    }

    /// The name that tools and paths know the architecture by.
    pub fn name(&self) -> (s: &'static str)
        ensures
            s@ == self@.name(),
    {
        match self.target {
            Target::Riscv64 => "riscv64",
            Target::X86_64 => "x86_64",
        }
    }

    /// The directory that holds the root filesystem.
    pub fn rootfs_dir(&self) -> (s: &'static str)
        ensures
            s@ == self@.rootfs_dir(),
    {
        match self.target {
            Target::Riscv64 => "riscv_rootfs",
            Target::X86_64 => "rootfs",
        }
    }

    /// The directory that caches the base archive.
    pub fn archive_dir(&self) -> (s: String)
        ensures
            s@ == self@.archive_dir(),
    {
        let mut s = String::from_str("prebuilt/linux/");
        s.append(self.name());
        s
    }

    /// The file name of the cached base archive.
    pub fn archive_file(&self) -> (s: &'static str)
        ensures
            s@ == self@.archive_file(),
    {
        match self.target {
            Target::Riscv64 => "minirootfs.tar.xz",
            Target::X86_64 => "minirootfs.tar.gz",
        }
    }

    /// Where the base archive is cached.
    pub fn archive_path(&self) -> (s: String)
        ensures
            s@ == self@.archive_path(),
    {
        let mut s = self.archive_dir();
        s.append("/");
        s.append(self.archive_file());
        s
    }

    /// Where the base archive is downloaded from.
    pub fn archive_url(&self) -> (s: String)
        ensures
            s@ == self@.archive_url(),
    {
        match self.target {
            Target::Riscv64 => String::from_str(PREBUILT_URL),
            Target::X86_64 => {
                let mut s = self.alpine.website.clone();
                s.append("/");
                s.append(self.name());
                s.append("/alpine-minirootfs-");
                s.append(self.alpine.version.as_str());
                s.append("-");
                s.append(self.name());
                s.append(".tar.gz");
                s
            },
        }
    }

    /// How many leading path components are dropped from each entry of the
    /// base archive when it is unpacked.
    pub fn strip_components(&self) -> (n: usize)
        ensures
            n == self@.strip_components(),
    {
        match self.target {
            Target::Riscv64 => 1,
            Target::X86_64 => 0,
        }
    }

    /// Where the disk image is written.
    pub fn image_path(&self) -> (s: String)
        ensures
            s@ == self@.image_path(),
    {
        let mut s = String::from_str("zCore/");
        s.append(self.name());
        s.append(".img");
        s
    }

    /// The path of the dynamic linker inside the target system.
    pub fn dynamic_linker(&self) -> (s: String)
        ensures
            s@ == self@.dynamic_linker(),
    {
        let mut s = String::from_str("/lib/ld-musl-");
        s.append(self.name());
        s.append(".so.1");
        s
    }

    /// The dynamic linker's file inside the root filesystem directory.
    pub fn linker_file(&self) -> (s: String)
        ensures
            s@ == self@.linker_file(),
    {
        let mut s = String::from_str(self.rootfs_dir());
        s.append(self.dynamic_linker().as_str());
        s
    }
}

} // verus!
