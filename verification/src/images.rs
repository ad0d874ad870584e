//! Distribution images and kernel loading: which image belongs to which
//! distribution, where to download it, how to install the tooling that
//! extracts kernels, and how a kernel lands in guest memory.
use vstd::prelude::*;
use vstd::string::{StringSliceAdditionalSpecFns, StringExecFns};
use crate::mem::{GuestMemory, update_range};

verus! {

/// `suffix` is the tail of `s`.
pub open spec fn seq_ends_with(s: Seq<u8>, suffix: Seq<u8>) -> bool {
    suffix.len() <= s.len() && s.skip(s.len() - suffix.len()) == suffix
}

/// `prefix` is the head of `s`.
pub open spec fn seq_starts_with(s: Seq<u8>, prefix: Seq<u8>) -> bool {
    prefix.len() <= s.len() && s.take(prefix.len() as int) == prefix
}

/// `pat` occurs in `s` at position `i`.
pub open spec fn seq_matches_at(s: Seq<u8>, pat: Seq<u8>, i: int) -> bool {
    0 <= i && i + pat.len() <= s.len() && s.subrange(i, i + pat.len()) == pat
}

/// `pat` occurs somewhere in `s`.
pub open spec fn seq_contains(s: Seq<u8>, pat: Seq<u8>) -> bool {
    exists|i: int| seq_matches_at(s, pat, i)
}

/// Byte-slice equality.
pub fn bytes_eq(a: &[u8], b: &[u8]) -> (r: bool)
    ensures
        r == (a@ == b@),
{
    let n = a.len();
    if n != b.len() {
        return false;
    }
    let mut i: usize = 0;
    while i < n
        invariant
            n == a@.len(),
            n == b@.len(),
            i <= n,
            forall|j: int| 0 <= j < i ==> a@[j] == b@[j],
        decreases n - i,
    {
        if a[i] != b[i] {
            return false;
        }
        i += 1;
    }
    proof {
        assert(a@ =~= b@);
    }
    true
}

/// Whether `s` ends with `suffix`.
pub fn bytes_ends_with(s: &[u8], suffix: &[u8]) -> (r: bool)
    ensures
        r == seq_ends_with(s@, suffix@),
{
    let n = s.len();
    let m = suffix.len();
    if m > n {
        return false;
    }
    let k = n - m;
    let mut i: usize = 0;
    while i < m
        invariant
            n == s@.len(),
            m == suffix@.len(),
            m <= n,
            k == n - m,
            i <= m,
            forall|j: int| 0 <= j < i ==> s@[k + j] == suffix@[j],
        decreases m - i,
    {
        if s[k + i] != suffix[i] {
            proof {
                assert(s@.skip(k as int)[i as int] == s@[k + i]);
            }
            return false;
        }
        i += 1;
    }
    proof {
        assert(s@.skip(k as int) =~= suffix@);
    }
    true
}

/// Whether `s` starts with `prefix`.
pub fn bytes_starts_with(s: &[u8], prefix: &[u8]) -> (r: bool)
    ensures
        r == seq_starts_with(s@, prefix@),
{
    let n = s.len();
    let m = prefix.len();
    if m > n {
        return false;
    }
    let mut i: usize = 0;
    while i < m
        invariant
            n == s@.len(),
            m == prefix@.len(),
            m <= n,
            i <= m,
            forall|j: int| 0 <= j < i ==> s@[j] == prefix@[j],
        decreases m - i,
    {
        if s[i] != prefix[i] {
            proof {
                assert(s@.take(m as int)[i as int] == s@[i as int]);
            }
            return false;
        }
        i += 1;
    }
    proof {
        assert(s@.take(m as int) =~= prefix@);
    }
    true
}

/// Whether `pat` occurs in `s` starting at `i`.
fn bytes_matches_at(s: &[u8], pat: &[u8], i: usize) -> (r: bool)
    requires
        i + pat@.len() <= s@.len(),
    ensures
        r == seq_matches_at(s@, pat@, i as int),
{
    let n = s.len();
    let m = pat.len();
    let mut j: usize = 0;
    while j < m
        invariant
            n == s@.len(),
            m == pat@.len(),
            i + m <= n,
            j <= m,
            forall|k: int| 0 <= k < j ==> s@[i + k] == pat@[k],
        decreases m - j,
    {
        if s[i + j] != pat[j] {
            proof {
                assert(s@.subrange(i as int, i + m)[j as int] == s@[i + j]);
            }
            return false;
        }
        j += 1;
    }
    proof {
        assert(s@.subrange(i as int, i + m) =~= pat@);
    }
    true
}

/// Whether `pat` occurs anywhere in `s`.
pub fn bytes_contains(s: &[u8], pat: &[u8]) -> (r: bool)
    ensures
        r == seq_contains(s@, pat@),
{
    let n = s.len();
    let m = pat.len();
    if m > n {
        proof {
            assert forall|i: int| !seq_matches_at(s@, pat@, i) by {}
        }
        return false;
    }
    let last = n - m;
    let mut i: usize = 0;
    loop
        invariant
            n == s@.len(),
            m == pat@.len(),
            m <= n,
            last == n - m,
            i <= last,
            forall|j: int| 0 <= j < i ==> !seq_matches_at(s@, pat@, j),
        ensures
            forall|j: int| 0 <= j <= last ==> !seq_matches_at(s@, pat@, j),
        decreases last - i,
    {
        if bytes_matches_at(s, pat, i) {
            return true;
        }
        if i == last {
            break ;
        }
        i += 1;
    }
    proof {
        assert forall|j: int| !seq_matches_at(s@, pat@, j) by {
            if j > last {
            } else if j >= 0 {
                assert(!seq_matches_at(s@, pat@, j));
            }
        }
    }
    false
}

/// Whether the string `s` ends with `suffix`, byte-wise.
pub fn str_ends_with(s: &str, suffix: &str) -> (r: bool)
    ensures
        r == seq_ends_with(s.spec_bytes(), suffix.spec_bytes()),
{
    bytes_ends_with(s.as_bytes(), suffix.as_bytes())
}

/// Whether the string `s` starts with `prefix`, byte-wise.
pub fn str_starts_with(s: &str, prefix: &str) -> (r: bool)
    ensures
        r == seq_starts_with(s.spec_bytes(), prefix.spec_bytes()),
{
    bytes_starts_with(s.as_bytes(), prefix.as_bytes())
}

/// Whether the string `s` contains `pat`, byte-wise.
pub fn str_contains(s: &str, pat: &str) -> (r: bool)
    ensures
        r == seq_contains(s.spec_bytes(), pat.spec_bytes()),
{
    bytes_contains(s.as_bytes(), pat.as_bytes())
}

/// Supported Linux distributions.
#[derive(Copy, Clone, PartialEq, Eq, Structural, Hash, Debug)]
pub enum Distribution {
    /// Debian.
    Debian,
    /// Ubuntu.
    Ubuntu,
    /// Linux Mint.
    Mint,
}

impl Distribution {
    /// The distribution's lowercase name.
    pub open spec fn name_seq(self) -> Seq<char> {
        match self {
            Distribution::Debian => "debian"@,
            Distribution::Ubuntu => "ubuntu"@,
            Distribution::Mint => "mint"@,
        }
    }

    /// The distribution's lowercase name, as bytes.
    pub open spec fn name_bytes(self) -> Seq<u8> {
        match self {
            Distribution::Debian => "debian".spec_bytes(),
            Distribution::Ubuntu => "ubuntu".spec_bytes(),
            Distribution::Mint => "mint".spec_bytes(),
        }
    }

    /// Lowercase name of the distribution.
    pub fn as_str(&self) -> (r: &str)
        ensures
            r@ == self.name_seq(),
            r.spec_bytes() == self.name_bytes(),
    {
        match self {
            Distribution::Debian => "debian",
            Distribution::Ubuntu => "ubuntu",
            Distribution::Mint => "mint",
        }
    }
}

/// CPU architectures an image can target.
#[derive(Copy, Clone, PartialEq, Eq, Structural, Debug)]
pub enum Architecture {
    /// 32-bit Intel/AMD.
    X86,
    /// 64-bit Intel/AMD.
    X86_64,
    /// 32-bit ARM.
    ARM,
    /// 64-bit ARM.
    ARM64,
    /// Anything else.
    Unknown,
}

/// The architecture named by a target-architecture string such as the
/// compiler's target constant.
pub open spec fn arch_of_name(b: Seq<u8>) -> Architecture {
    if b == "x86".spec_bytes() {
        Architecture::X86
    } else if b == "x86_64".spec_bytes() {
        Architecture::X86_64
    } else if b == "arm".spec_bytes() {
        Architecture::ARM
    } else if b == "aarch64".spec_bytes() {
        Architecture::ARM64
    } else {
        Architecture::Unknown
    }
}

/// Maps a target-architecture name (as the compiler reports it) to the
/// architecture it denotes.
pub fn architecture_from_name(name: &str) -> (r: Architecture)
    ensures
        r == arch_of_name(name.spec_bytes()),
{
    let b = name.as_bytes();
    if bytes_eq(b, "x86".as_bytes()) {
        Architecture::X86
    } else if bytes_eq(b, "x86_64".as_bytes()) {
        Architecture::X86_64
    } else if bytes_eq(b, "arm".as_bytes()) {
        Architecture::ARM
    } else if bytes_eq(b, "aarch64".as_bytes()) {
        Architecture::ARM64
    } else {
        Architecture::Unknown
    }
}

/// The disk-image file extension a distribution is published with.
pub open spec fn ext_seq(distribution: Distribution) -> Seq<char> {
    match distribution {
        Distribution::Debian => ".qcow2"@,
        Distribution::Ubuntu => ".img"@,
        Distribution::Mint => ".iso"@,
    }
}

/// The disk-image file extension, as bytes.
pub open spec fn ext_bytes(distribution: Distribution) -> Seq<u8> {
    match distribution {
        Distribution::Debian => ".qcow2".spec_bytes(),
        Distribution::Ubuntu => ".img".spec_bytes(),
        Distribution::Mint => ".iso".spec_bytes(),
    }
}

/// Disk-image file extension a distribution's images use.
pub fn distribution_img_extension(distribution: Distribution) -> (r: &'static str)
    ensures
        r@ == ext_seq(distribution),
        r.spec_bytes() == ext_bytes(distribution),
{
    match distribution {
        Distribution::Debian => ".qcow2",
        Distribution::Ubuntu => ".img",
        Distribution::Mint => ".iso",
    }
}

/// Whether an image of `distribution` for `architecture` can be downloaded.
pub open spec fn url_available(d: Distribution, a: Architecture) -> bool {
    a is X86_64 || (a is ARM64 && !(d is Mint))
}

/// The download address of the distribution's cloud image for the
/// architecture.
pub open spec fn url_seq(d: Distribution, a: Architecture) -> Seq<char> {
    if a is X86_64 {
        match d {
            Distribution::Debian => "https://cloud.debian.org/images/cloud/bullseye/latest/debian-11-generic-amd64.qcow2"@,
            Distribution::Ubuntu => "https://cloud-images.ubuntu.com/releases/22.04/release/ubuntu-22.04-server-cloudimg-amd64.img"@,
            Distribution::Mint => "https://mirrors.edge.kernel.org/linuxmint/stable/21.3/linuxmint-21.3-cinnamon-64bit.iso"@,
        }
    } else {
        match d {
            Distribution::Debian => "https://cloud.debian.org/images/cloud/bullseye/latest/debian-11-generic-arm64.qcow2"@,
            Distribution::Ubuntu => "https://cloud-images.ubuntu.com/releases/22.04/release/ubuntu-22.04-server-cloudimg-arm64.img"@,
            Distribution::Mint => ""@,
        }
    }
}

/// The error reported when no image can be downloaded.
pub open spec fn url_error_seq(d: Distribution, a: Architecture) -> Seq<char> {
    if a is ARM64 && d is Mint {
        "Linux Mint is not officially available for ARM64 architecture"@
    } else {
        "Device architecture is not supported for cloud image installation."@
    }
}

/// Direct download address for a distribution's cloud image on the given
/// architecture; 64-bit Intel/AMD serves all three distributions, 64-bit ARM
/// all but Mint, and no other architecture is supported.
pub fn get_url_to_linux_distribution_download(
    distribution: Distribution,
    architecture: Architecture,
) -> (r: Result<String, String>)
    ensures
        r is Ok <==> url_available(distribution, architecture),
        r matches Ok(u) ==> u@ == url_seq(distribution, architecture),
        r matches Err(e) ==> e@ == url_error_seq(distribution, architecture),
{
    match architecture {
        Architecture::X86_64 => match distribution {
            Distribution::Debian => Ok(
                "https://cloud.debian.org/images/cloud/bullseye/latest/debian-11-generic-amd64.qcow2".to_owned(),
            ),
            Distribution::Ubuntu => Ok(
                "https://cloud-images.ubuntu.com/releases/22.04/release/ubuntu-22.04-server-cloudimg-amd64.img".to_owned(),
            ),
            Distribution::Mint => Ok(
                "https://mirrors.edge.kernel.org/linuxmint/stable/21.3/linuxmint-21.3-cinnamon-64bit.iso".to_owned(),
            ),
        },
        Architecture::ARM64 => match distribution {
            Distribution::Debian => Ok(
                "https://cloud.debian.org/images/cloud/bullseye/latest/debian-11-generic-arm64.qcow2".to_owned(),
            ),
            Distribution::Ubuntu => Ok(
                "https://cloud-images.ubuntu.com/releases/22.04/release/ubuntu-22.04-server-cloudimg-arm64.img".to_owned(),
            ),
            Distribution::Mint => Err(
                "Linux Mint is not officially available for ARM64 architecture".to_owned(),
            ),
        },
        _ => Err("Device architecture is not supported for cloud image installation.".to_owned()),
    }
}

/// Whether `filename` is an image of `distribution`: it names the
/// distribution and carries its extension.
pub fn filename_matches_distribution(filename: &str, distribution: Distribution) -> (r: bool)
    ensures
        r == (seq_contains(filename.spec_bytes(), distribution.name_bytes()) && seq_ends_with(
            filename.spec_bytes(),
            ext_bytes(distribution),
        )),
{
    str_contains(filename, distribution.as_str()) && str_ends_with(
        filename,
        distribution_img_extension(distribution),
    )
}

/// Whether `filename` looks like any distribution image: it ends in
/// `.qcow2`, `.img` or `.iso`.
pub fn is_distribution_image_filename(filename: &str) -> (r: bool)
    ensures
        r == (seq_ends_with(filename.spec_bytes(), ".qcow2".spec_bytes()) || seq_ends_with(
            filename.spec_bytes(),
            ".img".spec_bytes(),
        ) || seq_ends_with(filename.spec_bytes(), ".iso".spec_bytes())),
{
    str_ends_with(filename, ".qcow2") || str_ends_with(filename, ".img") || str_ends_with(
        filename,
        ".iso",
    )
}

/// Whether `path` names a raw disk image (`.img`).
pub fn is_img_path(path: &str) -> (r: bool)
    ensures
        r == seq_ends_with(path.spec_bytes(), ".img".spec_bytes()),
{
    str_ends_with(path, ".img")
}

/// The path of the disk image created from a base path: the base with
/// `.img` appended.
pub fn disk_image_path(path: &str) -> (r: String)
    ensures
        r@ == path@ + ".img"@,
{
    let mut s = path.to_owned();
    s.append(".img");
    s
}

/// The local file name a downloaded image is stored under.
pub fn lts_image_filename(distribution: Distribution) -> (r: String)
    ensures
        r@ == distribution.name_seq() + "-lts.img"@,
{
    let mut s = distribution.as_str().to_owned();
    s.append("-lts.img");
    s
}

/// Host package managers that can install the image tooling.
#[derive(Debug, PartialEq, Eq, Structural)]
pub enum PackageManager {
    /// apt-get (Debian family).
    APT,
    /// dnf (Fedora family).
    DNF,
    /// yum (older Red Hat family).
    YUM,
    /// zypper (SUSE family).
    Zypper,
    /// pacman (Arch family).
    Pacman,
    /// None of the known ones.
    Unknown,
}

impl PackageManager {
    /// The package manager's command name.
    pub open spec fn name_seq(self) -> Seq<char> {
        match self {
            PackageManager::APT => "apt-get"@,
            PackageManager::DNF => "dnf"@,
            PackageManager::YUM => "yum"@,
            PackageManager::Zypper => "zypper"@,
            PackageManager::Pacman => "pacman"@,
            PackageManager::Unknown => "unknown"@,
        }
    }

    /// Command name of the package manager.
    pub fn as_str(&self) -> (r: &str)
        ensures
            r@ == self.name_seq(),
    {
        match self {
            PackageManager::APT => "apt-get",
            PackageManager::DNF => "dnf",
            PackageManager::YUM => "yum",
            PackageManager::Zypper => "zypper",
            PackageManager::Pacman => "pacman",
            PackageManager::Unknown => "unknown",
        }
    }
}

/// The program a guestmount installation runs.
pub open spec fn install_prog_seq(pm: PackageManager) -> Seq<char> {
    match pm {
        PackageManager::APT => "sh"@,
        _ => "sudo"@,
    }
}

/// The arguments a guestmount installation passes to its program.
pub open spec fn install_args_match(pm: PackageManager, args: Seq<&str>) -> bool {
    match pm {
        PackageManager::APT => args.len() == 2 && args[0]@ == "-c"@ && args[1]@
            == "sudo apt-get update && sudo apt-get install -y guestmount"@,
        PackageManager::DNF => args.len() == 4 && args[0]@ == "dnf"@ && args[1]@ == "install"@
            && args[2]@ == "-y"@ && args[3]@ == "guestmount"@,
        PackageManager::YUM => args.len() == 4 && args[0]@ == "yum"@ && args[1]@ == "install"@
            && args[2]@ == "-y"@ && args[3]@ == "guestmount"@,
        PackageManager::Zypper => args.len() == 4 && args[0]@ == "zypper"@ && args[1]@
            == "install"@ && args[2]@ == "-y"@ && args[3]@ == "guestmount"@,
        PackageManager::Pacman => args.len() == 4 && args[0]@ == "pacman"@ && args[1]@ == "-Sy"@
            && args[2]@ == "--noconfirm"@ && args[3]@ == "guestmount"@,
        PackageManager::Unknown => false,
    }
}

/// The command line that installs guestmount with the given package manager:
/// the program to run and its arguments. The unknown package manager is
/// rejected with the message asking for a manual installation.
pub fn guestmount_install_command(pm: &PackageManager) -> (r: Result<
    (&'static str, Vec<&'static str>),
    String,
>)
    ensures
        r is Err <==> pm is Unknown,
        r matches Ok(c) ==> c.0@ == install_prog_seq(*pm) && install_args_match(*pm, c.1@),
        r matches Err(e) ==> e@
            == "Unsupported package manager. Please install 'guestmount' manually."@,
{
    match pm {
        PackageManager::APT => {
            let mut args: Vec<&'static str> = Vec::new();
            args.push("-c");
            args.push("sudo apt-get update && sudo apt-get install -y guestmount");
            Ok(("sh", args))
        },
        PackageManager::DNF => {
            let mut args: Vec<&'static str> = Vec::new();
            args.push("dnf");
            args.push("install");
            args.push("-y");
            args.push("guestmount");
            Ok(("sudo", args))
        },
        PackageManager::YUM => {
            let mut args: Vec<&'static str> = Vec::new();
            args.push("yum");
            args.push("install");
            args.push("-y");
            args.push("guestmount");
            Ok(("sudo", args))
        },
        PackageManager::Zypper => {
            let mut args: Vec<&'static str> = Vec::new();
            args.push("zypper");
            args.push("install");
            args.push("-y");
            args.push("guestmount");
            Ok(("sudo", args))
        },
        PackageManager::Pacman => {
            let mut args: Vec<&'static str> = Vec::new();
            args.push("pacman");
            args.push("-Sy");
            args.push("--noconfirm");
            args.push("guestmount");
            Ok(("sudo", args))
        },
        PackageManager::Unknown => Err(
            "Unsupported package manager. Please install 'guestmount' manually.".to_owned(),
        ),
    }
}

/// The components required to boot a Linux kernel in a virtual machine: the
/// raw kernel image, and optionally an initial RAM disk.
#[derive(Debug)]
pub struct KernelComponents {
    /// Raw contents of the kernel image.
    pub kernel: Vec<u8>,
    /// Optional initrd/initramfs contents.
    pub initrd: Option<Vec<u8>>,
}

/// What a file in a boot directory is.
#[derive(Copy, Clone, PartialEq, Eq, Structural, Debug)]
pub enum BootEntryKind {
    /// A kernel image (`vmlinuz*`).
    Kernel,
    /// An initial RAM disk (`initrd.img*`).
    Initrd,
    /// Anything else.
    Other,
}

/// The kind of boot-directory entry a file name denotes.
pub open spec fn boot_entry_spec(b: Seq<u8>) -> BootEntryKind {
    if seq_starts_with(b, "vmlinuz".spec_bytes()) {
        BootEntryKind::Kernel
    } else if seq_starts_with(b, "initrd.img".spec_bytes()) {
        BootEntryKind::Initrd
    } else {
        BootEntryKind::Other
    }
}

/// Classifies a boot-directory entry by its file name: kernels start with
/// `vmlinuz`, RAM disks with `initrd.img`.
pub fn classify_boot_entry(filename: &str) -> (r: BootEntryKind)
    ensures
        r == boot_entry_spec(filename.spec_bytes()),
{
    if str_starts_with(filename, "vmlinuz") {
        BootEntryKind::Kernel
    } else if str_starts_with(filename, "initrd.img") {
        BootEntryKind::Initrd
    } else {
        BootEntryKind::Other
    }
}

/// Guest address a kernel is loaded at on 64-bit Intel/AMD hosts.
pub const KERNEL_LOAD_ADDR_X86_64: u64 = 0x1000;

/// Guest address a kernel is loaded at on 64-bit ARM hosts.
pub const KERNEL_LOAD_ADDR_AARCH64: u64 = 0x4000;

/// Copies a kernel image into guest memory at the entry address; rejected
/// when the image does not fit.
pub fn load_kernel(mem: &mut GuestMemory, entry: u64, kernel: &[u8]) -> (r: Result<(), String>)
    ensures
        r is Ok <==> old(mem).contains_range(entry, kernel@.len() as u64),
        r is Ok ==> final(mem)@ == update_range(old(mem)@, old(mem).offset_of(entry), kernel@)
            && final(mem).base_spec() == old(mem).base_spec(),
        r is Err ==> *final(mem) == *old(mem),
        r matches Err(e) ==> e@ == "kernel image does not fit in guest memory"@,
{
    if !mem.check_range(entry, kernel.len() as u64) {
        return Err("kernel image does not fit in guest memory".to_owned());
    }
    mem.write_bytes(entry, kernel);
    Ok(())
}

} // verus!
