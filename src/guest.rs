//! Guest virtual machines: where their kernel and root filesystem come from,
//! and the command lines that build and launch them.

use vstd::prelude::*;
use itertools::Itertools;
use crate::image::ImagePullPolicy;
use crate::text::{chars_of, decimal, push_decimal, push_str, string_of};
use crate::text::texts;

verus! {

/// Turns a value into an argument of the emulator.
pub trait IntoQemuArg {
    fn into_qemu_arg(&self) -> String;
}

/// A container image and how to acquire it.
pub struct ImageSpec {
    pub image: String,
    pub image_policy: ImagePullPolicy,
}

impl Clone for ImageSpec {
    /// A copy with the same image name and a copy of the policy.
    fn clone(&self) -> (r: ImageSpec)
        ensures
            r.image@ == self.image@,
    {
        ImageSpec { image: self.image.clone(), image_policy: self.image_policy.clone() }
    }
}

/// A guest image: an optional kernel image and a root filesystem image.
pub struct Image {
    pub kernel: Option<ImageSpec>,
    pub rootfs: ImageSpec,
}

/// Every kernel image combined with every root filesystem image.
pub struct ImageMatrix {
    pub kernel: Vec<ImageSpec>,
    pub rootfs: Vec<ImageSpec>,
}

/// Where the images of guests come from.
pub enum GuestSource {
    Single(Image),
    List(Vec<Image>),
    Matrix(ImageMatrix),
}

/// Filesystems a guest root filesystem can have.
#[derive(Debug, Clone, Copy, PartialEq, Eq, Structural)]
pub enum FileSystem {
    Ext4,
}

impl FileSystem {
    /// The name `mkfs -t` knows the filesystem by.
    pub fn name(&self) -> (r: String)
        ensures
            r@ == "ext4"@,
    {
        match self {
            FileSystem::Ext4 => "ext4".to_owned(),
        }
    }
}

/// Options of a guest.
pub struct GuestOptions {
    /// Container image holding the guest kernel.
    pub kernel_image: String,
    /// Container image holding the guest root filesystem.
    pub rootfs_image: String,
    /// Number of CPUs; 1 by default.
    pub ncpus: u32,
    /// Memory in GiB; 2 by default.
    pub memory: u32,
}

/// A package to install in a guest.
pub struct PackageOption {
    pub pkg: String,
    /// Version of the package; the latest when absent.
    pub version: Option<String>,
}

/// How to build a guest environment.
pub struct EnvironmentOptions {
    /// Directory that relative paths are resolved against.
    pub relative_dir: String,
    /// Kernel image to use instead of building one, if it exists.
    pub bzimage: Option<String>,
    /// Root filesystem image to use instead of building one, if it exists.
    pub rootfs: Option<String>,
    pub ncpus: u32,
    /// Memory in GiB.
    pub memory: u32,
    /// Kernel version to build.
    pub kernel_tag: String,
    pub kconfig: Option<String>,
    pub buildroot: Option<String>,
    /// Overrides of the kernel configuration.
    pub kconfig_opts: Vec<(String, String)>,
    /// Overrides of the Buildroot configuration.
    pub buildroot_opts: Vec<(String, String)>,
    /// Additional packages.
    pub install: Vec<PackageOption>,
}

/// Relies on `itertools::Itertools::cartesian_product`: each kernel image in
/// order, paired with each root filesystem image in order; the pairs hold
/// clones made by `ImageSpec::clone`, which keeps the image name.
#[verifier::external_body]
fn pair_up(kernel: Vec<ImageSpec>, rootfs: Vec<ImageSpec>) -> (r: Vec<(ImageSpec, ImageSpec)>)
    ensures
        r@.len() == kernel@.len() * rootfs@.len(),
        forall|k: int| 0 <= k < r@.len() ==>
            (#[trigger] r@[k]).0.image@ == kernel@[k / rootfs@.len() as int].image@
            && r@[k].1.image@ == rootfs@[k % rootfs@.len() as int].image@,
{
    kernel.into_iter().cartesian_product(rootfs).collect()
}

impl ImageMatrix {
    /// The guest images of the matrix: each kernel with each root filesystem,
    /// kernel-major.
    pub fn into_iter(self) -> (r: Vec<Image>)
        ensures
            r@.len() == self.kernel@.len() * self.rootfs@.len(),
            forall|k: int| 0 <= k < r@.len() ==> (
                (#[trigger] r@[k]).kernel matches Some(ks)
                && ks.image@ == self.kernel@[k / self.rootfs@.len() as int].image@
                && r@[k].rootfs.image@ == self.rootfs@[k % self.rootfs@.len() as int].image@),
    {
        let ghost kernel = self.kernel@;
        let ghost rootfs = self.rootfs@;
        let mut pairs = pair_up(self.kernel, self.rootfs);
        let ghost all = pairs@;
        let mut out: Vec<Image> = Vec::new();
        let n = pairs.len();
        let mut i: usize = 0;
        while i < n
            invariant
                n == all.len(),
                i <= n,
                pairs@ == all.subrange(i as int, n as int),
                out@.len() == i,
                forall|k: int| 0 <= k < i ==> (
                    (#[trigger] out@[k]).kernel matches Some(ks) && ks.image@ == all[k].0.image@
                    && out@[k].rootfs.image@ == all[k].1.image@),
                all.len() == kernel.len() * rootfs.len(),
                forall|k: int| 0 <= k < all.len() ==>
                    (#[trigger] all[k]).0.image@ == kernel[k / rootfs.len() as int].image@
                    && all[k].1.image@ == rootfs[k % rootfs.len() as int].image@,
            decreases n - i,
        {
            let (ks, rs) = pairs.remove(0);
            out.push(Image { kernel: Some(ks), rootfs: rs });
            proof {
                assert(pairs@ =~= all.subrange(i + 1, n as int));
            }
            i = i + 1;
        }
        out
    }
}

/// The arguments of `make` that build a guest kernel and root filesystem with
/// Buildroot.
pub open spec fn buildroot_args_spec(folder: Seq<char>, bconfig: Seq<char>, kconfig: Seq<char>) -> Seq<Seq<char>> {
    seq!["-C"@, folder, "BR2_DEFCONFIG="@ + bconfig, "BR2_LINUX_KERNEL_CUSTOM_CONFIG_FILE="@ + kconfig]
}

fn joined(prefix: &str, rest: &str) -> (r: String)
    ensures
        r@ == prefix@ + rest@,
{
    let mut out = chars_of(prefix);
    let tail = chars_of(rest);
    push_str(&mut out, &tail);
    string_of(&out)
}

/// The arguments of `make` for a Buildroot build in `folder` with the
/// Buildroot configuration `bconfig` and the kernel configuration `kconfig`.
pub fn buildroot_args(folder: &str, bconfig: &str, kconfig: &str) -> (r: Vec<String>)
    ensures
        texts(r@) == buildroot_args_spec(folder@, bconfig@, kconfig@),
{
    let mut r: Vec<String> = Vec::new();
    r.push("-C".to_owned());
    r.push(folder.to_owned());
    r.push(joined("BR2_DEFCONFIG=", bconfig));
    r.push(joined("BR2_LINUX_KERNEL_CUSTOM_CONFIG_FILE=", kconfig));
    proof {
        assert(texts(r@) =~= buildroot_args_spec(folder@, bconfig@, kconfig@));
    }
    r
}

/// The arguments of the emulator for a guest with context id `cid`, `ncpus`
/// CPUs, `memory` GiB of memory, a kernel image and an initial ramdisk.
pub open spec fn qemu_args_spec(cid: u32, ncpus: u32, memory: u32, kernel: Seq<char>, initrd: Seq<char>) -> Seq<Seq<char>> {
    seq![
        "-M"@, "pc"@,
        "-m"@, decimal(memory as nat).push('G'),
        "-nographic"@,
        "-smp"@, decimal(ncpus as nat),
        "-kernel"@, kernel,
        "-initrd"@, initrd,
        "-append"@, "console=tty1 console=ttyS0"@,
        "-netdev"@, "user,id=n1"@,
        "-device"@, "e1000,netdev=n1"@,
        "-device"@, "vhost-vsock-pci,id=vhost-vsock-pci0,guest-cid="@ + decimal(cid as nat),
        "-netdev"@, "user,id=mynet0"@,
        "-device"@, "virtio-net-pci,netdev=mynet0"@,
    ]
}

/// The arguments of the emulator that launches a guest.
pub fn qemu_args(cid: u32, ncpus: u32, memory: u32, kernel: &str, initrd: &str) -> (r: Vec<String>)
    ensures
        texts(r@) == qemu_args_spec(cid, ncpus, memory, kernel@, initrd@),
{
    let mut r: Vec<String> = Vec::new();
    r.push("-M".to_owned());
    r.push("pc".to_owned());
    r.push("-m".to_owned());
    let mut mem: Vec<char> = Vec::new();
    push_decimal(&mut mem, memory as u64);
    mem.push('G');
    r.push(string_of(&mem));
    r.push("-nographic".to_owned());
    r.push("-smp".to_owned());
    let mut cpus: Vec<char> = Vec::new();
    push_decimal(&mut cpus, ncpus as u64);
    r.push(string_of(&cpus));
    r.push("-kernel".to_owned());
    r.push(kernel.to_owned());
    r.push("-initrd".to_owned());
    r.push(initrd.to_owned());
    r.push("-append".to_owned());
    r.push("console=tty1 console=ttyS0".to_owned());
    r.push("-netdev".to_owned());
    r.push("user,id=n1".to_owned());
    r.push("-device".to_owned());
    r.push("e1000,netdev=n1".to_owned());
    r.push("-device".to_owned());
    let mut dev = chars_of("vhost-vsock-pci,id=vhost-vsock-pci0,guest-cid=");
    push_decimal(&mut dev, cid as u64);
    r.push(string_of(&dev));
    r.push("-netdev".to_owned());
    r.push("user,id=mynet0".to_owned());
    r.push("-device".to_owned());
    r.push("virtio-net-pci,netdev=mynet0".to_owned());
    proof {
        assert(texts(r@) =~= qemu_args_spec(cid, ncpus, memory, kernel@, initrd@));
    }
    r
}

} // verus!
