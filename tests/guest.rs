use houdini::guest::{buildroot_args, qemu_args, FileSystem, ImageMatrix, ImageSpec};
use houdini::image::ImagePullPolicy;

fn spec(name: &str) -> ImageSpec {
    ImageSpec { image: name.to_string(), image_policy: ImagePullPolicy::Never }
}

#[test]
fn image_matrix_pairs_every_kernel_with_every_rootfs() {
    let m = ImageMatrix { kernel: vec![spec("k1"), spec("k2")], rootfs: vec![spec("r1"), spec("r2"), spec("r3")] };
    let images = m.into_iter();
    let names: Vec<(String, String)> = images
        .iter()
        .map(|i| (i.kernel.as_ref().unwrap().image.clone(), i.rootfs.image.clone()))
        .collect();
    let expected: Vec<(String, String)> = [
        ("k1", "r1"), ("k1", "r2"), ("k1", "r3"), ("k2", "r1"), ("k2", "r2"), ("k2", "r3"),
    ]
    .iter()
    .map(|(a, b)| (a.to_string(), b.to_string()))
    .collect();
    assert_eq!(names, expected);
    let empty = ImageMatrix { kernel: vec![], rootfs: vec![spec("r")] };
    assert!(empty.into_iter().is_empty());
}

#[test]
fn emulator_arguments() {
    let args = qemu_args(3, 4, 2, "/img/bzImage", "/img/rootfs.cpio");
    assert_eq!(
        args,
        vec![
            "-M", "pc", "-m", "2G", "-nographic", "-smp", "4", "-kernel", "/img/bzImage",
            "-initrd", "/img/rootfs.cpio", "-append", "console=tty1 console=ttyS0",
            "-netdev", "user,id=n1", "-device", "e1000,netdev=n1", "-device",
            "vhost-vsock-pci,id=vhost-vsock-pci0,guest-cid=3", "-netdev", "user,id=mynet0",
            "-device", "virtio-net-pci,netdev=mynet0",
        ]
    );
}

#[test]
fn buildroot_arguments() {
    assert_eq!(
        buildroot_args("/br", "b.config", "k.config"),
        vec!["-C", "/br", "BR2_DEFCONFIG=b.config", "BR2_LINUX_KERNEL_CUSTOM_CONFIG_FILE=k.config"]
    );
    assert_eq!(FileSystem::Ext4.name(), "ext4");
}
