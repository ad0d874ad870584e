use asgard_manager::images::{
    architecture_from_name, classify_boot_entry, disk_image_path, distribution_img_extension,
    filename_matches_distribution, get_url_to_linux_distribution_download,
    guestmount_install_command, is_distribution_image_filename, is_img_path, load_kernel,
    lts_image_filename, Architecture, BootEntryKind, Distribution, PackageManager,
};
use asgard_manager::mem::GuestMemory;

#[test]
fn test_distribution_as_str() {
    assert_eq!(Distribution::Ubuntu.as_str(), "ubuntu");
    assert_eq!(Distribution::Debian.as_str(), "debian");
    assert_eq!(Distribution::Mint.as_str(), "mint");
}

#[test]
fn img_setup_test_distribution_as_str() {
    assert_eq!(Distribution::Ubuntu.as_str(), "ubuntu");
    assert_eq!(Distribution::Debian.as_str(), "debian");
    assert_eq!(Distribution::Mint.as_str(), "mint");
}

#[test]
fn test_get_url_to_linux_distribution_download_known_arch() {
    let result = get_url_to_linux_distribution_download(Distribution::Ubuntu, Architecture::X86_64);
    assert!(result.is_ok());
    let url = result.unwrap();
    assert!(url.contains("ubuntu"));
    assert!(url.ends_with(".img") || url.ends_with(".iso") || url.ends_with(".qcow2"));
}

#[test]
fn img_setup_test_get_url_to_linux_distribution_download_known_arch() {
    let result = get_url_to_linux_distribution_download(Distribution::Ubuntu, Architecture::X86_64);
    assert!(result.is_ok());
    let url = result.unwrap();
    assert!(url.contains("ubuntu"));
    assert!(url.ends_with(".img") || url.ends_with(".iso") || url.ends_with(".qcow2"));
}

#[test]
fn test_package_manager_as_str() {
    assert_eq!(PackageManager::APT.as_str(), "apt-get");
    assert_eq!(PackageManager::DNF.as_str(), "dnf");
    assert_eq!(PackageManager::YUM.as_str(), "yum");
    assert_eq!(PackageManager::Zypper.as_str(), "zypper");
    assert_eq!(PackageManager::Pacman.as_str(), "pacman");
    assert_eq!(PackageManager::Unknown.as_str(), "unknown");
}

#[test]
fn test_distribution_img_extension() {
    assert_eq!(distribution_img_extension(Distribution::Debian), ".qcow2");
    assert_eq!(distribution_img_extension(Distribution::Ubuntu), ".img");
    assert_eq!(distribution_img_extension(Distribution::Mint), ".iso");
}

#[test]
fn url_exact_values_per_architecture() {
    assert_eq!(
        get_url_to_linux_distribution_download(Distribution::Debian, Architecture::X86_64)
            .unwrap(),
        "https://cloud.debian.org/images/cloud/bullseye/latest/debian-11-generic-amd64.qcow2"
    );
    assert_eq!(
        get_url_to_linux_distribution_download(Distribution::Debian, Architecture::ARM64).unwrap(),
        "https://cloud.debian.org/images/cloud/bullseye/latest/debian-11-generic-arm64.qcow2"
    );
    assert_eq!(
        get_url_to_linux_distribution_download(Distribution::Mint, Architecture::ARM64)
            .unwrap_err(),
        "Linux Mint is not officially available for ARM64 architecture"
    );
    assert_eq!(
        get_url_to_linux_distribution_download(Distribution::Ubuntu, Architecture::X86)
            .unwrap_err(),
        "Device architecture is not supported for cloud image installation."
    );
    assert_eq!(
        get_url_to_linux_distribution_download(Distribution::Ubuntu, Architecture::Unknown)
            .unwrap_err(),
        "Device architecture is not supported for cloud image installation."
    );
}

#[test]
fn architecture_from_name_matches_target_names() {
    assert_eq!(architecture_from_name("x86"), Architecture::X86);
    assert_eq!(architecture_from_name("x86_64"), Architecture::X86_64);
    assert_eq!(architecture_from_name("arm"), Architecture::ARM);
    assert_eq!(architecture_from_name("aarch64"), Architecture::ARM64);
    assert_eq!(architecture_from_name("riscv64"), Architecture::Unknown);
}

#[test]
fn filename_matching_requires_name_and_extension() {
    assert!(filename_matches_distribution("ubuntu-lts.img", Distribution::Ubuntu));
    assert!(filename_matches_distribution("debian-server.qcow2", Distribution::Debian));
    assert!(filename_matches_distribution("mint-cinnamon.iso", Distribution::Mint));
    // Wrong extension for the distribution.
    assert!(!filename_matches_distribution("ubuntu-lts.iso", Distribution::Ubuntu));
    assert!(!filename_matches_distribution("debian-server.img", Distribution::Debian));
    // Matching is case-sensitive.
    assert!(!filename_matches_distribution("Ubuntu-lts.img", Distribution::Ubuntu));
    // Unrelated file.
    assert!(!filename_matches_distribution("some-random-file.txt", Distribution::Ubuntu));
}

#[test]
fn distribution_image_filenames_by_extension() {
    assert!(is_distribution_image_filename("a.qcow2"));
    assert!(is_distribution_image_filename("b.img"));
    assert!(is_distribution_image_filename("c.iso"));
    assert!(!is_distribution_image_filename("d.txt"));
    assert!(!is_distribution_image_filename("img"));
}

#[test]
fn img_path_checks_extension() {
    assert!(is_img_path("disk.img"));
    assert!(!is_img_path("disk.png"));
    assert!(!is_img_path("existing_file.png"));
    assert!(!is_img_path("img"));
}

#[test]
fn disk_image_path_appends_extension() {
    assert_eq!(disk_image_path("test_file"), "test_file.img");
    assert_eq!(disk_image_path(""), ".img");
}

#[test]
fn lts_image_filename_per_distribution() {
    assert_eq!(lts_image_filename(Distribution::Ubuntu), "ubuntu-lts.img");
    assert_eq!(lts_image_filename(Distribution::Debian), "debian-lts.img");
    assert_eq!(lts_image_filename(Distribution::Mint), "mint-lts.img");
}

#[test]
fn guestmount_command_per_package_manager() {
    let (prog, args) = guestmount_install_command(&PackageManager::APT).unwrap();
    assert_eq!(prog, "sh");
    assert_eq!(args, vec!["-c", "sudo apt-get update && sudo apt-get install -y guestmount"]);

    let (prog, args) = guestmount_install_command(&PackageManager::DNF).unwrap();
    assert_eq!(prog, "sudo");
    assert_eq!(args, vec!["dnf", "install", "-y", "guestmount"]);

    let (prog, args) = guestmount_install_command(&PackageManager::Pacman).unwrap();
    assert_eq!(prog, "sudo");
    assert_eq!(args, vec!["pacman", "-Sy", "--noconfirm", "guestmount"]);

    let err = guestmount_install_command(&PackageManager::Unknown).unwrap_err();
    assert_eq!(err, "Unsupported package manager. Please install 'guestmount' manually.");
}

#[test]
fn boot_entries_classified_by_prefix() {
    assert_eq!(classify_boot_entry("vmlinuz-5.15.0-91-generic"), BootEntryKind::Kernel);
    assert_eq!(classify_boot_entry("initrd.img-5.15.0-91-generic"), BootEntryKind::Initrd);
    assert_eq!(classify_boot_entry("config-5.15.0-91-generic"), BootEntryKind::Other);
    assert_eq!(classify_boot_entry("grub"), BootEntryKind::Other);
}

#[test]
fn load_kernel_copies_bytes_at_entry() {
    let mut mem = GuestMemory::new(0x1000, 0x4000);
    let kernel = [0xf4u8, 0x90, 0x90];
    load_kernel(&mut mem, 0x1000, &kernel).unwrap();
    assert_eq!(mem.read_bytes(0x1000, 3), vec![0xf4, 0x90, 0x90]);
}

#[test]
fn load_kernel_rejects_image_that_does_not_fit() {
    let mut mem = GuestMemory::new(0, 16);
    let kernel = [0u8; 32];
    let err = load_kernel(&mut mem, 0, &kernel).unwrap_err();
    assert_eq!(err, "kernel image does not fit in guest memory");
    let err2 = load_kernel(&mut mem, 0x100, &[0u8; 1]).unwrap_err();
    assert_eq!(err2, "kernel image does not fit in guest memory");
}
