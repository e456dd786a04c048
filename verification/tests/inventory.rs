use bbb_provision::inventory::{
    describe, get_available_space, get_device_names, get_drives_info, get_mount_points,
    get_total_space, list_eligible_devices, BlockDevice, DeviceReport, Inventory, EFI_MOUNT,
    MIN_DEVICE_BYTES,
};

fn device(name: &str, total_bytes: u64, mounts: &[&str]) -> BlockDevice {
    BlockDevice {
        name: name.to_string(),
        total_bytes,
        available: "14.9G".to_string(),
        mount_points: mounts.iter().map(|m| m.to_string()).collect(),
    }
}

fn report(name: &str, size: &str, mounts: &str, available: &str) -> DeviceReport {
    DeviceReport {
        name: name.to_string(),
        size: size.to_string(),
        mounts: mounts.to_string(),
        available: available.to_string(),
    }
}

fn names(inventory: &Inventory) -> Vec<String> {
    let mut out = Vec::new();
    let mut i = 0;
    while i < inventory.len() {
        out.push(inventory.get(i).unwrap().name.clone());
        i += 1;
    }
    out
}

#[test]
fn the_limit_is_one_gibibyte() {
    assert_eq!(MIN_DEVICE_BYTES, 1024 * 1024 * 1024);
    assert_eq!(EFI_MOUNT, "/boot/efi");
}

#[test]
fn device_names_are_the_words_of_the_listing() {
    assert_eq!(get_device_names("sda\nsdb\nnvme0n1\n"), vec!["sda", "sdb", "nvme0n1"]);
    assert_eq!(get_device_names(""), Vec::<String>::new());
}

#[test]
fn total_space_reads_the_trimmed_number() {
    assert_eq!(get_total_space("16000000000\n"), 16_000_000_000);
    assert_eq!(get_total_space("  1073741824  "), 1_073_741_824);
    assert_eq!(get_total_space("0\n"), 0);
}

#[test]
fn total_space_is_zero_where_no_number_is_reported() {
    assert_eq!(get_total_space(""), 0);
    assert_eq!(get_total_space("\n"), 0);
    assert_eq!(get_total_space("14.9G\n"), 0);
    assert_eq!(get_total_space("lsblk: /dev/sdz: not a block device"), 0);
    assert_eq!(get_total_space("1 2"), 0);
    assert_eq!(get_total_space("99999999999999999999999\n"), 0);
}

#[test]
fn mount_points_are_the_non_blank_lines_trimmed() {
    assert_eq!(get_mount_points("\n/boot/efi\n/\n"), vec!["/boot/efi", "/"]);
    assert_eq!(get_mount_points("\n\n\n"), Vec::<String>::new());
    assert_eq!(get_mount_points(""), Vec::<String>::new());
    assert_eq!(get_mount_points("  /media/usb  \n   \n/mnt/my disk\n"), vec![
        "/media/usb",
        "/mnt/my disk"
    ]);
}

#[test]
fn available_space_is_the_trimmed_report() {
    assert_eq!(get_available_space(" 14.9G\n"), "14.9G");
    assert_eq!(get_available_space(""), "");
}

#[test]
fn eligibility_needs_size_and_no_reserved_mount() {
    assert!(device("sdb", MIN_DEVICE_BYTES, &[]).is_eligible());
    assert!(device("sdb", 16_000_000_000, &["/media/usb"]).is_eligible());
    assert!(!device("sdb", MIN_DEVICE_BYTES - 1, &[]).is_eligible());
    assert!(!device("sdb", 0, &[]).is_eligible());
    assert!(!device("sda", 500_000_000_000, &["/", "/boot/efi"]).is_eligible());
    assert!(!device("sda", 500_000_000_000, &["/boot/efi"]).is_eligible());
}

#[test]
fn the_reserved_mount_is_matched_whole() {
    assert!(device("sdc", 16_000_000_000, &["/boot/efi2"]).is_eligible());
    assert!(device("sdc", 16_000_000_000, &["/mnt/boot/efi"]).is_eligible());
    assert!(device("sdc", 16_000_000_000, &["/boot"]).is_eligible());
}

#[test]
fn device_path_is_under_dev() {
    assert_eq!(device("sdb", 1, &[]).path(), "/dev/sdb");
    assert_eq!(device("mmcblk0", 1, &[]).path(), "/dev/mmcblk0");
}

#[test]
fn duplicate_equals_its_source() {
    let d = device("sdb", 16_000_000_000, &["/a", "/b"]);
    assert_eq!(d.duplicate(), d);
}

#[test]
fn describe_reads_every_field() {
    let d = describe(&report("sdb", "16000000000\n", "\n/media/usb\n", "14.9G\n"));
    assert_eq!(d, BlockDevice {
        name: "sdb".to_string(),
        total_bytes: 16_000_000_000,
        available: "14.9G".to_string(),
        mount_points: vec!["/media/usb".to_string()],
    });
}

#[test]
fn listing_keeps_eligible_devices_in_order() {
    let all = vec![
        device("sda", 500_000_000_000, &["/boot/efi", "/"]),
        device("sdb", 16_000_000_000, &[]),
        device("sdc", 512_000_000, &[]),
        device("sdd", 32_000_000_000, &["/media/x"]),
    ];
    let inventory = list_eligible_devices(&all);
    assert_eq!(inventory.len(), 2);
    assert_eq!(names(&inventory), vec!["sdb", "sdd"]);
    assert_eq!(inventory.get(0), Some(&all[1]));
    assert_eq!(inventory.get(1), Some(&all[3]));
    assert_eq!(inventory.get(2), None);
}

#[test]
fn every_listed_device_is_large_and_off_the_reserved_mount() {
    let reports = vec![
        report("sda", "512110190592\n", "\n/boot/efi\n/\n", "477G\n"),
        report("sdb", "16000000000\n", "\n\n", "14.9G\n"),
        report("sdc", "1073741823\n", "", "1024M\n"),
        report("sdd", "1073741824\n", "/media/usb\n", "1G\n"),
        report("sde", "", "", ""),
        report("loop0", "garbage", "/snap/core\n", "55M"),
    ];
    let inventory = get_drives_info(&reports);
    assert_eq!(names(&inventory), vec!["sdb", "sdd"]);
    let mut i = 0;
    while i < inventory.len() {
        let d = inventory.get(i).unwrap();
        assert!(d.total_bytes >= 1024 * 1024 * 1024);
        assert!(!d.mount_points.iter().any(|m| m == "/boot/efi"));
        assert!(d.is_eligible());
        i += 1;
    }
}

#[test]
fn an_empty_scan_lists_nothing() {
    let inventory = get_drives_info(&Vec::new());
    assert_eq!(inventory.len(), 0);
    assert_eq!(inventory.get(0), None);
}
