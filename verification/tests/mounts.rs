use unilii::mounts::{loop_device_mountpoint, strip_dev_prefix, DeviceMount, is_mounted_at, parse_proc_mounts, sshfs_profile_mounted, unescape_mount_field, ProcMountEntry};

#[test]
fn proc_mount_fields_are_unescaped() {
    assert_eq!(unescape_mount_field("/mnt/my\\040disk"), "/mnt/my disk");
    assert_eq!(unescape_mount_field("a\\011b\\012c\\134d"), "a\tb\nc\\d");
    assert_eq!(unescape_mount_field("plain"), "plain");
}

#[test]
fn proc_mounts_lines_become_entries() {
    let text = "/dev/sda1 / ext4 rw 0 0\nshort line\nuser@host:/srv /mnt/my\\040srv fuse.sshfs rw 0 0\n";
    let entries = parse_proc_mounts(text);
    assert_eq!(
        entries,
        vec![
            ProcMountEntry { source: "/dev/sda1".to_string(), target: "/".to_string(), fstype: "ext4".to_string() },
            ProcMountEntry {
                source: "user@host:/srv".to_string(),
                target: "/mnt/my srv".to_string(),
                fstype: "fuse.sshfs".to_string(),
            },
        ]
    );
    assert!(parse_proc_mounts("").is_empty());
}

#[test]
fn sshfs_profiles_match_by_type_or_source() {
    let entries = parse_proc_mounts("user@host:/srv /mnt/a fuse rw\n/dev/x /mnt/b fuse.sshfs rw\n");
    assert!(sshfs_profile_mounted(&entries, "user", "host", "/srv", "/mnt/a"));
    assert!(sshfs_profile_mounted(&entries, "other", "h", "/", "/mnt/b"));
    assert!(!sshfs_profile_mounted(&entries, "other", "h", "/", "/mnt/a"));
    assert!(!sshfs_profile_mounted(&entries, "user", "host", "/srv", "/mnt/c"));
    assert!(is_mounted_at(&entries, "/mnt/b"));
    assert!(!is_mounted_at(&entries, "/mnt/c"));
}

#[test]
fn loop_device_names_lose_every_dev_prefix() {
    for device in ["/dev/loop0", "loop1", "/dev//dev/loop2", "/dev/dev/loop3", "", "/dev/"] {
        assert_eq!(strip_dev_prefix(device), device.trim_start_matches("/dev/"));
    }
    assert_eq!(strip_dev_prefix("/dev/loop0"), "loop0");
}

#[test]
fn loop_mountpoint_comes_from_the_last_listed_device_of_that_name() {
    let devices = vec![
        DeviceMount { name: "loop0".to_string(), mountpoint: Some("/mnt/old".to_string()) },
        DeviceMount { name: "sda1".to_string(), mountpoint: Some("/".to_string()) },
        DeviceMount { name: "loop0".to_string(), mountpoint: Some("/mnt/iso".to_string()) },
        DeviceMount { name: "loop1".to_string(), mountpoint: None },
    ];
    assert_eq!(loop_device_mountpoint(&devices, "/dev/loop0"), Some("/mnt/iso".to_string()));
    assert_eq!(loop_device_mountpoint(&devices, "/dev/loop1"), None);
    assert_eq!(loop_device_mountpoint(&devices, "/dev/loop7"), None);
}
