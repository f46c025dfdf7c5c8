use secure_container::probes::check_container_mounted;
use secure_container::probes::check_container_open;
use secure_container::probes::check_functionality_of_integrity;
use secure_container::probes::check_integrity;
use secure_container::probes::check_lsblk;

#[test]
fn lsblk_scan_finds_plain_and_decorated_tokens() {
    assert!(check_lsblk("box1", "sda stuff box1 more"));
    assert!(check_lsblk("box1", "sda └─box1 more"));
    assert!(check_lsblk("box1", "sda box1\n more"));
    assert!(!check_lsblk("box1", "sda box11 box 1"));
    assert!(!check_lsblk("box1", ""));
}

#[test]
fn mounted_scan_needs_the_name_followed_by_a_space() {
    let listing = "total 0\nlrwxrwxrwx 1 root root 7 box1 -> ../dm-0\n";
    assert!(check_container_mounted("box1", listing));
    assert!(!check_container_mounted("box2", listing));
    // the name at the end of a line, with no trailing space, does not count
    assert!(!check_container_mounted("box1", "something box1\n"));
}

#[test]
fn open_scan_needs_the_crypt_marker_on_the_same_line() {
    let listing = "NAME TYPE MOUNTPOINT\nsda disk\nbox1  crypt /mnt/x\n";
    assert!(check_container_open("box1", listing));
    assert!(!check_container_open("box1", "NAME TYPE\nbox1  disk /mnt/x\n"));
    assert!(!check_container_open("box2", listing));
}

#[test]
fn integrity_scan_compares_timestamps_lexicographically() {
    let fault_new = "2024-05-01T10:31,000 INTEGRITY AEAD ERROR on dm-0\n";
    let fault_old = "2024-05-01T10:29,999 INTEGRITY AEAD ERROR on dm-0\n";
    // a fault stamped at or after the snapshot fails the check
    assert!(!check_integrity("2024-05-01T10:30", fault_new));
    // an older fault is ignored
    assert!(check_integrity("2024-05-01T10:30", fault_old));
    // a clean log passes
    assert!(check_integrity("2024-05-01T10:30", "usb 1-1: new device\n"));
    // a fault stamped exactly at the snapshot counts
    assert!(!check_integrity(
        "2024-05-01T10:30",
        "2024-05-01T10:30,123 INTEGRITY AEAD ERROR on dm-0\n"
    ));
}

#[test]
fn test_check_functionality_of_integrity() {
    let unsupported = "alg: No test for authenc(hmac(sha256),xts(aes)) (authenc(hmac(sha256-avx2),xts-aes-aesni))\n";
    let output = check_functionality_of_integrity(unsupported);
    assert_eq!(output, false);
    assert!(check_functionality_of_integrity("usb 1-1: new device\n"));
}
