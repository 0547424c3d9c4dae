use check_disk::erase::check_ssd;
use check_disk::erase::classify_output;
use check_disk::erase::contains_str;
use check_disk::erase::device_family;
use check_disk::erase::verify_erase;
use check_disk::erase::CollaboratorError;
use check_disk::erase::DeviceFamily;
use check_disk::erase::EraseVerdict;

#[test]
fn test_check_sata_secure_erase_success() {
    let output = "supported: enhanced erase\nSecurity Erase completed successfully";
    assert!(output.contains("Security Erase completed successfully"));
    let result = check_ssd("/dev/sda", Some(output));
    assert!(result);
}

#[test]
fn test_check_nvme_secure_erase_success() {
    let output = "sanitize operation completed\nsanitize operation completed successfully";
    assert!(output.contains("sanitize operation completed successfully"));
    let result = check_ssd("/dev/nvme0n1", Some(output));
    assert!(result);
}

#[test]
fn test_family_dispatch() {
    assert_eq!(device_family("/dev/nvme0n1"), DeviceFamily::Nvme);
    assert_eq!(device_family("/dev/nvme1"), DeviceFamily::Nvme);
    assert_eq!(device_family("/dev/sda"), DeviceFamily::Sata);
    assert_eq!(device_family("/dev/sdb"), DeviceFamily::Sata);
    assert_eq!(device_family(""), DeviceFamily::Sata);
}

#[test]
fn test_family_consults_only_its_own_marker() {
    // an NVMe-style path is judged by the NVMe marker alone: the SATA
    // marker in its output proves nothing, and vice versa
    assert!(!check_ssd("/dev/nvme0n1", Some("supported: enhanced erase")));
    assert!(!check_ssd("/dev/sda", Some("sanitize operation completed")));
    assert!(check_ssd("/dev/nvme0n1", Some("sanitize operation completed")));
    assert!(check_ssd("/dev/sda", Some("supported: enhanced erase")));
}

#[test]
fn test_marker_must_match_exactly() {
    // near misses: truncated, differently cased, or padded inside
    assert!(!check_ssd("/dev/sda", Some("supported: enhanced eras")));
    assert!(!check_ssd("/dev/sda", Some("Supported: Enhanced Erase")));
    assert!(!check_ssd("/dev/sda", Some("supported:  enhanced erase")));
    assert!(!check_ssd("/dev/nvme0n1", Some("sanitize operation complete")));
    assert!(!check_ssd("/dev/nvme0n1", Some("comp leted")));
    // the exact marker, bare or embedded, is enough
    assert!(check_ssd("/dev/sda", Some("supported: enhanced erase")));
    assert!(check_ssd("/dev/nvme0n1", Some("completed")));
    assert!(check_ssd("/dev/nvme0n1", Some("xcompletedy")));
}

#[test]
fn test_classify_output() {
    assert_eq!(
        classify_output(DeviceFamily::Sata, "supported: enhanced erase"),
        EraseVerdict::Verified
    );
    assert_eq!(
        classify_output(DeviceFamily::Sata, "not supported"),
        EraseVerdict::NotVerified
    );
    assert_eq!(
        classify_output(DeviceFamily::Nvme, "sanitize operation completed"),
        EraseVerdict::Verified
    );
    assert_eq!(
        classify_output(DeviceFamily::Nvme, "sanitize in progress"),
        EraseVerdict::NotVerified
    );
}

#[test]
fn test_verify_erase_query_failure() {
    assert_eq!(
        verify_erase("/dev/sda", None),
        Err(CollaboratorError::QueryFailed)
    );
    assert_eq!(
        verify_erase("/dev/nvme0n1", None),
        Err(CollaboratorError::QueryFailed)
    );
    assert!(!check_ssd("/dev/sda", None));
    assert_eq!(
        verify_erase("/dev/sda", Some("no markers here")),
        Ok(EraseVerdict::NotVerified)
    );
}

#[test]
fn test_contains_str() {
    assert!(contains_str("hello world", "lo w"));
    assert!(contains_str("hello world", ""));
    assert!(contains_str("", ""));
    assert!(!contains_str("", "a"));
    assert!(!contains_str("abc", "abcd"));
    assert!(contains_str("abc", "abc"));
    assert!(!contains_str("abc", "cb"));
}
