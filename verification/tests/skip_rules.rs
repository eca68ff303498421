//! Part sizes and the rules by which an upload is skipped.
use http_ferry::existing::{should_skip, ExistingObject};
use http_ferry::multipart::{part_size_for, MAX_PARTS, MIN_PART_SIZE};
use http_ferry::transfer::Checksum;

fn sha1(hex: &str) -> Checksum {
    Checksum::Sha1(hex.into())
}

#[test]
fn part_size_uses_minimum_for_small_files() {
    assert_eq!(part_size_for(1), MIN_PART_SIZE);
    assert_eq!(
        part_size_for((MIN_PART_SIZE as u64) * MAX_PARTS),
        MIN_PART_SIZE
    );
}

#[test]
fn part_size_grows_to_stay_under_s3_part_limit() {
    let file_size = (MIN_PART_SIZE as u64) * MAX_PARTS + 1;
    assert_eq!(part_size_for(file_size), MIN_PART_SIZE + 1);
}

#[test]
fn should_skip_when_expected_checksum_matches_object_metadata() {
    let existing = ExistingObject {
        checksum: Some(sha1("abc")),
        size: 100,
    };
    assert!(should_skip(Some(&sha1("abc")), 100, Some(&existing)));
}

#[test]
fn should_not_skip_when_expected_checksum_differs_from_object_metadata() {
    let existing = ExistingObject {
        checksum: Some(sha1("xxx")),
        size: 100,
    };
    assert!(!should_skip(Some(&sha1("abc")), 100, Some(&existing)));
}

#[test]
fn should_skip_when_expected_checksum_object_lacks_checksum_and_sizes_match() {
    let existing = ExistingObject {
        checksum: None,
        size: 100,
    };
    assert!(should_skip(Some(&sha1("abc")), 100, Some(&existing)));
}

#[test]
fn should_not_skip_when_expected_checksum_object_lacks_checksum_and_sizes_differ() {
    let existing = ExistingObject {
        checksum: None,
        size: 99,
    };
    assert!(!should_skip(Some(&sha1("abc")), 100, Some(&existing)));
}

#[test]
fn should_skip_when_no_expected_checksum_and_object_size_matches() {
    let existing = ExistingObject {
        checksum: None,
        size: 100,
    };
    assert!(should_skip(None, 100, Some(&existing)));
}

#[test]
fn should_not_skip_when_no_expected_checksum_and_object_size_differs() {
    let existing = ExistingObject {
        checksum: None,
        size: 99,
    };
    assert!(!should_skip(None, 100, Some(&existing)));
}

#[test]
fn should_not_skip_when_no_existing_object() {
    assert!(!should_skip(Some(&sha1("abc")), 100, None));
    assert!(!should_skip(None, 100, None));
}
