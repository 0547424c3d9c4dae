use check_disk::level::CheckLevel;
use check_disk::level::DEEP_CHECK_COUNT;
use check_disk::level::FAST_CHECK_COUNT;
use check_disk::level::SAMPLE_SIZE;
use check_disk::level::STANDARD_CHECK_COUNT;

#[test]
fn test_sample_counts() {
    assert_eq!(CheckLevel::Fast.sample_count(), 24900);
    assert_eq!(CheckLevel::Standard.sample_count(), 74700);
    assert_eq!(CheckLevel::Deep.sample_count(), 149400);
    assert_eq!(CheckLevel::SsdSanitize.sample_count(), 0);
    assert_eq!(FAST_CHECK_COUNT, 24900);
    assert_eq!(STANDARD_CHECK_COUNT, 74700);
    assert_eq!(DEEP_CHECK_COUNT, 149400);
    assert_eq!(SAMPLE_SIZE, 512);
}

#[test]
fn test_from_menu_choice() {
    assert_eq!(CheckLevel::from_menu_choice(1), Some(CheckLevel::Fast));
    assert_eq!(CheckLevel::from_menu_choice(2), Some(CheckLevel::Standard));
    assert_eq!(CheckLevel::from_menu_choice(3), Some(CheckLevel::Deep));
    assert_eq!(CheckLevel::from_menu_choice(4), Some(CheckLevel::SsdSanitize));
    assert_eq!(CheckLevel::from_menu_choice(0), None);
    assert_eq!(CheckLevel::from_menu_choice(5), None);
    assert_eq!(CheckLevel::from_menu_choice(usize::MAX), None);
}
