use yamav3::protocol::SeekMode;
use yamav3::seek::target_position;

#[test]
fn absolute_seek_is_seconds_from_start() {
    assert_eq!(target_position(SeekMode::Absolute, 42, 10, 300), Some(42));
    assert_eq!(target_position(SeekMode::Absolute, 0, 10, 300), Some(0));
    assert_eq!(target_position(SeekMode::Absolute, -3, 10, 300), Some(0));
}

#[test]
fn relative_seek_is_from_current_position() {
    assert_eq!(target_position(SeekMode::Relative, 5, 10, 300), Some(15));
    assert_eq!(target_position(SeekMode::Relative, -5, 10, 300), Some(5));
    assert_eq!(target_position(SeekMode::Relative, -50, 10, 300), Some(0));
    assert_eq!(target_position(SeekMode::Relative, i64::MIN, 10, 300), Some(0));
    assert_eq!(target_position(SeekMode::Relative, i64::MAX, u64::MAX, 300), Some(u64::MAX));
}

#[test]
fn absolute_percent_zero_is_the_start_and_hundred_the_end() {
    assert_eq!(target_position(SeekMode::AbsolutePercent, 0, 77, 300), Some(0));
    assert_eq!(target_position(SeekMode::AbsolutePercent, 100, 77, 300), Some(300));
    assert_eq!(target_position(SeekMode::AbsolutePercent, 50, 77, 300), Some(150));
    assert_eq!(target_position(SeekMode::AbsolutePercent, 33, 77, 200), Some(66));
    assert_eq!(target_position(SeekMode::AbsolutePercent, -20, 77, 300), Some(0));
    assert_eq!(target_position(SeekMode::AbsolutePercent, 100, 0, u64::MAX), Some(u64::MAX));
}

#[test]
fn relative_percent_is_computed_against_total_duration() {
    assert_eq!(target_position(SeekMode::RelativePercent, 10, 100, 300), Some(130));
    assert_eq!(target_position(SeekMode::RelativePercent, -10, 100, 300), Some(70));
    assert_eq!(target_position(SeekMode::RelativePercent, -50, 100, 300), Some(0));
    assert_eq!(target_position(SeekMode::RelativePercent, 0, 100, 300), Some(100));
}

#[test]
fn relative_percent_against_zero_length_media_is_a_no_op() {
    assert_eq!(target_position(SeekMode::RelativePercent, 10, 100, 0), None);
    assert_eq!(target_position(SeekMode::RelativePercent, -10, 0, 0), None);
}

#[test]
fn targets_saturate() {
    assert_eq!(target_position(SeekMode::AbsolutePercent, i64::MAX, 0, u64::MAX), Some(u64::MAX));
    assert_eq!(
        target_position(SeekMode::RelativePercent, i64::MAX, u64::MAX, u64::MAX),
        Some(u64::MAX)
    );
    assert_eq!(target_position(SeekMode::RelativePercent, i64::MIN, 5, u64::MAX), Some(0));
}
