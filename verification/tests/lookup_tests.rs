use readable_time::ReadableTime;
use readable_time::TimeError;

#[test]
fn weekday_names_cover_the_week() {
    let expected = ["Sun", "Mon", "Tue", "Wed", "Thu", "Fri", "Sat"];
    for w in 1..=7 {
        assert_eq!(
            ReadableTime::weekstr(w).unwrap(),
            expected[(w - 1) as usize]
        );
    }
}

#[test]
fn weekday_out_of_range_is_rejected() {
    assert_eq!(ReadableTime::weekstr(0), Err(TimeError::InvalidWeekday));
    assert_eq!(ReadableTime::weekstr(8), Err(TimeError::InvalidWeekday));
    assert_eq!(ReadableTime::weekstr(-3), Err(TimeError::InvalidWeekday));
}

#[test]
fn month_names_cover_the_year() {
    let expected = [
        "Jan", "Feb", "Mar", "Apr", "May", "Jun", "Jul", "Aug", "Sep", "Oct", "Nov", "Dec",
    ];
    for m in 1..=12 {
        assert_eq!(
            ReadableTime::monthstr(m).unwrap(),
            expected[(m - 1) as usize]
        );
    }
}

#[test]
fn month_out_of_range_is_rejected() {
    assert_eq!(ReadableTime::monthstr(0), Err(TimeError::InvalidMonth));
    assert_eq!(ReadableTime::monthstr(13), Err(TimeError::InvalidMonth));
    assert_eq!(ReadableTime::monthstr(-1), Err(TimeError::InvalidMonth));
}

#[test]
fn period_is_am_before_noon_and_pm_after() {
    for h in 0..=11 {
        assert_eq!(ReadableTime::get_time_period(h).unwrap(), "AM");
    }
    for h in 12..=23 {
        assert_eq!(ReadableTime::get_time_period(h).unwrap(), "PM");
    }
}

#[test]
fn period_out_of_range_is_rejected() {
    assert_eq!(
        ReadableTime::get_time_period(24),
        Err(TimeError::InvalidHour)
    );
    assert_eq!(
        ReadableTime::get_time_period(-1),
        Err(TimeError::InvalidHour)
    );
}

#[test]
fn error_messages_name_the_valid_range() {
    assert_eq!(
        TimeError::InvalidWeekday.message(),
        "invalid day of week, only 1-7 are valid days"
    );
    assert_eq!(
        TimeError::InvalidMonth.message(),
        "invalid month, month should be 1-12"
    );
    assert_eq!(
        TimeError::InvalidHour.message(),
        "invalid hour, hour should be in 0-23 format"
    );
    assert_eq!(
        TimeError::ClockError.message(),
        "system clock reports a time before the Unix epoch"
    );
    assert_eq!(
        TimeError::LocalTimeUnavailable.message(),
        "could not get local time"
    );
}
