use readable_time::ReadableTime;

fn build(hour: i32, zone: Option<String>) -> ReadableTime {
    ReadableTime::from_os_fields(125, 0, 1, 3, hour, 4, 5, zone)
}

#[test]
fn os_fields_are_adjusted() {
    let rt = build(3, Some(String::from("UTC")));
    assert_eq!(rt.year, 2025);
    assert_eq!(rt.month, 1);
    assert_eq!(rt.day, 1);
    assert_eq!(rt.week_day, 4);
    assert_eq!(rt.hour_24, 3);
    assert_eq!(rt.hour_12, 3);
    assert_eq!(rt.minute, 4);
    assert_eq!(rt.second, 5);
    assert_eq!(rt.time_zone, "UTC");
}

#[test]
fn hour_12_midnight_maps_to_twelve() {
    assert_eq!(build(0, None).hour_12, 12);
}

#[test]
fn hour_12_covers_every_hour_of_the_day() {
    for h in 0..=23 {
        let derived = build(h, None).hour_12;
        assert!((1..=12).contains(&derived));
        if h == 0 {
            assert_eq!(derived, 12);
        } else if h <= 12 {
            assert_eq!(derived, h);
        } else {
            assert_eq!(derived, h - 12);
        }
    }
}

#[test]
fn missing_zone_falls_back_to_sentinel() {
    assert_eq!(build(3, None).time_zone, "unknown time_zone");
}

#[test]
fn empty_zone_falls_back_to_sentinel() {
    assert_eq!(
        build(3, Some(String::new())).time_zone,
        "unknown time_zone"
    );
}

#[test]
fn supplied_zone_is_kept() {
    assert_eq!(build(3, Some(String::from("PST"))).time_zone, "PST");
}
