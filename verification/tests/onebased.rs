use ddate::ddate::Day;
use ddate::ddate::RangeError;
use ddate::ddate::Season;
use ddate::dtime::convert;
use ddate::dtime::DiscordianTime;

#[test]
fn test_convert_one_based_day_zero() {
    assert_eq!(
        DiscordianTime {
            season: Season::Chaos,
            day: 1,
            year_day: 1,
            year: 3182,
            week: Some(0),
            week_day: Day::Sweetmorn
        },
        convert(0, 2016).unwrap()
    );
}

#[test]
fn test_convert_one_based_st_tibs() {
    assert_eq!(
        DiscordianTime {
            season: Season::StTibsDay,
            day: 1,
            year_day: 60,
            year: 3166,
            week: None,
            week_day: Day::StTibsDay
        },
        convert(59, 2000).unwrap()
    );
}

#[test]
fn test_convert_one_based_leap_year_end() {
    assert_eq!(
        DiscordianTime {
            season: Season::TheAftermath,
            day: 73,
            year_day: 366,
            year: 3166,
            week: Some(72),
            week_day: Day::SettingOrange
        },
        convert(365, 2000).unwrap()
    );
}

#[test]
fn test_convert_one_based_range_error() {
    assert_eq!(convert(365, 2015), Err(RangeError { day: 365 }));
}
