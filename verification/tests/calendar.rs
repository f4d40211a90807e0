use ddate::ddate::convert;
use ddate::ddate::is_leap_year;
use ddate::ddate::week_day;
use ddate::ddate::Day;
use ddate::ddate::DiscordianDate;
use ddate::ddate::RangeError;
use ddate::ddate::Season;

#[test]
fn test_convert() {
    assert_eq!(
        DiscordianDate {
            season: Season::Chaos,
            day: 0,
            year_day: 0,
            year: 3182,
            week: Some(0),
            week_day: Day::Sweetmorn
        },
        convert(0, 2016).unwrap()
    );
    assert_eq!(
        DiscordianDate {
            season: Season::Chaos,
            day: 0,
            year_day: 0,
            year: 1166,
            week: Some(0),
            week_day: Day::Sweetmorn
        },
        convert(0, 0).unwrap()
    );
    assert_eq!(
        DiscordianDate {
            season: Season::Chaos,
            day: 0,
            year_day: 0,
            year: 1165,
            week: Some(0),
            week_day: Day::Sweetmorn
        },
        convert(0, -1).unwrap()
    );
    assert_eq!(
        DiscordianDate {
            season: Season::Chaos,
            day: 0,
            year_day: 0,
            year: 0,
            week: Some(0),
            week_day: Day::Sweetmorn
        },
        convert(0, -1166).unwrap()
    );
    assert_eq!(
        DiscordianDate {
            season: Season::Chaos,
            day: 0,
            year_day: 0,
            year: -1,
            week: Some(0),
            week_day: Day::Sweetmorn
        },
        convert(0, -1167).unwrap()
    );
    assert_eq!(
        DiscordianDate {
            season: Season::StTibsDay,
            day: 0,
            year_day: 59,
            year: 3166,
            week: None,
            week_day: Day::StTibsDay
        },
        convert(59, 2000).unwrap()
    );
    assert_eq!(
        DiscordianDate {
            season: Season::Chaos,
            day: 59,
            year_day: 60,
            year: 3166,
            week: Some(11),
            week_day: Day::SettingOrange
        },
        convert(60, 2000).unwrap()
    );
    assert_eq!(
        DiscordianDate {
            season: Season::Discord,
            day: 11,
            year_day: 85,
            year: 3166,
            week: Some(16),
            week_day: Day::SettingOrange
        },
        convert(85, 2000).unwrap()
    );
    assert_eq!(
        DiscordianDate {
            season: Season::TheAftermath,
            day: 72,
            year_day: 365,
            year: 3166,
            week: Some(72),
            week_day: Day::SettingOrange
        },
        convert(365, 2000).unwrap()
    );
}

#[test]
fn test_week_day() {
    assert_eq!(week_day(0), Day::Sweetmorn);
    assert_eq!(week_day(1), Day::Boomtime);
    assert_eq!(week_day(2), Day::Pungenday);
    assert_eq!(week_day(3), Day::PricklePrickle);
    assert_eq!(week_day(4), Day::SettingOrange);
    assert_eq!(week_day(10), Day::Sweetmorn);
    assert_eq!(week_day(12), Day::Pungenday);
    assert_eq!(week_day(21), Day::Boomtime);
}

#[test]
fn test_leap_year_positive() {
    assert!(is_leap_year(2004));
    assert!(is_leap_year(2008));
    assert!(is_leap_year(2012));
    assert!(is_leap_year(2016));
}

#[test]
fn test_leap_year_century() {
    assert!(is_leap_year(2000));
    assert!(!is_leap_year(1900));
    assert!(!is_leap_year(1800));
    assert!(!is_leap_year(2100));
}

#[test]
fn test_leap_year_negative() {
    assert!(!is_leap_year(1998));
    assert!(!is_leap_year(1999));
    assert!(!is_leap_year(2014));
    assert!(!is_leap_year(2015));
}

#[test]
fn test_week_day_period() {
    for n in 0..30u16 {
        assert_eq!(week_day(n), week_day(n + 5));
    }
    assert_eq!(week_day(0), Day::Sweetmorn);
    assert_eq!(week_day(10), Day::Sweetmorn);
    assert_eq!(week_day(2), Day::Pungenday);
    assert_eq!(week_day(12), Day::Pungenday);
}

#[test]
fn test_day_zero_non_leap() {
    let d = convert(0, 2015).unwrap();
    assert_eq!(d.season, Season::Chaos);
    assert_eq!(d.week_day, Day::Sweetmorn);
    assert_eq!(d.week, Some(0));
    assert_eq!(d.day, 0);
}

#[test]
fn test_day_59_non_leap() {
    let d = convert(59, 2015).unwrap();
    assert_eq!(d.season, Season::Chaos);
    assert_eq!(d.day, 59);
    assert_eq!(d.week, Some(11));
    assert_eq!(d.week_day, Day::SettingOrange);
}

#[test]
fn test_range_error() {
    assert_eq!(convert(365, 2015), Err(RangeError { day: 365 }));
    assert_eq!(convert(366, 2016), Err(RangeError { day: 366 }));
    assert_eq!(convert(1000, 2000), Err(RangeError { day: 1000 }));
    assert!(convert(364, 2015).is_ok());
    assert!(convert(365, 2016).is_ok());
}

#[test]
fn test_year_offset() {
    assert_eq!(convert(100, 2016).unwrap().year, 3182);
    assert_eq!(convert(100, -3000).unwrap().year, -1834);
    assert_eq!(convert(0, 1).unwrap().year, 1167);
}

#[test]
fn test_season_boundaries() {
    assert_eq!(convert(72, 2015).unwrap().season, Season::Chaos);
    assert_eq!(convert(73, 2015).unwrap().season, Season::Discord);
    assert_eq!(convert(146, 2015).unwrap().season, Season::Confusion);
    assert_eq!(convert(219, 2015).unwrap().season, Season::Bureaucracy);
    assert_eq!(convert(292, 2015).unwrap().season, Season::TheAftermath);
    assert_eq!(convert(73, 2016).unwrap().season, Season::Chaos);
    assert_eq!(convert(74, 2016).unwrap().season, Season::Discord);
    assert_eq!(convert(147, 2016).unwrap().season, Season::Confusion);
    assert_eq!(convert(220, 2016).unwrap().season, Season::Bureaucracy);
    assert_eq!(convert(293, 2016).unwrap().season, Season::TheAftermath);
}
