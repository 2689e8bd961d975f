use termclock::calendar::{
    resolve_timezone, zone_or_fallback, CivilTime, TimeOfDay, DEFAULT_ZONE, FALLBACK_ZONE,
};
use termclock::clock::{
    clock_face, clock_face_at, date_face, date_face_at, ClockFace, DATE_REFRESH_SECONDS,
    DATE_TEXT_WIDTH,
};
use termclock::command::command_line;
use termclock::target::{
    resolve_target, target_frame, target_moment, LocalMoment, TargetError,
};

// 2023-11-14 22:13:20 in UTC, a Tuesday.
const NOW: i64 = 1_700_000_000;

fn civil(year: i32, month: u32, day: u32, hour: u32, minute: u32, second: u32) -> CivilTime {
    CivilTime { year, month, day, hour, minute, second }
}

#[test]
fn known_zone_is_kept() {
    assert_eq!(resolve_timezone("Europe/Belgrade"), "Europe/Belgrade");
    assert_eq!(resolve_timezone("UTC"), "UTC");
    assert_eq!(resolve_timezone("America/Argentina/Buenos_Aires"), "America/Argentina/Buenos_Aires");
    assert_eq!(resolve_timezone("Asia/Manila"), "Asia/Manila");
}

#[test]
fn unknown_zone_falls_back_to_manila() {
    assert_eq!(resolve_timezone("Nowhere/Land"), "Asia/Manila");
    assert_eq!(resolve_timezone(""), "Asia/Manila");
    assert_eq!(resolve_timezone("europe/belgrade"), "Asia/Manila");
    assert_eq!(resolve_timezone(" UTC"), "Asia/Manila");
}

#[test]
fn default_and_fallback_zones_are_known() {
    assert_eq!(DEFAULT_ZONE, "Europe/Belgrade");
    assert_eq!(FALLBACK_ZONE, "Asia/Manila");
    assert_eq!(resolve_timezone(DEFAULT_ZONE), DEFAULT_ZONE);
    assert_eq!(resolve_timezone(FALLBACK_ZONE), FALLBACK_ZONE);
}

#[test]
fn fallback_is_chosen_by_the_lookup() {
    assert_eq!(zone_or_fallback("Some/Name", true), "Some/Name");
    assert_eq!(zone_or_fallback("Some/Name", false), "Asia/Manila");
    assert_eq!(zone_or_fallback("", false), "Asia/Manila");
}

#[test]
fn clock_face_of_given_fields() {
    let face = clock_face_at(&civil(2023, 11, 14, 22, 13, 20), 80).unwrap();
    assert_eq!(face.time, "22:13");
    assert_eq!(face.date_line, format!("{}11.14 Tue", " ".repeat(35)));
    assert_eq!(face.wait_seconds, 40);
    let face = clock_face_at(&civil(2023, 1, 1, 3, 4, 0), 9);
    assert_eq!(
        face,
        Some(ClockFace {
            time: "03:04".to_string(),
            date_line: "01.01 Sun".to_string(),
            wait_seconds: 60,
        })
    );
    let face = clock_face_at(&civil(2029, 12, 31, 0, 0, 59), 10).unwrap();
    assert_eq!(face.time, "00:00");
    assert_eq!(face.date_line, "12.31 Mon");
    assert_eq!(face.wait_seconds, 1);
    let face = clock_face_at(&civil(2029, 12, 31, 23, 59, 30), 11).unwrap();
    assert_eq!(face.time, "23:59");
    assert_eq!(face.date_line, " 12.31 Mon");
    assert_eq!(face.wait_seconds, 30);
}

#[test]
fn every_hour_and_minute_is_padded_to_two_digits() {
    let mut hour = 0;
    while hour < 24 {
        let mut minute = 0;
        while minute < 60 {
            let face = clock_face_at(&civil(2024, 2, 29, hour, minute, 0), 9).unwrap();
            assert_eq!(face.time, format!("{:02}:{:02}", hour, minute));
            minute += 1;
        }
        hour += 1;
    }
}

#[test]
fn every_month_and_day_is_padded_to_two_digits() {
    let lengths = [31, 29, 31, 30, 31, 30, 31, 31, 30, 31, 30, 31];
    let names = ["Mon", "Tue", "Wed", "Thu", "Fri", "Sat", "Sun"];
    // The first of January 2024 is a Monday.
    let mut weekday = 0;
    let mut month = 1;
    while month <= 12 {
        let mut day = 1;
        while day <= lengths[month as usize - 1] {
            let text = date_face_at(&civil(2024, month, day, 0, 0, 0)).unwrap();
            assert_eq!(text, format!("{:02}.{:02} {}", month, day, names[weekday % 7]));
            assert_eq!(text.len(), DATE_TEXT_WIDTH as usize);
            weekday += 1;
            day += 1;
        }
        month += 1;
    }
}

#[test]
fn a_date_that_the_calendar_lacks_has_no_face() {
    assert_eq!(date_face_at(&civil(2023, 2, 29, 0, 0, 0)), None);
    assert_eq!(date_face_at(&civil(2023, 4, 31, 0, 0, 0)), None);
    assert_eq!(clock_face_at(&civil(2023, 2, 30, 12, 0, 0), 80), None);
    assert_eq!(date_face_at(&civil(2024, 2, 29, 0, 0, 0)), Some("02.29 Thu".to_string()));
}

#[test]
fn date_line_is_centred() {
    let t = civil(2026, 5, 6, 7, 8, 9);
    let mut width: u16 = DATE_TEXT_WIDTH;
    while width < 300 {
        let face = clock_face_at(&t, width).unwrap();
        let padding = (width as usize - 9) / 2;
        assert_eq!(face.date_line.len(), padding + 9);
        assert_eq!(face.date_line.trim_start(), "05.06 Wed");
        assert_eq!(face.date_line, format!("{:padding$}{}", "", "05.06 Wed", padding = padding));
        width += 1;
    }
    let face = clock_face_at(&t, u16::MAX).unwrap();
    assert_eq!(face.date_line.len(), 32763 + 9);
}

#[test]
fn date_face_constants() {
    assert_eq!(DATE_TEXT_WIDTH, 9);
    assert_eq!(DATE_REFRESH_SECONDS, 60);
}

#[test]
fn clock_face_in_a_zone() {
    let face = clock_face("UTC", 0, 80).unwrap();
    assert_eq!(face.time, "00:00");
    assert_eq!(face.date_line.trim_start(), "01.01 Thu");
    assert_eq!(face.wait_seconds, 60);
    let face = clock_face("UTC", NOW, 81).unwrap();
    assert_eq!(face.time, "22:13");
    assert_eq!(face.date_line, format!("{}11.14 Tue", " ".repeat(36)));
    assert_eq!(face.wait_seconds, 40);
    let face = clock_face("Europe/Belgrade", NOW, 9).unwrap();
    assert_eq!(face.time, "23:13");
    assert_eq!(face.date_line, "11.14 Tue");
    let face = clock_face("Asia/Manila", NOW, 9).unwrap();
    assert_eq!(face.time, "06:13");
    assert_eq!(face.date_line, "11.15 Wed");
    // Summer time in Belgrade: two hours ahead of UTC.
    let face = clock_face("Europe/Belgrade", 1_720_076_707, 9).unwrap();
    assert_eq!(face.time, "09:05");
    assert_eq!(face.date_line, "07.04 Thu");
    assert_eq!(face.wait_seconds, 53);
}

#[test]
fn date_face_in_a_zone() {
    assert_eq!(date_face("UTC", NOW), Some("11.14 Tue".to_string()));
    assert_eq!(date_face("Asia/Manila", NOW), Some("11.15 Wed".to_string()));
    assert_eq!(date_face("UTC", 1_709_210_096), Some("02.29 Thu".to_string()));
    assert_eq!(date_face("UTC", -1), Some("12.31 Wed".to_string()));
}

#[test]
fn faces_of_an_unknown_zone_or_instant_are_nothing() {
    assert_eq!(date_face("Nowhere/Land", NOW), None);
    assert_eq!(clock_face("Nowhere/Land", NOW, 80), None);
    assert_eq!(date_face("UTC", i64::MAX), None);
    assert_eq!(clock_face("UTC", i64::MIN, 80), None);
}

#[test]
fn target_moment_is_the_time_on_todays_date() {
    let today = civil(2023, 11, 14, 22, 13, 20);
    let time = TimeOfDay { hour: 7, minute: 30, second: 0 };
    assert_eq!(target_moment(Some(time), Some(today)), Ok(LocalMoment { date: today, time }));
    assert_eq!(target_moment(None, Some(today)), Err(TargetError::InvalidTime));
    assert_eq!(target_moment(Some(time), None), Err(TargetError::UnknownDate));
    assert_eq!(target_moment(None, None), Err(TargetError::InvalidTime));
}

#[test]
fn target_is_the_time_of_day_today() {
    assert_eq!(resolve_target("UTC", NOW, "23:00:00"), Ok(1_700_002_800));
    assert_eq!(resolve_target("UTC", NOW, "22:13:20"), Ok(NOW));
    assert_eq!(resolve_target("UTC", NOW, "00:00:00"), Ok(1_699_920_000));
    assert_eq!(resolve_target("Europe/Belgrade", NOW, "00:00:00"), Ok(1_699_916_400));
    assert_eq!(resolve_target("Europe/Belgrade", NOW, "23:30:00"), Ok(1_700_001_000));
    // In Manila it is already the next day.
    assert_eq!(resolve_target("Asia/Manila", NOW, "07:00:00"), Ok(1_700_002_800));
}

#[test]
fn malformed_target_time_is_an_error() {
    assert_eq!(resolve_target("UTC", NOW, "24:00:00"), Err(TargetError::InvalidTime));
    assert_eq!(resolve_target("UTC", NOW, "12:60:00"), Err(TargetError::InvalidTime));
    assert_eq!(resolve_target("UTC", NOW, "12:00"), Err(TargetError::InvalidTime));
    assert_eq!(resolve_target("UTC", NOW, "noon"), Err(TargetError::InvalidTime));
    assert_eq!(resolve_target("UTC", NOW, ""), Err(TargetError::InvalidTime));
    assert_eq!(resolve_target("UTC", NOW, "2024-12-31T23:59:59Z"), Err(TargetError::InvalidTime));
    assert_eq!(resolve_target("Nowhere/Land", NOW, "x"), Err(TargetError::InvalidTime));
}

#[test]
fn target_in_an_unknown_zone_is_an_error() {
    assert_eq!(resolve_target("Nowhere/Land", NOW, "12:00:00"), Err(TargetError::UnknownDate));
    assert_eq!(resolve_target("UTC", i64::MAX, "12:00:00"), Err(TargetError::UnknownDate));
}

#[test]
fn target_that_the_clocks_skip_or_repeat_is_an_error() {
    // 2023-03-26: clocks in Belgrade go from 02:00 to 03:00.
    assert_eq!(
        resolve_target("Europe/Belgrade", 1_679_832_000, "02:30:00"),
        Err(TargetError::NoSuchMoment)
    );
    assert_eq!(resolve_target("Europe/Belgrade", 1_679_832_000, "03:30:00"), Ok(1_679_794_200));
    // 2023-10-29: clocks in Belgrade go back from 03:00 to 02:00.
    assert_eq!(
        resolve_target("Europe/Belgrade", 1_698_580_800, "02:30:00"),
        Err(TargetError::NoSuchMoment)
    );
    assert_eq!(resolve_target("Europe/Belgrade", 1_698_580_800, "01:30:00"), Ok(1_698_535_800));
}

#[test]
fn target_frames_count_whole_seconds() {
    assert_eq!(target_frame(1_700_002_800, NOW, 0), Some("00:46:40".to_string()));
    assert_eq!(target_frame(1_700_002_800, NOW, 1), Some("00:46:39".to_string()));
    assert_eq!(target_frame(1_700_002_800, NOW, 999_999_999), Some("00:46:39".to_string()));
    assert_eq!(target_frame(NOW + 1, NOW, 0), Some("00:00:01".to_string()));
    assert_eq!(target_frame(NOW + 1, NOW, 1), None);
    assert_eq!(target_frame(NOW, NOW, 0), None);
    assert_eq!(target_frame(NOW - 1, NOW, 0), None);
    assert_eq!(target_frame(NOW + 360_000, NOW, 0), Some("100:00:00".to_string()));
    assert_eq!(target_frame(NOW + 2, NOW, 1_500_000_000), None);
    assert_eq!(target_frame(i64::MAX, i64::MIN, 0), Some("5124095576030431:00:15".to_string()));
    assert_eq!(target_frame(i64::MIN, i64::MAX, 0), None);
}

#[test]
fn midnight_after_midnight_is_already_past() {
    // It is 22:13:20; the target 00:00:00 is today's midnight, long gone.
    let target = resolve_target("UTC", NOW, "00:00:00").unwrap();
    assert_eq!(target, 1_699_920_000);
    assert!(target < NOW);
    // No frame is drawn: the countdown ends before its first pass.
    assert_eq!(target_frame(target, NOW, 0), None);
    // The completion command is still there to be run, once.
    let line = command_line("echo done").unwrap();
    assert_eq!(line.program, "echo");
    assert_eq!(line.args, vec!["done"]);
}

#[test]
fn target_errors_have_their_words() {
    assert_eq!(TargetError::InvalidTime.message(), "Invalid target time format");
    assert_eq!(TargetError::NoSuchMoment.message(), "Invalid target time format");
    assert_eq!(TargetError::UnknownDate.message(), "Unknown time zone or date");
}
