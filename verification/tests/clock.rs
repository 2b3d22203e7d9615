use chrono::TimeZone;
use flapboard::clock::{check_time_of_day, check_weekday_name, same_text, Clock};
use flapboard::composer::{Action, Composer, Event};

fn clock(time: &str, weekday: &str) -> Clock {
    Clock { time: time.to_string(), weekday: weekday.to_string(), millis: 0 }
}

#[test]
fn a_reading_of_hours_minutes_and_a_day_is_a_wall_clock() {
    assert!(clock("14:05", "Tuesday").is_wall_clock());
    assert!(clock("00:00", "Sunday").is_wall_clock());
    assert!(clock("23:59", "Saturday").is_wall_clock());
    assert!(clock("09:30", "Wednesday").is_wall_clock());
}

#[test]
fn every_minute_of_the_day_is_a_time_of_day() {
    for hour in 0..24 {
        for minute in 0..60 {
            assert!(check_time_of_day(&format!("{:02}:{:02}", hour, minute)));
        }
    }
}

#[test]
fn other_texts_are_no_time_of_day() {
    for text in [
        "", "14:5", "1:05", "14:050", "24:00", "29:00", "30:00", "14:60", "14:99", "14-05",
        "14.05", "1a:05", "14:0b", " 4:05", "14:05 ", "١٤:٠٥", "14:05:00",
    ] {
        assert!(!check_time_of_day(text), "text {:?}", text);
        assert!(!clock(text, "Tuesday").is_wall_clock(), "text {:?}", text);
    }
}

#[test]
fn the_seven_days_are_weekday_names() {
    for day in ["Sunday", "Monday", "Tuesday", "Wednesday", "Thursday", "Friday", "Saturday"] {
        assert!(check_weekday_name(day));
        assert!(clock("14:05", day).is_wall_clock());
    }
}

#[test]
fn other_texts_are_no_weekday_names() {
    for text in ["", "tuesday", "TUESDAY", "Tue", "Tuesda", "Tuesdays", "Dienstag", " Tuesday", "Sun day"] {
        assert!(!check_weekday_name(text), "text {:?}", text);
        assert!(!clock("14:05", text).is_wall_clock(), "text {:?}", text);
    }
}

#[test]
fn same_text_compares_character_by_character() {
    assert!(same_text("", ""));
    assert!(same_text("abc", "abc"));
    assert!(same_text("20°", "20°"));
    assert!(!same_text("abc", "abd"));
    assert!(!same_text("abc", "ab"));
    assert!(!same_text("", "a"));
    assert!(!same_text("a", "A"));
}

#[test]
fn a_reading_taken_from_chrono_is_a_wall_clock() {
    let now = chrono::Local::now();
    let reading = Clock {
        time: now.format("%H:%M").to_string(),
        weekday: now.format("%A").to_string(),
        millis: now.timestamp_millis(),
    };
    assert!(reading.is_wall_clock(), "reading {:?}", reading);
    let mut composer = Composer::new();
    assert_eq!(composer.advance(Event::Tick, &reading), Action::FetchNowPlaying);
    let row = composer.frame()[0].clone();
    assert_eq!(row[2], 50);
    assert_eq!(&row[16..], &[0; 6]);
}

#[test]
fn readings_of_chrono_through_a_week_are_wall_clocks() {
    let start = chrono::Utc.with_ymd_and_hms(2024, 1, 1, 0, 0, 0).unwrap();
    for step in 0..(7 * 24 * 4) {
        let moment = start + chrono::Duration::minutes(15 * step + step % 7);
        let reading = Clock {
            time: moment.format("%H:%M").to_string(),
            weekday: moment.format("%A").to_string(),
            millis: moment.timestamp_millis(),
        };
        assert!(reading.is_wall_clock(), "reading {:?}", reading);
    }
}
