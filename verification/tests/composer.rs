use flapboard::clock::Clock;
use flapboard::composer::{Action, Composer, Event};
use flapboard::scheduler::Source;
use flapboard::spotify::SpotifySong;
use flapboard::weather::WeatherReading;

fn clock(time: &str, weekday: &str, millis: i64) -> Clock {
    Clock { time: time.to_string(), weekday: weekday.to_string(), millis }
}

fn song(name: &str, artist: &str) -> Option<SpotifySong> {
    Some(SpotifySong { name: name.to_string(), artist: artist.to_string() })
}

const T: i64 = 1_700_000_000_000;

#[test]
fn a_new_composer_has_a_blank_board_and_everything_due() {
    let composer = Composer::new();
    assert_eq!(composer.frame(), vec![vec![0; 22]; 6]);
    assert_eq!(composer.board().to_rows(), vec![vec![0; 22]; 6]);
    assert!(composer.scheduler().is_due(Source::NowPlaying, 0));
    assert!(composer.scheduler().is_due(Source::Weather, 0));
    assert!(composer.scheduler().is_clock_due(&"00:00".to_string()));
}

#[test]
fn the_first_tick_renders_the_clock_and_asks_for_the_song() {
    let mut composer = Composer::new();
    let action = composer.advance(Event::Tick, &clock("14:05", "Tuesday", T));
    assert_eq!(action, Action::FetchNowPlaying);
    let frame = composer.frame();
    assert_eq!(frame[0], vec![
        27, 30, 50, 36, 31, 0, 0, 0, 20, 21, 5, 19, 4, 1, 25, 0, 0, 0, 0, 0, 0, 0,
    ]);
    for r in 1..6 {
        assert_eq!(frame[r], vec![0; 22]);
    }
    assert!(!composer.scheduler().is_clock_due(&"14:05".to_string()));
}

#[test]
fn a_whole_tick_goes_from_clock_to_song_to_weather_to_publish() {
    let mut composer = Composer::new();
    assert_eq!(
        composer.advance(Event::Tick, &clock("14:05", "Tuesday", T)),
        Action::FetchNowPlaying
    );
    assert_eq!(
        composer.advance(Event::NowPlaying(song("Hey Jude", "The Beatles")), &clock("14:05", "Tuesday", T + 200)),
        Action::FetchWeather
    );
    assert_eq!(
        composer.advance(
            Event::Weather(Some(WeatherReading::from_hundredths(7_240))),
            &clock("14:05", "Tuesday", T + 400)
        ),
        Action::Publish
    );
    let frame = composer.frame();
    assert_eq!(frame[0], vec![
        27, 30, 50, 36, 31, 0, 0, 0, 20, 21, 5, 19, 4, 1, 25, 0, 0, 0, 0, 33, 28, 62,
    ]);
    assert_eq!(frame[1], vec![0; 22]);
    assert_eq!(frame[2], vec![
        0, 0, 0, 0, 0, 14, 15, 23, 0, 16, 12, 1, 25, 9, 14, 7, 50, 0, 0, 0, 0, 0,
    ]);
    assert_eq!(frame[3], vec![
        0, 0, 0, 0, 0, 0, 0, 8, 5, 25, 0, 10, 21, 4, 5, 0, 0, 0, 0, 0, 0, 0,
    ]);
    assert_eq!(frame[4], vec![
        0, 0, 0, 0, 0, 20, 8, 5, 0, 2, 5, 1, 20, 12, 5, 19, 0, 0, 0, 0, 0, 0,
    ]);
    assert_eq!(frame[5], vec![0; 22]);
}

fn composer_after_a_full_tick() -> Composer {
    let mut composer = Composer::new();
    composer.advance(Event::Tick, &clock("14:05", "Tuesday", T));
    composer.advance(Event::NowPlaying(song("Hey Jude", "The Beatles")), &clock("14:05", "Tuesday", T));
    composer.advance(
        Event::Weather(Some(WeatherReading::from_hundredths(7_240))),
        &clock("14:05", "Tuesday", T),
    );
    composer
}

#[test]
fn publishing_an_unchanged_board_sends_the_same_rows() {
    let mut composer = composer_after_a_full_tick();
    let first = composer.frame();
    let again = composer.frame();
    assert_eq!(first, again);
    assert_eq!(
        composer.advance(Event::Tick, &clock("14:05", "Tuesday", T + 1_000)),
        Action::Publish
    );
    assert_eq!(composer.frame(), first);
    assert_eq!(
        composer.advance(Event::Tick, &clock("14:05", "Tuesday", T + 5_000)),
        Action::Publish
    );
    assert_eq!(composer.frame(), first);
}

#[test]
fn the_song_is_asked_for_again_after_more_than_five_seconds() {
    let mut composer = composer_after_a_full_tick();
    assert_eq!(
        composer.advance(Event::Tick, &clock("14:05", "Tuesday", T + 4_000)),
        Action::Publish
    );
    assert_eq!(
        composer.advance(Event::Tick, &clock("14:05", "Tuesday", T + 6_000)),
        Action::FetchNowPlaying
    );
    assert_eq!(
        composer.advance(Event::NowPlaying(song("Hey Jude", "The Beatles")), &clock("14:05", "Tuesday", T + 6_100)),
        Action::Publish
    );
    assert_eq!(
        composer.advance(Event::Tick, &clock("14:05", "Tuesday", T + 11_100)),
        Action::Publish
    );
    assert_eq!(
        composer.advance(Event::Tick, &clock("14:05", "Tuesday", T + 11_101)),
        Action::FetchNowPlaying
    );
}

#[test]
fn the_weather_is_asked_for_again_after_more_than_five_minutes() {
    let mut composer = Composer::with_intervals(1_000_000, 300_000);
    composer.advance(Event::Tick, &clock("14:05", "Tuesday", T));
    composer.advance(Event::NowPlaying(song("a", "b")), &clock("14:05", "Tuesday", T));
    composer.advance(
        Event::Weather(Some(WeatherReading::from_hundredths(100))),
        &clock("14:05", "Tuesday", T),
    );
    assert_eq!(
        composer.advance(Event::Tick, &clock("14:09", "Tuesday", T + 300_000)),
        Action::Publish
    );
    assert_eq!(
        composer.advance(Event::Tick, &clock("14:10", "Tuesday", T + 300_001)),
        Action::FetchWeather
    );
}

#[test]
fn the_clock_is_rendered_again_when_the_minute_changes() {
    let mut composer = composer_after_a_full_tick();
    composer.advance(Event::Tick, &clock("14:06", "Tuesday", T + 1_000));
    assert_eq!(composer.frame()[0], vec![
        27, 30, 50, 36, 32, 0, 0, 0, 20, 21, 5, 19, 4, 1, 25, 0, 0, 0, 0, 33, 28, 62,
    ]);
}

#[test]
fn the_weekday_is_not_rendered_while_the_time_reads_the_same() {
    let mut composer = composer_after_a_full_tick();
    let before = composer.frame();
    composer.advance(Event::Tick, &clock("14:05", "Wednesday", T + 1_000));
    assert_eq!(composer.frame(), before);
}

#[test]
fn a_failed_weather_request_keeps_the_temperature_on_the_board() {
    let mut composer = composer_after_a_full_tick();
    let before = composer.frame();
    assert_eq!(
        composer.advance(Event::Tick, &clock("14:11", "Tuesday", T + 360_000)),
        Action::FetchNowPlaying
    );
    assert_eq!(
        composer.advance(Event::NowPlaying(song("Hey Jude", "The Beatles")), &clock("14:11", "Tuesday", T + 360_000)),
        Action::FetchWeather
    );
    let during = composer.frame();
    assert_eq!(
        composer.advance(Event::Weather(None), &clock("14:11", "Tuesday", T + 360_000)),
        Action::Publish
    );
    let after = composer.frame();
    assert_eq!(after, during);
    assert_eq!(&after[0][16..], &before[0][16..]);
    assert_eq!(&after[0][19..], &[33, 28, 62]);
    assert_eq!(
        composer.advance(Event::Tick, &clock("14:11", "Tuesday", T + 360_001)),
        Action::FetchWeather
    );
    assert_eq!(&composer.frame()[0][16..], &before[0][16..]);
}

#[test]
fn a_song_that_stopped_leaves_blank_rows() {
    let mut composer = composer_after_a_full_tick();
    assert_eq!(
        composer.advance(Event::Tick, &clock("14:05", "Tuesday", T + 6_000)),
        Action::FetchNowPlaying
    );
    assert_eq!(
        composer.advance(Event::NowPlaying(None), &clock("14:05", "Tuesday", T + 6_000)),
        Action::Publish
    );
    let frame = composer.frame();
    for r in 2..5 {
        assert_eq!(frame[r], vec![0; 22]);
    }
    assert_eq!(frame[0], vec![
        27, 30, 50, 36, 31, 0, 0, 0, 20, 21, 5, 19, 4, 1, 25, 0, 0, 0, 0, 33, 28, 62,
    ]);
}

#[test]
fn a_feed_that_failed_is_asked_again_on_the_next_tick() {
    let mut composer = Composer::new();
    assert_eq!(
        composer.advance(Event::Tick, &clock("14:05", "Tuesday", T)),
        Action::FetchNowPlaying
    );
    assert_eq!(
        composer.advance(Event::NowPlaying(None), &clock("14:05", "Tuesday", T)),
        Action::FetchWeather
    );
    assert_eq!(
        composer.advance(Event::Weather(None), &clock("14:05", "Tuesday", T)),
        Action::Publish
    );
    assert_eq!(
        composer.advance(Event::Tick, &clock("14:05", "Tuesday", T + 1)),
        Action::FetchNowPlaying
    );
    assert_eq!(
        composer.advance(Event::NowPlaying(None), &clock("14:05", "Tuesday", T + 1)),
        Action::FetchWeather
    );
}

#[test]
fn every_tick_ends_with_a_publish() {
    let mut composer = Composer::new();
    let mut now = T;
    let mut published = 0;
    let mut asked_for_song = 0;
    let mut asked_for_weather = 0;
    let mut action = composer.advance(Event::Tick, &clock("14:05", "Tuesday", now));
    for _ in 0..1_000 {
        now += 700;
        let reading = clock("14:05", "Tuesday", now);
        action = match action {
            Action::FetchNowPlaying => {
                asked_for_song += 1;
                composer.advance(Event::NowPlaying(song("a", "b")), &reading)
            }
            Action::FetchWeather => {
                asked_for_weather += 1;
                composer.advance(
                    Event::Weather(Some(WeatherReading::from_hundredths(2_000))),
                    &reading,
                )
            }
            Action::Publish => {
                published += 1;
                assert_eq!(composer.frame().len(), 6);
                composer.advance(Event::Tick, &reading)
            }
        };
    }
    assert!(published >= 400);
    assert!(asked_for_song >= 50);
    assert!(asked_for_song <= 1_000 * 700 / 5_000 + 1);
    assert!(asked_for_weather >= 2);
    assert!(asked_for_weather <= 1_000 * 700 / 300_000 + 1);
    assert_eq!(published + asked_for_song + asked_for_weather, 1_000);
}
