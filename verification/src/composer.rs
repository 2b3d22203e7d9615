//! The composition loop, one decision at a time.
//!
//! A tick of the loop starts with the clock, goes on to the music feed, then
//! to the weather feed, and ends with the board being sent to the display.
//! Asking a feed and sending the board take time and may fail, so they are
//! left to the caller: the composer says what is to be done next, and takes
//! what came of it as the next event, together with a reading of the clock.
//!
//! ```text
//! Tick: clock, then
//!   music due     -> FetchNowPlaying -> NowPlaying(..), then
//!   weather due   -> FetchWeather    -> Weather(..), then
//!   in every case -> Publish         -> Tick
//! ```
//!
//! After `Publish` the caller sends the board, whether or not anything on it
//! has changed, and starts the next tick. A feed is marked as refreshed only
//! when its adapter has shown something; a feed that failed is asked again on
//! the next tick.

use vstd::prelude::*;
use crate::adapters::{
    lemma_adapters_keep_the_board, lemma_clock_region, lemma_now_playing_region,
    lemma_wall_clock_spares_the_end, lemma_weather_region, song_view, update_spotify_information,
    update_time_and_day, update_weather_information, with_now_playing, with_temperature,
    with_time_and_day,
};
use crate::clock::{Clock, ClockView};
use crate::grid::{blank_board, blank_row, is_board, Grid, Region, COLS, ROWS};
use crate::scheduler::{
    RefreshState, Scheduler, SchedulerView, Source, NOW_PLAYING_INTERVAL, WEATHER_INTERVAL,
};
use crate::spotify::{SongView, SpotifySong};
use crate::weather::WeatherReading;

verus! {

/// What has happened since the composer last said what to do.
#[derive(Debug, PartialEq, Eq)]
pub enum Event {
    /// A tick of the loop starts.
    Tick,
    /// The music service was asked: the song that is playing, or `None` where
    /// nothing is playing or the request failed.
    NowPlaying(Option<SpotifySong>),
    /// The weather service was asked: the reading, or `None` where the
    /// request failed.
    Weather(Option<WeatherReading>),
}

/// An event as plain values.
pub enum EventView {
    Tick,
    NowPlaying(Option<SongView>),
    Weather(Option<WeatherReading>),
}

impl View for Event {
    type V = EventView;

    open spec fn view(&self) -> EventView {
        match *self {
            Event::Tick => EventView::Tick,
            Event::NowPlaying(song) => EventView::NowPlaying(song_view(song)),
            Event::Weather(reading) => EventView::Weather(reading),
        }
    }
}

/// What the caller is to do next.
#[derive(Clone, Copy, Debug, PartialEq, Eq, Structural)]
pub enum Action {
    /// Ask the music service what is playing, and come back with `Event::NowPlaying`.
    FetchNowPlaying,
    /// Ask the weather service for the temperature, and come back with `Event::Weather`.
    FetchWeather,
    /// Send the board to the display, and come back with `Event::Tick`.
    Publish,
}

/// The board and the scheduler as plain values.
pub struct ComposerView {
    /// The cells of the board.
    pub board: Seq<Seq<i32>>,
    /// What the scheduler remembers.
    pub scheduler: SchedulerView,
}

impl ComposerView {
    /// What is to be done once the music feed has had its turn: ask for the
    /// weather if it is due at `now`, else send the board.
    pub open spec fn weather_turn(self, now: i64) -> Action {
        if self.scheduler.due_at(Source::Weather, now as int) {
            Action::FetchWeather
        } else {
            Action::Publish
        }
    }

    /// What is to be done once the clock has had its turn: ask for the song
    /// if the music feed is due at `now`, else go on to the weather.
    pub open spec fn now_playing_turn(self, now: i64) -> Action {
        if self.scheduler.due_at(Source::NowPlaying, now as int) {
            Action::FetchNowPlaying
        } else {
            self.weather_turn(now)
        }
    }

    /// The composer after the clock has had its turn: where the time of day
    /// reads otherwise than when it was last rendered, the clock adapter has
    /// run and the new text is remembered.
    pub open spec fn after_clock(self, clock: ClockView) -> ComposerView {
        if self.scheduler.clock_due(clock.time) {
            ComposerView {
                board: with_time_and_day(self.board, clock.time, clock.weekday),
                scheduler: self.scheduler.clock_rendered(clock.time),
            }
        } else {
            self
        }
    }

    /// The composer after the music feed has answered at `now`.
    pub open spec fn after_now_playing(self, song: Option<SongView>, now: i64) -> ComposerView {
        ComposerView {
            board: with_now_playing(self.board, song),
            scheduler: if song is Some {
                self.scheduler.refreshed(Source::NowPlaying, now)
            } else {
                self.scheduler
            },
        }
    }

    /// The composer after the weather feed has answered at `now`.
    pub open spec fn after_weather(
        self,
        reading: Option<WeatherReading>,
        now: i64,
    ) -> ComposerView {
        ComposerView {
            board: with_temperature(self.board, reading),
            scheduler: if reading is Some {
                self.scheduler.refreshed(Source::Weather, now)
            } else {
                self.scheduler
            },
        }
    }

    /// The composer after `event`, where the clock reads `clock`.
    pub open spec fn after(self, event: EventView, clock: ClockView) -> ComposerView {
        match event {
            EventView::Tick => self.after_clock(clock),
            EventView::NowPlaying(song) => self.after_now_playing(song, clock.millis),
            EventView::Weather(reading) => self.after_weather(reading, clock.millis),
        }
    }

    /// What is to be done after `event`, where the clock reads `clock`.
    pub open spec fn action(self, event: EventView, clock: ClockView) -> Action {
        match event {
            EventView::Tick => self.after(event, clock).now_playing_turn(clock.millis),
            EventView::NowPlaying(_) => self.after(event, clock).weather_turn(clock.millis),
            EventView::Weather(_) => Action::Publish,
        }
    }

    /// The composer after the events of `run`, each with the reading of the
    /// clock at which it arrived, in their order.
    pub open spec fn after_all(self, run: Seq<(EventView, ClockView)>) -> ComposerView
        decreases run.len(),
    {
        if run.len() == 0 {
            self
        } else {
            self.after_all(run.drop_last()).after(run.last().0, run.last().1)
        }
    }
}

/// Whatever happens, the board stays a board: `ROWS` rows of `COLS` codes.
pub proof fn lemma_board_stays_a_board(composer: ComposerView, event: EventView, clock: ClockView)
    requires
        is_board(composer.board),
    ensures
        is_board(composer.after(event, clock).board),
{
    match event {
        EventView::Tick => {
            lemma_adapters_keep_the_board(composer.board, clock.time, clock.weekday, None, None);
        },
        EventView::NowPlaying(song) => {
            lemma_adapters_keep_the_board(composer.board, clock.time, clock.weekday, song, None);
        },
        EventView::Weather(reading) => {
            lemma_adapters_keep_the_board(
                composer.board,
                clock.time,
                clock.weekday,
                None,
                reading,
            );
        },
    }
}

/// Through any run of events the board stays a board.
pub proof fn lemma_board_is_always_a_board(composer: ComposerView, run: Seq<(EventView, ClockView)>)
    requires
        is_board(composer.board),
    ensures
        is_board(composer.after_all(run).board),
    decreases run.len(),
{
    if run.len() > 0 {
        lemma_board_is_always_a_board(composer, run.drop_last());
        lemma_board_stays_a_board(
            composer.after_all(run.drop_last()),
            run.last().0,
            run.last().1,
        );
    }
}

/// The region into which the adapter of `event` writes: that of the music
/// feed for its answer, that of the clock for a tick and for the weather.
pub open spec fn region_of(event: EventView) -> Region {
    match event {
        EventView::NowPlaying(_) => Region::NowPlaying,
        _ => Region::Clock,
    }
}

/// Each feed writes into its own region. Every row outside it is after the
/// event what it was before.
pub proof fn lemma_rows_have_one_owner(
    composer: ComposerView,
    event: EventView,
    clock: ClockView,
    r: int,
)
    requires
        is_board(composer.board),
        0 <= r < ROWS,
        !region_of(event).holds(r),
    ensures
        composer.after(event, clock).board[r] == composer.board[r],
{
    match event {
        EventView::Tick => {
            lemma_clock_region(composer.board, clock.time, clock.weekday);
        },
        EventView::NowPlaying(song) => {
            lemma_now_playing_region(composer.board, song);
        },
        EventView::Weather(reading) => {
            lemma_weather_region(composer.board, reading);
        },
    }
}

/// Every tick ends with the board being sent: the answer of the weather feed
/// is followed by `Publish`, and the answer of the music feed by the request
/// for the weather or by `Publish`, never by a second request for the song.
pub proof fn lemma_every_tick_ends_with_publish(
    composer: ComposerView,
    song: Option<SongView>,
    reading: Option<WeatherReading>,
    clock: ClockView,
)
    ensures
        composer.action(EventView::Weather(reading), clock) == Action::Publish,
        composer.action(EventView::NowPlaying(song), clock) != Action::FetchNowPlaying,
{
}

/// A tick on which nothing is due changes nothing and ends with the board
/// being sent: the display is sent the same cells as on the tick before.
pub proof fn lemma_idle_tick_sends_the_same_board(composer: ComposerView, clock: ClockView)
    requires
        !composer.scheduler.clock_due(clock.time),
        !composer.scheduler.due_at(Source::NowPlaying, clock.millis as int),
        !composer.scheduler.due_at(Source::Weather, clock.millis as int),
    ensures
        composer.after(EventView::Tick, clock) == composer,
        composer.action(EventView::Tick, clock) == Action::Publish,
{
}

/// A failed request for the weather changes nothing: the board shows the
/// temperature of the last reading, the feed stays due, and the board is sent.
pub proof fn lemma_failed_weather_changes_nothing(composer: ComposerView, clock: ClockView)
    ensures
        composer.after(EventView::Weather(None), clock) == composer,
        composer.action(EventView::Weather(None), clock) == Action::Publish,
{
}

/// The end of the first row, from the sixteenth column on, is changed by a
/// reading of the weather and by nothing else: until the next reading arrives
/// it shows what it showed, whatever the clock and the music feed do.
pub proof fn lemma_temperature_stays_until_the_next_reading(
    composer: ComposerView,
    event: EventView,
    clock: ClockView,
    c: int,
)
    requires
        is_board(composer.board),
        clock.is_wall_clock(),
        !(event matches EventView::Weather(Some(_))),
        16 <= c < COLS,
    ensures
        composer.after(event, clock).board[0][c] == composer.board[0][c],
{
    match event {
        EventView::Tick => {
            lemma_wall_clock_spares_the_end(composer.board, clock);
        },
        EventView::NowPlaying(song) => {
            lemma_now_playing_region(composer.board, song);
        },
        EventView::Weather(reading) => {
            lemma_weather_region(composer.board, reading);
        },
    }
}

/// Through any run of events in which no reading of the weather arrives, the
/// end of the first row shows what it showed at the start: a temperature
/// stays on the board through failed requests, however many ticks pass.
pub proof fn lemma_temperature_stays_through_failures(
    composer: ComposerView,
    run: Seq<(EventView, ClockView)>,
    c: int,
)
    requires
        is_board(composer.board),
        forall|i: int| 0 <= i < run.len() ==> (#[trigger] run[i]).1.is_wall_clock(),
        forall|i: int|
            0 <= i < run.len() ==> !((#[trigger] run[i]).0 matches EventView::Weather(Some(_))),
        16 <= c < COLS,
    ensures
        composer.after_all(run).board[0][c] == composer.board[0][c],
    decreases run.len(),
{
    if run.len() > 0 {
        let before = run.drop_last();
        lemma_temperature_stays_through_failures(composer, before, c);
        lemma_board_is_always_a_board(composer, before);
        lemma_temperature_stays_until_the_next_reading(
            composer.after_all(before),
            run.last().0,
            run.last().1,
            c,
        );
    }
}

/// Where the music feed answers that nothing is playing, its three rows are
/// blank afterwards, whatever song they showed; the feed is not marked as
/// refreshed.
pub proof fn lemma_absent_song_clears_its_rows(composer: ComposerView, clock: ClockView, r: int)
    requires
        is_board(composer.board),
        Region::NowPlaying.holds(r),
    ensures
        composer.after(EventView::NowPlaying(None), clock).board[r] == blank_row(),
        composer.after(EventView::NowPlaying(None), clock).scheduler == composer.scheduler,
{
    lemma_now_playing_region(composer.board, None);
}

/// A feed whose adapter has shown something at `clock.millis` is asked again
/// only when more than its interval has passed since.
pub proof fn lemma_success_is_remembered(
    composer: ComposerView,
    song: SongView,
    reading: WeatherReading,
    clock: ClockView,
    now: int,
)
    ensures
        composer.after(EventView::NowPlaying(Some(song)), clock).scheduler.due_at(
            Source::NowPlaying,
            now,
        ) <==> now - clock.millis > composer.scheduler.now_playing.interval,
        composer.after(EventView::Weather(Some(reading)), clock).scheduler.due_at(
            Source::Weather,
            now,
        ) <==> now - clock.millis > composer.scheduler.weather.interval,
{
}

/// The board together with the scheduler of its feeds.
#[derive(Debug, PartialEq, Eq)]
pub struct Composer {
    board: Grid,
    scheduler: Scheduler,
}

impl View for Composer {
    type V = ComposerView;

    closed spec fn view(&self) -> ComposerView {
        ComposerView { board: self.board@, scheduler: self.scheduler@ }
    }
}

impl Composer {
    /// A blank board on which nothing was refreshed yet, with the music feed
    /// on `NOW_PLAYING_INTERVAL` and the weather feed on `WEATHER_INTERVAL`.
    pub fn new() -> (composer: Composer)
        ensures
            composer@ == (ComposerView {
                board: blank_board(),
                scheduler: SchedulerView {
                    last_time: Seq::<char>::empty(),
                    now_playing: RefreshState {
                        last_success: None,
                        interval: NOW_PLAYING_INTERVAL,
                    },
                    weather: RefreshState { last_success: None, interval: WEATHER_INTERVAL },
                },
            }),
    {
        Composer::with_intervals(NOW_PLAYING_INTERVAL, WEATHER_INTERVAL)
    }

    /// A blank board on which nothing was refreshed yet, with the given
    /// intervals of the music feed and of the weather feed, in milliseconds.
    pub fn with_intervals(now_playing_interval: i64, weather_interval: i64) -> (composer: Composer)
        ensures
            composer@ == (ComposerView {
                board: blank_board(),
                scheduler: SchedulerView {
                    last_time: Seq::<char>::empty(),
                    now_playing: RefreshState {
                        last_success: None,
                        interval: now_playing_interval,
                    },
                    weather: RefreshState { last_success: None, interval: weather_interval },
                },
            }),
    {
        Composer {
            board: Grid::new(),
            scheduler: Scheduler::new(now_playing_interval, weather_interval),
        }
    }

    /// The board.
    pub fn board(&self) -> (board: &Grid)
        ensures
            board@ == self@.board,
            is_board(self@.board),
    {
        proof {
            use_type_invariant(&self.board);
            self.board.lemma_is_board();
        }
        &self.board
    }

    /// The scheduler.
    pub fn scheduler(&self) -> (scheduler: &Scheduler)
        ensures
            scheduler@ == self@.scheduler,
    {
        &self.scheduler
    }

    /// The rows of the board as the display takes them. What is sent depends
    /// on the board alone: sending the same board twice sends the same rows.
    pub fn frame(&self) -> (rows: Vec<Vec<i32>>)
        ensures
            rows.deep_view() == self@.board,
            is_board(self@.board),
    {
        self.board.to_rows()
    }

    /// What is to be done once the music feed has had its turn.
    fn weather_turn(&self, now: i64) -> (action: Action)
        ensures
            action == self@.weather_turn(now),
    {
        if self.scheduler.is_due(Source::Weather, now) {
            Action::FetchWeather
        } else {
            Action::Publish
        }
    }

    /// What is to be done once the clock has had its turn.
    fn now_playing_turn(&self, now: i64) -> (action: Action)
        ensures
            action == self@.now_playing_turn(now),
    {
        if self.scheduler.is_due(Source::NowPlaying, now) {
            Action::FetchNowPlaying
        } else {
            self.weather_turn(now)
        }
    }

    /// Takes `event` at a moment at which the clock reads `clock`: runs the
    /// adapter that the event belongs to, records a refresh that succeeded,
    /// and says what is to be done next.
    pub fn advance(&mut self, event: Event, clock: &Clock) -> (action: Action)
        ensures
            final(self)@ == old(self)@.after(event@, clock@),
            action == old(self)@.action(event@, clock@),
    {
        match event {
            Event::Tick => {
                if self.scheduler.is_clock_due(&clock.time) {
                    update_time_and_day(
                        &mut self.board,
                        clock.time.as_str(),
                        clock.weekday.as_str(),
                    );
                    self.scheduler.mark_clock_rendered(&clock.time);
                }
                self.now_playing_turn(clock.millis)
            },
            Event::NowPlaying(song) => {
                if update_spotify_information(&mut self.board, &song) {
                    self.scheduler.mark_refreshed(Source::NowPlaying, clock.millis);
                }
                self.weather_turn(clock.millis)
            },
            Event::Weather(reading) => {
                if update_weather_information(&mut self.board, reading) {
                    self.scheduler.mark_refreshed(Source::Weather, clock.millis);
                }
                Action::Publish
            },
        }
    }
}

} // verus!
