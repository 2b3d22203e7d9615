//! The refresh scheduler: which feed is due for a refresh.
//!
//! The music feed and the weather feed are refreshed on a timer: each is due
//! when more than its interval has passed since its last successful refresh,
//! and from the start until it has succeeded once. The clock is not on a
//! timer: it is due whenever the time of day, as text, differs from the text
//! that was rendered last. Instants and intervals are in milliseconds.

use vstd::prelude::*;

verus! {

/// The interval of the music feed: five seconds.
pub const NOW_PLAYING_INTERVAL: i64 = 5_000;

/// The interval of the weather feed: five minutes.
pub const WEATHER_INTERVAL: i64 = 300_000;

/// Whether more than `duration` lies between `last_check` and `now`.
pub open spec fn passed(last_check: int, duration: int, now: int) -> bool {
    now - last_check > duration
}

/// Whether more than `duration` has passed at `now` since `last_check`.
pub fn duration_passed(last_check: i64, duration: i64, now: i64) -> (due: bool)
    ensures
        due == passed(last_check as int, duration as int, now as int),
{
    (now as i128) - (last_check as i128) > (duration as i128)
}

/// A feed that is refreshed on a timer.
#[derive(Clone, Copy, Debug, PartialEq, Eq, Structural)]
pub enum Source {
    /// What the music service is playing.
    NowPlaying,
    /// The temperature outside.
    Weather,
}

/// What the scheduler remembers of one timed feed.
#[derive(Clone, Copy, Debug, PartialEq, Eq, Structural)]
pub struct RefreshState {
    /// The instant of the last successful refresh, if there was one.
    pub last_success: Option<i64>,
    /// The time that has to pass after a success before the feed is due again.
    pub interval: i64,
}

impl RefreshState {
    /// Whether the feed is due at `now`.
    pub open spec fn due_at(self, now: int) -> bool {
        match self.last_success {
            None => true,
            Some(last) => passed(last as int, self.interval as int, now),
        }
    }

    /// The state of a feed that has not succeeded yet.
    pub fn new(interval: i64) -> (state: RefreshState)
        ensures
            state == (RefreshState { last_success: None, interval }),
    {
        RefreshState { last_success: None, interval }
    }

    /// Whether the feed is due at `now`.
    pub fn is_due(&self, now: i64) -> (due: bool)
        ensures
            due == self.due_at(now as int),
    {
        match self.last_success {
            None => true,
            Some(last) => duration_passed(last, self.interval, now),
        }
    }

    /// Records a successful refresh at `now`.
    pub fn mark_refreshed(&mut self, now: i64)
        ensures
            *final(self) == (RefreshState {
                last_success: Some(now),
                interval: old(self).interval,
            }),
    {
        self.last_success = Some(now);
    }
}

/// What the scheduler remembers of all feeds.
pub struct SchedulerView {
    /// The time of day that was rendered last, as text.
    pub last_time: Seq<char>,
    /// The music feed.
    pub now_playing: RefreshState,
    /// The weather feed.
    pub weather: RefreshState,
}

impl SchedulerView {
    /// What is remembered of `source`.
    pub open spec fn state_of(self, source: Source) -> RefreshState {
        match source {
            Source::NowPlaying => self.now_playing,
            Source::Weather => self.weather,
        }
    }

    /// Whether `source` is due at `now`.
    pub open spec fn due_at(self, source: Source, now: int) -> bool {
        self.state_of(source).due_at(now)
    }

    /// Whether the clock is due when the time of day reads `time`.
    pub open spec fn clock_due(self, time: Seq<char>) -> bool {
        time != self.last_time
    }

    /// The scheduler after a successful refresh of `source` at `now`.
    pub open spec fn refreshed(self, source: Source, now: i64) -> SchedulerView {
        let state = RefreshState {
            last_success: Some(now),
            interval: self.state_of(source).interval,
        };
        match source {
            Source::NowPlaying => SchedulerView { now_playing: state, ..self },
            Source::Weather => SchedulerView { weather: state, ..self },
        }
    }

    /// The scheduler after the clock was rendered with the time of day `time`.
    pub open spec fn clock_rendered(self, time: Seq<char>) -> SchedulerView {
        SchedulerView { last_time: time, ..self }
    }
}

/// The scheduler of the board's feeds.
#[derive(Debug, PartialEq, Eq)]
pub struct Scheduler {
    last_time: String,
    now_playing: RefreshState,
    weather: RefreshState,
}

impl View for Scheduler {
    type V = SchedulerView;

    closed spec fn view(&self) -> SchedulerView {
        SchedulerView {
            last_time: self.last_time@,
            now_playing: self.now_playing,
            weather: self.weather,
        }
    }
}

impl Scheduler {
    /// A scheduler on which nothing was refreshed yet, with the given intervals.
    pub fn new(now_playing_interval: i64, weather_interval: i64) -> (scheduler: Scheduler)
        ensures
            scheduler@ == (SchedulerView {
                last_time: Seq::<char>::empty(),
                now_playing: RefreshState { last_success: None, interval: now_playing_interval },
                weather: RefreshState { last_success: None, interval: weather_interval },
            }),
    {
        Scheduler {
            last_time: String::new(),
            now_playing: RefreshState::new(now_playing_interval),
            weather: RefreshState::new(weather_interval),
        }
    }

    /// Whether `source` is due at `now`.
    pub fn is_due(&self, source: Source, now: i64) -> (due: bool)
        ensures
            due == self@.due_at(source, now as int),
    {
        match source {
            Source::NowPlaying => self.now_playing.is_due(now),
            Source::Weather => self.weather.is_due(now),
        }
    }

    /// Records a successful refresh of `source` at `now`.
    pub fn mark_refreshed(&mut self, source: Source, now: i64)
        ensures
            final(self)@ == old(self)@.refreshed(source, now),
    {
        match source {
            Source::NowPlaying => self.now_playing.mark_refreshed(now),
            Source::Weather => self.weather.mark_refreshed(now),
        }
    }

    /// Whether the clock is due when the time of day reads `time`.
    pub fn is_clock_due(&self, time: &String) -> (due: bool)
        ensures
            due == self@.clock_due(time@),
    {
        !(*time == self.last_time)
    }

    /// Records that the clock was rendered with the time of day `time`.
    pub fn mark_clock_rendered(&mut self, time: &String)
        ensures
            final(self)@ == old(self)@.clock_rendered(time@),
    {
        self.last_time = time.clone();
    }
}

/// A feed that has just been refreshed is not due again until more than its
/// interval has passed, and is due from then on.
pub proof fn lemma_due_after_refresh(scheduler: SchedulerView, source: Source, at: i64, now: int)
    ensures
        scheduler.refreshed(source, at).due_at(source, now) <==> now - at
            > scheduler.state_of(source).interval,
{
}

/// A feed that has never been refreshed is due at every instant.
pub proof fn lemma_due_until_first_success(scheduler: SchedulerView, source: Source, now: int)
    requires
        scheduler.state_of(source).last_success is None,
    ensures
        scheduler.due_at(source, now),
{
}

/// Refreshing one feed changes nothing for the other, nor for the clock.
pub proof fn lemma_refresh_is_local(
    scheduler: SchedulerView,
    source: Source,
    other: Source,
    at: i64,
    now: int,
    time: Seq<char>,
)
    requires
        source != other,
    ensures
        scheduler.refreshed(source, at).state_of(other) == scheduler.state_of(other),
        scheduler.refreshed(source, at).due_at(other, now) == scheduler.due_at(other, now),
        scheduler.refreshed(source, at).clock_due(time) == scheduler.clock_due(time),
{
}

/// The clock is due exactly until it has been rendered with the current text.
pub proof fn lemma_clock_due_on_change(
    scheduler: SchedulerView,
    rendered: Seq<char>,
    time: Seq<char>,
)
    ensures
        scheduler.clock_rendered(rendered).clock_due(time) <==> time != rendered,
{
}

} // verus!
