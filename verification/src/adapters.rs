//! The source adapters: how each feed writes its part of the board.
//!
//! The clock owns the first row but for its end, where the temperature
//! stands; the music feed owns the third to fifth row. An adapter replaces
//! whole rows and leaves every row that it does not own as it was.

use vstd::prelude::*;
use crate::clock::ClockView;
use crate::convert::is_code;
use crate::grid::{blank_row, cleared, is_board, is_row, Grid, Region, COLS, ROWS};
use crate::layout::{chars_of, encode, layout, laid_out, text_codes, Align};
use crate::spotify::{SongView, SpotifySong};
use crate::weather::{temperature_text, WeatherReading};

verus! {

/// The row of the clock and of the temperature.
pub const CLOCK_ROW: usize = 0;

/// The row of the label of the music feed.
pub const LABEL_ROW: usize = 2;

/// The row of the title of the song.
pub const TITLE_ROW: usize = 3;

/// The row of the artist of the song.
pub const ARTIST_ROW: usize = 4;

/// The label above a song.
pub const NOW_PLAYING_LABEL: &'static str = "now playing:";

/// The label above a song, as text.
pub open spec fn label() -> Seq<char> {
    NOW_PLAYING_LABEL@
}

/// `row` with `codes` written over it from column `at` on. Codes that would
/// stand beyond the end of the row are dropped.
pub open spec fn overlay(row: Seq<i32>, at: int, codes: Seq<i32>) -> Seq<i32> {
    Seq::new(
        row.len(),
        |j: int|
            if at <= j < at + codes.len() {
                codes[j - at]
            } else {
                row[j]
            },
    )
}

/// The column in which the name of a day of `len` characters starts: half the
/// width of the row less half the length, both halves rounded down, and the
/// first column for a name too long for that.
pub open spec fn day_column(len: nat) -> nat {
    if len / 2 <= COLS / 2 {
        (COLS / 2 - len / 2) as nat
    } else {
        0
    }
}

/// The first row once the time of day and the name of the day are written
/// into it: the time from the first column on, the name from `day_column` on.
pub open spec fn clock_row(row: Seq<i32>, time: Seq<char>, day: Seq<char>) -> Seq<i32> {
    overlay(overlay(row, 0, text_codes(time)), day_column(day.len()) as int, text_codes(day))
}

/// The board after the clock adapter has run.
pub open spec fn with_time_and_day(board: Seq<Seq<i32>>, time: Seq<char>, day: Seq<char>) -> Seq<
    Seq<i32>,
> {
    board.update(CLOCK_ROW as int, clock_row(board[CLOCK_ROW as int], time, day))
}

/// The board after the music adapter has run: label, title and artist, each
/// centred in its row, or three blank rows where nothing is playing.
pub open spec fn with_now_playing(board: Seq<Seq<i32>>, song: Option<SongView>) -> Seq<Seq<i32>> {
    match song {
        Some(s) => board.update(
            LABEL_ROW as int,
            laid_out(label(), COLS as nat, Align::Center),
        ).update(TITLE_ROW as int, laid_out(s.name, COLS as nat, Align::Center)).update(
            ARTIST_ROW as int,
            laid_out(s.artist, COLS as nat, Align::Center),
        ),
        None => cleared(board, Region::NowPlaying),
    }
}

/// The first row once the text of a temperature is written at its end.
pub open spec fn temperature_row(row: Seq<i32>, text: Seq<char>) -> Seq<i32> {
    overlay(row, COLS - text.len(), text_codes(text))
}

/// The board after the weather adapter has run: the temperature stands at the
/// end of the first row, or nothing has changed where there is no reading.
pub open spec fn with_temperature(board: Seq<Seq<i32>>, reading: Option<WeatherReading>) -> Seq<
    Seq<i32>,
> {
    match reading {
        Some(r) => board.update(
            CLOCK_ROW as int,
            temperature_row(board[CLOCK_ROW as int], temperature_text(r.hundredths as int)),
        ),
        None => board,
    }
}

/// The song of an optional song, as plain values.
pub open spec fn song_view(song: Option<SpotifySong>) -> Option<SongView> {
    match song {
        Some(s) => Some(s@),
        None => None,
    }
}

/// Writing codes over a row of the board gives a row of the board.
pub proof fn lemma_overlay_is_row(row: Seq<i32>, at: int, codes: Seq<i32>)
    requires
        is_row(row),
        forall|i: int| 0 <= i < codes.len() ==> is_code(#[trigger] codes[i] as int),
    ensures
        is_row(overlay(row, at, codes)),
{
}

/// Each adapter leaves a board a board.
pub proof fn lemma_adapters_keep_the_board(
    board: Seq<Seq<i32>>,
    time: Seq<char>,
    day: Seq<char>,
    song: Option<SongView>,
    reading: Option<WeatherReading>,
)
    requires
        is_board(board),
    ensures
        is_board(with_time_and_day(board, time, day)),
        is_board(with_now_playing(board, song)),
        is_board(with_temperature(board, reading)),
{
    let first = board[CLOCK_ROW as int];
    lemma_overlay_is_row(first, 0, text_codes(time));
    lemma_overlay_is_row(
        overlay(first, 0, text_codes(time)),
        day_column(day.len()) as int,
        text_codes(day),
    );
    match song {
        Some(s) => {
            crate::layout::lemma_layout_codes(label(), COLS as nat, Align::Center);
            crate::layout::lemma_layout_codes(s.name, COLS as nat, Align::Center);
            crate::layout::lemma_layout_codes(s.artist, COLS as nat, Align::Center);
        },
        None => {},
    }
    match reading {
        Some(r) => {
            let text = temperature_text(r.hundredths as int);
            lemma_overlay_is_row(first, COLS - text.len(), text_codes(text));
        },
        None => {},
    }
}

/// The clock adapter writes into its region only, and there only into the
/// columns that the time of day and the name of the day cover.
pub proof fn lemma_clock_region(board: Seq<Seq<i32>>, time: Seq<char>, day: Seq<char>)
    requires
        is_board(board),
    ensures
        forall|r: int|
            0 <= r < ROWS && !Region::Clock.holds(r) ==> #[trigger] with_time_and_day(
                board,
                time,
                day,
            )[r] == board[r],
        forall|c: int|
            0 <= c < COLS && c >= time.len() && !(day_column(day.len()) <= c < day_column(
                day.len(),
            ) + day.len()) ==> #[trigger] with_time_and_day(board, time, day)[0][c] == board[0][c],
{
}

/// Where the time of day and the name of the day fit side by side, the first
/// row shows the time from the first column on and the name from
/// `day_column` on, each character as its code.
pub proof fn lemma_clock_row_shows_time_and_day(row: Seq<i32>, time: Seq<char>, day: Seq<char>)
    requires
        is_row(row),
        time.len() <= day_column(day.len()),
        day_column(day.len()) + day.len() <= COLS,
    ensures
        clock_row(row, time, day).subrange(0, time.len() as int) == text_codes(time),
        clock_row(row, time, day).subrange(
            day_column(day.len()) as int,
            (day_column(day.len()) + day.len()) as int,
        ) == text_codes(day),
{
}

/// A reading of the wall clock never reaches the sixteenth column of the
/// first row: the end of the row, where the temperature stands, is not touched.
pub proof fn lemma_wall_clock_spares_the_end(board: Seq<Seq<i32>>, clock: ClockView)
    requires
        is_board(board),
        clock.is_wall_clock(),
    ensures
        forall|c: int|
            16 <= c < COLS ==> #[trigger] with_time_and_day(board, clock.time, clock.weekday)[0][c]
                == board[0][c],
{
    crate::clock::lemma_weekday_name_len(clock.weekday);
}

/// The music adapter writes into its region only. Where nothing is playing,
/// the rows of the region are blank afterwards, whatever stood there.
pub proof fn lemma_now_playing_region(board: Seq<Seq<i32>>, song: Option<SongView>)
    requires
        is_board(board),
    ensures
        forall|r: int|
            0 <= r < ROWS && !Region::NowPlaying.holds(r) ==> #[trigger] with_now_playing(
                board,
                song,
            )[r] == board[r],
        song is None ==> forall|r: int|
            Region::NowPlaying.holds(r) ==> #[trigger] with_now_playing(board, song)[r]
                == blank_row(),
{
}

/// Without a reading the weather adapter changes nothing. With one it writes
/// into the region of the clock only, and there only into the last columns,
/// as many as the text of the temperature is long; these then hold the codes
/// of the text.
pub proof fn lemma_weather_region(board: Seq<Seq<i32>>, reading: Option<WeatherReading>)
    requires
        is_board(board),
    ensures
        reading is None ==> with_temperature(board, reading) == board,
        forall|r: int|
            0 <= r < ROWS && !Region::Clock.holds(r) ==> #[trigger] with_temperature(
                board,
                reading,
            )[r] == board[r],
        reading matches Some(r) ==> ({
            let text = temperature_text(r.hundredths as int);
            &&& 2 <= text.len() <= 20
            &&& with_temperature(board, reading)[0].subrange(COLS - text.len(), COLS as int)
                == text_codes(text)
            &&& forall|c: int|
                0 <= c < COLS - text.len() ==> #[trigger] with_temperature(board, reading)[0][c]
                    == board[0][c]
        }),
{
    match reading {
        Some(r) => {
            crate::weather::lemma_temperature_text_len(r.hundredths);
        },
        None => {},
    }
}

/// The codes of `text`, one for each character.
pub fn encode_text(text: &Vec<char>) -> (codes: Vec<i32>)
    ensures
        codes@ == text_codes(text@),
        forall|i: int| 0 <= i < codes@.len() ==> is_code(#[trigger] codes@[i] as int),
{
    let mut codes: Vec<i32> = Vec::new();
    let mut i: usize = 0;
    while i < text.len()
        invariant
            i <= text.len(),
            codes@.len() == i,
            forall|k: int| 0 <= k < i ==> codes@[k] == text_codes(text@)[k],
            forall|k: int| 0 <= k < i ==> is_code(#[trigger] codes@[k] as int),
        decreases text.len() - i,
    {
        codes.push(encode(text[i]));
        i += 1;
    }
    codes
}

/// `row` with `codes` written over it from column `at` on. Codes that would
/// stand beyond the end of the row are dropped.
pub fn overlay_codes(row: &Vec<i32>, at: usize, codes: &Vec<i32>) -> (written: Vec<i32>)
    ensures
        written@ == overlay(row@, at as int, codes@),
{
    let mut written: Vec<i32> = Vec::new();
    let mut j: usize = 0;
    while j < row.len()
        invariant
            j <= row.len(),
            written@.len() == j,
            forall|k: int| 0 <= k < j ==> written@[k] == overlay(row@, at as int, codes@)[k],
        decreases row.len() - j,
    {
        let code: i32 = if at <= j && j - at < codes.len() {
            codes[j - at]
        } else {
            row[j]
        };
        written.push(code);
        j += 1;
    }
    written
}

/// The clock adapter: writes the time of day into the first columns of the
/// first row and the name of the day, in small letters, around its middle.
/// Text that does not fit is cut at the end of the row.
pub fn update_time_and_day(board: &mut Grid, time: &str, day: &str)
    ensures
        final(board)@ == with_time_and_day(old(board)@, time@, day@),
{
    let time_codes = encode_text(&chars_of(time));
    let day_codes = encode_text(&chars_of(day));
    let half: usize = day_codes.len() / 2;
    let at: usize = if half <= COLS / 2 {
        COLS / 2 - half
    } else {
        0
    };
    let with_time = overlay_codes(board.row_at(CLOCK_ROW), 0, &time_codes);
    let row = overlay_codes(&with_time, at, &day_codes);
    proof {
        lemma_overlay_is_row(old(board)@[CLOCK_ROW as int], 0, time_codes@);
        lemma_overlay_is_row(with_time@, at as int, day_codes@);
    }
    board.put_row(CLOCK_ROW, row);
}

/// Calls `vestalia::format::convert_line` with the justification `center`.
///
/// Trusted: where vestalia accepts the text, the row that it returns is the
/// one that `laid_out` describes for 22 columns: the first 22 characters, in
/// small letters, each as its code, in the middle of the row, the odd blank
/// on the right. Nothing is claimed of which text vestalia accepts.
///
/// vestalia cuts the text after 22 bytes, and stops the program where that
/// is inside a character. In ASCII text a byte is a character, so for such
/// text the cut is the one of `laid_out` and vestalia does not stop.
#[verifier::external_body]
fn convert_line(text: &str) -> (line: Option<Vec<i32>>)
    requires
        text.is_ascii(),
    ensures
        line matches Some(codes) ==> codes@ == laid_out(text@, COLS as nat, Align::Center),
{
    vestalia::format::convert_line(text.to_string(), "center").ok()
}

/// A row of the board with `text` in its middle. ASCII text is handed to the
/// formatter of the display's maker; text that it refuses, and any other
/// text, is laid out by `layout`. Either way the row is the same.
pub fn center_line(text: &str) -> (line: Vec<i32>)
    ensures
        line@ == laid_out(text@, COLS as nat, Align::Center),
        is_row(line@),
{
    proof {
        crate::layout::lemma_layout_codes(text@, COLS as nat, Align::Center);
    }
    if text.is_ascii() {
        match convert_line(text) {
            Some(line) => line,
            None => layout(text, COLS, Align::Center),
        }
    } else {
        layout(text, COLS, Align::Center)
    }
}

/// The music adapter: clears its region, and then shows the label, the title
/// and the artist of `song`, each in the middle of its row. Where nothing is
/// playing the region stays blank. Returns whether a song is shown.
pub fn update_spotify_information(board: &mut Grid, song: &Option<SpotifySong>) -> (shown: bool)
    ensures
        final(board)@ == with_now_playing(old(board)@, song_view(*song)),
        shown == song is Some,
{
    board.clear(Region::NowPlaying);
    match song {
        Some(s) => {
            board.put_row(LABEL_ROW, center_line(NOW_PLAYING_LABEL));
            board.put_row(TITLE_ROW, center_line(s.name.as_str()));
            board.put_row(ARTIST_ROW, center_line(s.artist.as_str()));
            true
        },
        None => false,
    }
}

/// The weather adapter: writes the temperature of `reading` at the end of the
/// first row, over whatever stands there. Without a reading the board stays
/// as it is. Returns whether a temperature was written.
pub fn update_weather_information(board: &mut Grid, reading: Option<WeatherReading>) -> (shown:
    bool)
    ensures
        final(board)@ == with_temperature(old(board)@, reading),
        shown == reading is Some,
{
    match reading {
        Some(r) => {
            let codes = encode_text(&r.text());
            let at: usize = COLS - codes.len();
            let row = overlay_codes(board.row_at(CLOCK_ROW), at, &codes);
            proof {
                lemma_overlay_is_row(old(board)@[CLOCK_ROW as int], at as int, codes@);
            }
            board.put_row(CLOCK_ROW, row);
            true
        },
        None => false,
    }
}

} // verus!
