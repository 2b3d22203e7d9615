use flapboard::adapters::center_line;
use flapboard::layout::{chars_of, encode, layout, to_lower, Align};

#[test]
fn layout_has_the_width_asked_for() {
    let texts = ["", "a", "hello world", "a text that is much longer than any row of the board", "20°", "日本語"];
    for text in texts {
        for width in [0usize, 1, 2, 5, 21, 22, 23, 40] {
            assert_eq!(layout(text, width, Align::Left).len(), width);
            assert_eq!(layout(text, width, Align::Center).len(), width);
        }
    }
}

#[test]
fn centered_text_starts_at_half_the_free_columns() {
    assert_eq!(layout("abc", 10, Align::Center), vec![0, 0, 0, 1, 2, 3, 0, 0, 0, 0]);
    assert_eq!(layout("abcd", 10, Align::Center), vec![0, 0, 0, 1, 2, 3, 4, 0, 0, 0]);
}

#[test]
fn centered_text_leaves_the_odd_blank_on_the_right() {
    assert_eq!(layout("ab", 5, Align::Center), vec![0, 1, 2, 0, 0]);
    assert_eq!(layout("a", 2, Align::Center), vec![1, 0]);
}

#[test]
fn centered_span_for_every_short_text() {
    let text = "abcdefghijklmnopqrstuv";
    for len in 0..=22usize {
        let line = layout(&text[..len], 22, Align::Center);
        let start = (22 - len) / 2;
        for (j, code) in line.iter().enumerate() {
            if start <= j && j < start + len {
                assert_eq!(*code, (j - start) as i32 + 1);
            } else {
                assert_eq!(*code, 0);
            }
        }
    }
}

#[test]
fn left_text_starts_in_the_first_column() {
    assert_eq!(layout("ab", 4, Align::Left), vec![1, 2, 0, 0]);
    assert_eq!(layout("abcdefghijklmnop", 22, Align::Left), vec![
        1, 2, 3, 4, 5, 6, 7, 8, 9, 10, 11, 12, 13, 14, 15, 16, 0, 0, 0, 0, 0, 0,
    ]);
}

#[test]
fn long_text_is_cut_to_its_first_characters() {
    assert_eq!(layout("abcdefgh", 3, Align::Left), vec![1, 2, 3]);
    assert_eq!(layout("abcdefgh", 3, Align::Center), vec![1, 2, 3]);
    assert_eq!(layout("abcdefghijklmnopqrstuvwxyz", 22, Align::Center), vec![
        1, 2, 3, 4, 5, 6, 7, 8, 9, 10, 11, 12, 13, 14, 15, 16, 17, 18, 19, 20, 21, 22,
    ]);
}

#[test]
fn text_of_the_exact_width_fills_the_row() {
    assert_eq!(layout("abc", 3, Align::Center), vec![1, 2, 3]);
    assert_eq!(layout("abc", 3, Align::Left), vec![1, 2, 3]);
}

#[test]
fn empty_text_gives_a_blank_row() {
    assert_eq!(layout("", 22, Align::Center), vec![0; 22]);
    assert_eq!(layout("", 22, Align::Left), vec![0; 22]);
    assert_eq!(layout("", 0, Align::Center), Vec::<i32>::new());
}

#[test]
fn zero_width_gives_an_empty_row() {
    assert_eq!(layout("abc", 0, Align::Center), Vec::<i32>::new());
    assert_eq!(layout("abc", 0, Align::Left), Vec::<i32>::new());
}

#[test]
fn capitals_count_as_small_letters() {
    assert_eq!(layout("AbZ", 3, Align::Left), vec![1, 2, 26]);
    assert_eq!(to_lower('A'), 'a');
    assert_eq!(to_lower('Z'), 'z');
    assert_eq!(to_lower('a'), 'a');
    assert_eq!(to_lower('@'), '@');
    assert_eq!(to_lower('['), '[');
    assert_eq!(to_lower('É'), 'É');
    assert_eq!(encode('Q'), 17);
    assert_eq!(encode('q'), 17);
    assert_eq!(encode('É'), 0);
}

#[test]
fn characters_without_a_code_are_blank_in_a_row() {
    assert_eq!(layout("a*b", 5, Align::Center), vec![0, 1, 0, 2, 0]);
    assert_eq!(layout("señor", 5, Align::Left), vec![19, 5, 0, 15, 18]);
}

#[test]
fn width_counts_characters_not_bytes() {
    assert_eq!(layout("°°°", 2, Align::Left), vec![62, 62]);
    assert_eq!(layout("20°", 5, Align::Center), vec![0, 28, 36, 62, 0]);
    assert_eq!(chars_of("20°"), vec!['2', '0', '°']);
    assert_eq!(chars_of(""), Vec::<char>::new());
}

#[test]
fn center_line_of_plain_text() {
    assert_eq!(center_line("qrstuvwxyz1234567890"), vec![
        0, 17, 18, 19, 20, 21, 22, 23, 24, 25, 26, 27, 28, 29, 30, 31, 32, 33, 34, 35, 36, 0,
    ]);
    assert_eq!(center_line("My text"), vec![
        0, 0, 0, 0, 0, 0, 0, 13, 25, 0, 20, 5, 24, 20, 0, 0, 0, 0, 0, 0, 0, 0,
    ]);
    assert_eq!(center_line("now playing:"), vec![
        0, 0, 0, 0, 0, 14, 15, 23, 0, 16, 12, 1, 25, 9, 14, 7, 50, 0, 0, 0, 0, 0,
    ]);
}

#[test]
fn center_line_of_text_that_the_formatter_refuses() {
    assert_eq!(center_line("My text****"), vec![
        0, 0, 0, 0, 0, 13, 25, 0, 20, 5, 24, 20, 0, 0, 0, 0, 0, 0, 0, 0, 0, 0,
    ]);
    assert_eq!(center_line("[live]"), vec![
        0, 0, 0, 0, 0, 0, 0, 0, 0, 12, 9, 22, 5, 0, 0, 0, 0, 0, 0, 0, 0, 0,
    ]);
}

#[test]
fn center_line_of_text_beyond_ascii() {
    assert_eq!(center_line("Señorita"), vec![
        0, 0, 0, 0, 0, 0, 0, 19, 5, 0, 15, 18, 9, 20, 1, 0, 0, 0, 0, 0, 0, 0,
    ]);
    assert_eq!(center_line("abcdefghijklmnopqrstu°vw"), vec![
        1, 2, 3, 4, 5, 6, 7, 8, 9, 10, 11, 12, 13, 14, 15, 16, 17, 18, 19, 20, 21, 62,
    ]);
    assert_eq!(center_line("°°°°°°°°°°°°°°°°°°°°°°°°"), vec![62; 22]);
}

#[test]
fn center_line_cuts_long_text() {
    assert_eq!(center_line("abcdefghijklmnopqrstuvwxyz"), vec![
        1, 2, 3, 4, 5, 6, 7, 8, 9, 10, 11, 12, 13, 14, 15, 16, 17, 18, 19, 20, 21, 22,
    ]);
}

#[test]
fn center_line_is_the_centered_layout_of_twenty_two_columns() {
    let texts = [
        "",
        " ",
        "a",
        "Bohemian Rhapsody",
        "The Dark Side Of The Moon (Remastered)",
        "AC/DC",
        "99 Luftballons",
        "what's up?",
        "100% pure & 'quoted' \"text\"",
        "tab\there",
        "line\nbreak",
        "{63}{1}",
        "a*b",
        "Mötley Crüe",
        "1234567890123456789012",
        "12345678901234567890123",
        "x;y:z,w.v/u=t+s-r$q#p@o!",
    ];
    for text in texts {
        assert_eq!(center_line(text), layout(text, 22, Align::Center), "text {:?}", text);
        assert_eq!(center_line(text).len(), 22);
    }
}

#[test]
fn the_formatter_of_the_maker_agrees_with_the_layout_on_ascii_text() {
    let mut accepted = 0;
    let mut refused = 0;
    for n in 0u32..128 {
        let c = char::from_u32(n).unwrap();
        for len in [1usize, 2, 3, 11, 21, 22, 23, 30] {
            let text: String = std::iter::repeat(c).take(len).collect();
            let mixed = format!("Ab {} 1", text);
            for candidate in [text, mixed] {
                match vestalia::format::convert_line(candidate.clone(), "center") {
                    Ok(line) => {
                        accepted += 1;
                        assert_eq!(line, layout(&candidate, 22, Align::Center), "{:?}", candidate);
                    }
                    Err(_) => refused += 1,
                }
                assert_eq!(center_line(&candidate), layout(&candidate, 22, Align::Center));
            }
        }
    }
    assert!(accepted > 500);
    assert!(refused > 0);
}
