use lolcat::escape::{next_scan, EscapeError, Scan};
use lolcat::gray::{calc_fg_color, conv_grayscale};
use lolcat::piece::Piece;
use lolcat::render::colored_text;
use lolcat::stream::{Colorizer, Settings};

fn settings(background_mode: bool, prompt_mode: bool, width_plus_one: u16) -> Settings {
    Settings {
        background_mode,
        dialup_mode: false,
        print_color: true,
        prompt_mode,
        terminal_width_plus_one: width_plus_one,
    }
}

fn run(c: &mut Colorizer, input: &str) -> (Vec<Piece>, Result<(), EscapeError>) {
    let mut out = Vec::new();
    for ch in input.chars() {
        let r = c.feed(ch, &mut out);
        if r.is_err() {
            return (out, r);
        }
    }
    let r = c.finish(&mut out);
    (out, r)
}

fn text(s: &str) -> Vec<Piece> {
    s.chars().map(Piece::Text).collect()
}

fn string(v: Vec<char>) -> String {
    v.into_iter().collect()
}

#[test]
fn gray_of_black_white_and_grays() {
    assert_eq!(conv_grayscale((0, 0, 0)), 0);
    assert_eq!(conv_grayscale((255, 255, 255)), 255);
    assert_eq!(conv_grayscale((161, 161, 161)), 161);
    assert_eq!(conv_grayscale((17, 17, 17)), 17);
}

#[test]
fn gray_of_saturated_colors() {
    assert_eq!(conv_grayscale((255, 0, 0)), 148);
    assert_eq!(conv_grayscale((0, 255, 0)), 201);
    assert_eq!(conv_grayscale((0, 0, 255)), 94);
    assert_eq!(conv_grayscale((255, 255, 0)), 241);
    assert_eq!(conv_grayscale((128, 237, 18)), 197);
}

#[test]
fn foreground_contrasts_with_background() {
    assert_eq!(calc_fg_color((255, 255, 255)), (0, 0, 0));
    assert_eq!(calc_fg_color((0, 0, 0)), (255, 255, 255));
    assert_eq!(calc_fg_color((161, 161, 161)), (0, 0, 0));
    assert_eq!(calc_fg_color((160, 160, 160)), (255, 255, 255));
    assert_eq!(calc_fg_color((0, 0, 255)), (255, 255, 255));
    assert_eq!(calc_fg_color((0, 255, 0)), (0, 0, 0));
}

#[test]
fn scanner_moves() {
    assert_eq!(next_scan(Scan::Introduced, '['), Ok(Scan::CsiParams));
    assert_eq!(next_scan(Scan::Introduced, '('), Ok(Scan::NfIntermediates));
    assert_eq!(next_scan(Scan::Introduced, 'c'), Ok(Scan::Text));
    assert_eq!(next_scan(Scan::CsiParams, ';'), Ok(Scan::CsiParams));
    assert_eq!(next_scan(Scan::CsiParams, ' '), Ok(Scan::CsiIntermediates));
    assert_eq!(next_scan(Scan::CsiParams, 'm'), Ok(Scan::Text));
    assert_eq!(next_scan(Scan::CsiIntermediates, '1'), Err(EscapeError::CsiBadTerminator));
    assert_eq!(next_scan(Scan::NfIntermediates, 'B'), Ok(Scan::Text));
    assert_eq!(next_scan(Scan::NfIntermediates, '\n'), Err(EscapeError::NfBadTerminator));
}

#[test]
fn two_letters_in_consecutive_colors() {
    let mut c = Colorizer::new(settings(false, false, 100), false);
    let (out, r) = run(&mut c, "AB");
    assert_eq!(r, Ok(()));
    let mut expected = vec![Piece::Colored('A', 0), Piece::Colored('B', 1)];
    expected.extend(text("\x1b[39m"));
    assert_eq!(out, expected);
    assert_eq!(string(colored_text('A', (128, 237, 18), false, false)), "\x1b[38;2;128;237;18mA");
    assert_eq!(string(colored_text('B', (132, 235, 15), false, false)), "\x1b[38;2;132;235;15mB");
}

#[test]
fn existing_escape_passes_through() {
    let mut c = Colorizer::new(settings(false, false, 100), false);
    let (out, r) = run(&mut c, "\x1b[31mX");
    assert_eq!(r, Ok(()));
    let mut expected = text("\x1b[31m");
    expected.push(Piece::Colored('X', 0));
    expected.extend(text("\x1b[39m"));
    assert_eq!(out, expected);
}

#[test]
fn background_mode_skips_leading_spaces() {
    let mut c = Colorizer::new(settings(true, false, 100), false);
    let (out, r) = run(&mut c, "  hi");
    assert_eq!(r, Ok(()));
    let mut expected = text("  ");
    expected.push(Piece::Colored('h', 0));
    expected.push(Piece::Colored('i', 1));
    expected.extend(text("\x1b[39m"));
    assert_eq!(out, expected);
    assert_eq!(
        string(colored_text('h', (128, 237, 18), true, false)),
        "\x1b[38;2;0;0;0;48;2;128;237;18mh"
    );
}

#[test]
fn passthrough_without_color() {
    let s = Settings { print_color: false, ..settings(true, true, 2) };
    let mut c = Colorizer::new(s, true);
    let input = "a\x1b[31mb\n  c\x1b";
    let (out, r) = run(&mut c, input);
    assert_eq!(r, Ok(()));
    assert_eq!(out, text(input));
}

#[test]
fn wrap_matches_literal_newline() {
    let mut wrapped = Colorizer::new(settings(false, false, 4), false);
    let (a, ra) = run(&mut wrapped, "abcd");
    let mut broken = Colorizer::new(settings(false, false, 4), false);
    let (b, rb) = run(&mut broken, "abc\nd");
    assert_eq!(ra, Ok(()));
    assert_eq!(rb, Ok(()));
    assert_eq!(a, b);
    assert_eq!(a[3], Piece::Text('\n'));
    assert_eq!(a[4], Piece::Colored('d', 1));
    assert_eq!(wrapped.line_start, 1);
    assert_eq!(wrapped.column, 2);
}

#[test]
fn zero_width_wraps_before_first_character_only() {
    let mut c = Colorizer::new(settings(false, false, 1), false);
    let (out, _) = run(&mut c, "ab");
    assert_eq!(out[0], Piece::Text('\n'));
    assert_eq!(out[1], Piece::Colored('a', 1));
    assert_eq!(out[2], Piece::Colored('b', 2));
}

#[test]
fn newline_in_background_and_prompt_mode() {
    let mut c = Colorizer::new(settings(true, true, 100), false);
    let (out, r) = run(&mut c, "x\ny");
    assert_eq!(r, Ok(()));
    let mut expected = vec![Piece::Colored('x', 0)];
    expected.extend(text("\\[\x1b[49m\\]\n"));
    expected.push(Piece::Colored('y', 1));
    expected.extend(text("\\[\x1b[39m\\]"));
    assert_eq!(out, expected);
    assert_eq!(
        string(colored_text('y', (0, 0, 255), true, true)),
        "\\[\x1b[38;2;255;255;255;48;2;0;0;255m\\]y"
    );
}

#[test]
fn flush_after_each_character_and_sequence() {
    let mut c = Colorizer::new(settings(true, false, 100), true);
    let (out, r) = run(&mut c, " a\x1b[1m");
    assert_eq!(r, Ok(()));
    let mut expected = text(" ");
    expected.push(Piece::Colored('a', 0));
    expected.extend(text("\x1b[49m\x1b[39m"));
    expected.push(Piece::Flush);
    expected.extend(text("\x1b[1m\x1b[49m\x1b[39m"));
    expected.push(Piece::Flush);
    expected.extend(text("\x1b[39m"));
    assert_eq!(out, expected);
}

#[test]
fn dialup_pauses_after_each_line() {
    let s = Settings { dialup_mode: true, ..settings(false, false, 100) };
    let mut c = Colorizer::new(s, false);
    let (out, r) = run(&mut c, "a\nb\n");
    assert_eq!(r, Ok(()));
    let pauses: Vec<u64> = out
        .iter()
        .filter_map(|p| match p {
            Piece::Pause(ms) => Some(*ms),
            _ => None,
        })
        .collect();
    assert_eq!(pauses.len(), 2);
    assert!(pauses.iter().all(|ms| (30..700).contains(ms)));
}

#[test]
fn escape_errors() {
    let mut c = Colorizer::new(settings(false, false, 100), false);
    assert_eq!(run(&mut c, "ab\x1b").1, Err(EscapeError::MissingSequence));
    let mut c = Colorizer::new(settings(false, false, 100), false);
    assert_eq!(run(&mut c, "\x1b[12").1, Err(EscapeError::CsiUnterminated));
    let mut c = Colorizer::new(settings(false, false, 100), false);
    let (out, r) = run(&mut c, "\x1b[1\n");
    assert_eq!(r, Err(EscapeError::CsiBadTerminator));
    assert_eq!(out, text("\x1b[1\n"));
    let mut c = Colorizer::new(settings(false, false, 100), false);
    assert_eq!(run(&mut c, "\x1b(").1, Err(EscapeError::NfUnterminated));
    let mut c = Colorizer::new(settings(false, false, 100), false);
    assert_eq!(run(&mut c, "\x1b(\x01").1, Err(EscapeError::NfBadTerminator));
    assert_eq!(EscapeError::CsiUnterminated.message(), "CSI escape sequence did not terminate");
}

#[test]
fn newline_without_color_writes_no_background_reset() {
    let s = Settings { print_color: false, ..settings(true, false, 100) };
    let mut c = Colorizer::new(s, false);
    let mut out = Vec::new();
    c.handle_newline(30, &mut out);
    assert_eq!(out, vec![Piece::Text('\n')]);
    assert_eq!(c.line_start, 1);
    assert_eq!(c.seed, 1);
    assert_eq!(c.column, 1);
    let mut colored = Colorizer::new(settings(true, false, 100), false);
    let mut out = Vec::new();
    colored.handle_newline(30, &mut out);
    assert_eq!(out, text("\x1b[49m\n"));
}

#[test]
fn abort_messages() {
    assert_eq!(
        EscapeError::MissingSequence.message(),
        "Escape character with no escape sequence after it"
    );
    assert_eq!(
        EscapeError::CsiBadTerminator.message(),
        "CSI escape sequence terminated with an incorrect value"
    );
    assert_eq!(EscapeError::NfUnterminated.message(), "nF escape sequence did not terminate");
    assert_eq!(
        EscapeError::NfBadTerminator.message(),
        "nF escape sequence terminated with an incorrect value"
    );
}
