use vstd::prelude::*;

use rand::Rng;

use crate::escape::{escape_step, end_error, next_scan, unterminated, EscapeError, Scan, ESC};
use crate::render::{
    background_reset, color_reset, foreground_reset, prompt_wrap, push_background_reset,
    push_color_reset, push_foreground_reset,
};
use crate::piece::{colored_piece, push_texts, text_piece, texts, Piece};
use crate::whitespace::{is_white_space, white_space};

verus! {

/// The shortest pause after a line in dialup mode, in milliseconds.
pub const MIN_PAUSE_MS: u64 = 30;

/// The bound, exclusive, on a pause after a line in dialup mode.
pub const MAX_PAUSE_MS: u64 = 700;

/// How a stream is colored; fixed for the whole stream.
#[derive(Clone, Copy, Debug)]
pub struct Settings {
    /// Color backgrounds, with a contrasting foreground, and leave the leading
    /// white space of each line uncolored.
    pub background_mode: bool,
    /// Pause for a random short while after every line.
    pub dialup_mode: bool,
    /// Color at all; when off the stream passes through unchanged.
    pub print_color: bool,
    /// Wrap every emitted escape in `\[` and `\]` for a shell prompt.
    pub prompt_mode: bool,
    /// The column count at which a line is wrapped: the terminal width plus one.
    pub terminal_width_plus_one: u16,
}

/// The state of the colorizer between two characters of the stream.
#[derive(Clone, Copy, Debug)]
pub struct Colorizer {
    pub settings: Settings,
    /// Reset the colors and flush after every character or escape sequence.
    pub flush_each: bool,
    /// Where the escape scanner stands.
    pub scan: Scan,
    /// Seed steps taken from the initial seed.
    pub seed: u64,
    /// Seed steps from the initial seed at which the current line started.
    pub line_start: u64,
    /// In background mode, no character of the line has been colored yet.
    pub ignoring_whitespace: bool,
    /// One plus the number of characters colored on the line.
    pub column: u16,
}

/// Counts one step, staying at the largest value once there.
pub open spec fn advance(x: u64) -> u64 {
    if x < u64::MAX {
        (x + 1) as u64
    } else {
        x
    }
}

/// Counts one column, staying at the largest value once there.
pub open spec fn advance_column(x: u16) -> u16 {
    if x < u16::MAX {
        (x + 1) as u16
    } else {
        x
    }
}

/// The state of a fresh stream.
pub open spec fn fresh(settings: Settings, flush_each: bool) -> Colorizer {
    Colorizer {
        settings,
        flush_each,
        scan: Scan::Text,
        seed: 0,
        line_start: 0,
        ignoring_whitespace: settings.background_mode,
        column: 1,
    }
}

/// The state at the start of the next line: its seed one step past the
/// current line's start (the step count stays at `u64::MAX` once there).
pub open spec fn newline_state(s: Colorizer) -> Colorizer {
    Colorizer {
        seed: advance(s.line_start),
        line_start: advance(s.line_start),
        ignoring_whitespace: s.settings.background_mode,
        column: 1,
        ..s
    }
}

/// What a line break writes: the background reset when coloring in
/// background mode, the line terminator, and in dialup mode a pause.
pub open spec fn newline_out(s: Colorizer, pause_ms: u64) -> Seq<Piece> {
    (if s.settings.print_color && s.settings.background_mode {
        texts(prompt_wrap(s.settings.prompt_mode, background_reset()))
    } else {
        Seq::empty()
    }) + seq![text_piece('\n')] + (if s.settings.dialup_mode {
        seq![Piece::Pause(pause_ms)]
    } else {
        Seq::empty()
    })
}

/// What follows each completed character or escape sequence when flushing
/// after each: a color reset and a flush.
pub open spec fn flush_out(s: Colorizer) -> Seq<Piece> {
    if s.flush_each {
        texts(color_reset(s.settings.background_mode, s.settings.prompt_mode)).push(Piece::Flush)
    } else {
        Seq::empty()
    }
}

/// The line is full: the next printable character goes to a new line.
pub open spec fn line_full(s: Colorizer) -> bool {
    s.column == s.settings.terminal_width_plus_one
}

/// The state in which a printable character is placed, after a wrap if the
/// line is full.
pub open spec fn placed(s: Colorizer) -> Colorizer {
    if line_full(s) {
        newline_state(s)
    } else {
        s
    }
}

/// The printable character `c` is written uncolored: it is leading white
/// space in background mode.
pub open spec fn skipped(s: Colorizer, c: char) -> bool {
    placed(s).ignoring_whitespace && white_space(c)
}

/// The state after the printable character `c`.
pub open spec fn printable_state(s: Colorizer, c: char) -> Colorizer {
    let t = placed(s);
    if skipped(s, c) {
        t
    } else {
        Colorizer {
            ignoring_whitespace: false,
            seed: advance(t.seed),
            column: advance_column(t.column),
            ..t
        }
    }
}

/// The output for the printable character `c`.
pub open spec fn printable_out(s: Colorizer, c: char, pause_ms: u64) -> Seq<Piece> {
    (if line_full(s) {
        newline_out(s, pause_ms)
    } else {
        Seq::empty()
    }) + if skipped(s, c) {
        seq![text_piece(c)]
    } else {
        seq![colored_piece(c, placed(s).seed)] + flush_out(s)
    }
}

/// The state after reading `c` in state `s`.
pub open spec fn next_state(s: Colorizer, c: char) -> Colorizer {
    if !s.settings.print_color {
        s
    } else if s.scan == Scan::Text {
        if c == ESC {
            Colorizer { scan: Scan::Introduced, ..s }
        } else if c == '\n' {
            newline_state(s)
        } else {
            printable_state(s, c)
        }
    } else {
        match escape_step(s.scan, c) {
            Ok(n) => Colorizer { scan: n, ..s },
            Err(_) => s,
        }
    }
}

/// The output for reading `c` in state `s`, where a pause lasts `pause_ms`.
pub open spec fn emitted(s: Colorizer, c: char, pause_ms: u64) -> Seq<Piece> {
    if !s.settings.print_color {
        seq![text_piece(c)]
    } else if s.scan == Scan::Text {
        if c == ESC {
            seq![text_piece(c)]
        } else if c == '\n' {
            newline_out(s, pause_ms) + flush_out(s)
        } else {
            printable_out(s, c, pause_ms)
        }
    } else {
        match escape_step(s.scan, c) {
            Ok(n) => if n == Scan::Text {
                seq![text_piece(c)] + flush_out(s)
            } else {
                seq![text_piece(c)]
            },
            Err(_) => seq![text_piece(c)],
        }
    }
}

/// The error, if any, that reading `c` in state `s` raises.
pub open spec fn step_result(s: Colorizer, c: char) -> Result<(), EscapeError> {
    if s.settings.print_color && s.scan != Scan::Text {
        match escape_step(s.scan, c) {
            Ok(_) => Ok(()),
            Err(e) => Err(e),
        }
    } else {
        Ok(())
    }
}

/// What ends the stream: the foreground reset when coloring.
pub open spec fn finish_out(s: Colorizer) -> Seq<Piece> {
    if s.settings.print_color {
        texts(prompt_wrap(s.settings.prompt_mode, foreground_reset()))
    } else {
        Seq::empty()
    }
}

/// The state after reading all of `cs` from state `s`.
pub open spec fn run_state(s: Colorizer, cs: Seq<char>) -> Colorizer
    decreases cs.len(),
{
    if cs.len() == 0 {
        s
    } else {
        next_state(run_state(s, cs.drop_last()), cs.last())
    }
}

/// The output of reading all of `cs` from state `s`.
pub open spec fn run_out(s: Colorizer, cs: Seq<char>, pause_ms: u64) -> Seq<Piece>
    decreases cs.len(),
{
    if cs.len() == 0 {
        Seq::empty()
    } else {
        run_out(s, cs.drop_last(), pause_ms) + emitted(
            run_state(s, cs.drop_last()),
            cs.last(),
            pause_ms,
        )
    }
}

/// Reading all of `cs` from state `s` raises no error.
pub open spec fn run_ok(s: Colorizer, cs: Seq<char>) -> bool
    decreases cs.len(),
{
    cs.len() == 0 || (run_ok(s, cs.drop_last()) && step_result(
        run_state(s, cs.drop_last()),
        cs.last(),
    ) is Ok)
}

/// Relies on rand's `thread_rng().gen_range(low, high)`: a value in
/// `[low, high)`; it panics unless `low < high`.
#[verifier::external_body]
fn random_in(low: u64, high: u64) -> (r: u64)
    requires
        low < high,
    ensures
        low <= r < high,
{
    rand::thread_rng().gen_range(low, high)
}

fn advance_exec(x: u64) -> (r: u64)
    ensures
        r == advance(x),
{
    if x < u64::MAX {
        x + 1
    } else {
        x
    }
}

fn advance_column_exec(x: u16) -> (r: u16)
    ensures
        r == advance_column(x),
{
    if x < u16::MAX {
        x + 1
    } else {
        x
    }
}

impl Colorizer {
    /// A colorizer at the start of a stream.
    pub fn new(settings: Settings, flush_each: bool) -> (r: Colorizer)
        ensures
            r == fresh(settings, flush_each),
    {
        Colorizer {
            settings,
            flush_each,
            scan: Scan::Text,
            seed: 0,
            line_start: 0,
            ignoring_whitespace: settings.background_mode,
            column: 1,
        }
    }

    fn push_flush(&self, out: &mut Vec<Piece>)
        ensures
            final(out)@ == old(out)@ + flush_out(*self),
    {
        if self.flush_each {
            let mut t: Vec<char> = Vec::new();
            push_color_reset(&mut t, self.settings.background_mode, self.settings.prompt_mode);
            push_texts(out, &t);
            out.push(Piece::Flush);
        }
        assert(final(out)@ =~= old(out)@ + flush_out(*self));
    }

    /// Ends the line: resets the background when coloring in background
    /// mode, writes the line terminator,
    /// pauses in dialup mode, and starts the next line's state.
    pub fn handle_newline(&mut self, pause_ms: u64, out: &mut Vec<Piece>)
        ensures
            *final(self) == newline_state(*old(self)),
            final(out)@ == old(out)@ + newline_out(*old(self), pause_ms),
    {
        let ghost s0 = *self;
        let ghost o0 = out@;
        if self.settings.print_color && self.settings.background_mode {
            let mut t: Vec<char> = Vec::new();
            push_background_reset(&mut t, self.settings.prompt_mode);
            push_texts(out, &t);
        }
        out.push(Piece::Text('\n'));
        if self.settings.dialup_mode {
            out.push(Piece::Pause(pause_ms));
        }
        self.line_start = advance_exec(self.line_start);
        self.seed = self.line_start;
        self.ignoring_whitespace = self.settings.background_mode;
        self.column = 1;
        assert(out@ =~= o0 + newline_out(s0, pause_ms));
    }

    /// Reads one character, where a pause, if one comes, lasts `pause_ms`.
    #[verifier::rlimit(60)]
    pub fn feed_with_pause(&mut self, c: char, pause_ms: u64, out: &mut Vec<Piece>) -> (r: Result<(), EscapeError>)
        ensures
            *final(self) == next_state(*old(self), c),
            final(out)@ == old(out)@ + emitted(*old(self), c, pause_ms),
            r == step_result(*old(self), c),
    {
        let ghost s0 = *self;
        let ghost o0 = out@;
        if !self.settings.print_color {
            out.push(Piece::Text(c));
            return Ok(());
        }
        match self.scan {
            Scan::Text => {
                if c == ESC {
                    out.push(Piece::Text(c));
                    self.scan = Scan::Introduced;
                } else if c == '\n' {
                    self.handle_newline(pause_ms, out);
                    self.push_flush(out);
                    assert(out@ =~= o0 + emitted(s0, c, pause_ms));
                } else {
                    if self.column == self.settings.terminal_width_plus_one {
                        self.handle_newline(pause_ms, out);
                    }
                    let ghost o1 = out@;
                    if self.ignoring_whitespace && is_white_space(c) {
                        out.push(Piece::Text(c));
                        assert(out@ =~= o0 + emitted(s0, c, pause_ms));
                        return Ok(());
                    }
                    self.ignoring_whitespace = false;
                    out.push(Piece::Colored(c, self.seed));
                    self.seed = advance_exec(self.seed);
                    self.column = advance_column_exec(self.column);
                    self.push_flush(out);
                    assert(out@ =~= o0 + emitted(s0, c, pause_ms));
                }
                Ok(())
            },
            _ => {
                out.push(Piece::Text(c));
                match next_scan(self.scan, c) {
                    Ok(n) => {
                        self.scan = n;
                        if n == Scan::Text {
                            self.push_flush(out);
                        }
                        assert(out@ =~= o0 + emitted(s0, c, pause_ms));
                        Ok(())
                    },
                    Err(e) => Err(e),
                }
            },
        }
    }

    /// Reads one character of the stream and appends what it writes. On an
    /// error the character has been written and the stream must stop.
    pub fn feed(&mut self, c: char, out: &mut Vec<Piece>) -> (r: Result<(), EscapeError>)
        ensures
            *final(self) == next_state(*old(self), c),
            exists|pause_ms: u64|
                MIN_PAUSE_MS <= pause_ms < MAX_PAUSE_MS && final(out)@ == old(out)@ + emitted(*old(self), c, pause_ms),
            r == step_result(*old(self), c),
    {
        // Only a line break in dialup mode pauses; otherwise the value goes unused.
        let pauses = self.settings.print_color && self.settings.dialup_mode && self.scan
            == Scan::Text && (c == '\n' || (c != ESC && self.column
            == self.settings.terminal_width_plus_one));
        let pause_ms = if pauses {
            random_in(MIN_PAUSE_MS, MAX_PAUSE_MS)
        } else {
            MIN_PAUSE_MS
        };
        self.feed_with_pause(c, pause_ms, out)
    }

    /// Ends the stream: an error if it stopped inside an escape sequence,
    /// else the foreground reset when coloring.
    pub fn finish(&self, out: &mut Vec<Piece>) -> (r: Result<(), EscapeError>)
        ensures
            r == (match end_error(self.scan) {
                Some(e) => Err(e),
                None => Ok(()),
            }),
            final(out)@ == old(out)@ + (if end_error(self.scan) is Some {
                Seq::empty()
            } else {
                finish_out(*self)
            }),
    {
        match unterminated(self.scan) {
            Some(e) => {
                assert(final(out)@ =~= old(out)@);
                Err(e)
            },
            None => {
                if self.settings.print_color {
                    let mut t: Vec<char> = Vec::new();
                    push_foreground_reset(&mut t, self.settings.prompt_mode);
                    push_texts(out, &t);
                }
                assert(final(out)@ =~= old(out)@ + finish_out(*self));
                Ok(())
            },
        }
    }
}

} // verus!
