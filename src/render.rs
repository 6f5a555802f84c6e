use vstd::prelude::*;

use crate::escape::ESC;
use crate::gray::{calc_fg_color, contrasting};

verus! {

/// The decimal digit for `d`, which is below 10.
pub open spec fn digit(d: int) -> char {
    if d == 0 {
        '0'
    } else if d == 1 {
        '1'
    } else if d == 2 {
        '2'
    } else if d == 3 {
        '3'
    } else if d == 4 {
        '4'
    } else if d == 5 {
        '5'
    } else if d == 6 {
        '6'
    } else if d == 7 {
        '7'
    } else if d == 8 {
        '8'
    } else {
        '9'
    }
}

/// `n` written in decimal, without leading zeros.
pub open spec fn decimal(n: nat) -> Seq<char>
    decreases n,
{
    if n < 10 {
        seq![digit(n as int)]
    } else {
        decimal(n / 10) + seq![digit((n % 10) as int)]
    }
}

/// The three channels of a color, in decimal, separated by `;`.
pub open spec fn channels(c: (u8, u8, u8)) -> Seq<char> {
    decimal(c.0 as nat) + seq![';'] + decimal(c.1 as nat) + seq![';'] + decimal(c.2 as nat)
}

/// A terminal escape, wrapped in `\[` and `\]` in prompt mode so that a shell
/// does not count it toward the prompt's width.
pub open spec fn prompt_wrap(prompt_mode: bool, body: Seq<char>) -> Seq<char> {
    if prompt_mode {
        seq!['\\', '['] + body + seq!['\\', ']']
    } else {
        body
    }
}

/// `ESC [ 4 9 m`: reset the background color.
pub open spec fn background_reset() -> Seq<char> {
    seq![ESC, '[', '4', '9', 'm']
}

/// `ESC [ 3 9 m`: reset the foreground color.
pub open spec fn foreground_reset() -> Seq<char> {
    seq![ESC, '[', '3', '9', 'm']
}

/// The 24-bit SGR escape that sets foreground `fg`, and background `bg` too
/// where there is one.
pub open spec fn color_code(fg: (u8, u8, u8), bg: Option<(u8, u8, u8)>) -> Seq<char> {
    seq![ESC, '[', '3', '8', ';', '2', ';'] + channels(fg) + match bg {
        Some(b) => seq![';', '4', '8', ';', '2', ';'] + channels(b),
        None => Seq::empty(),
    } + seq!['m']
}

/// A character painted in `color`: as the background with a contrasting
/// foreground in background mode, else as the foreground.
pub open spec fn painted(ch: char, color: (u8, u8, u8), background_mode: bool, prompt_mode: bool) -> Seq<char> {
    if background_mode {
        prompt_wrap(prompt_mode, color_code(contrasting(color), Some(color))) + seq![ch]
    } else {
        prompt_wrap(prompt_mode, color_code(color, None)) + seq![ch]
    }
}

fn digit_char(d: u8) -> (r: char)
    requires
        d < 10,
    ensures
        r == digit(d as int),
{
    match d {
        0 => '0',
        1 => '1',
        2 => '2',
        3 => '3',
        4 => '4',
        5 => '5',
        6 => '6',
        7 => '7',
        8 => '8',
        _ => '9',
    }
}

/// Appends `n` in decimal.
pub fn push_decimal(out: &mut Vec<char>, n: u8)
    ensures
        final(out)@ == old(out)@ + decimal(n as nat),
{
    proof {
        reveal_with_fuel(decimal, 3);
    }
    if n >= 100 {
        out.push(digit_char(n / 100));
        out.push(digit_char(n / 10 % 10));
        out.push(digit_char(n % 10));
        assert(decimal(n as nat) =~= seq![digit((n / 100) as int), digit((n / 10 % 10) as int), digit((n % 10) as int)]);
    } else if n >= 10 {
        out.push(digit_char(n / 10));
        out.push(digit_char(n % 10));
        assert(decimal(n as nat) =~= seq![digit((n / 10) as int), digit((n % 10) as int)]);
    } else {
        out.push(digit_char(n));
    }
    assert(final(out)@ =~= old(out)@ + decimal(n as nat));
}

fn push_channels(out: &mut Vec<char>, c: (u8, u8, u8))
    ensures
        final(out)@ == old(out)@ + channels(c),
{
    push_decimal(out, c.0);
    out.push(';');
    push_decimal(out, c.1);
    out.push(';');
    push_decimal(out, c.2);
    assert(final(out)@ =~= old(out)@ + channels(c));
}

fn push_prompt_open(out: &mut Vec<char>, prompt_mode: bool)
    ensures
        final(out)@ == old(out)@ + (if prompt_mode { seq!['\\', '['] } else { Seq::empty() }),
{
    if prompt_mode {
        out.push('\\');
        out.push('[');
    }
    assert(final(out)@ =~= old(out)@ + (if prompt_mode { seq!['\\', '['] } else { Seq::<char>::empty() }));
}

fn push_prompt_close(out: &mut Vec<char>, prompt_mode: bool)
    ensures
        final(out)@ == old(out)@ + (if prompt_mode { seq!['\\', ']'] } else { Seq::empty() }),
{
    if prompt_mode {
        out.push('\\');
        out.push(']');
    }
    assert(final(out)@ =~= old(out)@ + (if prompt_mode { seq!['\\', ']'] } else { Seq::<char>::empty() }));
}

/// Appends the SGR escape of `color_code(fg, bg)`.
pub fn push_color_code(out: &mut Vec<char>, fg: (u8, u8, u8), bg: Option<(u8, u8, u8)>)
    ensures
        final(out)@ == old(out)@ + color_code(fg, bg),
{
    let ghost start = out@;
    out.push(ESC);
    out.push('[');
    out.push('3');
    out.push('8');
    out.push(';');
    out.push('2');
    out.push(';');
    push_channels(out, fg);
    let ghost mid = out@;
    match bg {
        Some(b) => {
            out.push(';');
            out.push('4');
            out.push('8');
            out.push(';');
            out.push('2');
            out.push(';');
            push_channels(out, b);
        },
        None => {},
    }
    assert(out@ =~= mid + match bg {
        Some(b) => seq![';', '4', '8', ';', '2', ';'] + channels(b),
        None => Seq::<char>::empty(),
    });
    out.push('m');
    assert(final(out)@ =~= start + color_code(fg, bg));
}

/// Appends `ESC [ <code> 9 m`, the reset of the color layer `code`.
fn push_reset(out: &mut Vec<char>, code: char)
    ensures
        final(out)@ == old(out)@ + seq![ESC, '[', code, '9', 'm'],
{
    out.push(ESC);
    out.push('[');
    out.push(code);
    out.push('9');
    out.push('m');
    assert(final(out)@ =~= old(out)@ + seq![ESC, '[', code, '9', 'm']);
}

/// Appends the background reset, wrapped for a prompt in prompt mode.
pub fn push_background_reset(out: &mut Vec<char>, prompt_mode: bool)
    ensures
        final(out)@ == old(out)@ + prompt_wrap(prompt_mode, background_reset()),
{
    push_prompt_open(out, prompt_mode);
    push_reset(out, '4');
    push_prompt_close(out, prompt_mode);
    assert(final(out)@ =~= old(out)@ + prompt_wrap(prompt_mode, background_reset()));
}

/// Appends the foreground reset, wrapped for a prompt in prompt mode.
pub fn push_foreground_reset(out: &mut Vec<char>, prompt_mode: bool)
    ensures
        final(out)@ == old(out)@ + prompt_wrap(prompt_mode, foreground_reset()),
{
    push_prompt_open(out, prompt_mode);
    push_reset(out, '3');
    push_prompt_close(out, prompt_mode);
    assert(final(out)@ =~= old(out)@ + prompt_wrap(prompt_mode, foreground_reset()));
}

/// What resets the colors, the background too in background mode.
pub open spec fn color_reset(background_mode: bool, prompt_mode: bool) -> Seq<char> {
    prompt_wrap(
        prompt_mode,
        (if background_mode { background_reset() } else { Seq::empty() }) + foreground_reset(),
    )
}

/// Appends `color_reset(background_mode, prompt_mode)`.
pub fn push_color_reset(out: &mut Vec<char>, background_mode: bool, prompt_mode: bool)
    ensures
        final(out)@ == old(out)@ + color_reset(background_mode, prompt_mode),
{
    push_prompt_open(out, prompt_mode);
    if background_mode {
        push_reset(out, '4');
    }
    push_reset(out, '3');
    push_prompt_close(out, prompt_mode);
    assert(final(out)@ =~= old(out)@ + color_reset(background_mode, prompt_mode));
}

/// The text that paints `ch` in `color`.
pub fn colored_text(ch: char, color: (u8, u8, u8), background_mode: bool, prompt_mode: bool) -> (r: Vec<char>)
    ensures
        r@ == painted(ch, color, background_mode, prompt_mode),
{
    let mut out: Vec<char> = Vec::new();
    push_prompt_open(&mut out, prompt_mode);
    if background_mode {
        let fg = calc_fg_color(color);
        push_color_code(&mut out, fg, Some(color));
    } else {
        push_color_code(&mut out, color, None);
    }
    push_prompt_close(&mut out, prompt_mode);
    out.push(ch);
    assert(out@ =~= painted(ch, color, background_mode, prompt_mode));
    out
}

} // verus!
