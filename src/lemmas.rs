use vstd::prelude::*;

use crate::escape::{
    escape_step, is_csi_final, is_intermediate, is_nf_final, is_parameter, Scan, ESC,
};
use crate::piece::{colored_piece, text_piece, texts, Piece};
use crate::render::{foreground_reset, prompt_wrap};
use crate::stream::{
    emitted, finish_out, flush_out, fresh, newline_out, newline_state, next_state, run_ok,
    run_out, run_state, step_result, Colorizer, Settings,
};
use crate::whitespace::white_space;

verus! {

/// Reading `cs` and then `c` is reading `cs.push(c)`.
proof fn lemma_run_push(s: Colorizer, cs: Seq<char>, c: char, pause_ms: u64)
    ensures
        run_state(s, cs.push(c)) == next_state(run_state(s, cs), c),
        run_out(s, cs.push(c), pause_ms) == run_out(s, cs, pause_ms) + emitted(
            run_state(s, cs),
            c,
            pause_ms,
        ),
        run_ok(s, cs.push(c)) == (run_ok(s, cs) && step_result(run_state(s, cs), c) is Ok),
{
    assert(cs.push(c).drop_last() =~= cs);
}

proof fn lemma_texts_push(cs: Seq<char>, c: char)
    ensures
        texts(cs.push(c)) == texts(cs).push(text_piece(c)),
{
    let next = cs.push(c);
    assert(texts(next)[cs.len() as int] == text_piece(c));
    assert(texts(next) =~= texts(cs).push(text_piece(c)));
}

/// With coloring off the stream passes through unchanged: every character is
/// written as it is, the state never moves, and nothing ends the stream.
pub proof fn lemma_passthrough(s: Colorizer, cs: Seq<char>, pause_ms: u64)
    requires
        !s.settings.print_color,
    ensures
        run_state(s, cs) == s,
        run_out(s, cs, pause_ms) == texts(cs),
        run_ok(s, cs),
        finish_out(s) == Seq::<Piece>::empty(),
    decreases cs.len(),
{
    if cs.len() > 0 {
        let prefix = cs.drop_last();
        lemma_passthrough(s, prefix, pause_ms);
        assert(cs =~= prefix.push(cs.last()));
        lemma_texts_push(prefix, cs.last());
        let c = cs.last();
        assert(run_out(s, cs, pause_ms) =~= texts(prefix).push(text_piece(cs.last())));
    } else {
        assert(texts(cs) =~= Seq::<Piece>::empty());
    }
}

/// A line wrap is a line break: when the line is full, a printable character
/// first does exactly what a literal newline does, output and state alike,
/// and is then read on the new line, whose seed is one step past the old
/// line's start and whose column is 1. (On a terminal of width zero the new
/// line is full at once, so the character would wrap again.)
pub proof fn lemma_wrap_is_newline(s: Colorizer, c: char, pause_ms: u64)
    requires
        s.settings.print_color,
        s.scan == Scan::Text,
        s.column == s.settings.terminal_width_plus_one,
        s.settings.terminal_width_plus_one > 1,
        c != ESC,
        c != '\n',
    ensures
        next_state(s, '\n') == newline_state(s),
        emitted(s, '\n', pause_ms) == newline_out(s, pause_ms) + flush_out(s),
        next_state(s, c) == next_state(newline_state(s), c),
        emitted(s, c, pause_ms) == newline_out(s, pause_ms) + emitted(newline_state(s), c, pause_ms),
        newline_state(s).seed == newline_state(s).line_start,
        newline_state(s).column == 1,
{
}

/// Reading `a` and then `b` is reading `a + b`.
pub proof fn lemma_run_append(s: Colorizer, a: Seq<char>, b: Seq<char>, pause_ms: u64)
    ensures
        run_state(s, a + b) == run_state(run_state(s, a), b),
        run_out(s, a + b, pause_ms) == run_out(s, a, pause_ms) + run_out(
            run_state(s, a),
            b,
            pause_ms,
        ),
        run_ok(s, a + b) == (run_ok(s, a) && run_ok(run_state(s, a), b)),
    decreases b.len(),
{
    if b.len() == 0 {
        assert(a + b =~= a);
        assert(run_out(s, a, pause_ms) + Seq::<Piece>::empty() =~= run_out(s, a, pause_ms));
    } else {
        let front = b.drop_last();
        lemma_run_append(s, a, front, pause_ms);
        assert(a + b =~= (a + front).push(b.last()));
        assert(b =~= front.push(b.last()));
        lemma_run_push(s, a + front, b.last(), pause_ms);
        lemma_run_push(run_state(s, a), front, b.last(), pause_ms);
        assert(run_out(s, a + b, pause_ms) =~= run_out(s, a, pause_ms) + run_out(
            run_state(s, a),
            b,
            pause_ms,
        ));
    }
}

/// On a full line, a literal newline before the next printable character
/// changes nothing: reading `"\n" + t` and reading `t` write the same line
/// break and the same output, and end in the same state, whose line starts
/// one seed step further on at column 1. (Without flushing after each
/// character, since a literal newline is itself followed by a flush; and not on
/// a terminal of width zero, where the new line is full at once.)
pub proof fn lemma_wrap_run(s: Colorizer, t: Seq<char>, pause_ms: u64)
    requires
        s.settings.print_color,
        !s.flush_each,
        s.scan == Scan::Text,
        s.column == s.settings.terminal_width_plus_one,
        s.settings.terminal_width_plus_one > 1,
        t.len() > 0,
        t[0] != ESC,
        t[0] != '\n',
    ensures
        run_state(s, seq!['\n'] + t) == run_state(s, t),
        run_out(s, seq!['\n'] + t, pause_ms) == run_out(s, t, pause_ms),
        run_ok(s, seq!['\n'] + t) == run_ok(s, t),
{
    let c = t[0];
    let rest = t.subrange(1, t.len() as int);
    lemma_wrap_is_newline(s, c, pause_ms);
    let nl = seq!['\n'];
    let one = seq![c];
    assert(Seq::<char>::empty().push('\n') =~= nl);
    assert(Seq::<char>::empty().push(c) =~= one);
    lemma_run_push(s, Seq::<char>::empty(), '\n', pause_ms);
    lemma_run_push(s, Seq::<char>::empty(), c, pause_ms);
    lemma_run_append(s, nl, one, pause_ms);
    lemma_run_push(run_state(s, nl), Seq::<char>::empty(), c, pause_ms);
    assert(nl + one =~= seq!['\n', c]);
    assert(run_out(s, nl, pause_ms) =~= newline_out(s, pause_ms));
    assert(run_out(s, nl + one, pause_ms) =~= run_out(s, one, pause_ms));
    lemma_run_append(s, nl + one, rest, pause_ms);
    lemma_run_append(s, one, rest, pause_ms);
    assert(nl + t =~= (nl + one) + rest);
    assert(t =~= one + rest);
}

/// The seed step and output of a line of printable characters colored one by
/// one from a fresh stream: the `i`-th at step `i`, each followed by `tail`.
pub open spec fn rainbow(cs: Seq<char>, tail: Seq<Piece>) -> Seq<Piece>
    decreases cs.len(),
{
    if cs.len() == 0 {
        Seq::empty()
    } else {
        rainbow(cs.drop_last(), tail) + seq![colored_piece(cs.last(), (cs.len() - 1) as u64)]
            + tail
    }
}

/// Characters that are neither an escape introducer nor a newline.
pub open spec fn plain(cs: Seq<char>) -> bool {
    forall|i: int| 0 <= i < cs.len() ==> cs[i] != ESC && cs[i] != '\n'
}

/// A line of printable characters shorter than the terminal, read from a fresh
/// stream, is colored one character at a time at consecutive seed steps from
/// the initial seed, and the stream then ends with the foreground reset. In
/// background mode a leading white space character would be left uncolored,
/// so the line does not start with one there.
pub proof fn lemma_plain_line(settings: Settings, flush_each: bool, cs: Seq<char>, pause_ms: u64)
    requires
        settings.print_color,
        plain(cs),
        cs.len() < settings.terminal_width_plus_one,
        !(settings.background_mode && cs.len() > 0 && white_space(cs[0])),
    ensures
        run_state(fresh(settings, flush_each), cs) == (Colorizer {
            seed: cs.len() as u64,
            column: (cs.len() + 1) as u16,
            ignoring_whitespace: settings.background_mode && cs.len() == 0,
            ..fresh(settings, flush_each)
        }),
        run_out(fresh(settings, flush_each), cs, pause_ms) == rainbow(
            cs,
            flush_out(fresh(settings, flush_each)),
        ),
        run_ok(fresh(settings, flush_each), cs),
        finish_out(run_state(fresh(settings, flush_each), cs)) == texts(
            prompt_wrap(settings.prompt_mode, foreground_reset()),
        ),
    decreases cs.len(),
{
    let f = fresh(settings, flush_each);
    if cs.len() > 0 {
        let prefix = cs.drop_last();
        assert(prefix.len() > 0 ==> prefix[0] == cs[0]);
        assert(plain(prefix)) by {
            assert forall|i: int| 0 <= i < prefix.len() implies prefix[i] != ESC && prefix[i]
                != '\n' by {
                assert(prefix[i] == cs[i]);
            }
        }
        lemma_plain_line(settings, flush_each, prefix, pause_ms);
        assert(cs =~= prefix.push(cs.last()));
        lemma_run_push(f, prefix, cs.last(), pause_ms);
        assert(cs.last() == cs[cs.len() - 1]);
        if prefix.len() == 0 {
            assert(cs.last() == cs[0]);
        }
        assert(run_out(f, cs, pause_ms) =~= rainbow(cs, flush_out(f)));
    }
}

/// The CSI sequence `e` has its parameter bytes before position `p` and its
/// intermediate bytes from `p` up to the final byte.
pub open spec fn csi_split(e: Seq<char>, p: int) -> bool {
    2 <= p <= e.len() - 1 && (forall|i: int| 2 <= i < p ==> is_parameter(#[trigger] e[i])) && (
    forall|i: int| p <= i < e.len() - 1 ==> is_intermediate(#[trigger] e[i]))
}

/// A complete escape sequence: the introducer, then a CSI sequence (`[`,
/// parameter bytes, intermediate bytes, a final byte), an nF sequence
/// (intermediate bytes, then a final byte), or one other character.
pub open spec fn is_escape_sequence(e: Seq<char>) -> bool {
    e.len() >= 2 && e[0] == ESC && ((e[1] == '[' && e.len() >= 3 && is_csi_final(
        e[e.len() - 1],
    ) && exists|p: int| #[trigger] csi_split(e, p))
        || (is_intermediate(e[1]) && e.len() >= 3 && is_nf_final(e[e.len() - 1]) && forall|i: int|
        1 <= i < e.len() - 1 ==> is_intermediate(#[trigger] e[i])) || (e.len() == 2 && e[1]
        != '[' && !is_intermediate(e[1])))
}

/// The scanner's state after the first `k` characters of an escape sequence.
spec fn scan_within(e: Seq<char>, k: int) -> Scan {
    if k == 1 {
        Scan::Introduced
    } else if e[1] == '[' {
        if k == 2 || is_parameter(e[k - 1]) {
            Scan::CsiParams
        } else {
            Scan::CsiIntermediates
        }
    } else {
        Scan::NfIntermediates
    }
}

/// Each character of an escape sequence but the last moves the scanner on
/// within the sequence.
proof fn lemma_scan_moves(e: Seq<char>, k: int)
    requires
        is_escape_sequence(e),
        2 <= k <= e.len() - 1,
    ensures
        escape_step(scan_within(e, k - 1), e[k - 1]) == Ok::<Scan, crate::escape::EscapeError>(
            scan_within(e, k),
        ),
{
    let n = e.len();
    if e[1] == '[' && k >= 3 {
        let p = choose|p: int| csi_split(e, p);
        if k - 1 < p {
            assert(is_parameter(e[k - 1]));
        } else {
            assert(is_intermediate(e[k - 1]));
        }
        if k - 2 >= 2 {
            if k - 2 < p {
                assert(is_parameter(e[k - 2]));
            } else {
                assert(is_intermediate(e[k - 2]));
            }
        }
    } else if e[1] != '[' && k >= 3 {
        assert(is_intermediate(e[k - 1]));
    }
}

/// The last character of an escape sequence completes it.
proof fn lemma_scan_ends(e: Seq<char>)
    requires
        is_escape_sequence(e),
    ensures
        escape_step(scan_within(e, e.len() - 1), e[e.len() - 1]) == Ok::<
            Scan,
            crate::escape::EscapeError,
        >(Scan::Text),
{
    let n = e.len();
    if e[1] == '[' && n >= 3 && n - 2 >= 2 {
        let p = choose|p: int| csi_split(e, p);
        if n - 2 < p {
            assert(is_parameter(e[n - 2]));
        } else {
            assert(is_intermediate(e[n - 2]));
        }
    }
}

/// Within an escape sequence the colorizer only echoes and scans.
proof fn lemma_escape_prefix(s: Colorizer, e: Seq<char>, k: int, pause_ms: u64)
    requires
        s.settings.print_color,
        s.scan == Scan::Text,
        is_escape_sequence(e),
        1 <= k <= e.len() - 1,
    ensures
        run_state(s, e.take(k)) == (Colorizer { scan: scan_within(e, k), ..s }),
        run_out(s, e.take(k), pause_ms) == texts(e.take(k)),
        run_ok(s, e.take(k)),
    decreases k,
{
    let prev = e.take(k - 1);
    assert(e.take(k) =~= prev.push(e[k - 1]));
    lemma_run_push(s, prev, e[k - 1], pause_ms);
    lemma_texts_push(prev, e[k - 1]);
    if k == 1 {
        assert(prev =~= Seq::<char>::empty());
        assert(texts(prev) =~= Seq::<Piece>::empty());
    } else {
        lemma_escape_prefix(s, e, k - 1, pause_ms);
        lemma_scan_moves(e, k);
    }
}

/// A complete escape sequence is echoed exactly as it came, whatever the
/// settings, and leaves the colorizer as it found it: no seed step, no column.
/// When flushing after each sequence, the flush follows it.
pub proof fn lemma_escape_echoed(s: Colorizer, e: Seq<char>, pause_ms: u64)
    requires
        s.scan == Scan::Text,
        is_escape_sequence(e),
    ensures
        run_state(s, e) == s,
        run_out(s, e, pause_ms) == texts(e) + if s.settings.print_color {
            flush_out(s)
        } else {
            Seq::empty()
        },
        run_ok(s, e),
{
    if !s.settings.print_color {
        lemma_passthrough(s, e, pause_ms);
        assert(texts(e) + Seq::<Piece>::empty() =~= texts(e));
    } else {
        let n = e.len();
        let prev = e.take(n - 1);
        lemma_escape_prefix(s, e, n - 1, pause_ms);
        assert(e =~= prev.push(e[n - 1]));
        lemma_run_push(s, prev, e[n - 1], pause_ms);
        lemma_texts_push(prev, e[n - 1]);
        lemma_scan_ends(e);
        assert(run_out(s, e, pause_ms) =~= texts(e) + flush_out(s));
    }
}

} // verus!
