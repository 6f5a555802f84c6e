use vstd::prelude::*;

verus! {

/// One unit of output.
#[derive(PartialEq, Eq, Structural, Clone, Copy, Debug)]
pub enum Piece {
    /// A character to write as it is.
    Text(char),
    /// A character to write in the rainbow color of the given number of seed
    /// steps past the initial seed.
    Colored(char, u64),
    /// Pause for the given number of milliseconds.
    Pause(u64),
    /// Flush the output.
    Flush,
}

/// `c` written as it is.
pub open spec fn text_piece(c: char) -> Piece {
    Piece::Text(c)
}

/// `c` written in the color of seed step `step`.
pub open spec fn colored_piece(c: char, step: u64) -> Piece {
    Piece::Colored(c, step)
}

/// Each character of `s` written as it is.
pub open spec fn texts(s: Seq<char>) -> Seq<Piece> {
    Seq::new(s.len(), |i: int| text_piece(s[i]))
}

fn text_of(c: char) -> (r: Piece)
    ensures
        r == Piece::Text(c),
{
    Piece::Text(c)
}

/// Each character of `cs` as text.
fn text_pieces(cs: &Vec<char>) -> (r: Vec<Piece>)
    ensures
        r@ == texts(cs@),
{
    let mut pieces: Vec<Piece> = Vec::new();
    let mut i: usize = 0;
    while i < cs.len()
        invariant
            i <= cs.len(),
            pieces@.len() == i,
            forall|j: int| 0 <= j < i ==> pieces@[j] == Piece::Text(cs@[j]),
        decreases cs.len() - i,
    {
        let piece = text_of(cs[i]);
        pieces.push(piece);
        i = i + 1;
    }
    assert(pieces@ =~= texts(cs@));
    pieces
}

/// Appends each character of `cs` as text.
pub fn push_texts(out: &mut Vec<Piece>, cs: &Vec<char>)
    ensures
        final(out)@ == old(out)@ + texts(cs@),
{
    let mut pieces = text_pieces(cs);
    out.append(&mut pieces);
}

} // verus!
