use vstd::prelude::*;

verus! {

/// The escape-introducer character.
pub const ESC: char = '\x1b';

/// Where the scanner stands within the character stream.
#[derive(PartialEq, Eq, Structural, Clone, Copy, Debug)]
pub enum Scan {
    /// Outside any escape sequence.
    Text,
    /// Just after the escape introducer.
    Introduced,
    /// Within the parameter bytes of a CSI sequence.
    CsiParams,
    /// Within the intermediate bytes of a CSI sequence.
    CsiIntermediates,
    /// Within the intermediate bytes of an nF sequence.
    NfIntermediates,
}

/// A malformed escape sequence, which aborts the whole stream.
#[derive(PartialEq, Eq, Structural, Clone, Copy, Debug)]
pub enum EscapeError {
    /// The stream ended right after the escape introducer.
    MissingSequence,
    /// The stream ended inside a CSI sequence.
    CsiUnterminated,
    /// A CSI sequence held a character outside its byte ranges.
    CsiBadTerminator,
    /// The stream ended inside an nF sequence.
    NfUnterminated,
    /// An nF sequence held a character outside its byte ranges.
    NfBadTerminator,
}

impl EscapeError {
    /// The message with which the stream is aborted.
    pub fn message(&self) -> (r: &'static str)
        ensures
            *self == EscapeError::MissingSequence ==> r@
                == "Escape character with no escape sequence after it"@,
            *self == EscapeError::CsiUnterminated ==> r@ == "CSI escape sequence did not terminate"@,
            *self == EscapeError::CsiBadTerminator ==> r@
                == "CSI escape sequence terminated with an incorrect value"@,
            *self == EscapeError::NfUnterminated ==> r@ == "nF escape sequence did not terminate"@,
            *self == EscapeError::NfBadTerminator ==> r@
                == "nF escape sequence terminated with an incorrect value"@,
    {
        proof {
            reveal_strlit("Escape character with no escape sequence after it");
            reveal_strlit("CSI escape sequence did not terminate");
            reveal_strlit("CSI escape sequence terminated with an incorrect value");
            reveal_strlit("nF escape sequence did not terminate");
            reveal_strlit("nF escape sequence terminated with an incorrect value");
        }
        match self {
            EscapeError::MissingSequence => "Escape character with no escape sequence after it",
            EscapeError::CsiUnterminated => "CSI escape sequence did not terminate",
            EscapeError::CsiBadTerminator => "CSI escape sequence terminated with an incorrect value",
            EscapeError::NfUnterminated => "nF escape sequence did not terminate",
            EscapeError::NfBadTerminator => "nF escape sequence terminated with an incorrect value",
        }
    }
}

/// Parameter bytes of a CSI sequence.
pub open spec fn is_parameter(c: char) -> bool {
    '\x30' <= c && c <= '\x3f'
}

/// Intermediate bytes, of CSI and nF sequences.
pub open spec fn is_intermediate(c: char) -> bool {
    '\x20' <= c && c <= '\x2f'
}

/// Final bytes of a CSI sequence.
pub open spec fn is_csi_final(c: char) -> bool {
    '\x40' <= c && c <= '\x7e'
}

/// Final bytes of an nF sequence.
pub open spec fn is_nf_final(c: char) -> bool {
    '\x30' <= c && c <= '\x7e'
}

/// The scanner's move on character `c` read in escape state `s` (any state
/// but `Text`): the next state, or the error that the character causes.
pub open spec fn escape_step(s: Scan, c: char) -> Result<Scan, EscapeError> {
    match s {
        Scan::Introduced => {
            if c == '[' {
                Ok(Scan::CsiParams)
            } else if is_intermediate(c) {
                Ok(Scan::NfIntermediates)
            } else {
                Ok(Scan::Text)
            }
        },
        Scan::CsiParams => {
            if is_parameter(c) {
                Ok(Scan::CsiParams)
            } else if is_intermediate(c) {
                Ok(Scan::CsiIntermediates)
            } else if is_csi_final(c) {
                Ok(Scan::Text)
            } else {
                Err(EscapeError::CsiBadTerminator)
            }
        },
        Scan::CsiIntermediates => {
            if is_intermediate(c) {
                Ok(Scan::CsiIntermediates)
            } else if is_csi_final(c) {
                Ok(Scan::Text)
            } else {
                Err(EscapeError::CsiBadTerminator)
            }
        },
        Scan::NfIntermediates => {
            if is_intermediate(c) {
                Ok(Scan::NfIntermediates)
            } else if is_nf_final(c) {
                Ok(Scan::Text)
            } else {
                Err(EscapeError::NfBadTerminator)
            }
        },
        Scan::Text => Ok(Scan::Text),
    }
}

/// The error for a stream that ends in state `s`, if `s` is inside a sequence.
pub open spec fn end_error(s: Scan) -> Option<EscapeError> {
    match s {
        Scan::Text => None,
        Scan::Introduced => Some(EscapeError::MissingSequence),
        Scan::CsiParams | Scan::CsiIntermediates => Some(EscapeError::CsiUnterminated),
        Scan::NfIntermediates => Some(EscapeError::NfUnterminated),
    }
}

/// Advances the scanner over one character of an escape sequence.
pub fn next_scan(s: Scan, c: char) -> (r: Result<Scan, EscapeError>)
    ensures
        r == escape_step(s, c),
{
    match s {
        Scan::Introduced => {
            if c == '[' {
                Ok(Scan::CsiParams)
            } else if '\x20' <= c && c <= '\x2f' {
                Ok(Scan::NfIntermediates)
            } else {
                Ok(Scan::Text)
            }
        },
        Scan::CsiParams => {
            if '\x30' <= c && c <= '\x3f' {
                Ok(Scan::CsiParams)
            } else if '\x20' <= c && c <= '\x2f' {
                Ok(Scan::CsiIntermediates)
            } else if '\x40' <= c && c <= '\x7e' {
                Ok(Scan::Text)
            } else {
                Err(EscapeError::CsiBadTerminator)
            }
        },
        Scan::CsiIntermediates => {
            if '\x20' <= c && c <= '\x2f' {
                Ok(Scan::CsiIntermediates)
            } else if '\x40' <= c && c <= '\x7e' {
                Ok(Scan::Text)
            } else {
                Err(EscapeError::CsiBadTerminator)
            }
        },
        Scan::NfIntermediates => {
            if '\x20' <= c && c <= '\x2f' {
                Ok(Scan::NfIntermediates)
            } else if '\x30' <= c && c <= '\x7e' {
                Ok(Scan::Text)
            } else {
                Err(EscapeError::NfBadTerminator)
            }
        },
        Scan::Text => Ok(Scan::Text),
    }
}

/// The error for a stream that ends in state `s`.
pub fn unterminated(s: Scan) -> (r: Option<EscapeError>)
    ensures
        r == end_error(s),
{
    match s {
        Scan::Text => None,
        Scan::Introduced => Some(EscapeError::MissingSequence),
        Scan::CsiParams | Scan::CsiIntermediates => Some(EscapeError::CsiUnterminated),
        Scan::NfIntermediates => Some(EscapeError::NfUnterminated),
    }
}

} // verus!
