//! The closed set of rail line codes, with its bidirectional string mapping.
use vstd::prelude::*;

use crate::text::str_eq;

verus! {

/// Every rail line code, as the upstream service defines them.
#[derive(Debug, Copy, Clone, PartialEq, Eq, Structural)]
pub enum Line {
    Red,
    Blue,
    Yellow,
    Orange,
    Green,
    Silver,
}

/// The canonical two-letter code of a line.
pub open spec fn spec_line_code(l: Line) -> Seq<char> {
    match l {
        Line::Red => "RD"@,
        Line::Blue => "BL"@,
        Line::Yellow => "YL"@,
        Line::Orange => "OR"@,
        Line::Green => "GR"@,
        Line::Silver => "SV"@,
    }
}

/// The line a text names: the unique line whose canonical code equals the
/// text, if any.
pub open spec fn spec_parse_line(s: Seq<char>) -> Option<Line> {
    if s == "RD"@ {
        Some(Line::Red)
    } else if s == "BL"@ {
        Some(Line::Blue)
    } else if s == "YL"@ {
        Some(Line::Yellow)
    } else if s == "OR"@ {
        Some(Line::Orange)
    } else if s == "GR"@ {
        Some(Line::Green)
    } else if s == "SV"@ {
        Some(Line::Silver)
    } else {
        None
    }
}

/// An error indicating that the provided string is not a line code.
#[derive(Debug, Copy, Clone, PartialEq, Eq, Structural)]
pub struct StringIsNotLineError;

impl StringIsNotLineError {
    /// A human-readable description of the error.
    pub fn message(&self) -> (r: String)
        ensures
            r@ == "Provided string is not a valid line code."@,
    {
        "Provided string is not a valid line code.".to_owned()
    }
}

impl Line {
    /// The canonical code of this line, e.g. `"RD"`.
    pub fn to_string(&self) -> (r: String)
        ensures
            r@ == spec_line_code(*self),
    {
        match self {
            Line::Red => "RD".to_owned(),
            Line::Blue => "BL".to_owned(),
            Line::Yellow => "YL".to_owned(),
            Line::Orange => "OR".to_owned(),
            Line::Green => "GR".to_owned(),
            Line::Silver => "SV".to_owned(),
        }
    }

    /// Parses a line code; fails exactly on strings outside the closed set,
    /// the empty string included.
    pub fn from_str(s: &str) -> (r: Result<Line, StringIsNotLineError>)
        ensures
            r matches Ok(l) ==> spec_parse_line(s@) == Some(l),
            r is Err <==> spec_parse_line(s@) is None,
    {
        if str_eq(s, "RD") {
            Ok(Line::Red)
        } else if str_eq(s, "BL") {
            Ok(Line::Blue)
        } else if str_eq(s, "YL") {
            Ok(Line::Yellow)
        } else if str_eq(s, "OR") {
            Ok(Line::Orange)
        } else if str_eq(s, "GR") {
            Ok(Line::Green)
        } else if str_eq(s, "SV") {
            Ok(Line::Silver)
        } else {
            Err(StringIsNotLineError)
        }
    }
}

/// Round-trip law: parsing the canonical code of any line yields that line.
pub proof fn lemma_line_round_trip(l: Line)
    ensures
        spec_parse_line(spec_line_code(l)) == Some(l),
{
    reveal_strlit("RD");
    reveal_strlit("BL");
    reveal_strlit("YL");
    reveal_strlit("OR");
    reveal_strlit("GR");
    reveal_strlit("SV");
    assert("RD"@[0] == 'R' && "BL"@[0] == 'B' && "YL"@[0] == 'Y' && "OR"@[0] == 'O' && "GR"@[0]
        == 'G' && "SV"@[0] == 'S');
    match l {
        Line::Red => assert(spec_parse_line("RD"@) == Some(Line::Red)),
        Line::Blue => assert(spec_parse_line("BL"@) == Some(Line::Blue)),
        Line::Yellow => assert(spec_parse_line("YL"@) == Some(Line::Yellow)),
        Line::Orange => assert(spec_parse_line("OR"@) == Some(Line::Orange)),
        Line::Green => assert(spec_parse_line("GR"@) == Some(Line::Green)),
        Line::Silver => assert(spec_parse_line("SV"@) == Some(Line::Silver)),
    }
}

/// Format totality: every line's canonical code is a fixed two-character
/// text, never empty.
pub proof fn lemma_line_format_total(l: Line)
    ensures
        spec_line_code(l).len() == 2,
{
    reveal_strlit("RD");
    reveal_strlit("BL");
    reveal_strlit("YL");
    reveal_strlit("OR");
    reveal_strlit("GR");
    reveal_strlit("SV");
}

/// Parse totality: a text parses to no line exactly when it differs from
/// every line's canonical code.
pub proof fn lemma_line_parse_totality(s: Seq<char>)
    ensures
        spec_parse_line(s) is None <==> (forall|l: Line| s != spec_line_code(l)),
{
    if spec_parse_line(s) is Some {
        let l = spec_parse_line(s)->Some_0;
        assert(s == spec_line_code(l));
    }
}

} // verus!
