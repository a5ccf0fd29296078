//! The continents, and the two-letter codes that stand for them.

use crate::error::{rejected, ErrorKind, FieldError, FieldFault};
use crate::fields::{required, required_text};
use crate::table::{Cell, CellText};
use crate::text::{chars_of, spells};
use vstd::prelude::*;

verus! {

/// List of allowed continent values.
#[derive(Clone, Copy, Debug, PartialEq, Eq, PartialOrd, Ord, Hash, Structural)]
pub enum Continent {
    Africa,
    Antarctica,
    Asia,
    Europe,
    NorthAmerica,
    Oceania,
    SouthAmerica,
}

impl Continent {
    /// The code that stands for a continent.
    pub open spec fn code_of(self) -> Seq<char> {
        match self {
            Continent::Africa => "AF"@,
            Continent::Antarctica => "AN"@,
            Continent::Asia => "AS"@,
            Continent::Europe => "EU"@,
            Continent::NorthAmerica => "NA"@,
            Continent::Oceania => "OC"@,
            Continent::SouthAmerica => "SA"@,
        }
    }

    /// The continent that a code stands for.
    pub open spec fn decoded(code: Seq<char>) -> Option<Continent> {
        if code == "AF"@ {
            Some(Continent::Africa)
        } else if code == "AN"@ {
            Some(Continent::Antarctica)
        } else if code == "AS"@ {
            Some(Continent::Asia)
        } else if code == "EU"@ {
            Some(Continent::Europe)
        } else if code == "NA"@ {
            Some(Continent::NorthAmerica)
        } else if code == "OC"@ {
            Some(Continent::Oceania)
        } else if code == "SA"@ {
            Some(Continent::SouthAmerica)
        } else {
            None
        }
    }

    /// The code that stands for this continent.
    pub fn code(&self) -> (code: &'static str)
        ensures
            code@ == self.code_of(),
    {
        match self {
            Continent::Africa => "AF",
            Continent::Antarctica => "AN",
            Continent::Asia => "AS",
            Continent::Europe => "EU",
            Continent::NorthAmerica => "NA",
            Continent::Oceania => "OC",
            Continent::SouthAmerica => "SA",
        }
    }

    /// Decodes the code of a continent. The match is exact: case counts.
    pub fn from_code(code: &str) -> (r: Result<Continent, FieldError>)
        ensures
            match r {
                Ok(v) => Continent::decoded(code@) == Some(v),
                Err(e) => Continent::decoded(code@) is None && e@ == rejected(
                    ErrorKind::UnknownCode,
                    code@,
                ),
            },
    {
        let c = chars_of(code);
        if spells(&c, "AF") {
            Ok(Continent::Africa)
        } else if spells(&c, "AN") {
            Ok(Continent::Antarctica)
        } else if spells(&c, "AS") {
            Ok(Continent::Asia)
        } else if spells(&c, "EU") {
            Ok(Continent::Europe)
        } else if spells(&c, "NA") {
            Ok(Continent::NorthAmerica)
        } else if spells(&c, "OC") {
            Ok(Continent::Oceania)
        } else if spells(&c, "SA") {
            Ok(Continent::SouthAmerica)
        } else {
            Err(FieldError::new(ErrorKind::UnknownCode, code))
        }
    }

    /// Every continent is the one that its own code stands for.
    pub proof fn lemma_code_round_trip(v: Continent)
        ensures
            Continent::decoded(v.code_of()) == Some(v),
    {
        reveal_strlit("AF");
        reveal_strlit("AN");
        reveal_strlit("AS");
        reveal_strlit("EU");
        reveal_strlit("NA");
        reveal_strlit("OC");
        reveal_strlit("SA");
        assert("AF"@.len() == 2 && "AF"@[0] == 'A' && "AF"@[1] == 'F');
        assert("AN"@.len() == 2 && "AN"@[0] == 'A' && "AN"@[1] == 'N');
        assert("AS"@.len() == 2 && "AS"@[0] == 'A' && "AS"@[1] == 'S');
        assert("EU"@.len() == 2 && "EU"@[0] == 'E');
        assert("NA"@.len() == 2 && "NA"@[0] == 'N');
        assert("OC"@.len() == 2 && "OC"@[0] == 'O');
        assert("SA"@.len() == 2 && "SA"@[0] == 'S');
    }
}

/// What a cell of continent codes holds.
pub open spec fn continent_field(cell: CellText) -> Result<Continent, FieldFault> {
    match required(cell) {
        Err(e) => Err(e),
        Ok(s) => match Continent::decoded(s) {
            Some(v) => Ok(v),
            None => Err(rejected(ErrorKind::UnknownCode, s)),
        },
    }
}

/// Decodes a cell of continent codes.
pub fn continent_cell(cell: Cell) -> (r: Result<Continent, FieldError>)
    ensures
        match r {
            Ok(v) => continent_field(cell@) == Ok::<Continent, FieldFault>(v),
            Err(e) => continent_field(cell@) == Err::<Continent, FieldFault>(e@),
        },
{
    Continent::from_code(required_text(cell)?)
}

} // verus!
