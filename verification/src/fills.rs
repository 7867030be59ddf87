//! The infill patterns that the slicing tool knows.

use vstd::prelude::*;
use vstd::string::StringExecFns;

verus! {

/// A named infill pattern.
#[derive(Clone, Copy, Debug, PartialEq, Eq, Structural)]
pub enum Fills {
    Rectilinear,
    Monotonic,
    Grid,
    Triangles,
    Stars,
    Line,
    Honeycomb,
    Hexagonal,
    Gyroid,
    Hilbertcurve,
    Archimedeanchords,
    Octagramspiral,
    Scatteredrectilinear,
}

impl Fills {
    /// The pattern's name as the slicing tool spells it.
    pub open spec fn name(self) -> Seq<char> {
        match self {
            Fills::Rectilinear => "rectilinear"@,
            Fills::Monotonic => "monotonic"@,
            Fills::Grid => "grid"@,
            Fills::Triangles => "triangles"@,
            Fills::Stars => "stars"@,
            Fills::Line => "line"@,
            Fills::Honeycomb => "honeycomb"@,
            Fills::Hexagonal => "hexagonal"@,
            Fills::Gyroid => "gyroid"@,
            Fills::Hilbertcurve => "hilbertcurve"@,
            Fills::Archimedeanchords => "archimedeanchords"@,
            Fills::Octagramspiral => "octagramspiral"@,
            Fills::Scatteredrectilinear => "scatteredrectilinear"@,
        }
    }

    /// Renders the pattern as text for the command line.
    pub fn to_string(&self) -> (text: String)
        ensures
            text@ == self.name(),
    {
        let name: &str = match self {
            Fills::Rectilinear => "rectilinear",
            Fills::Monotonic => "monotonic",
            Fills::Grid => "grid",
            Fills::Triangles => "triangles",
            Fills::Stars => "stars",
            Fills::Line => "line",
            Fills::Honeycomb => "honeycomb",
            Fills::Hexagonal => "hexagonal",
            Fills::Gyroid => "gyroid",
            Fills::Hilbertcurve => "hilbertcurve",
            Fills::Archimedeanchords => "archimedeanchords",
            Fills::Octagramspiral => "octagramspiral",
            Fills::Scatteredrectilinear => "scatteredrectilinear",
        };
        String::from_str(name)
    }
}

/// Whether `c` is a lowercase letter of the Latin alphabet.
pub open spec fn is_lowercase_letter(c: char) -> bool {
    'a' <= c && c <= 'z'
}

proof fn reveal_names()
    ensures
        "rectilinear"@.len() == 11 && "rectilinear"@[0] == 'r',
        "monotonic"@.len() == 9 && "monotonic"@[0] == 'm',
        "grid"@.len() == 4 && "grid"@[0] == 'g',
        "triangles"@.len() == 9 && "triangles"@[0] == 't',
        "stars"@.len() == 5,
        "line"@.len() == 4 && "line"@[0] == 'l',
        "honeycomb"@.len() == 9 && "honeycomb"@[0] == 'h' && "honeycomb"@[1] == 'o',
        "hexagonal"@.len() == 9 && "hexagonal"@[0] == 'h' && "hexagonal"@[1] == 'e',
        "gyroid"@.len() == 6,
        "hilbertcurve"@.len() == 12,
        "archimedeanchords"@.len() == 17,
        "octagramspiral"@.len() == 14,
        "scatteredrectilinear"@.len() == 20,
        forall|f: Fills, i: int|
            0 <= i < f.name().len() ==> is_lowercase_letter(#[trigger] f.name()[i]),
{
    reveal_strlit("rectilinear");
    reveal_strlit("monotonic");
    reveal_strlit("grid");
    reveal_strlit("triangles");
    reveal_strlit("stars");
    reveal_strlit("line");
    reveal_strlit("honeycomb");
    reveal_strlit("hexagonal");
    reveal_strlit("gyroid");
    reveal_strlit("hilbertcurve");
    reveal_strlit("archimedeanchords");
    reveal_strlit("octagramspiral");
    reveal_strlit("scatteredrectilinear");
}

/// A pattern's name is made of lowercase letters alone: no capital, no
/// separator, and at least one letter.
pub proof fn lemma_name_is_lowercase(pattern: Fills)
    ensures
        pattern.name().len() > 0,
        forall|i: int|
            0 <= i < pattern.name().len() ==> is_lowercase_letter(#[trigger] pattern.name()[i]),
{
    reveal_names();
}

/// No two patterns share a name.
pub proof fn lemma_name_is_unique(a: Fills, b: Fills)
    requires
        a.name() == b.name(),
    ensures
        a == b,
{
    reveal_names();
}

} // verus!
