//! Observation bookkeeping: coordinate readings and the bodies they locate.

pub mod coord;
pub mod lst;

use vstd::prelude::*;
use crate::world::position::position_display;

pub use crate::world::position::Position;

verus! {

/// What kind of body an observed object is.
#[derive(Clone, Copy, PartialEq, Eq, Structural, Debug)]
pub enum Kind {
    Star,
    Planet,
    Satellite,
    ArtificialSatellite,
}

/// The name of a kind as it reads.
pub open spec fn kind_name(k: Kind) -> Seq<char> {
    match k {
        Kind::Star => "Star"@,
        Kind::Planet => "Planet"@,
        Kind::Satellite => "Satellite"@,
        Kind::ArtificialSatellite => "ArtificialSatellite"@,
    }
}

/// A named body with its equatorial position.
#[derive(Debug)]
pub struct Object {
    pub name: String,
    pub kind: Kind,
    pub position: Position,
}

/// The display form: name, kind and position on three lines.
pub open spec fn object_display(name: Seq<char>, kind: Kind, position: Position) -> Seq<char> {
    "Name: "@ + name + "\nKind: "@ + kind_name(kind) + "\n"@ + position_display(position)
}

impl Object {
    /// The conventional reading: name, kind and position on three lines.
    pub fn to_display_string(&self) -> (s: String)
        ensures
            s@ == object_display(self.name@, self.kind, self.position),
    {
        proof {
            reveal_strlit("Name: ");
            reveal_strlit("\nKind: ");
            reveal_strlit("\n");
            reveal_strlit("Star");
            reveal_strlit("Planet");
            reveal_strlit("Satellite");
            reveal_strlit("ArtificialSatellite");
        }
        let mut s: String = String::from_str("Name: ");
        s.append(self.name.as_str());
        s.append("\nKind: ");
        match self.kind {
            Kind::Star => s.append("Star"),
            Kind::Planet => s.append("Planet"),
            Kind::Satellite => s.append("Satellite"),
            Kind::ArtificialSatellite => s.append("ArtificialSatellite"),
        }
        s.append("\n");
        let position: String = self.position.to_display_string();
        s.append(position.as_str());
        proof {
            assert(s@ =~= object_display(self.name@, self.kind, self.position));
        }
        s
    }
}

} // verus!
