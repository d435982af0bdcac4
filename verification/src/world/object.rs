//! A named body in the catalog.

use vstd::prelude::*;
use crate::world::position::{position_display, Position};

verus! {

/// What kind of body an object is.
#[derive(Clone, Copy, PartialEq, Eq, Structural, Debug)]
pub enum Kind {
    Star,
}

/// A named body with its equatorial position.
#[derive(Debug)]
pub struct Object {
    pub name: String,
    pub kind: Kind,
    pub position: Position,
}

/// The name of a kind as it reads.
pub open spec fn kind_name(k: Kind) -> Seq<char> {
    "Star"@
}

/// The display form: name, kind and position on three lines.
pub open spec fn object_display(name: Seq<char>, kind: Kind, position: Position) -> Seq<char> {
    "Name: "@ + name + "\nKind: "@ + kind_name(kind) + "\n"@ + position_display(position)
}

impl Object {
    /// The conventional reading: name, kind and position on three lines.
    pub fn to_display_string(&self) -> (s: String)
        ensures
            s@ == object_display(self.name@, self.kind, self.position),
    {
        proof {
            reveal_strlit("Name: ");
            reveal_strlit("\nKind: ");
            reveal_strlit("\n");
            reveal_strlit("Star");
        }
        let mut s: String = String::from_str("Name: ");
        s.append(self.name.as_str());
        s.append("\nKind: ");
        match self.kind {
            Kind::Star => s.append("Star"),
        }
        s.append("\n");
        let position: String = self.position.to_display_string();
        s.append(position.as_str());
        proof {
            assert(s@ =~= object_display(self.name@, self.kind, self.position));
        }
        s
    }
}

} // verus!
