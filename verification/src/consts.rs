//! The top-level states the application moves between.

use vstd::prelude::*;

verus! {

/// Which screen the application is on.
#[derive(Clone, Copy, PartialEq, Eq, Hash, Structural, Debug)]
pub enum AppState {
    Menu,
    Stars,
    Pause,
}

} // verus!
