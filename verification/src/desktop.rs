//! State of the desktop front end that is not drawing.
use vstd::prelude::*;

verus! {

/// Active view in the main panel of the desktop front end.
#[derive(Debug, Clone, Copy, PartialEq, Eq, Structural)]
pub enum View {
    Calculator,
    Converter,
    History,
}

} // verus!
