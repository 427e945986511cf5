use vstd::prelude::*;

verus! {

/// What a route type offers: a validity flag, a path string, and a total
/// parser from path strings back to routes.
pub trait SwitchRoute: Clone + PartialEq {
    /// True when this value stands for input that could not be interpreted.
    fn is_invalid(&self) -> bool;

    /// The path string of this route.
    fn path(&self) -> String;

    /// Parses a path string; never fails, an unusable input yields an
    /// invalid route.
    fn switch(route: &str) -> Self;
}

} // verus!
