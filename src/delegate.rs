use vstd::prelude::*;

verus! {

/// The application-wide hook that sees window and application events.
pub struct LapceAppDelegate {}

impl LapceAppDelegate {
    pub fn new() -> (r: Self)
        ensures
            r == (LapceAppDelegate {}),
    {
        LapceAppDelegate {}
    }
}

impl Default for LapceAppDelegate {
    fn default() -> (r: Self)
        ensures
            r == (LapceAppDelegate {}),
    {
        Self::new()
    }
}

} // verus!
