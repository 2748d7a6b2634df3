use vstd::prelude::*;
use vstd::string::StringExecFns;

verus! {

/// The shell's current working directory: an explicit value threaded
/// through the session, never hidden process-wide state, so the engine's
/// behaviour can be checked without filesystem side effects.
#[derive(Debug, Clone, PartialEq)]
pub struct RushPath {
    pub path: String,
}

impl RushPath {
    /// An empty path.
    pub fn new() -> (p: RushPath)
        ensures
            p.path@ == Seq::<char>::empty(),
    {
        RushPath { path: String::new() }
    }

    /// A path holding `p`.
    pub fn from(p: String) -> (r: RushPath)
        ensures
            r.path@ == p@,
    {
        RushPath { path: p }
    }

    /// Replace the held path.
    pub fn set(&mut self, new_path: String)
        ensures
            final(self).path@ == new_path@,
    {
        self.path = new_path;
    }

    /// The path as text.
    pub fn to_str(&self) -> (r: Option<&str>)
        ensures
            r matches Some(s) && s@ == self.path@,
    {
        Some(self.path.as_str())
    }
}

} // verus!
