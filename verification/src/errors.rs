use vstd::prelude::*;

verus! {

/// The typed, terminal failures of time-expression resolution.
///
/// Each variant carries the text that provoked it: the whole consolidated
/// expression for `InvalidParameters`, the zero-padded `HH:MM:SS` rendering
/// of the requested clock time for the other two.
#[derive(Debug)]
pub enum EggError {
    /// The consolidated expression matched none of the grammars.
    InvalidParameters(String),
    /// The absolute dialect resolved to a target at or before "now".
    TimeAlreadyPassed(String),
    /// The absolute dialect matched but the fields are not a valid clock time.
    InvalidTimeFormat(String),
}

impl EggError {
    /// The text carried by the error, whichever variant it is.
    pub fn text(&self) -> (r: &String)
        ensures
            r@ == self.text_view(),
    {
        match self {
            EggError::InvalidParameters(t) => t,
            EggError::TimeAlreadyPassed(t) => t,
            EggError::InvalidTimeFormat(t) => t,
        }
    }

    /// The characters of the carried text.
    pub open spec fn text_view(&self) -> Seq<char> {
        match self {
            EggError::InvalidParameters(t) => t@,
            EggError::TimeAlreadyPassed(t) => t@,
            EggError::InvalidTimeFormat(t) => t@,
        }
    }
}

} // verus!
