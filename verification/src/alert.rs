use vstd::prelude::*;

verus! {

/// The sound to play once the wait elapses: a caller-supplied file path, or
/// the default payload bundled with the program.
pub enum AlertSource {
    External(String),
    Embedded,
}

/// Selects the alert source: a configured override names the file to play;
/// without one the embedded default payload is chosen.
pub fn select_alert_source(override_path: Option<String>) -> (r: AlertSource)
    ensures
        match override_path {
            Some(p) => r matches AlertSource::External(q) && q@ == p@,
            None => r is Embedded,
        },
{
    match override_path {
        Some(p) => AlertSource::External(p),
        None => AlertSource::Embedded,
    }
}

} // verus!
