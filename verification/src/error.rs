use vstd::prelude::*;

verus! {

/// The undifferentiated conversion failure marker.
///
/// Raised both when an envelope's tag does not match the event type asked
/// for and when the payload buffer fails to decode; it carries no further
/// diagnostic payload.
#[derive(Debug)]
pub struct Error;

impl Error {
    /// The description that the failure marker shows.
    pub fn message(&self) -> (r: &'static str)
        ensures
            r@ == "Devastated"@,
    {
        "Devastated"
    }
}

} // verus!
