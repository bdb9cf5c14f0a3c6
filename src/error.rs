use vstd::prelude::*;

verus! {

/// Why a lookup ended without a summary.
#[derive(Clone, Copy, Debug, PartialEq, Eq, Structural)]
pub enum WikiError {
    /// An endpoint answered with a status outside 200..=299.
    Request { status: u16 },
    /// The search endpoint found no article for the phrase.
    NoResults,
    /// A body was not JSON of the expected shape.
    Decode,
    /// The request could not be sent or its body could not be read.
    Transport,
}

} // verus!
