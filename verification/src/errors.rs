//! The errors of the logging setup.

use vstd::prelude::*;
use vstd::string::StringExecFns;

verus! {

/// What can go wrong while a logging pipeline is installed.
#[derive(Debug, Clone, Copy, PartialEq, Eq, Structural)]
pub enum LoggingError {
    /// The exporter could not be built, or the process-wide subscriber slot
    /// could not be claimed.
    InternalError,
    /// The exporter that was asked for is not among the enabled capabilities.
    InvalidFeaturesError,
}

impl LoggingError {
    /// The text that describes this error to a reader.
    pub open spec fn text(self) -> Seq<char> {
        match self {
            LoggingError::InternalError => "logging internal error"@,
            LoggingError::InvalidFeaturesError => "this exporter requires specific features"@,
        }
    }

    /// Renders the error as its describing text.
    pub fn message(&self) -> (r: String)
        ensures
            r@ == self.text(),
    {
        match self {
            LoggingError::InternalError => String::from_str("logging internal error"),
            LoggingError::InvalidFeaturesError => String::from_str(
                "this exporter requires specific features",
            ),
        }
    }
}

} // verus!
