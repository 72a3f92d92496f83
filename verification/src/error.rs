//! The construction-time error taxonomy.
//!
//! Every error here is terminal: model registration fails and is not
//! retried. Request-time adapter errors are not represented — the
//! decorator propagates them unchanged.

use vstd::prelude::*;

verus! {

/// Why a model could not be turned into a registered chat value.
#[derive(Debug)]
pub enum ModelError {
    /// The source prefix of the descriptor is not recognized.
    ModelSourceUnknown {
        /// The descriptor's source string.
        from: String,
    },
    /// The source is recognized but cannot serve chat completions.
    UnsupportedTaskForModel {
        /// The source that was addressed.
        from: String,
        /// The task that was asked of it.
        task: String,
    },
    /// A required secret is missing or invalid, or an adapter could not be
    /// constructed.
    FailedToLoadModel {
        /// What went wrong.
        reason: String,
    },
    /// A user-supplied override is malformed.
    InvalidParamError {
        /// The offending parameter name.
        param: String,
        /// How to correct it.
        message: String,
    },
}

} // verus!
