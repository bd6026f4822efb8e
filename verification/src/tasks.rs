use vstd::prelude::*;
use crate::error::AppError;

verus! {

/// Work that is queued by a request and carried out later, apart from it.
pub trait Task {
    /// Carries the work out.
    fn execute(&self) -> Result<(), AppError>;
}

} // verus!
