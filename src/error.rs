use vstd::prelude::*;

verus! {

/// Why an inference request could not be served.
#[derive(Clone, Copy, Debug, PartialEq, Eq, Structural)]
pub enum InferenceError {
    /// The date text is not a `YYYY-MM-DD` calendar date.
    InvalidDate,
    /// The month field lies outside 1 to 12.
    InvalidMonth,
    /// There is no hour to take a window's shape from.
    MissingBaseVector,
    /// The model step failed or handed back an output of the wrong shape.
    ModelExecutionError,
}

impl InferenceError {
    /// Whether the error is the caller's input rather than an internal fault.
    pub fn is_input_error(&self) -> (r: bool)
        ensures
            r == !(*self is ModelExecutionError),
    {
        match self {
            InferenceError::ModelExecutionError => false,
            _ => true,
        }
    }
}

} // verus!
