//! The library's error type.
use vstd::prelude::*;

verus! {

#[derive(Debug)]
pub enum Error {
    Unknown { message: String },
}

impl Error {
    /// The human-readable form of the error.
    pub fn describe(&self) -> (r: String)
        ensures
            self matches Error::Unknown { message } ==> r@ == "unknown error: "@ + message@,
    {
        match self {
            Error::Unknown { message } => String::from_str("unknown error: ").concat(
                message.as_str(),
            ),
        }
    }
}

} // verus!
