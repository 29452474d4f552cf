//! The failure kinds of the library.
use vstd::prelude::*;

verus! {

/// A failure reported by a query.
///
/// `Error` carries a message the service itself reported (or the message of a
/// failed file upload); `Null` marks that extraction produced no usable data.
#[derive(Debug)]
pub enum StarByFaceError {
    Error(String),
    Null(String),
}

impl StarByFaceError {
    /// The message carried by the failure.
    pub fn message(&self) -> (m: &String)
        ensures
            m@ == self.message_view(),
    {
        match self {
            StarByFaceError::Error(m) => m,
            StarByFaceError::Null(m) => m,
        }
    }

    /// The message carried by the failure.
    pub open spec fn message_view(&self) -> Seq<char> {
        match self {
            StarByFaceError::Error(m) => m@,
            StarByFaceError::Null(m) => m@,
        }
    }
}

} // verus!
