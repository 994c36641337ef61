use vstd::prelude::*;

verus! {

/// The error taxonomy of the resize pipeline: filesystem failures, invalid
/// user input, codec failures, and an internal formatting fallback that no
/// operation of this crate ever produces.
#[derive(Debug, Clone, PartialEq, Eq)]
pub enum ImagixError {
    FileIOError(String),
    UserInputError(String),
    ImageResizingError(String),
    FormatError(String),
}

impl ImagixError {
    /// The message carried by the error, whichever kind it is.
    pub open spec fn message_view(&self) -> Seq<char> {
        match self {
            ImagixError::FileIOError(m) => m@,
            ImagixError::UserInputError(m) => m@,
            ImagixError::ImageResizingError(m) => m@,
            ImagixError::FormatError(m) => m@,
        }
    }

    /// Returns the human-readable message carried by the error.
    pub fn message(&self) -> (r: String)
        ensures
            r@ == self.message_view(),
    {
        match self {
            ImagixError::FileIOError(m) => m.clone(),
            ImagixError::UserInputError(m) => m.clone(),
            ImagixError::ImageResizingError(m) => m.clone(),
            ImagixError::FormatError(m) => m.clone(),
        }
    }
}

} // verus!
