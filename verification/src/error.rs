use vstd::prelude::*;

verus! {

/// Why a dispatch, or a primitive operation on an image, did not succeed.
#[derive(Clone, Copy, Debug, PartialEq, Eq)]
pub enum ReaderError {
    /// No detection branch recognised the image, or the branch that was
    /// committed to could not decrypt it or find its header.
    UnknownFormat,
    /// A read or a seek would have gone past the end of the buffer, or a
    /// collaborator reported a failure of its own.
    Read,
}

} // verus!
